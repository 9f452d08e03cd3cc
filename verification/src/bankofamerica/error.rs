//! The error normalizer for Bank of America: how the fragments of an error
//! that the processor reports are put into the canonical envelope.
//!
//! The reason of an error is composed of up to three fragments, always in
//! the same order: the message of the processor, the fields it objects to,
//! and what the risk check found. The composition is a function of the
//! fragments, so the same fragments always give the same text.

use vstd::prelude::*;
use crate::bankofamerica::types::{
    BankOfAmericaErrorInformation,
    BankOfAmericaErrorInformationResponse,
    ClientRiskInformation,
    ClientRiskInformationRules,
    Details,
};
use crate::enums::AttemptStatus;
use crate::router_response::{spec_error_response, ErrorResponse, ErrorResponseView};
use crate::text::opt_str;

verus! {

/// The reason of an error, composed of the fragments that are present:
/// the message, then the details behind `detailed_error_information: `,
/// then the findings of the risk check behind `avs_message: `. Without a
/// message the details stand first, unmarked. Without any fragment there
/// is no reason.
pub open spec fn spec_error_reason(
    error_info: Option<Seq<char>>,
    detailed_error_info: Option<Seq<char>>,
    avs_error_info: Option<Seq<char>>,
) -> Option<Seq<char>> {
    match (error_info, detailed_error_info, avs_error_info) {
        (Some(message), Some(details), Some(avs_message)) => Some(
            message + ", detailed_error_information: "@ + details + ", avs_message: "@
                + avs_message,
        ),
        (Some(message), Some(details), None) => Some(
            message + ", detailed_error_information: "@ + details,
        ),
        (Some(message), None, Some(avs_message)) => Some(
            message + ", avs_message: "@ + avs_message,
        ),
        (None, Some(details), Some(avs_message)) => Some(
            details + ", avs_message: "@ + avs_message,
        ),
        (Some(message), None, None) => Some(message),
        (None, Some(details), None) => Some(details),
        (None, None, Some(avs_message)) => Some(avs_message),
        (None, None, None) => None,
    }
}

/// Composes the reason of an error from its fragments.
pub fn get_error_reason(
    error_info: Option<String>,
    detailed_error_info: Option<String>,
    avs_error_info: Option<String>,
) -> (res: Option<String>)
    ensures
        opt_str(res) == spec_error_reason(
            opt_str(error_info),
            opt_str(detailed_error_info),
            opt_str(avs_error_info),
        ),
{
    match (error_info, detailed_error_info, avs_error_info) {
        (Some(message), Some(details), Some(avs_message)) => {
            let mut reason = message;
            reason.append(", detailed_error_information: ");
            reason.append(details.as_str());
            reason.append(", avs_message: ");
            reason.append(avs_message.as_str());
            Some(reason)
        },
        (Some(message), Some(details), None) => {
            let mut reason = message;
            reason.append(", detailed_error_information: ");
            reason.append(details.as_str());
            Some(reason)
        },
        (Some(message), None, Some(avs_message)) => {
            let mut reason = message;
            reason.append(", avs_message: ");
            reason.append(avs_message.as_str());
            Some(reason)
        },
        (None, Some(details), Some(avs_message)) => {
            let mut reason = details;
            reason.append(", avs_message: ");
            reason.append(avs_message.as_str());
            Some(reason)
        },
        (Some(message), None, None) => Some(message),
        (None, Some(details), None) => Some(details),
        (None, None, Some(avs_message)) => Some(avs_message),
        (None, None, None) => None,
    }
}

/// The composition degrades gracefully: there is a reason as soon as one
/// fragment is present, and none only if all are absent.
pub proof fn lemma_error_reason_is_absent_only_without_fragments(
    error_info: Option<Seq<char>>,
    detailed_error_info: Option<Seq<char>>,
    avs_error_info: Option<Seq<char>>,
)
    ensures
        spec_error_reason(error_info, detailed_error_info, avs_error_info) is None <==> (
        error_info is None && detailed_error_info is None && avs_error_info is None),
{
}

/// Idempotent error composition: composing the reason twice from
/// identical fragments gives identical texts.
pub proof fn lemma_error_reason_is_idempotent(
    first: (Option<Seq<char>>, Option<Seq<char>>, Option<Seq<char>>),
    second: (Option<Seq<char>>, Option<Seq<char>>, Option<Seq<char>>),
)
    requires
        first.0 == second.0,
        first.1 == second.1,
        first.2 == second.2,
    ensures
        spec_error_reason(first.0, first.1, first.2) == spec_error_reason(
            second.0,
            second.1,
            second.2,
        ),
{
}

/// A message alone is passed through as it is.
pub proof fn lemma_error_reason_of_message_alone(message: Seq<char>)
    ensures
        spec_error_reason(Some(message), None, None) == Some(message),
{
}

/// One detail in words: the field, ` : `, and what is wrong with it.
pub open spec fn spec_detail(detail: Details) -> Seq<char> {
    detail.field@ + " : "@ + detail.reason@
}

/// The details in words, in their order, with `, ` between them.
pub open spec fn spec_details(details: Seq<Details>) -> Seq<char>
    decreases details.len(),
{
    if details.len() == 0 {
        Seq::empty()
    } else if details.len() == 1 {
        spec_detail(details[0])
    } else {
        spec_details(details.drop_last()) + ", "@ + spec_detail(details.last())
    }
}

/// Writes the details out in words.
pub fn join_details(details: &Vec<Details>) -> (res: String)
    ensures
        res@ == spec_details(details@),
{
    let mut text = String::new();
    let mut i: usize = 0;
    while i < details.len()
        invariant
            i <= details.len(),
            text@ == spec_details(details@.take(i as int)),
        decreases details.len() - i,
    {
        let ghost before = text@;
        if i > 0 {
            text.append(", ");
        }
        text.append(details[i].field.as_str());
        text.append(" : ");
        text.append(details[i].reason.as_str());
        proof {
            let taken = details@.take(i + 1);
            assert(taken.drop_last() =~= details@.take(i as int));
            assert(taken.last() == details@[i as int]);
            if i == 0 {
                assert(taken[0] == details@[0]);
                assert(text@ =~= spec_detail(details@[0]));
            } else {
                assert(text@ =~= before + ", "@ + spec_detail(details@[i as int]));
            }
        }
        i += 1;
    }
    assert(details@.take(i as int) =~= details@);
    text
}

/// The details of an error in words, if it has details.
pub open spec fn spec_detailed_error_info(details: Option<Vec<Details>>) -> Option<Seq<char>> {
    match details {
        Some(details) => Some(spec_details(details@)),
        None => None,
    }
}

/// What one rule of the risk check adds to the message: its name behind
/// ` , `, or nothing if it has no name.
pub open spec fn spec_rule_text(rule: ClientRiskInformationRules) -> Seq<char> {
    match rule.name {
        Some(name) => " , "@ + name@,
        None => Seq::empty(),
    }
}

/// What the rules of the risk check add to the message, in their order.
pub open spec fn spec_rules_text(rules: Seq<ClientRiskInformationRules>) -> Seq<char>
    decreases rules.len(),
{
    if rules.len() == 0 {
        Seq::empty()
    } else {
        spec_rules_text(rules.drop_last()) + spec_rule_text(rules.last())
    }
}

/// The message of the risk check: the names of the rules that fired. A
/// response without a risk check has no message, and neither has a risk
/// check that lists no rules.
pub open spec fn spec_avs_message(risk_information: Option<ClientRiskInformation>) -> Option<
    Seq<char>,
> {
    match risk_information {
        None => None,
        Some(risk) => match risk.rules {
            None => None,
            Some(rules) => Some(spec_rules_text(rules@)),
        },
    }
}

/// Writes the message of the risk check.
pub fn avs_message(risk_information: &Option<ClientRiskInformation>) -> (res: Option<String>)
    ensures
        opt_str(res) == spec_avs_message(*risk_information),
{
    match risk_information {
        None => None,
        Some(risk) => match &risk.rules {
            None => None,
            Some(rules) => {
                let mut text = String::new();
                let mut i: usize = 0;
                while i < rules.len()
                    invariant
                        i <= rules.len(),
                        text@ == spec_rules_text(rules@.take(i as int)),
                    decreases rules.len() - i,
                {
                    let ghost before = text@;
                    match &rules[i].name {
                        Some(name) => {
                            text.append(" , ");
                            text.append(name.as_str());
                        },
                        None => {},
                    }
                    proof {
                        let taken = rules@.take(i + 1);
                        assert(taken.drop_last() =~= rules@.take(i as int));
                        assert(taken.last() == rules@[i as int]);
                        assert(text@ =~= before + spec_rule_text(rules@[i as int]));
                    }
                    i += 1;
                }
                assert(rules@.take(i as int) =~= rules@);
                Some(text)
            },
        },
    }
}

/// The message of an error, where the processor gave one.
pub open spec fn spec_error_message(error_data: Option<BankOfAmericaErrorInformation>) -> Option<
    Seq<char>,
> {
    match error_data {
        Some(error) => opt_str(error.message),
        None => None,
    }
}

/// The reason code of an error, where the processor gave one.
pub open spec fn spec_error_code(error_data: Option<BankOfAmericaErrorInformation>) -> Option<
    Seq<char>,
> {
    match error_data {
        Some(error) => opt_str(error.reason),
        None => None,
    }
}

/// The details of an error, where the processor gave any.
pub open spec fn spec_error_details(error_data: Option<BankOfAmericaErrorInformation>) -> Option<
    Seq<char>,
> {
    match error_data {
        Some(error) => spec_detailed_error_info(error.details),
        None => None,
    }
}

/// The canonical envelope of an error that the processor reports on a
/// payment.
///
/// Code and message are both the reason code of the processor, or the
/// sentinel texts where it gave none. The reason is composed of the
/// message, the details and the message of the risk check.
pub open spec fn spec_error_response_from(
    error_data: Option<BankOfAmericaErrorInformation>,
    risk_information: Option<ClientRiskInformation>,
    attempt_status: Option<AttemptStatus>,
    status_code: u16,
    transaction_id: String,
) -> ErrorResponseView {
    spec_error_response(
        spec_error_code(error_data),
        spec_error_code(error_data),
        spec_error_reason(
            spec_error_message(error_data),
            spec_error_details(error_data),
            spec_avs_message(risk_information),
        ),
        status_code,
        attempt_status,
        Some(transaction_id@),
        None,
        None,
    )
}

/// An error has no reason exactly when the processor gave no message, no
/// details and no rules of a risk check; in particular an error without
/// error information and without risk information has none. A message
/// alone is the whole reason.
pub proof fn lemma_reason_is_absent_only_without_sources(
    error_data: Option<BankOfAmericaErrorInformation>,
    risk_information: Option<ClientRiskInformation>,
    attempt_status: Option<AttemptStatus>,
    status_code: u16,
    transaction_id: String,
)
    ensures
        spec_error_response_from(
            error_data,
            risk_information,
            attempt_status,
            status_code,
            transaction_id,
        ).reason is None <==> (spec_error_message(error_data) is None && spec_error_details(
            error_data,
        ) is None && !(risk_information matches Some(risk) && risk.rules is Some)),
        (spec_error_details(error_data) is None && !(risk_information matches Some(risk)
            && risk.rules is Some)) ==> spec_error_response_from(
            error_data,
            risk_information,
            attempt_status,
            status_code,
            transaction_id,
        ).reason == spec_error_message(error_data),
{
}

/// Puts an error that the processor reports on a payment into the
/// canonical envelope.
pub fn error_response_from(
    error_data: &Option<BankOfAmericaErrorInformation>,
    risk_information: &Option<ClientRiskInformation>,
    attempt_status: Option<AttemptStatus>,
    status_code: u16,
    transaction_id: String,
) -> (res: ErrorResponse)
    ensures
        res@ == spec_error_response_from(
            *error_data,
            *risk_information,
            attempt_status,
            status_code,
            transaction_id,
        ),
        res.wf(),
{
    let avs = avs_message(risk_information);
    let (message, details, code) = match error_data {
        Some(error) => (
            error.message.clone(),
            match &error.details {
                Some(details) => Some(join_details(details)),
                None => None,
            },
            error.reason.clone(),
        ),
        None => (None, None, None),
    };
    let reason = get_error_reason(message, details, avs);
    ErrorResponse::from_connector(
        code.clone(),
        code,
        reason,
        status_code,
        attempt_status,
        Some(transaction_id),
        None,
        None,
    )
}

/// The canonical envelope of a request that the processor rejected.
pub open spec fn spec_rejection(
    error_response: BankOfAmericaErrorInformationResponse,
    status_code: u16,
) -> ErrorResponseView {
    let error = error_response.error_information;
    spec_error_response(
        opt_str(error.reason),
        opt_str(error.reason),
        spec_error_reason(opt_str(error.message), spec_detailed_error_info(error.details), None),
        status_code,
        None,
        Some(error_response.id@),
        None,
        None,
    )
}

/// Puts the response to a request that the processor rejected into the
/// canonical envelope.
pub fn rejection(error_response: &BankOfAmericaErrorInformationResponse, status_code: u16) -> (res:
    ErrorResponse)
    ensures
        res@ == spec_rejection(*error_response, status_code),
        res.wf(),
{
    let detailed_error_info = match &error_response.error_information.details {
        Some(details) => Some(join_details(details)),
        None => None,
    };
    let reason = get_error_reason(
        error_response.error_information.message.clone(),
        detailed_error_info,
        None,
    );
    ErrorResponse::from_connector(
        error_response.error_information.reason.clone(),
        error_response.error_information.reason.clone(),
        reason,
        status_code,
        None,
        Some(error_response.id.clone()),
        None,
        None,
    )
}

} // verus!
