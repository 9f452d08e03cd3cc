//! Disputes with Adyen: accepting one, defending one, handing in evidence.

use vstd::prelude::*;
use crate::adyen::types::{get_merchant_account_code, spec_merchant_account_code};
use crate::enums::DisputeStatus;
use crate::errors::ConnectorError;
use crate::router_data::{
    AcceptDisputeRouterData,
    DefendDisputeRouterData,
    RouterData,
    SubmitEvidenceRequestData,
    SubmitEvidenceRouterData,
};
use crate::router_response::{spec_error_response, DisputeResponse, ErrorResponse};
use crate::text::{get_content, opt_str, utf8_lossy};

verus! {

/// A request to accept a dispute.
#[derive(Clone, Debug, PartialEq, Eq)]
pub struct AdyenAcceptDisputeRequest {
    pub dispute_psp_reference: String,
    pub merchant_account_code: String,
}

/// The response to a request on a dispute.
#[derive(Clone, Debug, PartialEq, Eq)]
pub struct AdyenDisputeResponse {
    pub error_message: Option<String>,
    pub success: bool,
}

/// A request to defend a dispute.
#[derive(Clone, Debug, PartialEq, Eq)]
pub struct AdyenDefendDisputeRequest {
    pub dispute_psp_reference: String,
    pub merchant_account_code: String,
    pub defense_reason_code: String,
}

/// The documents that are handed in to defend a dispute.
#[derive(Clone, Debug, PartialEq, Eq)]
pub struct Evidence {
    pub defense_documents: Vec<DefenseDocuments>,
    pub merchant_account_code: String,
    pub dispute_psp_reference: String,
}

/// One document that is handed in to defend a dispute.
#[derive(Clone, Debug, PartialEq, Eq)]
pub struct DefenseDocuments {
    pub content: String,
    pub content_type: Option<String>,
    pub defense_document_type_code: String,
}

impl AdyenAcceptDisputeRequest {
    /// The request to accept a dispute.
    pub open spec fn spec_try_from(item: AcceptDisputeRouterData) -> Result<Self, ConnectorError> {
        match spec_merchant_account_code(item.connector_auth_type) {
            Ok(merchant_account_code) => Ok(
                AdyenAcceptDisputeRequest {
                    dispute_psp_reference: item.request.connector_dispute_id,
                    merchant_account_code,
                },
            ),
            Err(e) => Err(e),
        }
    }

    /// Builds the request to accept a dispute.
    pub fn try_from(item: &AcceptDisputeRouterData) -> (res: Result<Self, ConnectorError>)
        ensures
            res == Self::spec_try_from(*item),
    {
        let merchant_account_code = get_merchant_account_code(&item.connector_auth_type)?;
        Ok(
            AdyenAcceptDisputeRequest {
                dispute_psp_reference: item.request.connector_dispute_id.clone(),
                merchant_account_code,
            },
        )
    }
}

/// Whether `res` is the outcome of building the request to defend a
/// dispute: the dispute is defended by supplying material.
pub open spec fn spec_is_defend_request(
    item: DefendDisputeRouterData,
    res: Result<AdyenDefendDisputeRequest, ConnectorError>,
) -> bool {
    match spec_merchant_account_code(item.connector_auth_type) {
        Ok(merchant_account_code) => {
            &&& res matches Ok(req)
            &&& req.dispute_psp_reference == item.request.connector_dispute_id
            &&& req.merchant_account_code == merchant_account_code
            &&& req.defense_reason_code@ == "SupplyDefenseMaterial"@
        },
        Err(e) => res == Err::<AdyenDefendDisputeRequest, ConnectorError>(e),
    }
}

impl AdyenDefendDisputeRequest {
    /// Builds the request to defend a dispute.
    pub fn try_from(item: &DefendDisputeRouterData) -> (res: Result<Self, ConnectorError>)
        ensures
            spec_is_defend_request(*item, res),
    {
        let merchant_account_code = get_merchant_account_code(&item.connector_auth_type)?;
        Ok(
            AdyenDefendDisputeRequest {
                dispute_psp_reference: item.request.connector_dispute_id.clone(),
                merchant_account_code,
                defense_reason_code: "SupplyDefenseMaterial".to_owned(),
            },
        )
    }
}

/// What one document holds, as plain values.
pub struct DocumentView {
    pub content: Seq<char>,
    pub content_type: Option<String>,
    pub defense_document_type_code: Seq<char>,
}

/// The documents as plain values, in their order.
pub open spec fn documents_view(documents: Seq<DefenseDocuments>) -> Seq<DocumentView> {
    documents.map_values(
        |d: DefenseDocuments|
            DocumentView {
                content: d.content@,
                content_type: d.content_type,
                defense_document_type_code: d.defense_document_type_code@,
            },
    )
}

/// The document that a file makes, if there is a file: the text of the
/// file with the given type, handed in as defence material.
pub open spec fn spec_document(file: Option<Vec<u8>>, file_type: Option<String>) -> Seq<
    DocumentView,
> {
    match file {
        Some(bytes) => seq![
            DocumentView {
                content: utf8_lossy(bytes@),
                content_type: file_type,
                defense_document_type_code: "DefenseMaterial"@,
            },
        ],
        None => Seq::empty(),
    }
}

/// The documents that a request hands in, in the order in which they go
/// out: one for each file that the request holds.
///
/// The shipping documentation goes out with the file type of the receipt,
/// and the receipt with the file type of the shipping documentation.
pub open spec fn spec_defence_documents(item: SubmitEvidenceRequestData) -> Seq<DocumentView> {
    spec_document(item.shipping_documentation, item.receipt_file_type)
        + spec_document(item.receipt, item.shipping_documentation_file_type)
        + spec_document(
            item.invoice_showing_distinct_transactions,
            item.invoice_showing_distinct_transactions_file_type,
        )
        + spec_document(item.customer_communication, item.customer_communication_file_type)
        + spec_document(item.refund_policy, item.refund_policy_file_type)
        + spec_document(
            item.recurring_transaction_agreement,
            item.recurring_transaction_agreement_file_type,
        )
        + spec_document(item.uncategorized_file, item.uncategorized_file_type)
        + spec_document(item.cancellation_policy, item.cancellation_policy_file_type)
        + spec_document(item.customer_signature, item.customer_signature_file_type)
        + spec_document(item.service_documentation, item.service_documentation_file_type)
}

/// Whether `res` holds the documents that a request hands in. A request
/// without any file has no documents at all.
pub open spec fn spec_is_defence_documents(
    item: SubmitEvidenceRequestData,
    res: Option<Vec<DefenseDocuments>>,
) -> bool {
    match res {
        None => spec_defence_documents(item).len() == 0,
        Some(documents) => {
            &&& documents@.len() > 0
            &&& documents_view(documents@) == spec_defence_documents(item)
        },
    }
}

/// Adds the document that a file makes, if there is a file.
fn push_document(
    documents: &mut Vec<DefenseDocuments>,
    file: &Option<Vec<u8>>,
    file_type: &Option<String>,
)
    ensures
        documents_view(final(documents)@) == documents_view(old(documents)@) + spec_document(
            *file,
            *file_type,
        ),
{
    match file {
        Some(bytes) => {
            let ghost before = documents@;
            documents.push(
                DefenseDocuments {
                    content: get_content(bytes.clone()),
                    content_type: file_type.clone(),
                    defense_document_type_code: "DefenseMaterial".to_owned(),
                },
            );
            assert(documents_view(documents@) =~= documents_view(before) + spec_document(
                *file,
                *file_type,
            ));
        },
        None => {
            assert(documents_view(documents@) =~= documents_view(documents@) + spec_document(
                *file,
                *file_type,
            ));
        },
    }
}

/// Collects the documents that a request hands in.
pub fn get_defence_documents(item: &SubmitEvidenceRequestData) -> (res: Option<
    Vec<DefenseDocuments>,
>)
    ensures
        spec_is_defence_documents(*item, res),
{
    let mut defense_documents: Vec<DefenseDocuments> = Vec::new();
    assert(documents_view(defense_documents@) =~= Seq::empty());
    push_document(&mut defense_documents, &item.shipping_documentation, &item.receipt_file_type);
    push_document(&mut defense_documents, &item.receipt, &item.shipping_documentation_file_type);
    push_document(
        &mut defense_documents,
        &item.invoice_showing_distinct_transactions,
        &item.invoice_showing_distinct_transactions_file_type,
    );
    push_document(
        &mut defense_documents,
        &item.customer_communication,
        &item.customer_communication_file_type,
    );
    push_document(&mut defense_documents, &item.refund_policy, &item.refund_policy_file_type);
    push_document(
        &mut defense_documents,
        &item.recurring_transaction_agreement,
        &item.recurring_transaction_agreement_file_type,
    );
    push_document(&mut defense_documents, &item.uncategorized_file, &item.uncategorized_file_type);
    push_document(
        &mut defense_documents,
        &item.cancellation_policy,
        &item.cancellation_policy_file_type,
    );
    push_document(
        &mut defense_documents,
        &item.customer_signature,
        &item.customer_signature_file_type,
    );
    push_document(
        &mut defense_documents,
        &item.service_documentation,
        &item.service_documentation_file_type,
    );
    assert(documents_view(defense_documents@) =~= spec_defence_documents(*item));
    if defense_documents.is_empty() {
        None
    } else {
        Some(defense_documents)
    }
}

/// The error with which the request to hand in evidence fails, if it
/// does.
pub open spec fn spec_evidence_error(item: SubmitEvidenceRouterData) -> Option<ConnectorError> {
    match spec_merchant_account_code(item.connector_auth_type) {
        Err(e) => Some(e),
        Ok(_) => if spec_defence_documents(item.request).len() == 0 {
            Some(ConnectorError::MissingRequiredField { field_name: "Missing Defence Documents" })
        } else {
            None
        },
    }
}

/// Whether `res` is the outcome of building the request to hand in
/// evidence. A request without any document is an error.
pub open spec fn spec_is_evidence(
    item: SubmitEvidenceRouterData,
    res: Result<Evidence, ConnectorError>,
) -> bool {
    match spec_evidence_error(item) {
        Some(e) => res == Err::<Evidence, ConnectorError>(e),
        None => {
            &&& res matches Ok(evidence)
            &&& spec_is_defence_documents(item.request, Some(evidence.defense_documents))
            &&& Ok::<String, ConnectorError>(evidence.merchant_account_code)
                == spec_merchant_account_code(item.connector_auth_type)
            &&& evidence.dispute_psp_reference == item.request.connector_dispute_id
        },
    }
}

impl Evidence {
    /// Builds the request to hand in evidence on a dispute.
    pub fn try_from(item: &SubmitEvidenceRouterData) -> (res: Result<Self, ConnectorError>)
        ensures
            spec_is_evidence(*item, res),
    {
        let merchant_account_code = get_merchant_account_code(&item.connector_auth_type)?;
        let defense_documents = match get_defence_documents(&item.request) {
            Some(documents) => documents,
            None => {
                return Err(
                    ConnectorError::MissingRequiredField { field_name: "Missing Defence Documents" },
                );
            },
        };
        Ok(
            Evidence {
                defense_documents,
                merchant_account_code,
                dispute_psp_reference: item.request.connector_dispute_id.clone(),
            },
        )
    }
}

/// Whether `res` is a dispute request with the response put into it.
///
/// Where Adyen reports success, the dispute takes the status that the
/// operation aims at. Where it does not, the request ends in an error whose
/// code, message and reason are the error message of the response, with
/// the sentinel texts where there is none; for that, the HTTP status of the
/// response must be known.
pub open spec fn spec_is_dispute_outcome<Request>(
    data: RouterData<Request, DisputeResponse>,
    response: AdyenDisputeResponse,
    on_success: DisputeStatus,
    res: Result<RouterData<Request, DisputeResponse>, ConnectorError>,
) -> bool {
    if response.success {
        res == Ok::<RouterData<Request, DisputeResponse>, ConnectorError>(
            RouterData {
                response: Ok(DisputeResponse { dispute_status: on_success, connector_status: None }),
                ..data
            },
        )
    } else {
        match data.connector_http_status_code {
            None => res == Err::<RouterData<Request, DisputeResponse>, ConnectorError>(
                ConnectorError::MissingRequiredField { field_name: "http code" },
            ),
            Some(status_code) => {
                &&& res matches Ok(updated)
                &&& updated.response matches Err(error)
                &&& error@ == spec_error_response(
                    opt_str(response.error_message),
                    opt_str(response.error_message),
                    opt_str(response.error_message),
                    status_code,
                    None,
                    None,
                    None,
                    None,
                )
                &&& updated == (RouterData { response: updated.response, ..data })
            },
        }
    }
}

/// Puts the response to a dispute request into the request.
fn dispute_outcome<Request>(
    data: RouterData<Request, DisputeResponse>,
    response: AdyenDisputeResponse,
    on_success: DisputeStatus,
) -> (res: Result<RouterData<Request, DisputeResponse>, ConnectorError>)
    ensures
        spec_is_dispute_outcome(data, response, on_success, res),
        res matches Ok(updated) ==> (updated.response matches Err(e) ==> e.wf()),
{
    if response.success {
        Ok(
            RouterData {
                response: Ok(DisputeResponse { dispute_status: on_success, connector_status: None }),
                ..data
            },
        )
    } else {
        let status_code = match data.connector_http_status_code {
            Some(status_code) => status_code,
            None => {
                return Err(ConnectorError::MissingRequiredField { field_name: "http code" });
            },
        };
        let error = ErrorResponse::from_connector(
            response.error_message.clone(),
            response.error_message.clone(),
            response.error_message,
            status_code,
            None,
            None,
            None,
            None,
        );
        Ok(RouterData { response: Err(error), ..data })
    }
}

/// Puts the response to accepting a dispute into the request: on success
/// the dispute is accepted.
pub fn accept_dispute_response(data: AcceptDisputeRouterData, response: AdyenDisputeResponse) -> (res:
    Result<AcceptDisputeRouterData, ConnectorError>)
    ensures
        spec_is_dispute_outcome(data, response, DisputeStatus::DisputeAccepted, res),
        res matches Ok(updated) ==> (updated.response matches Err(e) ==> e.wf()),
{
    dispute_outcome(data, response, DisputeStatus::DisputeAccepted)
}

/// Puts the response to handing in evidence into the request: on success
/// the dispute is challenged.
pub fn submit_evidence_response(data: SubmitEvidenceRouterData, response: AdyenDisputeResponse) -> (res:
    Result<SubmitEvidenceRouterData, ConnectorError>)
    ensures
        spec_is_dispute_outcome(data, response, DisputeStatus::DisputeChallenged, res),
        res matches Ok(updated) ==> (updated.response matches Err(e) ==> e.wf()),
{
    dispute_outcome(data, response, DisputeStatus::DisputeChallenged)
}

/// Puts the response to defending a dispute into the request: on success
/// the dispute is challenged.
pub fn defend_dispute_response(data: DefendDisputeRouterData, response: AdyenDisputeResponse) -> (res:
    Result<DefendDisputeRouterData, ConnectorError>)
    ensures
        spec_is_dispute_outcome(data, response, DisputeStatus::DisputeChallenged, res),
        res matches Ok(updated) ==> (updated.response matches Err(e) ==> e.wf()),
{
    dispute_outcome(data, response, DisputeStatus::DisputeChallenged)
}

} // verus!
