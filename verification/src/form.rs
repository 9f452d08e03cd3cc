//! Redirect forms: the fields that the shopper's browser submits, and how
//! they are taken from the query of an address.

use vstd::prelude::*;
use crate::enums::Method;
use crate::router_response::{FormField, RedirectForm};
use crate::text::str_eq;

verus! {

/// The pairs of name and value that `url::Url::query_pairs` finds in the
/// address that `url::Url::parse` reads from a text; none for a text that
/// is no address.
pub uninterp spec fn url_query_pairs_of(url: Seq<char>) -> Seq<(Seq<char>, Seq<char>)>;

/// The text that `url::Url` writes for the address that `url::Url::parse`
/// reads from a text; none for a text that is no address.
pub uninterp spec fn url_text_of(url: Seq<char>) -> Option<Seq<char>>;

/// The text that `url::Url` writes for the address that `url::Url::parse`
/// reads from a text, once `url::Url::set_query` has taken the query out;
/// none for a text that is no address.
pub uninterp spec fn url_without_query_of(url: Seq<char>) -> Option<Seq<char>>;

/// The name and the value of each field, in the order of the fields.
pub open spec fn field_pairs(fields: Seq<FormField>) -> Seq<(Seq<char>, Seq<char>)> {
    fields.map_values(|f: FormField| (f.name@, f.value@))
}

/// Calls `url::Url::parse` and `url::Url::query_pairs`, and hands each pair
/// out as a field. The result is named, not described: it is what the url
/// crate makes of the text, and depends on the text alone. A text that
/// does not parse has no pairs.
#[verifier::external_body]
pub(crate) fn url_query_pairs(url: &str) -> (res: Vec<FormField>)
    ensures
        field_pairs(res@) == url_query_pairs_of(url@),
{
    match url::Url::parse(url) {
        Ok(parsed) => parsed.query_pairs().map(
            |(name, value)| FormField { name: name.into_owned(), value: value.into_owned() },
        ).collect(),
        Err(_) => Vec::new(),
    }
}

/// Calls `url::Url::parse` and takes the text of the address. The result
/// is named, not described: it is the url crate's own way of writing the
/// address, and depends on the text alone.
#[verifier::external_body]
pub(crate) fn parse_url(url: &str) -> (res: Option<String>)
    ensures
        crate::text::opt_str(res) == url_text_of(url@),
{
    match url::Url::parse(url) {
        Ok(parsed) => Some(String::from(parsed)),
        Err(_) => None,
    }
}

/// Calls `url::Url::parse` and `url::Url::set_query` with no query, and
/// takes the text of the address that is left. The result is named, not
/// described: it depends on the text alone.
#[verifier::external_body]
pub(crate) fn url_without_query(url: &str) -> (res: Option<String>)
    ensures
        crate::text::opt_str(res) == url_without_query_of(url@),
{
    match url::Url::parse(url) {
        Ok(mut parsed) => {
            parsed.set_query(None);
            Some(String::from(parsed))
        },
        Err(_) => None,
    }
}

/// What a form submits: for each name the value of the last pair with
/// that name.
pub open spec fn pairs_map(pairs: Seq<(Seq<char>, Seq<char>)>) -> Map<Seq<char>, Seq<char>>
    decreases pairs.len(),
{
    if pairs.len() == 0 {
        Map::empty()
    } else {
        pairs_map(pairs.drop_last()).insert(pairs.last().0, pairs.last().1)
    }
}

/// Whether no name occurs twice among the fields.
pub open spec fn names_distinct(fields: Seq<FormField>) -> bool {
    forall|i: int, j: int|
        0 <= i < j < fields.len() ==> (#[trigger] fields[i]).name@ != (#[trigger] fields[j]).name@
}

/// Whether a field of the given name is among the fields.
pub open spec fn has_name(fields: Seq<FormField>, name: Seq<char>) -> bool {
    exists|j: int| 0 <= j < fields.len() && (#[trigger] fields[j]).name@ == name
}

/// Among fields with distinct names, the form submits each field as it
/// stands, and nothing else.
pub proof fn lemma_pairs_map_of_distinct(fields: Seq<FormField>)
    requires
        names_distinct(fields),
    ensures
        forall|name: Seq<char>|
            pairs_map(field_pairs(fields)).dom().contains(name) <==> has_name(fields, name),
        forall|j: int|
            0 <= j < fields.len() ==> pairs_map(field_pairs(fields))[(
                #[trigger] fields[j]).name@] == fields[j].value@,
    decreases fields.len(),
{
    if fields.len() > 0 {
        let shorter = fields.drop_last();
        let last = fields.last();
        assert(field_pairs(fields).drop_last() =~= field_pairs(shorter));
        assert(names_distinct(shorter)) by {
            assert forall|i: int, j: int| 0 <= i < j < shorter.len() implies (
            #[trigger] shorter[i]).name@ != (#[trigger] shorter[j]).name@ by {
                assert(shorter[i] == fields[i]);
                assert(shorter[j] == fields[j]);
            }
        }
        lemma_pairs_map_of_distinct(shorter);
        let m = pairs_map(field_pairs(fields));
        assert(m == pairs_map(field_pairs(shorter)).insert(last.name@, last.value@));
        assert forall|name: Seq<char>| m.dom().contains(name) <==> has_name(fields, name) by {
            if has_name(fields, name) {
                let j = choose|j: int| 0 <= j < fields.len() && (#[trigger] fields[j]).name@ == name;
                if j < shorter.len() {
                    assert(shorter[j] == fields[j]);
                    assert(has_name(shorter, name));
                }
            }
            if m.dom().contains(name) {
                if name == last.name@ {
                    assert(fields[fields.len() - 1].name@ == name);
                } else {
                    assert(has_name(shorter, name));
                    let j = choose|j: int|
                        0 <= j < shorter.len() && (#[trigger] shorter[j]).name@ == name;
                    assert(fields[j] == shorter[j]);
                }
            }
        }
        assert forall|j: int| 0 <= j < fields.len() implies m[(#[trigger] fields[j]).name@]
            == fields[j].value@ by {
            if j < shorter.len() {
                assert(shorter[j] == fields[j]);
                assert(fields[j].name@ != fields[fields.len() - 1].name@);
            }
        }
    } else {
        assert forall|name: Seq<char>| !has_name(fields, name) by {}
    }
}

/// Makes the fields of a form from pairs of name and value: each name is
/// kept once, with the value of its last pair.
pub fn unique_fields(pairs: Vec<FormField>) -> (res: Vec<FormField>)
    ensures
        names_distinct(res@),
        pairs_map(field_pairs(res@)) == pairs_map(field_pairs(pairs@)),
{
    let mut fields: Vec<FormField> = Vec::new();
    let mut i: usize = 0;
    while i < pairs.len()
        invariant
            i <= pairs.len(),
            names_distinct(fields@),
            pairs_map(field_pairs(fields@)) == pairs_map(field_pairs(pairs@.take(i as int))),
        decreases pairs.len() - i,
    {
        let ghost before = fields@;
        let ghost target = pairs_map(field_pairs(pairs@.take(i + 1)));
        proof {
            assert(field_pairs(pairs@.take(i + 1)).drop_last() =~= field_pairs(
                pairs@.take(i as int),
            ));
            lemma_pairs_map_of_distinct(before);
        }
        let mut found: Option<usize> = None;
        let mut j: usize = 0;
        while j < fields.len()
            invariant
                j <= fields.len(),
                i < pairs.len(),
                fields@ == before,
                match found {
                    Some(k) => k < fields.len() && fields@[k as int].name@ == pairs@[i as int].name@,
                    None => forall|k: int|
                        0 <= k < j ==> (#[trigger] fields@[k]).name@ != pairs@[i as int].name@,
                },
            decreases fields.len() - j,
        {
            if found.is_none() && str_eq(fields[j].name.as_str(), pairs[i].name.as_str()) {
                found = Some(j);
            }
            j += 1;
        }
        let name = pairs[i].name.clone();
        let value = pairs[i].value.clone();
        match found {
            Some(k) => {
                fields.set(k, FormField { name, value });
                proof {
                    let after = fields@;
                    assert(names_distinct(after)) by {
                        assert forall|a: int, b: int| 0 <= a < b < after.len() implies (
                        #[trigger] after[a]).name@ != (#[trigger] after[b]).name@ by {
                            assert(after[a].name@ == before[a].name@);
                            assert(after[b].name@ == before[b].name@);
                        }
                    }
                    lemma_pairs_map_of_distinct(after);
                    assert forall|n: Seq<char>| has_name(after, n) <==> has_name(before, n) by {
                        if has_name(after, n) {
                            let x = choose|x: int|
                                0 <= x < after.len() && (#[trigger] after[x]).name@ == n;
                            assert(before[x].name@ == n);
                        }
                        if has_name(before, n) {
                            let x = choose|x: int|
                                0 <= x < before.len() && (#[trigger] before[x]).name@ == n;
                            assert(after[x].name@ == n);
                        }
                    }
                    assert(has_name(before, pairs@[i as int].name@)) by {
                        assert(before[k as int].name@ == pairs@[i as int].name@);
                    }
                    let key = pairs@[i as int].name@;
                    let old_map = pairs_map(field_pairs(before));
                    let new_map = pairs_map(field_pairs(after));
                    assert(target == old_map.insert(key, pairs@[i as int].value@));
                    assert forall|n: Seq<char>| new_map.dom().contains(n) == target.dom().contains(
                        n,
                    ) by {
                        assert(new_map.dom().contains(n) <==> has_name(after, n));
                        assert(old_map.dom().contains(n) <==> has_name(before, n));
                    }
                    assert forall|n: Seq<char>| new_map.dom().contains(n) implies new_map[n]
                        == target[n] by {
                        assert(has_name(after, n));
                        let x = choose|x: int|
                            0 <= x < after.len() && (#[trigger] after[x]).name@ == n;
                        assert(new_map[after[x].name@] == after[x].value@);
                        if x != k {
                            assert(after[x] == before[x]);
                            assert(before[x].name@ != before[k as int].name@);
                            assert(old_map[before[x].name@] == before[x].value@);
                        } else {
                            assert(after[k as int].name@ == key);
                        }
                    }
                    assert(new_map =~= target);
                }
            },
            None => {
                fields.push(FormField { name, value });
                proof {
                    let after = fields@;
                    assert(field_pairs(after).drop_last() =~= field_pairs(before));
                    assert(names_distinct(after)) by {
                        assert forall|a: int, b: int| 0 <= a < b < after.len() implies (
                        #[trigger] after[a]).name@ != (#[trigger] after[b]).name@ by {
                            assert(after[a] == before[a]);
                            if b < before.len() {
                                assert(after[b] == before[b]);
                            }
                        }
                    }
                }
            },
        }
        i += 1;
    }
    assert(pairs@.take(i as int) =~= pairs@);
    fields
}

/// Whether `form` is the form that sends the shopper to an address.
///
/// The form goes to the address without its query, and its fields are the
/// pairs of the query, each name once with its last value. A text that is
/// no address has no form.
pub open spec fn spec_is_form_of_url(
    url: Seq<char>,
    method: Method,
    form: Option<RedirectForm>,
) -> bool {
    match url_without_query_of(url) {
        None => form is None,
        Some(address) => {
            &&& form matches Some(RedirectForm::Form { endpoint, method: form_method, form_fields })
            &&& endpoint@ == address
            &&& form_method == method
            &&& names_distinct(form_fields@)
            &&& pairs_map(field_pairs(form_fields@)) == pairs_map(url_query_pairs_of(url))
        },
    }
}

/// Makes the form that sends the shopper to an address.
pub fn form_of_url(url: &str, method: Method) -> (res: Option<RedirectForm>)
    ensures
        spec_is_form_of_url(url@, method, res),
{
    match url_without_query(url) {
        Some(endpoint) => Some(
            RedirectForm::Form {
                endpoint,
                method,
                form_fields: unique_fields(url_query_pairs(url)),
            },
        ),
        None => None,
    }
}

} // verus!
