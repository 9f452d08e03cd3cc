//! Split payments with Adyen: how the split of a payment between the
//! sub-merchants of a marketplace goes to the wire and comes back.
//!
//! The same conversion serves the authorize, the capture and the refund
//! request, and the responses to them.

use vstd::prelude::*;
use crate::adyen::types::{AdyenSplitData, Amount};
use crate::currency::Currency;
use crate::router_response::{
    AdyenSplitData as SplitData,
    AdyenSplitItem,
    ConnectorChargeResponseData,
};

verus! {

/// One share of a split as it goes to the wire: the amount gets the
/// currency of the payment, everything else stays as it is.
pub open spec fn spec_split_to_wire(split_item: AdyenSplitItem, currency: Currency) -> AdyenSplitData {
    AdyenSplitData {
        amount: match split_item.amount {
            Some(value) => Some(Amount { currency, value }),
            None => None,
        },
        reference: split_item.reference,
        split_type: split_item.split_type,
        account: split_item.account,
        description: split_item.description,
    }
}

/// One share of a split as it comes back from the wire: the amount loses
/// its currency, everything else stays as it is.
pub open spec fn spec_split_from_wire(split_item: AdyenSplitData) -> AdyenSplitItem {
    AdyenSplitItem {
        amount: match split_item.amount {
            Some(amount) => Some(amount.value),
            None => None,
        },
        reference: split_item.reference,
        split_type: split_item.split_type,
        account: split_item.account,
        description: split_item.description,
    }
}

/// The shares of a split as they go to the wire, in their order.
pub open spec fn spec_splits_to_wire(split_items: Seq<AdyenSplitItem>, currency: Currency) -> Seq<
    AdyenSplitData,
> {
    split_items.map_values(|item: AdyenSplitItem| spec_split_to_wire(item, currency))
}

/// The shares of a split as they come back from the wire, in their order.
pub open spec fn spec_splits_from_wire(split_items: Seq<AdyenSplitData>) -> Seq<AdyenSplitItem> {
    split_items.map_values(|item: AdyenSplitData| spec_split_from_wire(item))
}

/// Puts the split of a payment into the form of the wire: the store, and
/// the shares in their order.
pub fn get_adyen_split_request(split_request: &SplitData, currency: Currency) -> (res: (
    Option<String>,
    Option<Vec<AdyenSplitData>>,
))
    ensures
        res.0 == split_request.store,
        res.1 matches Some(splits) && splits@ == spec_splits_to_wire(
            split_request.split_items@,
            currency,
        ),
{
    let mut splits: Vec<AdyenSplitData> = Vec::new();
    let mut i: usize = 0;
    while i < split_request.split_items.len()
        invariant
            i <= split_request.split_items.len(),
            splits@ == spec_splits_to_wire(split_request.split_items@.take(i as int), currency),
        decreases split_request.split_items.len() - i,
    {
        let split_item = &split_request.split_items[i];
        let amount = match split_item.amount {
            Some(value) => Some(Amount { currency, value }),
            None => None,
        };
        splits.push(
            AdyenSplitData {
                amount,
                reference: split_item.reference.clone(),
                split_type: split_item.split_type,
                account: split_item.account.clone(),
                description: split_item.description.clone(),
            },
        );
        assert(splits@ =~= spec_splits_to_wire(
            split_request.split_items@.take(i + 1),
            currency,
        ));
        i += 1;
    }
    assert(split_request.split_items@.take(i as int) =~= split_request.split_items@);
    (split_request.store.clone(), Some(splits))
}

/// Reads the split of a payment from what a response holds: the store, and
/// the shares in their order.
pub fn construct_charge_response(store: Option<String>, split_item: &Vec<AdyenSplitData>) -> (res:
    ConnectorChargeResponseData)
    ensures
        res matches ConnectorChargeResponseData::AdyenSplitPayment(data) && data.store == store
            && data.split_items@ == spec_splits_from_wire(split_item@),
{
    let mut splits: Vec<AdyenSplitItem> = Vec::new();
    let mut i: usize = 0;
    while i < split_item.len()
        invariant
            i <= split_item.len(),
            splits@ == spec_splits_from_wire(split_item@.take(i as int)),
        decreases split_item.len() - i,
    {
        let item = &split_item[i];
        splits.push(
            AdyenSplitItem {
                amount: match &item.amount {
                    Some(amount) => Some(amount.value),
                    None => None,
                },
                reference: item.reference.clone(),
                split_type: item.split_type,
                account: item.account.clone(),
                description: item.description.clone(),
            },
        );
        assert(splits@ =~= spec_splits_from_wire(split_item@.take(i + 1)));
        i += 1;
    }
    assert(split_item@.take(i as int) =~= split_item@);
    ConnectorChargeResponseData::AdyenSplitPayment(SplitData { store, split_items: splits })
}

/// The split of a payment as a response reports it.
pub open spec fn spec_charges(
    store: Option<String>,
    splits: Option<Vec<AdyenSplitData>>,
    charges: Option<ConnectorChargeResponseData>,
) -> bool {
    match splits {
        Some(split_items) => {
            &&& charges matches Some(ConnectorChargeResponseData::AdyenSplitPayment(data))
            &&& data.store == store
            &&& data.split_items@ == spec_splits_from_wire(split_items@)
        },
        None => charges is None,
    }
}

/// Round trip of one share: what goes to the wire comes back unchanged,
/// whatever the currency.
pub proof fn lemma_split_item_round_trip(split_item: AdyenSplitItem, currency: Currency)
    ensures
        spec_split_from_wire(spec_split_to_wire(split_item, currency)) == split_item,
{
}

/// Round trip for split payments: the shares that are put on the wire and
/// read back are the same shares in the same order, whatever the currency.
/// The store goes over the wire as it is.
pub proof fn lemma_split_round_trip(split_items: Seq<AdyenSplitItem>, currency: Currency)
    ensures
        spec_splits_from_wire(spec_splits_to_wire(split_items, currency)) == split_items,
{
    let back = spec_splits_from_wire(spec_splits_to_wire(split_items, currency));
    assert(back.len() == split_items.len());
    assert forall|i: int| 0 <= i < split_items.len() implies back[i] == split_items[i] by {
        lemma_split_item_round_trip(split_items[i], currency);
    }
    assert(back =~= split_items);
}

} // verus!
