//! The terms in which laws are put: rows, fields and texts, and nothing derived.
use vstd::prelude::*;

use crate::model::{CatalogEntry, Price};
use crate::oapi::InputView;

verus! {

/// The text of an optional string.
pub open spec fn text(value: Option<String>) -> Option<Seq<char>> {
    match value {
        Some(value) => Some(value@),
        None => None,
    }
}

/// The texts of `strings` are `lists`, one for one.
pub open spec fn spells(strings: Seq<String>, lists: Seq<Seq<char>>) -> bool {
    &&& lists.len() == strings.len()
    &&& forall|i: int| 0 <= i < strings.len() ==> #[trigger] lists[i] == strings[i]@
}

/// The text of the identifier of the account of `input`.
pub open spec fn account_text(input: InputView) -> Option<Seq<char>> {
    match input.account {
        Some(account) => text(account.account_id),
        None => None,
    }
}

/// Some row is `value` under `key`.
pub open spec fn holds<V>(rows: Seq<(Seq<char>, V)>, key: Seq<char>, value: V) -> bool {
    exists|i: int| 0 <= i < rows.len() && #[trigger] rows[i] == (key, value)
}

/// No row has the key `key`.
pub open spec fn lacks<V>(rows: Seq<(Seq<char>, V)>, key: Seq<char>) -> bool {
    forall|i: int| 0 <= i < rows.len() ==> #[trigger] rows[i].0 != key
}

/// No two rows have the same key.
pub open spec fn told_apart<V>(rows: Seq<(Seq<char>, V)>) -> bool {
    forall|i: int, j: int|
        0 <= i < j < rows.len() ==> (#[trigger] rows[i]).0 != (#[trigger] rows[j]).0
}

/// What has the identifier `id` goes by the key `key`: its identifier, or the empty
/// text where it has none.
pub open spec fn goes_by(id: Option<String>, key: Seq<char>) -> bool {
    match id {
        Some(id) => id@ == key,
        None => key.len() == 0,
    }
}

/// The name of an operation on a type of resource of a service.
pub open spec fn named(service: Seq<char>, type_: Seq<char>, operation: Seq<char>) -> Seq<char> {
    service + "/"@ + type_ + "/"@ + operation
}

/// A catalog entry is about this operation.
pub open spec fn about(
    entry: CatalogEntry,
    service: Seq<char>,
    type_: Seq<char>,
    operation: Seq<char>,
) -> bool {
    &&& text(entry.service) == Some(service)
    &&& text(entry._type) == Some(type_)
    &&& text(entry.operation) == Some(operation)
}

/// The rows of a catalog quote the price `price` for an operation: some row under
/// its name has that price, or, for no price, none has any.
pub open spec fn quotes(
    catalog: Seq<(Seq<char>, CatalogEntry)>,
    service: Seq<char>,
    type_: Seq<char>,
    operation: Seq<char>,
    price: Option<Price>,
) -> bool {
    match price {
        Some(price) => exists|i: int|
            0 <= i < catalog.len() && #[trigger] catalog[i].0 == named(service, type_, operation)
                && catalog[i].1.unit_price == Some(price),
        None => forall|i: int|
            0 <= i < catalog.len() && #[trigger] catalog[i].0 == named(service, type_, operation)
                ==> catalog[i].1.unit_price is None,
    }
}

/// The rows of a catalog quote some price for an operation.
pub open spec fn quoted(
    catalog: Seq<(Seq<char>, CatalogEntry)>,
    service: Seq<char>,
    type_: Seq<char>,
    operation: Seq<char>,
) -> bool {
    exists|i: int|
        0 <= i < catalog.len() && #[trigger] catalog[i].0 == named(service, type_, operation)
            && catalog[i].1.unit_price is Some
}

} // verus!
