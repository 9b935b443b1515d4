//! The price catalog: which price an identifier finds.
use vstd::prelude::*;

use super::tables::law_last_item_stays;
use crate::model::{entry_id, Catalog};
use crate::oapi::InputView;
use crate::table::{distinct_keys, Identified};

verus! {

/// The text holds no slash.
pub open spec fn slash_free(text: Seq<char>) -> bool {
    !text.contains('/')
}

/// Texts without a slash, each followed by one, start a text in one way only.
proof fn lemma_first_part(
    first: Seq<char>,
    rest: Seq<char>,
    other_first: Seq<char>,
    other_rest: Seq<char>,
)
    requires
        slash_free(first),
        slash_free(other_first),
        first + "/"@ + rest == other_first + "/"@ + other_rest,
    ensures
        first == other_first,
        rest == other_rest,
{
    reveal_strlit("/");
    let whole = first + "/"@ + rest;
    let other = other_first + "/"@ + other_rest;
    assert(whole[first.len() as int] == '/');
    assert(other[other_first.len() as int] == '/');
    if first.len() < other_first.len() {
        assert(other[first.len() as int] == other_first[first.len() as int]);
        assert(other_first.contains('/'));
    }
    if other_first.len() < first.len() {
        assert(whole[other_first.len() as int] == first[other_first.len() as int]);
        assert(first.contains('/'));
    }
    assert forall|i: int| 0 <= i < first.len() implies first[i] == other_first[i] by {
        assert(whole[i] == first[i]);
        assert(other[i] == other_first[i]);
    }
    assert(first =~= other_first);
    assert(whole.len() == first.len() + 1 + rest.len());
    assert(other.len() == first.len() + 1 + other_rest.len());
    assert forall|i: int| 0 <= i < rest.len() implies rest[i] == other_rest[i] by {
        assert(whole[first.len() + 1 + i] == rest[i]);
        assert(other[first.len() + 1 + i] == other_rest[i]);
    }
    assert(rest =~= other_rest);
}

/// Services and types without a slash never share an identifier: entries that
/// differ in the service, the type or the operation are told apart.
pub proof fn law_entry_ids_tell_entries_apart(
    service: Seq<char>,
    type_: Seq<char>,
    operation: Seq<char>,
    other_service: Seq<char>,
    other_type: Seq<char>,
    other_operation: Seq<char>,
)
    requires
        slash_free(service),
        slash_free(type_),
        slash_free(other_service),
        slash_free(other_type),
        entry_id(service, type_, operation) == entry_id(
            other_service,
            other_type,
            other_operation,
        ),
    ensures
        service == other_service,
        type_ == other_type,
        operation == other_operation,
{
    let tail = type_ + "/"@ + operation;
    let other_tail = other_type + "/"@ + other_operation;
    assert(entry_id(service, type_, operation) =~= service + "/"@ + tail);
    assert(entry_id(other_service, other_type, other_operation) =~= other_service + "/"@
        + other_tail);
    lemma_first_part(service, tail, other_service, other_tail);
    lemma_first_part(type_, operation, other_type, other_operation);
}

/// A price that was read is found: after a catalog was taken in, the price of an
/// operation is that of the last entry with its identifier. Where the catalog has
/// no such entry, the price is what it was.
pub proof fn law_price_is_that_of_the_last_entry(
    input: InputView,
    catalog: Catalog,
    service: Seq<char>,
    type_: Seq<char>,
    operation: Seq<char>,
)
    requires
        distinct_keys(input.catalog),
    ensures
        forall|i: int|
            catalog.entries is Some && 0 <= i < catalog.entries->0@.len() && (
            #[trigger] catalog.entries->0@[i]).spec_key() == Some(
                entry_id(service, type_, operation),
            ) && (forall|j: int|
                i < j < catalog.entries->0@.len() ==> (
                #[trigger] catalog.entries->0@[j]).spec_key() != Some(
                    entry_id(service, type_, operation),
                )) ==> input.with_catalog(Some(catalog)).price(service, type_, operation)
                == catalog.entries->0@[i].unit_price,
        (catalog.entries is Some ==> forall|j: int|
            0 <= j < catalog.entries->0@.len() ==> (
            #[trigger] catalog.entries->0@[j]).spec_key() != Some(
                entry_id(service, type_, operation),
            )) ==> input.with_catalog(Some(catalog)).price(service, type_, operation)
            == input.price(service, type_, operation),
{
    let id = entry_id(service, type_, operation);
    match catalog.entries {
        Some(entries) => {
            law_last_item_stays(input.catalog, entries@, id);
            assert forall|i: int|
                0 <= i < entries@.len() && (#[trigger] entries@[i]).spec_key() == Some(id) && (
                forall|j: int|
                    i < j < entries@.len() ==> (#[trigger] entries@[j]).spec_key() != Some(
                        id,
                    )) implies input.with_catalog(Some(catalog)).price(service, type_, operation)
                == entries@[i].unit_price by {
                assert forall|j: int| i < j < entries@.len() implies #[trigger] entries@[j].spec_key()
                    != Some(id) by {
                    assert(entries@[j].spec_key() != Some(id));
                }
            }
        },
        None => {},
    }
}

} // verus!
