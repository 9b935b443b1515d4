//! Tables: what a stored value replaces, and what stays.
use vstd::prelude::*;

use super::terms::{holds, lacks, told_apart};
use crate::table::{distinct_keys, has_key, lookup, position, put, put_all, Identified, Rows};

verus! {

/// Every row is stored under the key of its value.
pub open spec fn keyed<V: Identified>(rows: Rows<V>) -> bool {
    forall|i: int| 0 <= i < rows.len() ==> #[trigger] rows[i].1.spec_key() == Some(rows[i].0)
}

/// Where keys are distinct, the row at `at` is the one that its key finds.
pub(crate) proof fn lemma_row<V>(rows: Rows<V>, at: int)
    requires
        distinct_keys(rows),
        0 <= at < rows.len(),
    ensures
        has_key(rows, rows[at].0),
        position(rows, rows[at].0) == at,
        lookup(rows, rows[at].0) == Some(rows[at].1),
{
    let key = rows[at].0;
    assert(has_key(rows, key));
    assert(rows[position(rows, key)].0 == key);
}

/// Storing a value keeps the keys distinct.
pub proof fn law_put_keeps_keys_distinct<V>(rows: Rows<V>, key: Seq<char>, value: V)
    requires
        distinct_keys(rows),
    ensures
        distinct_keys(put(rows, key, value)),
{
    let after = put(rows, key, value);
    assert forall|i: int, j: int|
        0 <= i < after.len() && 0 <= j < after.len() && #[trigger] after[i].0
            == #[trigger] after[j].0 implies i == j by {
        if has_key(rows, key) {
            assert(rows[i].0 == after[i].0);
            assert(rows[j].0 == after[j].0);
        } else {
            if i < rows.len() {
                assert(rows[i].0 == after[i].0);
            }
            if j < rows.len() {
                assert(rows[j].0 == after[j].0);
            }
        }
    }
}

/// What was stored under a key is found under it, and what any other key finds
/// stays as it was.
pub proof fn law_put_then_lookup<V>(
    rows: Rows<V>,
    key: Seq<char>,
    value: V,
    other: Seq<char>,
)
    requires
        distinct_keys(rows),
    ensures
        lookup(put(rows, key, value), key) == Some(value),
        other != key ==> lookup(put(rows, key, value), other) == lookup(rows, other),
{
    let after = put(rows, key, value);
    law_put_keeps_keys_distinct(rows, key, value);
    let at = if has_key(rows, key) {
        position(rows, key)
    } else {
        rows.len() as int
    };
    assert(after[at] == (key, value));
    lemma_row(after, at);
    if other != key {
        if has_key(rows, other) {
            let i = position(rows, other);
            lemma_row(rows, i);
            assert(after[i] == rows[i]);
            lemma_row(after, i);
        } else if has_key(after, other) {
            let i = position(after, other);
            assert(i != at);
            assert(rows[i] == after[i]);
        }
    }
}

/// Taking in an answer keeps the keys distinct and the rows under the keys of
/// their values, and every row that was there keeps its place.
pub proof fn law_answers_keep_the_table_in_order<V: Identified>(rows: Rows<V>, items: Seq<V>)
    requires
        distinct_keys(rows),
    ensures
        distinct_keys(put_all(rows, items)),
        keyed(rows) ==> keyed(put_all(rows, items)),
        rows.len() <= put_all(rows, items).len() <= rows.len() + items.len(),
        forall|i: int|
            0 <= i < rows.len() ==> (#[trigger] put_all(rows, items)[i]).0 == rows[i].0,
    decreases items.len(),
{
    if items.len() > 0 {
        law_answers_keep_the_table_in_order(rows, items.drop_last());
        let earlier = put_all(rows, items.drop_last());
        let item = items.last();
        match item.spec_key() {
            Some(key) => {
                law_put_keeps_keys_distinct(earlier, key, item);
                let after = put(earlier, key, item);
                assert forall|i: int| 0 <= i < rows.len() implies (#[trigger] after[i]).0
                    == rows[i].0 by {
                    assert(earlier[i].0 == rows[i].0);
                }
                if keyed(rows) {
                    assert forall|i: int| 0 <= i < after.len() implies #[trigger] after[i].1.spec_key()
                        == Some(after[i].0) by {
                        if i < earlier.len() {
                            assert(earlier[i].1.spec_key() == Some(earlier[i].0));
                        }
                    }
                }
            },
            None => {},
        }
    }
}

/// Of the items of an answer with the same key the last one stays, and a key that
/// none of them has finds what it found before.
pub proof fn law_last_item_stays<V: Identified>(rows: Rows<V>, items: Seq<V>, key: Seq<char>)
    requires
        distinct_keys(rows),
    ensures
        forall|i: int|
            0 <= i < items.len() && #[trigger] items[i].spec_key() == Some(key) && (forall|j: int|
                i < j < items.len() ==> #[trigger] items[j].spec_key() != Some(key)) ==> lookup(
                put_all(rows, items),
                key,
            ) == Some(items[i]),
        (forall|j: int| 0 <= j < items.len() ==> #[trigger] items[j].spec_key() != Some(key))
            ==> lookup(put_all(rows, items), key) == lookup(rows, key),
    decreases items.len(),
{
    if items.len() > 0 {
        let fewer = items.drop_last();
        let item = items.last();
        let earlier = put_all(rows, fewer);
        law_last_item_stays(rows, fewer, key);
        law_answers_keep_the_table_in_order(rows, fewer);
        match item.spec_key() {
            Some(stored) => {
                law_put_then_lookup(earlier, stored, item, key);
            },
            None => {},
        }
        assert forall|i: int|
            0 <= i < items.len() && #[trigger] items[i].spec_key() == Some(key) && (forall|j: int|
                i < j < items.len() ==> #[trigger] items[j].spec_key() != Some(key)) implies lookup(
            put_all(rows, items),
            key,
        ) == Some(items[i]) by {
            if i < fewer.len() {
                assert(items[items.len() - 1].spec_key() != Some(key));
                assert(fewer[i].spec_key() == Some(key));
                assert forall|j: int| i < j < fewer.len() implies #[trigger] fewer[j].spec_key()
                    != Some(key) by {
                    assert(items[j].spec_key() != Some(key));
                }
            }
        }
        if forall|j: int| 0 <= j < items.len() ==> #[trigger] items[j].spec_key() != Some(key) {
            assert forall|j: int| 0 <= j < fewer.len() implies #[trigger] fewer[j].spec_key()
                != Some(key) by {
                assert(items[j].spec_key() != Some(key));
            }
            assert(items[items.len() - 1].spec_key() != Some(key));
        }
    }
}

/// Some item of `items` is stored under `key`.
spec fn stores<V: Identified>(items: Seq<V>, key: Seq<char>) -> bool {
    exists|i: int| 0 <= i < items.len() && #[trigger] items[i].spec_key() == Some(key)
}

/// The keys after an answer are those before it and those of its items.
proof fn lemma_keys_after<V: Identified>(rows: Rows<V>, items: Seq<V>, key: Seq<char>)
    ensures
        has_key(put_all(rows, items), key) == (has_key(rows, key) || stores(items, key)),
    decreases items.len(),
{
    if items.len() > 0 {
        let fewer = items.drop_last();
        let earlier = put_all(rows, fewer);
        let item = items.last();
        lemma_keys_after(rows, fewer, key);
        if stores(fewer, key) {
            let i = choose|i: int|
                0 <= i < fewer.len() && #[trigger] fewer[i].spec_key() == Some(key);
            assert(items[i].spec_key() == Some(key));
        }
        if stores(items, key) && item.spec_key() != Some(key) {
            let i = choose|i: int|
                0 <= i < items.len() && #[trigger] items[i].spec_key() == Some(key);
            assert(fewer[i].spec_key() == Some(key));
        }
        match item.spec_key() {
            Some(stored) => {
                let after = put(earlier, stored, item);
                let at = if has_key(earlier, stored) {
                    position(earlier, stored)
                } else {
                    earlier.len() as int
                };
                assert(after[at].0 == stored);
                if stored == key {
                    assert(items[items.len() - 1].spec_key() == Some(key));
                }
                if has_key(earlier, key) {
                    let i = position(earlier, key);
                    assert(after[i].0 == key);
                }
                if has_key(after, key) && stored != key {
                    let i = position(after, key);
                    assert(earlier[i].0 == key);
                }
            },
            None => {},
        }
    }
}

/// An answer adds no row where all of its keys are present.
proof fn lemma_no_new_rows<V: Identified>(rows: Rows<V>, items: Seq<V>)
    requires
        distinct_keys(rows),
        forall|i: int|
            0 <= i < items.len() && #[trigger] items[i].spec_key() is Some ==> has_key(
                rows,
                items[i].spec_key()->0,
            ),
    ensures
        put_all(rows, items).len() == rows.len(),
    decreases items.len(),
{
    if items.len() > 0 {
        let fewer = items.drop_last();
        assert forall|i: int|
            0 <= i < fewer.len() && #[trigger] fewer[i].spec_key() is Some implies has_key(
            rows,
            fewer[i].spec_key()->0,
        ) by {
            assert(items[i].spec_key() is Some);
        }
        lemma_no_new_rows(rows, fewer);
        match items.last().spec_key() {
            Some(key) => {
                assert(items[items.len() - 1].spec_key() == Some(key));
                lemma_keys_after(rows, fewer, key);
            },
            None => {},
        }
    }
}

/// The last item stored under a key, where there is one.
proof fn lemma_last_stored<V: Identified>(items: Seq<V>, key: Seq<char>) -> (last: int)
    requires
        stores(items, key),
    ensures
        0 <= last < items.len(),
        items[last].spec_key() == Some(key),
        forall|j: int| last < j < items.len() ==> #[trigger] items[j].spec_key() != Some(key),
    decreases items.len(),
{
    let fewer = items.drop_last();
    if items.last().spec_key() == Some(key) {
        items.len() - 1
    } else {
        let i = choose|i: int| 0 <= i < items.len() && #[trigger] items[i].spec_key() == Some(key);
        assert(fewer[i].spec_key() == Some(key));
        let last = lemma_last_stored(fewer, key);
        assert(items[last].spec_key() == fewer[last].spec_key());
        assert forall|j: int| last < j < items.len() implies #[trigger] items[j].spec_key() != Some(
            key,
        ) by {
            if j < fewer.len() {
                assert(fewer[j].spec_key() != Some(key));
            }
        }
        last
    }
}

/// Taking in the same answer a second time changes nothing.
pub proof fn law_same_answer_again_changes_nothing<V: Identified>(rows: Rows<V>, items: Seq<V>)
    requires
        distinct_keys(rows),
    ensures
        put_all(put_all(rows, items), items) == put_all(rows, items),
{
    let once = put_all(rows, items);
    let twice = put_all(once, items);
    law_answers_keep_the_table_in_order(rows, items);
    law_answers_keep_the_table_in_order(once, items);
    assert forall|i: int| 0 <= i < items.len() && #[trigger] items[i].spec_key() is Some implies has_key(
        once,
        items[i].spec_key()->0,
    ) by {
        lemma_keys_after(rows, items, items[i].spec_key()->0);
    }
    lemma_no_new_rows(once, items);
    assert forall|i: int| 0 <= i < once.len() implies #[trigger] twice[i] == once[i] by {
        let key = once[i].0;
        assert(twice[i].0 == key);
        lemma_row(once, i);
        lemma_row(twice, i);
        law_last_item_stays(rows, items, key);
        law_last_item_stays(once, items, key);
        if stores(items, key) {
            let last = lemma_last_stored(items, key);
            assert(items[last].spec_key() == Some(key));
        } else {
            assert forall|j: int| 0 <= j < items.len() implies #[trigger] items[j].spec_key()
                != Some(key) by {}
        }
    }
    assert(twice =~= once);
}

/// No item after the one at `at` has its key.
pub open spec fn last_of_its_key<V: Identified>(items: Seq<V>, at: int) -> bool {
    forall|j: int|
        at < j < items.len() ==> #[trigger] items[j].spec_key() != items[at].spec_key()
}

/// What is read is kept: after an answer was taken in, each of its items that has a
/// key, and is the last one with it, has a row.
pub proof fn law_read_items_are_kept<V: Identified>(rows: Rows<V>, items: Seq<V>, at: int) -> (row:
    int)
    requires
        distinct_keys(rows),
        0 <= at < items.len(),
        items[at].spec_key() is Some,
        last_of_its_key(items, at),
    ensures
        0 <= row < put_all(rows, items).len(),
        put_all(rows, items)[row] == (items[at].spec_key()->0, items[at]),
{
    let key = items[at].spec_key()->0;
    let after = put_all(rows, items);
    law_last_item_stays(rows, items, key);
    assert(items[at].spec_key() == Some(key));
    assert(lookup(after, key) == Some(items[at]));
    position(after, key)
}

/// Keys are distinct if and only if no two rows have the same one.
pub proof fn law_distinct_keys_tell_rows_apart<V>(rows: Rows<V>)
    ensures
        distinct_keys(rows) <==> told_apart(rows),
{
    if distinct_keys(rows) {
        assert forall|i: int, j: int| 0 <= i < j < rows.len() implies (#[trigger] rows[i]).0 != (
        #[trigger] rows[j]).0 by {}
    }
    if told_apart(rows) {
        assert forall|i: int, j: int|
            0 <= i < rows.len() && 0 <= j < rows.len() && #[trigger] rows[i].0
                == #[trigger] rows[j].0 implies i == j by {}
    }
}

/// A key finds the value of the row that has it, and nothing where no row has it.
pub proof fn law_key_finds_its_row<V>(rows: Rows<V>, key: Seq<char>, value: V)
    requires
        told_apart(rows),
    ensures
        lookup(rows, key) == Some(value) <==> holds(rows, key, value),
        lookup(rows, key) is None <==> lacks(rows, key),
        has_key(rows, key) <==> !lacks(rows, key),
{
    law_distinct_keys_tell_rows_apart(rows);
    if holds(rows, key, value) {
        let i = choose|i: int| 0 <= i < rows.len() && #[trigger] rows[i] == (key, value);
        lemma_row(rows, i);
    }
    if has_key(rows, key) {
        let i = position(rows, key);
        assert(rows[i].0 == key);
        assert(rows[i] == (key, rows[i].1));
    } else {
        assert forall|i: int| 0 <= i < rows.len() implies #[trigger] rows[i].0 != key by {}
    }
}

/// A value takes the place of the one that was stored under its key, or becomes a new
/// row behind the others. No other row changes.
pub proof fn law_put_replaces_or_appends<V>(rows: Rows<V>, key: Seq<char>, value: V, at: int)
    requires
        told_apart(rows),
    ensures
        0 <= at < rows.len() && rows[at].0 == key ==> {
            &&& put(rows, key, value).len() == rows.len()
            &&& put(rows, key, value)[at] == (key, value)
            &&& forall|i: int|
                0 <= i < rows.len() && i != at ==> #[trigger] put(rows, key, value)[i] == rows[i]
        },
        lacks(rows, key) ==> {
            &&& put(rows, key, value).len() == rows.len() + 1
            &&& put(rows, key, value)[rows.len() as int] == (key, value)
            &&& forall|i: int|
                0 <= i < rows.len() ==> #[trigger] put(rows, key, value)[i] == rows[i]
        },
{
    law_distinct_keys_tell_rows_apart(rows);
    if 0 <= at < rows.len() && rows[at].0 == key {
        lemma_row(rows, at);
    }
    if lacks(rows, key) {
        law_key_finds_its_row(rows, key, value);
    }
}

/// An answer in two parts is taken in as its parts are, one after the other. Nothing
/// is stored of an empty one, nor of an item without a key.
pub proof fn law_parts_of_an_answer_add_up<V: Identified>(
    rows: Rows<V>,
    items: Seq<V>,
    more: Seq<V>,
    item: V,
)
    ensures
        put_all(rows, items + more) == put_all(put_all(rows, items), more),
        put_all(rows, Seq::empty()) == rows,
        put_all(rows, seq![item]) == match item.spec_key() {
            Some(key) => put(rows, key, item),
            None => rows,
        },
    decreases more.len(),
{
    assert(seq![item].drop_last() =~= Seq::<V>::empty());
    assert(put_all(rows, Seq::<V>::empty()) == rows);
    if more.len() == 0 {
        assert(items + more =~= items);
    } else {
        law_parts_of_an_answer_add_up(rows, items, more.drop_last(), item);
        assert((items + more).drop_last() =~= items + more.drop_last());
    }
}

} // verus!
