//! Rows in "most recent first" order: descending by a date column, compared as
//! strings, with rows of equal date kept in the order they were met.

use vstd::prelude::*;
use crate::json::{items_view, Json, JsonValue};
use crate::text::{lemma_text_le_total, lemma_text_le_transitive, str_lt, text_le, text_lt};

verus! {

/// What a row is sorted by: the string it holds under `column`, and the empty string
/// where it holds none.
pub open spec fn sort_key(row: JsonValue, column: Seq<char>) -> Seq<char> {
    match row.get(column) {
        Some(JsonValue::Text(s)) => s,
        _ => Seq::empty(),
    }
}

/// Where `row` goes into `sorted`: in front of the first row whose key is smaller,
/// and at the end where no key is smaller.
pub open spec fn insert_position(sorted: Seq<JsonValue>, row: JsonValue, column: Seq<char>) -> int
    decreases sorted.len(),
{
    if sorted.len() == 0 {
        0
    } else if text_lt(sort_key(sorted[0], column), sort_key(row, column)) {
        0
    } else {
        1 + insert_position(sorted.drop_first(), row, column)
    }
}

/// `sorted` with `row` put in at its position.
pub open spec fn insert_row(sorted: Seq<JsonValue>, row: JsonValue, column: Seq<char>) -> Seq<
    JsonValue,
> {
    sorted.insert(insert_position(sorted, row, column), row)
}

/// The rows in descending order of their keys; rows of equal key stay in the order
/// in which `rows` holds them.
pub open spec fn sort_rows(rows: Seq<JsonValue>, column: Seq<char>) -> Seq<JsonValue>
    decreases rows.len(),
{
    if rows.len() == 0 {
        Seq::empty()
    } else {
        insert_row(sort_rows(rows.drop_last(), column), rows.last(), column)
    }
}

/// `sorted` with each row of `rows` put in at its position, the first row first.
pub open spec fn insert_rows(
    sorted: Seq<JsonValue>,
    rows: Seq<JsonValue>,
    column: Seq<char>,
) -> Seq<JsonValue>
    decreases rows.len(),
{
    if rows.len() == 0 {
        sorted
    } else {
        insert_row(insert_rows(sorted, rows.drop_last(), column), rows.last(), column)
    }
}

/// Sorting two lists of rows as one is sorting the first and putting in the rows of
/// the second.
pub proof fn lemma_sort_rows_append(
    first: Seq<JsonValue>,
    second: Seq<JsonValue>,
    column: Seq<char>,
)
    ensures
        sort_rows(first + second, column) == insert_rows(sort_rows(first, column), second, column),
    decreases second.len(),
{
    if second.len() == 0 {
        assert(first + second =~= first);
    } else {
        lemma_sort_rows_append(first, second.drop_last(), column);
        assert((first + second).drop_last() =~= first + second.drop_last());
        assert((first + second).last() == second.last());
    }
}

/// No row of `rows` has a larger key than a row in front of it.
pub open spec fn is_descending(rows: Seq<JsonValue>, column: Seq<char>) -> bool {
    forall|i: int, j: int|
        0 <= i < j < rows.len() ==> text_le(
            #[trigger] sort_key(rows[j], column),
            #[trigger] sort_key(rows[i], column),
        )
}

/// The position is inside the sequence or at its end; no row in front of it has a
/// smaller key than `row`, and the row at it has.
pub proof fn lemma_insert_position(sorted: Seq<JsonValue>, row: JsonValue, column: Seq<char>)
    ensures
        0 <= insert_position(sorted, row, column) <= sorted.len(),
        forall|k: int|
            0 <= k < insert_position(sorted, row, column) ==> !text_lt(
                sort_key(#[trigger] sorted[k], column),
                sort_key(row, column),
            ),
        insert_position(sorted, row, column) < sorted.len() ==> text_lt(
            sort_key(sorted[insert_position(sorted, row, column)], column),
            sort_key(row, column),
        ),
    decreases sorted.len(),
{
    if sorted.len() > 0 && !text_lt(sort_key(sorted[0], column), sort_key(row, column)) {
        let rest = sorted.drop_first();
        lemma_insert_position(rest, row, column);
        let p = insert_position(rest, row, column);
        assert forall|k: int| 0 <= k < p + 1 implies !text_lt(
            sort_key(#[trigger] sorted[k], column),
            sort_key(row, column),
        ) by {
            if k > 0 {
                assert(sorted[k] == rest[k - 1]);
            }
        }
        if p < rest.len() {
            assert(sorted[p + 1] == rest[p]);
        }
    }
}

/// The position is the only index with the two properties of `lemma_insert_position`.
pub proof fn lemma_insert_position_unique(
    sorted: Seq<JsonValue>,
    row: JsonValue,
    column: Seq<char>,
    at: int,
)
    requires
        0 <= at <= sorted.len(),
        forall|k: int|
            0 <= k < at ==> !text_lt(sort_key(#[trigger] sorted[k], column), sort_key(row, column)),
        at < sorted.len() ==> text_lt(sort_key(sorted[at], column), sort_key(row, column)),
    ensures
        insert_position(sorted, row, column) == at,
{
    lemma_insert_position(sorted, row, column);
    let p = insert_position(sorted, row, column);
    if p < at {
        assert(!text_lt(sort_key(sorted[p], column), sort_key(row, column)));
    } else if at < p {
        assert(!text_lt(sort_key(sorted[at], column), sort_key(row, column)));
    }
}

/// Sorting keeps the number of rows.
pub proof fn lemma_sort_rows_len(rows: Seq<JsonValue>, column: Seq<char>)
    ensures
        sort_rows(rows, column).len() == rows.len(),
    decreases rows.len(),
{
    if rows.len() > 0 {
        lemma_sort_rows_len(rows.drop_last(), column);
        lemma_insert_position(sort_rows(rows.drop_last(), column), rows.last(), column);
    }
}

/// Putting a row into a descending sequence leaves it descending.
pub proof fn lemma_insert_row_descending(sorted: Seq<JsonValue>, row: JsonValue, column: Seq<char>)
    requires
        is_descending(sorted, column),
    ensures
        is_descending(insert_row(sorted, row, column), column),
{
    lemma_insert_position(sorted, row, column);
    let p = insert_position(sorted, row, column);
    let out = insert_row(sorted, row, column);
    let key = sort_key(row, column);
    assert forall|i: int, j: int| 0 <= i < j < out.len() implies text_le(
        #[trigger] sort_key(out[j], column),
        #[trigger] sort_key(out[i], column),
    ) by {
        if j < p {
            assert(out[i] == sorted[i] && out[j] == sorted[j]);
        } else if j == p {
            assert(out[i] == sorted[i] && out[j] == row);
            assert(!text_lt(sort_key(sorted[i], column), key));
        } else if i < p {
            assert(out[i] == sorted[i] && out[j] == sorted[j - 1]);
        } else if i == p {
            assert(out[i] == row && out[j] == sorted[j - 1]);
            let first = sort_key(sorted[p], column);
            let later = sort_key(sorted[j - 1], column);
            assert(text_lt(first, key));
            lemma_text_le_total(first, key);
            if p < j - 1 {
                assert(text_le(later, first));
            } else {
                lemma_text_le_total(first, first);
            }
            lemma_text_le_transitive(later, first, key);
        } else {
            assert(out[i] == sorted[i - 1] && out[j] == sorted[j - 1]);
        }
    }
}

/// Sorted rows are in descending order of their keys.
pub proof fn lemma_sort_rows_descending(rows: Seq<JsonValue>, column: Seq<char>)
    ensures
        is_descending(sort_rows(rows, column), column),
    decreases rows.len(),
{
    if rows.len() > 0 {
        lemma_sort_rows_descending(rows.drop_last(), column);
        lemma_insert_row_descending(sort_rows(rows.drop_last(), column), rows.last(), column);
    }
}

/// Sorting moves rows; it neither adds, drops nor changes one.
pub proof fn lemma_sort_rows_permutes(rows: Seq<JsonValue>, column: Seq<char>)
    ensures
        sort_rows(rows, column).to_multiset() == rows.to_multiset(),
    decreases rows.len(),
{
    broadcast use vstd::seq_lib::group_to_multiset_ensures;

    if rows.len() > 0 {
        let front = rows.drop_last();
        let sorted = sort_rows(front, column);
        lemma_sort_rows_permutes(front, column);
        lemma_insert_position(sorted, rows.last(), column);
        let p = insert_position(sorted, rows.last(), column);
        assert(rows =~= front.push(rows.last()));
        assert(sorted.insert(p, rows.last()).to_multiset() =~= sorted.to_multiset().insert(
            rows.last(),
        ));
    } else {
        assert(sort_rows(rows, column) =~= rows);
    }
}

/// Every sorted row is one of the rows that were sorted.
pub proof fn lemma_sorted_row_is_a_row(rows: Seq<JsonValue>, column: Seq<char>, i: int)
    requires
        0 <= i < sort_rows(rows, column).len(),
    ensures
        rows.contains(sort_rows(rows, column)[i]),
{
    broadcast use vstd::seq_lib::group_to_multiset_ensures;

    let sorted = sort_rows(rows, column);
    lemma_sort_rows_permutes(rows, column);
    assert(sorted.contains(sorted[i]));
    assert(sorted.to_multiset().count(sorted[i]) > 0);
}

/// Whether a row's key is `key`.
pub open spec fn has_key(column: Seq<char>, key: Seq<char>) -> spec_fn(JsonValue) -> bool {
    |row: JsonValue| sort_key(row, column) == key
}

/// The rows of `rows` whose key is `key`, in the order in which `rows` holds them.
pub open spec fn rows_with_key(rows: Seq<JsonValue>, column: Seq<char>, key: Seq<char>) -> Seq<
    JsonValue,
> {
    rows.filter(has_key(column, key))
}

proof fn lemma_no_row_with_key(rows: Seq<JsonValue>, column: Seq<char>, key: Seq<char>)
    requires
        forall|i: int| 0 <= i < rows.len() ==> sort_key(#[trigger] rows[i], column) != key,
    ensures
        rows_with_key(rows, column, key) == Seq::<JsonValue>::empty(),
{
    let found = rows_with_key(rows, column, key);
    rows.filter_lemma(has_key(column, key));
    if found.len() > 0 {
        let row = found[0];
        assert(found.contains(row));
        rows.lemma_filter_contains_rev(has_key(column, key), row);
        let i = choose|i: int| 0 <= i < rows.len() && rows[i] == row;
        assert(has_key(column, key)(found[0]));
        assert(sort_key(rows[i], column) != key);
    }
    assert(found =~= Seq::<JsonValue>::empty());
}

/// Sorting is stable: the rows of any one key come out in the order they went in.
pub proof fn law_sort_rows_stable(rows: Seq<JsonValue>, column: Seq<char>, key: Seq<char>)
    ensures
        rows_with_key(sort_rows(rows, column), column, key) == rows_with_key(rows, column, key),
    decreases rows.len(),
{
    let pred = has_key(column, key);
    if rows.len() == 0 {
        assert(sort_rows(rows, column) =~= rows);
    } else {
        let front = rows.drop_last();
        let last = rows.last();
        let sorted = sort_rows(front, column);
        law_sort_rows_stable(front, column, key);
        lemma_sort_rows_descending(front, column);
        lemma_insert_position(sorted, last, column);
        let p = insert_position(sorted, last, column);
        let head = sorted.take(p);
        let tail = sorted.skip(p);
        let out = sort_rows(rows, column);
        assert(out =~= head + seq![last] + tail);
        assert(sorted =~= head + tail);
        assert(rows =~= front + seq![last]);
        Seq::filter_distributes_over_add(head + seq![last], tail, pred);
        Seq::filter_distributes_over_add(head, seq![last], pred);
        Seq::filter_distributes_over_add(head, tail, pred);
        Seq::filter_distributes_over_add(front, seq![last], pred);
        let one = seq![last];
        one.filter_lemma(pred);
        if sort_key(last, column) == key {
            assert(pred(one[0]));
            assert(one.filter(pred).contains(one[0]));
            assert(one.filter(pred) =~= one);
            assert forall|i: int| 0 <= i < tail.len() implies sort_key(
                #[trigger] tail[i],
                column,
            ) != key by {
                let first = sort_key(sorted[p], column);
                let here = sort_key(sorted[p + i], column);
                assert(tail[i] == sorted[p + i]);
                assert(text_lt(first, key));
                lemma_text_le_total(first, first);
                if i > 0 {
                    assert(text_le(here, first));
                }
            }
            lemma_no_row_with_key(tail, column, key);
            assert(head.filter(pred) + tail.filter(pred) =~= head.filter(pred));
        } else {
            lemma_no_row_with_key(one, column, key);
            assert(head.filter(pred) + one.filter(pred) =~= head.filter(pred));
            assert(front.filter(pred) + one.filter(pred) =~= front.filter(pred));
        }
    }
}

/// The string a row holds under `column`, and the empty string where it holds none.
pub fn row_key<'a>(row: &'a Json, column: &str) -> (r: &'a str)
    ensures
        r@ == sort_key(row@, column@),
{
    proof {
        reveal_strlit("");
        assert(""@ =~= Seq::<char>::empty());
    }
    match row.get(column) {
        Some(value) => match value.as_str() {
            Some(s) => s,
            None => "",
        },
        None => "",
    }
}

/// Puts `row` into `rows` at its position.
pub fn insert_sorted(rows: &mut Vec<Json>, row: Json, column: &str)
    ensures
        items_view(final(rows)@) == insert_row(items_view(old(rows)@), row@, column@),
{
    let ghost before = items_view(rows@);
    let mut at: usize = 0;
    let key = row_key(&row, column);
    loop
        invariant
            at <= rows.len(),
            before == items_view(rows@),
            rows == old(rows),
            key@ == sort_key(row@, column@),
            forall|k: int|
                0 <= k < at ==> !text_lt(sort_key(#[trigger] before[k], column@), key@),
        ensures
            at <= rows.len(),
            at < rows.len() ==> text_lt(sort_key(before[at as int], column@), key@),
        decreases rows.len() - at,
    {
        if at >= rows.len() {
            break;
        }
        if str_lt(row_key(&rows[at], column), key) {
            break;
        }
        at += 1;
    }
    proof {
        lemma_insert_position_unique(before, row@, column@, at as int);
    }
    rows.insert(at, row);
    assert(items_view(rows@) =~= before.insert(at as int, row@));
}

} // verus!
