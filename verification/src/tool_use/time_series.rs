//! Time series responses as tables: one row for each point in time, most recent first.

use vstd::prelude::*;
use vstd::string::StringExecFns;
use crate::error::{Error, ErrorView};
use crate::json::{items_view, lemma_object_view, members_view, Json, JsonValue, Member};
use crate::tool_use::schema::{
    column_names, copied_member, field_or_null, make_number_column, make_string_column,
    names_distinct, number_column, outcome_view, row_keys, schema_view, string_column, ColumnDef,
    ColumnView, Schema, TableView, TransformResult,
};
use crate::text::text_le;
use crate::tool_use::sorting::{
    insert_sorted, lemma_sort_rows_descending, lemma_sorted_row_is_a_row, sort_key, sort_rows,
};

verus! {

/// The row of one point in time: when it was, then the five quotes, each null where
/// the response gives none.
pub open spec fn quote_row(
    date_column: Seq<char>,
    stamp: Seq<char>,
    quotes: JsonValue,
) -> JsonValue {
    JsonValue::Object(
        seq![
            (date_column, JsonValue::Text(stamp)),
            ("open"@, field_or_null(quotes, "1. open"@)),
            ("high"@, field_or_null(quotes, "2. high"@)),
            ("low"@, field_or_null(quotes, "3. low"@)),
            ("close"@, field_or_null(quotes, "4. close"@)),
            ("volume"@, field_or_null(quotes, "5. volume"@)),
        ],
    )
}

/// The row that a member of the time series block gives: one where the member holds
/// an object, none where it holds anything else.
pub open spec fn quote_row_of(date_column: Seq<char>) -> spec_fn((Seq<char>, JsonValue)) -> Option<
    JsonValue,
> {
    |member: (Seq<char>, JsonValue)|
        if member.1 is Object {
            Some(quote_row(date_column, member.0, member.1))
        } else {
            None
        }
}

/// The rows of a time series block, in the block's order.
pub open spec fn quote_rows(date_column: Seq<char>, block: Seq<(Seq<char>, JsonValue)>) -> Seq<
    JsonValue,
> {
    block.filter_map(quote_row_of(date_column))
}

/// The six columns of every time series table.
pub open spec fn time_series_schema(date_column: Seq<char>, date_alias: Seq<char>) -> Seq<
    ColumnView,
> {
    seq![
        string_column(date_column, date_alias),
        number_column("open"@, "Open"@),
        number_column("high"@, "High"@),
        number_column("low"@, "Low"@),
        number_column("close"@, "Close"@),
        number_column("volume"@, "Volume"@),
    ]
}

/// What is said of a response that lacks the block `key`.
pub open spec fn missing_block_message(key: Seq<char>) -> Seq<char> {
    "No '"@ + key + "' data found in response"@
}

/// The table of a time series response: its rows sorted by date, most recent first,
/// and its `Meta Data` as metadata. A response whose `block_key` is missing, or is
/// no object, has no table.
pub open spec fn time_series_table(
    response: JsonValue,
    block_key: Seq<char>,
    date_column: Seq<char>,
    date_alias: Seq<char>,
) -> Result<TableView, ErrorView> {
    match response.get(block_key) {
        Some(JsonValue::Object(block)) => Ok(
            TableView {
                rows: sort_rows(quote_rows(date_column, block), date_column),
                schema: time_series_schema(date_column, date_alias),
                metadata: response.get("Meta Data"@),
            },
        ),
        _ => Err(ErrorView::TransformError(missing_block_message(block_key))),
    }
}

/// The key of the block that holds an intraday series of the given interval.
pub open spec fn intraday_block_key(interval: Seq<char>) -> Seq<char> {
    "Time Series ("@ + interval + ")"@
}

/// Every row of a time series table is the row of some point in time.
pub proof fn lemma_time_series_row(
    response: JsonValue,
    block_key: Seq<char>,
    date_column: Seq<char>,
    date_alias: Seq<char>,
    i: int,
) -> (point: (Seq<char>, JsonValue))
    requires
        time_series_table(response, block_key, date_column, date_alias) is Ok,
        0 <= i < time_series_table(response, block_key, date_column, date_alias)->Ok_0.rows.len(),
    ensures
        time_series_table(response, block_key, date_column, date_alias)->Ok_0.rows[i] == quote_row(
            date_column,
            point.0,
            point.1,
        ),
{
    let block = response.get(block_key)->Some_0->Object_0;
    let rows = quote_rows(date_column, block);
    let row = sort_rows(rows, date_column)[i];
    lemma_sorted_row_is_a_row(rows, date_column, i);
    block.lemma_filter_map_contains(quote_row_of(date_column), row);
    choose|m: (Seq<char>, JsonValue)| #[trigger]
        block.contains(m) && quote_row_of(date_column)(m) == Some(row)
}

/// A time series table has six columns: the date column, then `open`, `high`, `low`,
/// `close` and `volume`. Every row holds exactly these six keys, in this order.
pub proof fn law_time_series_columns(
    response: JsonValue,
    block_key: Seq<char>,
    date_column: Seq<char>,
    date_alias: Seq<char>,
)
    requires
        time_series_table(response, block_key, date_column, date_alias) is Ok,
    ensures
        ({
            let table = time_series_table(response, block_key, date_column, date_alias)->Ok_0;
            &&& table.schema.len() == 6
            &&& column_names(table.schema) == seq![
                date_column,
                "open"@,
                "high"@,
                "low"@,
                "close"@,
                "volume"@,
            ]
            &&& forall|i: int|
                0 <= i < table.rows.len() ==> #[trigger] row_keys(table.rows[i]) == column_names(
                    table.schema,
                )
        }),
{
    let table = time_series_table(response, block_key, date_column, date_alias)->Ok_0;
    let names = seq![date_column, "open"@, "high"@, "low"@, "close"@, "volume"@];
    assert(column_names(table.schema) =~= names);
    assert forall|i: int| 0 <= i < table.rows.len() implies #[trigger] row_keys(table.rows[i])
        == column_names(table.schema) by {
        let point = lemma_time_series_row(response, block_key, date_column, date_alias, i);
        assert(row_keys(quote_row(date_column, point.0, point.1)) =~= names);
    }
}

/// The rows of a time series table are in descending order of the date column: no
/// row holds a later date than a row in front of it, and every row holds its date as
/// a string.
pub proof fn law_time_series_order(
    response: JsonValue,
    block_key: Seq<char>,
    date_column: Seq<char>,
    date_alias: Seq<char>,
)
    requires
        time_series_table(response, block_key, date_column, date_alias) is Ok,
    ensures
        ({
            let table = time_series_table(response, block_key, date_column, date_alias)->Ok_0;
            &&& forall|i: int, j: int|
                0 <= i < j < table.rows.len() ==> text_le(
                    #[trigger] sort_key(table.rows[j], date_column),
                    #[trigger] sort_key(table.rows[i], date_column),
                )
            &&& forall|i: int|
                0 <= i < table.rows.len() ==> (#[trigger] table.rows[i]).get(date_column) == Some(
                    JsonValue::Text(sort_key(table.rows[i], date_column)),
                )
        }),
{
    let table = time_series_table(response, block_key, date_column, date_alias)->Ok_0;
    let block = response.get(block_key)->Some_0->Object_0;
    lemma_sort_rows_descending(quote_rows(date_column, block), date_column);
    assert forall|i: int| 0 <= i < table.rows.len() implies (#[trigger] table.rows[i]).get(
        date_column,
    ) == Some(JsonValue::Text(sort_key(table.rows[i], date_column))) by {
        let point = lemma_time_series_row(response, block_key, date_column, date_alias, i);
    }
}

/// The four time series tables have six columns of six different names.
pub proof fn law_time_series_names_distinct()
    ensures
        names_distinct(column_names(time_series_schema("timestamp"@, "Timestamp"@))),
        names_distinct(column_names(time_series_schema("date"@, "Date"@))),
        names_distinct(column_names(time_series_schema("week_ending"@, "Week Ending"@))),
        names_distinct(column_names(time_series_schema("month"@, "Month"@))),
{
    reveal_strlit("timestamp");
    reveal_strlit("date");
    reveal_strlit("week_ending");
    reveal_strlit("month");
    reveal_strlit("open");
    reveal_strlit("high");
    reveal_strlit("low");
    reveal_strlit("close");
    reveal_strlit("volume");
    assert("timestamp"@[0] == 't' && "date"@[0] == 'd' && "week_ending"@[0] == 'w');
    assert("month"@[0] == 'm' && "open"@[0] == 'o' && "high"@[0] == 'h');
    assert("low"@[0] == 'l' && "close"@[0] == 'c' && "volume"@[0] == 'v');
}

fn make_quote_row(date_column: &str, stamp: &str, quotes: &Json) -> (r: Json)
    ensures
        r@ == quote_row(date_column@, stamp@, quotes@),
{
    let mut members: Vec<Member> = Vec::new();
    members.push(Member { key: date_column.to_owned(), value: Json::Text(stamp.to_owned()) });
    members.push(copied_member("open", quotes, "1. open"));
    members.push(copied_member("high", quotes, "2. high"));
    members.push(copied_member("low", quotes, "3. low"));
    members.push(copied_member("close", quotes, "4. close"));
    members.push(copied_member("volume", quotes, "5. volume"));
    proof {
        lemma_object_view(members);
        assert(members_view(members@) =~= quote_row(date_column@, stamp@, quotes@)->Object_0);
    }
    Json::Object(members)
}

fn make_time_series_schema(date_column: &str, date_alias: &str) -> (r: Schema)
    ensures
        schema_view(r@) == time_series_schema(date_column@, date_alias@),
{
    let mut schema: Vec<ColumnDef> = Vec::new();
    schema.push(make_string_column(date_column, date_alias));
    schema.push(make_number_column("open", "Open"));
    schema.push(make_number_column("high", "High"));
    schema.push(make_number_column("low", "Low"));
    schema.push(make_number_column("close", "Close"));
    schema.push(make_number_column("volume", "Volume"));
    assert(schema_view(schema@) =~= time_series_schema(date_column@, date_alias@));
    schema
}

/// Turns a time series response into a table. `block_key` names the block that holds
/// the series, `date_column` the column that takes each point's time.
pub fn transform_time_series(
    response: &Json,
    block_key: &str,
    date_column: &str,
    date_alias: &str,
) -> (r: Result<TransformResult, Error>)
    ensures
        outcome_view(r) == time_series_table(response@, block_key@, date_column@, date_alias@),
{
    let metadata = match response.get("Meta Data") {
        Some(m) => Some(m.clone()),
        None => None,
    };
    let block = match response.get(block_key) {
        Some(value) => value.as_object(),
        None => None,
    };
    match block {
        Some(members) => {
            let ghost all = members_view(members@);
            let ghost maker = quote_row_of(date_column@);
            let mut rows: Vec<Json> = Vec::new();
            let mut i: usize = 0;
            assert(items_view(rows@) =~= sort_rows(all.take(0).filter_map(maker), date_column@));
            while i < members.len()
                invariant
                    i <= members.len(),
                    all == members_view(members@),
                    maker == quote_row_of(date_column@),
                    items_view(rows@) == sort_rows(
                        all.take(i as int).filter_map(maker),
                        date_column@,
                    ),
                decreases members.len() - i,
            {
                let ghost done = all.take(i as int).filter_map(maker);
                proof {
                    all.lemma_filter_map_take_succ(maker, i as int);
                    assert(all[i as int] == (members@[i as int].key@, members@[i as int].value@));
                }
                let member = &members[i];
                if let Json::Object(_) = &member.value {
                    let row = make_quote_row(date_column, member.key.as_str(), &member.value);
                    proof {
                        let next = done + seq![row@];
                        assert(next.drop_last() =~= done);
                        assert(next.last() == row@);
                    }
                    insert_sorted(&mut rows, row, date_column);
                }
                i += 1;
            }
            assert(all.take(i as int) =~= all);
            Ok(
                TransformResult {
                    rows,
                    schema: make_time_series_schema(date_column, date_alias),
                    metadata,
                },
            )
        },
        None => {
            let detail = String::from_str("No '").concat(block_key).concat(
                "' data found in response",
            );
            Err(Error::TransformError(detail))
        },
    }
}

/// Turns an intraday response into a table with a `timestamp` column. `interval` is
/// the interval that was asked for; it names the block that holds the series.
pub fn transform_intraday_response(response: &Json, interval: &str) -> (r: Result<
    TransformResult,
    Error,
>)
    ensures
        outcome_view(r) == time_series_table(
            response@,
            intraday_block_key(interval@),
            "timestamp"@,
            "Timestamp"@,
        ),
{
    let block_key = String::from_str("Time Series (").concat(interval).concat(")");
    transform_time_series(response, block_key.as_str(), "timestamp", "Timestamp")
}

/// Turns a daily response into a table with a `date` column.
pub fn transform_daily_response(response: &Json) -> (r: Result<TransformResult, Error>)
    ensures
        outcome_view(r) == time_series_table(response@, "Time Series (Daily)"@, "date"@, "Date"@),
{
    transform_time_series(response, "Time Series (Daily)", "date", "Date")
}

/// Turns a weekly response into a table with a `week_ending` column.
pub fn transform_weekly_response(response: &Json) -> (r: Result<TransformResult, Error>)
    ensures
        outcome_view(r) == time_series_table(
            response@,
            "Weekly Time Series"@,
            "week_ending"@,
            "Week Ending"@,
        ),
{
    transform_time_series(response, "Weekly Time Series", "week_ending", "Week Ending")
}

/// Turns a monthly response into a table with a `month` column.
pub fn transform_monthly_response(response: &Json) -> (r: Result<TransformResult, Error>)
    ensures
        outcome_view(r) == time_series_table(response@, "Monthly Time Series"@, "month"@, "Month"@),
{
    transform_time_series(response, "Monthly Time Series", "month", "Month")
}

} // verus!
