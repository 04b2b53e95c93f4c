//! Fundamentals responses as tables: the company overview as a single row, and
//! earnings, estimates and the three financial statements as one row for each report,
//! most recent first.

use vstd::prelude::*;
use crate::error::{Error, ErrorView};
use crate::json::{items_view, lemma_object_view, members_view, Json, JsonValue, Member};
use crate::tool_use::schema::{
    column_names, copied_member, field_or_null, make_number_column, make_string_column,
    names_distinct, number_column, outcome_view, row_keys, schema_view, string_column, ColumnDef,
    ColumnView, Schema, TableView, TransformResult,
};
use crate::tool_use::sorting::{
    insert_rows, insert_sorted, is_descending, lemma_sort_rows_append, lemma_sort_rows_descending,
    lemma_sort_rows_len, lemma_sorted_row_is_a_row, sort_rows,
};

verus! {

/// One column of a report table, and where its values come from.
pub struct Field {
    /// The column's name.
    pub name: &'static str,
    /// The column's display label.
    pub alias: &'static str,
    /// Whether the column holds numbers, not strings.
    pub numeric: bool,
    /// The key under which a report holds the value.
    pub source: &'static str,
    /// Whether only quarterly reports hold a value.
    pub quarterly_only: bool,
}

/// The mathematical value of a [`Field`].
pub struct FieldView {
    pub name: Seq<char>,
    pub alias: Seq<char>,
    pub numeric: bool,
    pub source: Seq<char>,
    pub quarterly_only: bool,
}

impl View for Field {
    type V = FieldView;

    open spec fn view(&self) -> FieldView {
        FieldView {
            name: self.name@,
            alias: self.alias@,
            numeric: self.numeric,
            source: self.source@,
            quarterly_only: self.quarterly_only,
        }
    }
}

/// The values of a list of fields.
pub open spec fn fields_view(fields: Seq<Field>) -> Seq<FieldView> {
    Seq::new(fields.len(), |i: int| fields[i]@)
}

/// A field of strings that every report holds.
pub open spec fn text_field(name: Seq<char>, alias: Seq<char>, source: Seq<char>) -> FieldView {
    FieldView { name, alias, numeric: false, source, quarterly_only: false }
}

/// A field of numbers that every report holds.
pub open spec fn number_field(name: Seq<char>, alias: Seq<char>, source: Seq<char>) -> FieldView {
    FieldView { name, alias, numeric: true, source, quarterly_only: false }
}

/// Which kind of report a row comes from.
pub enum Period {
    Annual,
    Quarterly,
}

impl Period {
    /// The tag that rows of this period carry.
    pub open spec fn tag(self) -> Seq<char> {
        match self {
            Period::Annual => "annual"@,
            Period::Quarterly => "quarterly"@,
        }
    }
}

/// The column of a field.
pub open spec fn field_column(field: FieldView) -> ColumnView {
    if field.numeric {
        number_column(field.name, field.alias)
    } else {
        string_column(field.name, field.alias)
    }
}

/// The value a report gives to a field: what it holds under the field's source key,
/// and null where it holds nothing there or the field is not of its period.
pub open spec fn field_value(
    field: FieldView,
    period: Option<Period>,
    report: JsonValue,
) -> JsonValue {
    if field.quarterly_only && period == Some(Period::Annual) {
        JsonValue::Null
    } else {
        field_or_null(report, field.source)
    }
}

/// The member that leads a row of a table whose rows carry their period.
pub open spec fn period_members(period: Option<Period>) -> Seq<(Seq<char>, JsonValue)> {
    match period {
        Some(p) => seq![("period_type"@, JsonValue::Text(p.tag()))],
        None => Seq::empty(),
    }
}

/// The row of one report: its period where the table carries one, then a member for
/// each field.
pub open spec fn report_row(
    period: Option<Period>,
    fields: Seq<FieldView>,
    report: JsonValue,
) -> JsonValue {
    JsonValue::Object(
        period_members(period) + Seq::new(
            fields.len(),
            |i: int| (fields[i].name, field_value(fields[i], period, report)),
        ),
    )
}

/// The reports that a response holds under `key`: the items of the array there, and
/// none where there is no array.
pub open spec fn reports_under(response: JsonValue, key: Seq<char>) -> Seq<JsonValue> {
    match response.get(key) {
        Some(JsonValue::Array(items)) => items,
        _ => Seq::empty(),
    }
}

/// The rows of a list of reports, in the list's order.
pub open spec fn report_rows(
    period: Option<Period>,
    fields: Seq<FieldView>,
    reports: Seq<JsonValue>,
) -> Seq<JsonValue> {
    Seq::new(reports.len(), |i: int| report_row(period, fields, reports[i]))
}

/// The columns of a report table: the period where rows carry one, then a column for
/// each field.
pub open spec fn report_schema(with_period: bool, fields: Seq<FieldView>) -> Seq<ColumnView> {
    (if with_period {
        seq![string_column("period_type"@, "Period Type"@)]
    } else {
        Seq::empty()
    }) + Seq::new(fields.len(), |i: int| field_column(fields[i]))
}

/// The metadata of a fundamentals table: the response's symbol, where it has one.
pub open spec fn symbol_metadata(response: JsonValue) -> Option<JsonValue> {
    match response.get("symbol"@) {
        Some(symbol) => Some(JsonValue::Object(seq![("symbol"@, symbol)])),
        None => None,
    }
}

/// The table of a response that holds annual reports under one key and quarterly
/// reports under another: a row for each report, the annual ones first, then sorted
/// by `fiscal_date_ending`, most recent first.
pub open spec fn periodic_table(
    response: JsonValue,
    annual_key: Seq<char>,
    quarterly_key: Seq<char>,
    fields: Seq<FieldView>,
) -> TableView {
    TableView {
        rows: sort_rows(
            report_rows(Some(Period::Annual), fields, reports_under(response, annual_key))
                + report_rows(
                Some(Period::Quarterly),
                fields,
                reports_under(response, quarterly_key),
            ),
            "fiscal_date_ending"@,
        ),
        schema: report_schema(true, fields),
        metadata: symbol_metadata(response),
    }
}

/// A periodic table has a row for each annual and each quarterly report of the
/// response, where a missing array counts as no reports, and every row carries the
/// period `annual` or `quarterly`.
pub proof fn law_periodic_rows(
    response: JsonValue,
    annual_key: Seq<char>,
    quarterly_key: Seq<char>,
    fields: Seq<FieldView>,
)
    ensures
        ({
            let table = periodic_table(response, annual_key, quarterly_key, fields);
            &&& table.rows.len() == reports_under(response, annual_key).len() + reports_under(
                response,
                quarterly_key,
            ).len()
            &&& response.get(annual_key) is None ==> reports_under(response, annual_key).len() == 0
            &&& response.get(quarterly_key) is None ==> reports_under(response, quarterly_key).len()
                == 0
            &&& forall|i: int|
                0 <= i < table.rows.len() ==> {
                    let period = (#[trigger] table.rows[i]).get("period_type"@);
                    period == Some(JsonValue::Text("annual"@)) || period == Some(
                        JsonValue::Text("quarterly"@),
                    )
                }
        }),
{
    let table = periodic_table(response, annual_key, quarterly_key, fields);
    let annual = report_rows(Some(Period::Annual), fields, reports_under(response, annual_key));
    let quarterly = report_rows(
        Some(Period::Quarterly),
        fields,
        reports_under(response, quarterly_key),
    );
    let column = "fiscal_date_ending"@;
    lemma_sort_rows_len(annual + quarterly, column);
    assert forall|i: int| 0 <= i < table.rows.len() implies {
        let period = (#[trigger] table.rows[i]).get("period_type"@);
        period == Some(JsonValue::Text("annual"@)) || period == Some(JsonValue::Text("quarterly"@))
    } by {
        lemma_sorted_row_is_a_row(annual + quarterly, column, i);
        let row = table.rows[i];
        let all = annual + quarterly;
        let k = choose|k: int| 0 <= k < all.len() && all[k] == row;
        if k < annual.len() {
            assert(row == annual[k]);
            assert(row->Object_0[0] == ("period_type"@, JsonValue::Text("annual"@)));
        } else {
            assert(row == quarterly[k - annual.len()]);
            assert(row->Object_0[0] == ("period_type"@, JsonValue::Text("quarterly"@)));
        }
    }
}

/// The keys of a report's row are the names of the report table's columns, in order.
pub proof fn lemma_report_row_keys(
    period: Option<Period>,
    fields: Seq<FieldView>,
    report: JsonValue,
)
    ensures
        row_keys(report_row(period, fields, report)) == column_names(
            report_schema(period is Some, fields),
        ),
{
    assert(row_keys(report_row(period, fields, report)) =~= column_names(
        report_schema(period is Some, fields),
    ));
}

/// Every row of a periodic table holds exactly the table's columns, in their order.
pub proof fn law_periodic_columns(
    response: JsonValue,
    annual_key: Seq<char>,
    quarterly_key: Seq<char>,
    fields: Seq<FieldView>,
)
    ensures
        ({
            let table = periodic_table(response, annual_key, quarterly_key, fields);
            forall|i: int|
                0 <= i < table.rows.len() ==> #[trigger] row_keys(table.rows[i]) == column_names(
                    table.schema,
                )
        }),
{
    let table = periodic_table(response, annual_key, quarterly_key, fields);
    let annual = report_rows(Some(Period::Annual), fields, reports_under(response, annual_key));
    let quarterly = report_rows(
        Some(Period::Quarterly),
        fields,
        reports_under(response, quarterly_key),
    );
    assert forall|i: int| 0 <= i < table.rows.len() implies #[trigger] row_keys(table.rows[i])
        == column_names(table.schema) by {
        lemma_sorted_row_is_a_row(annual + quarterly, "fiscal_date_ending"@, i);
        let row = table.rows[i];
        let all = annual + quarterly;
        let k = choose|k: int| 0 <= k < all.len() && all[k] == row;
        if k < annual.len() {
            lemma_report_row_keys(
                Some(Period::Annual),
                fields,
                reports_under(response, annual_key)[k],
            );
        } else {
            lemma_report_row_keys(
                Some(Period::Quarterly),
                fields,
                reports_under(response, quarterly_key)[k - annual.len()],
            );
        }
    }
}

/// Every row of an earnings estimates table holds exactly the table's columns, in
/// their order.
pub proof fn law_estimates_columns(response: JsonValue)
    ensures
        ({
            let table = earnings_estimates_table(response);
            forall|i: int|
                0 <= i < table.rows.len() ==> #[trigger] row_keys(table.rows[i]) == column_names(
                    table.schema,
                )
        }),
{
    let table = earnings_estimates_table(response);
    let reports = reports_under(response, "estimates"@);
    let rows = report_rows(None, earnings_estimates_fields(), reports);
    assert forall|i: int| 0 <= i < table.rows.len() implies #[trigger] row_keys(table.rows[i])
        == column_names(table.schema) by {
        lemma_sorted_row_is_a_row(rows, "date"@, i);
        let k = choose|k: int| 0 <= k < rows.len() && rows[k] == table.rows[i];
        lemma_report_row_keys(None, earnings_estimates_fields(), reports[k]);
    }
}

/// The rows of a periodic table are in descending order of `fiscal_date_ending`.
pub proof fn law_periodic_order(
    response: JsonValue,
    annual_key: Seq<char>,
    quarterly_key: Seq<char>,
    fields: Seq<FieldView>,
)
    ensures
        is_descending(
            periodic_table(response, annual_key, quarterly_key, fields).rows,
            "fiscal_date_ending"@,
        ),
{
    lemma_sort_rows_descending(
        report_rows(Some(Period::Annual), fields, reports_under(response, annual_key))
            + report_rows(Some(Period::Quarterly), fields, reports_under(response, quarterly_key)),
        "fiscal_date_ending"@,
    );
}

/// An earnings estimates table has a row for each estimate of the response, in
/// descending order of `date`.
pub proof fn law_estimates_rows(response: JsonValue)
    ensures
        earnings_estimates_table(response).rows.len() == reports_under(
            response,
            "estimates"@,
        ).len(),
        is_descending(earnings_estimates_table(response).rows, "date"@),
{
    let rows = report_rows(
        None,
        earnings_estimates_fields(),
        reports_under(response, "estimates"@),
    );
    lemma_sort_rows_len(rows, "date"@);
    lemma_sort_rows_descending(rows, "date"@);
}

fn make_field(name: &'static str, alias: &'static str, numeric: bool, source: &'static str) -> (r:
    Field)
    ensures
        r@ == (FieldView {
            name: name@,
            alias: alias@,
            numeric,
            source: source@,
            quarterly_only: false,
        }),
{
    Field { name, alias, numeric, source, quarterly_only: false }
}

fn make_quarterly_field(
    name: &'static str,
    alias: &'static str,
    numeric: bool,
    source: &'static str,
) -> (r: Field)
    ensures
        r@ == (FieldView {
            name: name@,
            alias: alias@,
            numeric,
            source: source@,
            quarterly_only: true,
        }),
{
    Field { name, alias, numeric, source, quarterly_only: true }
}

fn make_period_tag(period: &Period) -> (r: Json)
    ensures
        r@ == JsonValue::Text(period.tag()),
{
    match period {
        Period::Annual => Json::Text("annual".to_owned()),
        Period::Quarterly => Json::Text("quarterly".to_owned()),
    }
}

fn make_report_row(period: &Option<Period>, fields: &Vec<Field>, report: &Json) -> (r: Json)
    ensures
        r@ == report_row(*period, fields_view(fields@), report@),
{
    let mut members: Vec<Member> = Vec::new();
    let mut annual = false;
    if let Some(p) = period {
        members.push(Member { key: "period_type".to_owned(), value: make_period_tag(p) });
        if let Period::Annual = p {
            annual = true;
        }
    }
    let ghost lead = period_members(*period);
    let ghost fv = fields_view(fields@);
    assert(members_view(members@) =~= lead);
    let mut i: usize = 0;
    while i < fields.len()
        invariant
            i <= fields.len(),
            fv == fields_view(fields@),
            lead == period_members(*period),
            annual == (*period == Some(Period::Annual)),
            members_view(members@) == lead + Seq::new(
                i as nat,
                |k: int| (fv[k].name, field_value(fv[k], *period, report@)),
            ),
        decreases fields.len() - i,
    {
        let field = &fields[i];
        let ghost before = members_view(members@);
        assert(fv[i as int] == field@);
        if field.quarterly_only && annual {
            members.push(Member { key: field.name.to_owned(), value: Json::Null });
        } else {
            members.push(copied_member(field.name, report, field.source));
        }
        assert(members_view(members@) =~= before.push(
            (fv[i as int].name, field_value(fv[i as int], *period, report@)),
        ));
        i += 1;
        assert(members_view(members@) =~= lead + Seq::new(
            i as nat,
            |k: int| (fv[k].name, field_value(fv[k], *period, report@)),
        ));
    }
    proof {
        lemma_object_view(members);
    }
    Json::Object(members)
}

fn make_report_schema(with_period: bool, fields: &Vec<Field>) -> (r: Schema)
    ensures
        schema_view(r@) == report_schema(with_period, fields_view(fields@)),
{
    let mut schema: Vec<ColumnDef> = Vec::new();
    if with_period {
        schema.push(make_string_column("period_type", "Period Type"));
    }
    let ghost fv = fields_view(fields@);
    let ghost lead = if with_period {
        seq![string_column("period_type"@, "Period Type"@)]
    } else {
        Seq::empty()
    };
    assert(schema_view(schema@) =~= lead);
    let mut i: usize = 0;
    while i < fields.len()
        invariant
            i <= fields.len(),
            fv == fields_view(fields@),
            schema_view(schema@) == lead + Seq::new(i as nat, |k: int| field_column(fv[k])),
        decreases fields.len() - i,
    {
        let field = &fields[i];
        let ghost before = schema_view(schema@);
        assert(fv[i as int] == field@);
        if field.numeric {
            schema.push(make_number_column(field.name, field.alias));
        } else {
            schema.push(make_string_column(field.name, field.alias));
        }
        assert(schema_view(schema@) =~= before.push(field_column(fv[i as int])));
        i += 1;
        assert(schema_view(schema@) =~= lead + Seq::new(i as nat, |k: int| field_column(fv[k])));
    }
    schema
}

fn make_symbol_metadata(response: &Json) -> (r: Option<Json>)
    ensures
        crate::json::option_view(r) == symbol_metadata(response@),
{
    match response.get("symbol") {
        Some(symbol) => {
            let mut members: Vec<Member> = Vec::new();
            members.push(Member { key: "symbol".to_owned(), value: symbol.clone() });
            proof {
                lemma_object_view(members);
                assert(members_view(members@) =~= seq![("symbol"@, symbol@)]);
            }
            Some(Json::Object(members))
        },
        None => None,
    }
}

/// Puts the rows of the reports that `response` holds under `key` into `rows`.
fn add_report_rows(
    rows: &mut Vec<Json>,
    response: &Json,
    key: &str,
    period: &Option<Period>,
    fields: &Vec<Field>,
    sort_column: &str,
)
    ensures
        items_view(final(rows)@) == insert_rows(
            items_view(old(rows)@),
            report_rows(*period, fields_view(fields@), reports_under(response@, key@)),
            sort_column@,
        ),
{
    let reports = match response.get(key) {
        Some(value) => value.as_array(),
        None => None,
    };
    let ghost start = items_view(rows@);
    let ghost fv = fields_view(fields@);
    let ghost wanted = report_rows(*period, fv, reports_under(response@, key@));
    match reports {
        Some(items) => {
            let mut i: usize = 0;
            assert(wanted.take(0) =~= Seq::<JsonValue>::empty());
            while i < items.len()
                invariant
                    i <= items.len(),
                    fv == fields_view(fields@),
                    wanted == report_rows(*period, fv, items_view(items@)),
                    items_view(rows@) == insert_rows(start, wanted.take(i as int), sort_column@),
                decreases items.len() - i,
            {
                let row = make_report_row(period, fields, &items[i]);
                proof {
                    assert(wanted.take(i + 1).drop_last() =~= wanted.take(i as int));
                    assert(wanted.take(i + 1).last() == row@);
                }
                insert_sorted(rows, row, sort_column);
                i += 1;
            }
            assert(wanted.take(i as int) =~= wanted);
        },
        None => {
            assert(wanted =~= Seq::<JsonValue>::empty());
        },
    }
}

/// Turns a response that holds annual and quarterly reports into a table.
pub fn transform_periodic(
    response: &Json,
    annual_key: &str,
    quarterly_key: &str,
    fields: &Vec<Field>,
) -> (r: TransformResult)
    ensures
        r@ == periodic_table(response@, annual_key@, quarterly_key@, fields_view(fields@)),
{
    let metadata = make_symbol_metadata(response);
    let mut rows: Vec<Json> = Vec::new();
    let ghost fv = fields_view(fields@);
    let ghost annual = report_rows(Some(Period::Annual), fv, reports_under(response@, annual_key@));
    let ghost quarterly = report_rows(
        Some(Period::Quarterly),
        fv,
        reports_under(response@, quarterly_key@),
    );
    assert(items_view(rows@) =~= Seq::<JsonValue>::empty());
    add_report_rows(
        &mut rows,
        response,
        annual_key,
        &Some(Period::Annual),
        fields,
        "fiscal_date_ending",
    );
    add_report_rows(
        &mut rows,
        response,
        quarterly_key,
        &Some(Period::Quarterly),
        fields,
        "fiscal_date_ending",
    );
    proof {
        let column = "fiscal_date_ending"@;
        lemma_sort_rows_append(Seq::empty(), annual, column);
        assert(Seq::<JsonValue>::empty() + annual =~= annual);
        lemma_sort_rows_append(annual, quarterly, column);
    }
    TransformResult { rows, schema: make_report_schema(true, fields), metadata }
}

/// The fields of an income statement.
pub open spec fn income_statement_fields() -> Seq<FieldView> {
    seq![
        text_field("fiscal_date_ending"@, "Fiscal Date Ending"@, "fiscalDateEnding"@),
        number_field("total_revenue"@, "Total Revenue"@, "totalRevenue"@),
        number_field("cost_of_revenue"@, "Cost of Revenue"@, "costOfRevenue"@),
        number_field("gross_profit"@, "Gross Profit"@, "grossProfit"@),
        number_field("operating_income"@, "Operating Income"@, "operatingIncome"@),
        number_field("net_income"@, "Net Income"@, "netIncome"@),
        number_field("ebitda"@, "EBITDA"@, "ebitda"@),
        number_field("ebit"@, "EBIT"@, "ebit"@),
        number_field("income_before_tax"@, "Income Before Tax"@, "incomeBeforeTax"@),
        number_field("income_tax_expense"@, "Income Tax Expense"@, "incomeTaxExpense"@),
    ]
}

/// The fields of an income statement.
pub fn income_statement_field_list() -> (r: Vec<Field>)
    ensures
        fields_view(r@) == income_statement_fields(),
{
    let mut fields: Vec<Field> = Vec::new();
    fields.push(make_field("fiscal_date_ending", "Fiscal Date Ending", false, "fiscalDateEnding"));
    fields.push(make_field("total_revenue", "Total Revenue", true, "totalRevenue"));
    fields.push(make_field("cost_of_revenue", "Cost of Revenue", true, "costOfRevenue"));
    fields.push(make_field("gross_profit", "Gross Profit", true, "grossProfit"));
    fields.push(make_field("operating_income", "Operating Income", true, "operatingIncome"));
    fields.push(make_field("net_income", "Net Income", true, "netIncome"));
    fields.push(make_field("ebitda", "EBITDA", true, "ebitda"));
    fields.push(make_field("ebit", "EBIT", true, "ebit"));
    fields.push(make_field("income_before_tax", "Income Before Tax", true, "incomeBeforeTax"));
    fields.push(make_field("income_tax_expense", "Income Tax Expense", true, "incomeTaxExpense"));
    assert(fields_view(fields@) =~= income_statement_fields());
    fields
}

/// The fields of a balance sheet.
pub open spec fn balance_sheet_fields() -> Seq<FieldView> {
    seq![
        text_field("fiscal_date_ending"@, "Fiscal Date Ending"@, "fiscalDateEnding"@),
        number_field("total_assets"@, "Total Assets"@, "totalAssets"@),
        number_field("total_current_assets"@, "Total Current Assets"@, "totalCurrentAssets"@),
        number_field(
            "cash_and_cash_equivalents"@,
            "Cash & Cash Equivalents"@,
            "cashAndCashEquivalentsAtCarryingValue"@,
        ),
        number_field("total_liabilities"@, "Total Liabilities"@, "totalLiabilities"@),
        number_field(
            "total_current_liabilities"@,
            "Total Current Liabilities"@,
            "totalCurrentLiabilities"@,
        ),
        number_field(
            "total_shareholder_equity"@,
            "Total Shareholder Equity"@,
            "totalShareholderEquity"@,
        ),
        number_field("retained_earnings"@, "Retained Earnings"@, "retainedEarnings"@),
        number_field("common_stock"@, "Common Stock"@, "commonStock"@),
    ]
}

/// The fields of a balance sheet.
pub fn balance_sheet_field_list() -> (r: Vec<Field>)
    ensures
        fields_view(r@) == balance_sheet_fields(),
{
    let mut fields: Vec<Field> = Vec::new();
    fields.push(make_field("fiscal_date_ending", "Fiscal Date Ending", false, "fiscalDateEnding"));
    fields.push(make_field("total_assets", "Total Assets", true, "totalAssets"));
    fields.push(
        make_field("total_current_assets", "Total Current Assets", true, "totalCurrentAssets"),
    );
    fields.push(
        make_field(
            "cash_and_cash_equivalents",
            "Cash & Cash Equivalents",
            true,
            "cashAndCashEquivalentsAtCarryingValue",
        ),
    );
    fields.push(make_field("total_liabilities", "Total Liabilities", true, "totalLiabilities"));
    fields.push(
        make_field(
            "total_current_liabilities",
            "Total Current Liabilities",
            true,
            "totalCurrentLiabilities",
        ),
    );
    fields.push(
        make_field(
            "total_shareholder_equity",
            "Total Shareholder Equity",
            true,
            "totalShareholderEquity",
        ),
    );
    fields.push(make_field("retained_earnings", "Retained Earnings", true, "retainedEarnings"));
    fields.push(make_field("common_stock", "Common Stock", true, "commonStock"));
    assert(fields_view(fields@) =~= balance_sheet_fields());
    fields
}

/// The fields of a cash flow statement.
pub open spec fn cash_flow_fields() -> Seq<FieldView> {
    seq![
        text_field("fiscal_date_ending"@, "Fiscal Date Ending"@, "fiscalDateEnding"@),
        number_field("operating_cashflow"@, "Operating Cash Flow"@, "operatingCashflow"@),
        number_field(
            "payments_for_operating_activities"@,
            "Payments for Operating Activities"@,
            "paymentsForOperatingActivities"@,
        ),
        number_field(
            "proceeds_from_operating_activities"@,
            "Proceeds from Operating Activities"@,
            "proceedsFromOperatingActivities"@,
        ),
        number_field(
            "change_in_operating_liabilities"@,
            "Change in Operating Liabilities"@,
            "changeInOperatingLiabilities"@,
        ),
        number_field(
            "change_in_operating_assets"@,
            "Change in Operating Assets"@,
            "changeInOperatingAssets"@,
        ),
        number_field(
            "depreciation_depletion_and_amortization"@,
            "Depreciation & Amortization"@,
            "depreciationDepletionAndAmortization"@,
        ),
        number_field("capital_expenditures"@, "Capital Expenditures"@, "capitalExpenditures"@),
        number_field("change_in_receivables"@, "Change in Receivables"@, "changeInReceivables"@),
        number_field("change_in_inventory"@, "Change in Inventory"@, "changeInInventory"@),
        number_field("profit_loss"@, "Profit/Loss"@, "profitLoss"@),
        number_field(
            "cashflow_from_investment"@,
            "Cash Flow from Investment"@,
            "cashflowFromInvestment"@,
        ),
        number_field(
            "cashflow_from_financing"@,
            "Cash Flow from Financing"@,
            "cashflowFromFinancing"@,
        ),
    ]
}

/// The fields of a cash flow statement.
pub fn cash_flow_field_list() -> (r: Vec<Field>)
    ensures
        fields_view(r@) == cash_flow_fields(),
{
    let mut fields: Vec<Field> = Vec::new();
    fields.push(make_field("fiscal_date_ending", "Fiscal Date Ending", false, "fiscalDateEnding"));
    fields.push(make_field("operating_cashflow", "Operating Cash Flow", true, "operatingCashflow"));
    fields.push(
        make_field(
            "payments_for_operating_activities",
            "Payments for Operating Activities",
            true,
            "paymentsForOperatingActivities",
        ),
    );
    fields.push(
        make_field(
            "proceeds_from_operating_activities",
            "Proceeds from Operating Activities",
            true,
            "proceedsFromOperatingActivities",
        ),
    );
    fields.push(
        make_field(
            "change_in_operating_liabilities",
            "Change in Operating Liabilities",
            true,
            "changeInOperatingLiabilities",
        ),
    );
    fields.push(
        make_field(
            "change_in_operating_assets",
            "Change in Operating Assets",
            true,
            "changeInOperatingAssets",
        ),
    );
    fields.push(
        make_field(
            "depreciation_depletion_and_amortization",
            "Depreciation & Amortization",
            true,
            "depreciationDepletionAndAmortization",
        ),
    );
    fields.push(
        make_field("capital_expenditures", "Capital Expenditures", true, "capitalExpenditures"),
    );
    fields.push(
        make_field("change_in_receivables", "Change in Receivables", true, "changeInReceivables"),
    );
    fields.push(
        make_field("change_in_inventory", "Change in Inventory", true, "changeInInventory"),
    );
    fields.push(make_field("profit_loss", "Profit/Loss", true, "profitLoss"));
    fields.push(
        make_field(
            "cashflow_from_investment",
            "Cash Flow from Investment",
            true,
            "cashflowFromInvestment",
        ),
    );
    fields.push(
        make_field(
            "cashflow_from_financing",
            "Cash Flow from Financing",
            true,
            "cashflowFromFinancing",
        ),
    );
    assert(fields_view(fields@) =~= cash_flow_fields());
    fields
}

/// The fields of an earnings report.
pub open spec fn earnings_fields() -> Seq<FieldView> {
    seq![
        text_field("fiscal_date_ending"@, "Fiscal Date Ending"@, "fiscalDateEnding"@),
        number_field("reported_eps"@, "Reported EPS"@, "reportedEPS"@),
        FieldView {
            name: "reported_date"@,
            alias: "Reported Date"@,
            numeric: false,
            source: "reportedDate"@,
            quarterly_only: true,
        },
        FieldView {
            name: "estimated_eps"@,
            alias: "Estimated EPS"@,
            numeric: true,
            source: "estimatedEPS"@,
            quarterly_only: true,
        },
        FieldView {
            name: "surprise"@,
            alias: "Surprise"@,
            numeric: true,
            source: "surprise"@,
            quarterly_only: true,
        },
        FieldView {
            name: "surprise_percentage"@,
            alias: "Surprise %"@,
            numeric: true,
            source: "surprisePercentage"@,
            quarterly_only: true,
        },
    ]
}

/// The fields of an earnings report.
pub fn earnings_field_list() -> (r: Vec<Field>)
    ensures
        fields_view(r@) == earnings_fields(),
{
    let mut fields: Vec<Field> = Vec::new();
    fields.push(make_field("fiscal_date_ending", "Fiscal Date Ending", false, "fiscalDateEnding"));
    fields.push(make_field("reported_eps", "Reported EPS", true, "reportedEPS"));
    fields.push(make_quarterly_field("reported_date", "Reported Date", false, "reportedDate"));
    fields.push(make_quarterly_field("estimated_eps", "Estimated EPS", true, "estimatedEPS"));
    fields.push(make_quarterly_field("surprise", "Surprise", true, "surprise"));
    fields.push(
        make_quarterly_field("surprise_percentage", "Surprise %", true, "surprisePercentage"),
    );
    assert(fields_view(fields@) =~= earnings_fields());
    fields
}

/// The fields of an earnings estimate.
pub open spec fn earnings_estimates_fields() -> Seq<FieldView> {
    seq![
        text_field("date"@, "Date"@, "date"@),
        text_field("horizon"@, "Horizon"@, "horizon"@),
        number_field("eps_estimate_average"@, "EPS Estimate (Avg)"@, "eps_estimate_average"@),
        number_field("eps_estimate_high"@, "EPS Estimate (High)"@, "eps_estimate_high"@),
        number_field("eps_estimate_low"@, "EPS Estimate (Low)"@, "eps_estimate_low"@),
        number_field(
            "eps_estimate_analyst_count"@,
            "EPS Analyst Count"@,
            "eps_estimate_analyst_count"@,
        ),
        number_field(
            "revenue_estimate_average"@,
            "Revenue Estimate (Avg)"@,
            "revenue_estimate_average"@,
        ),
        number_field(
            "revenue_estimate_high"@,
            "Revenue Estimate (High)"@,
            "revenue_estimate_high"@,
        ),
        number_field("revenue_estimate_low"@, "Revenue Estimate (Low)"@, "revenue_estimate_low"@),
        number_field(
            "revenue_estimate_analyst_count"@,
            "Revenue Analyst Count"@,
            "revenue_estimate_analyst_count"@,
        ),
    ]
}

/// The fields of an earnings estimate.
pub fn earnings_estimates_field_list() -> (r: Vec<Field>)
    ensures
        fields_view(r@) == earnings_estimates_fields(),
{
    let mut fields: Vec<Field> = Vec::new();
    fields.push(make_field("date", "Date", false, "date"));
    fields.push(make_field("horizon", "Horizon", false, "horizon"));
    fields.push(
        make_field("eps_estimate_average", "EPS Estimate (Avg)", true, "eps_estimate_average"),
    );
    fields.push(make_field("eps_estimate_high", "EPS Estimate (High)", true, "eps_estimate_high"));
    fields.push(make_field("eps_estimate_low", "EPS Estimate (Low)", true, "eps_estimate_low"));
    fields.push(
        make_field(
            "eps_estimate_analyst_count",
            "EPS Analyst Count",
            true,
            "eps_estimate_analyst_count",
        ),
    );
    fields.push(
        make_field(
            "revenue_estimate_average",
            "Revenue Estimate (Avg)",
            true,
            "revenue_estimate_average",
        ),
    );
    fields.push(
        make_field(
            "revenue_estimate_high",
            "Revenue Estimate (High)",
            true,
            "revenue_estimate_high",
        ),
    );
    fields.push(
        make_field("revenue_estimate_low", "Revenue Estimate (Low)", true, "revenue_estimate_low"),
    );
    fields.push(
        make_field(
            "revenue_estimate_analyst_count",
            "Revenue Analyst Count",
            true,
            "revenue_estimate_analyst_count",
        ),
    );
    assert(fields_view(fields@) =~= earnings_estimates_fields());
    fields
}

/// The fields of a company overview.
pub open spec fn company_overview_fields() -> Seq<FieldView> {
    seq![
        text_field("Symbol"@, "Symbol"@, "Symbol"@),
        text_field("Name"@, "Company Name"@, "Name"@),
        text_field("AssetType"@, "Asset Type"@, "AssetType"@),
        text_field("Exchange"@, "Exchange"@, "Exchange"@),
        text_field("Currency"@, "Currency"@, "Currency"@),
        text_field("Country"@, "Country"@, "Country"@),
        text_field("Sector"@, "Sector"@, "Sector"@),
        text_field("Industry"@, "Industry"@, "Industry"@),
        number_field("MarketCapitalization"@, "Market Cap"@, "MarketCapitalization"@),
        number_field("EBITDA"@, "EBITDA"@, "EBITDA"@),
        number_field("PERatio"@, "P/E Ratio"@, "PERatio"@),
        number_field("PEGRatio"@, "PEG Ratio"@, "PEGRatio"@),
        number_field("BookValue"@, "Book Value"@, "BookValue"@),
        number_field("DividendPerShare"@, "Dividend Per Share"@, "DividendPerShare"@),
        number_field("DividendYield"@, "Dividend Yield"@, "DividendYield"@),
        number_field("EPS"@, "EPS"@, "EPS"@),
        number_field("RevenuePerShareTTM"@, "Revenue Per Share TTM"@, "RevenuePerShareTTM"@),
        number_field("ProfitMargin"@, "Profit Margin"@, "ProfitMargin"@),
        number_field("OperatingMarginTTM"@, "Operating Margin TTM"@, "OperatingMarginTTM"@),
        number_field("ReturnOnAssetsTTM"@, "Return on Assets TTM"@, "ReturnOnAssetsTTM"@),
        number_field("ReturnOnEquityTTM"@, "Return on Equity TTM"@, "ReturnOnEquityTTM"@),
        number_field("RevenueTTM"@, "Revenue TTM"@, "RevenueTTM"@),
        number_field("GrossProfitTTM"@, "Gross Profit TTM"@, "GrossProfitTTM"@),
    ]
}

/// The fields of a company overview.
pub fn company_overview_field_list() -> (r: Vec<Field>)
    ensures
        fields_view(r@) == company_overview_fields(),
{
    let mut fields: Vec<Field> = Vec::new();
    fields.push(make_field("Symbol", "Symbol", false, "Symbol"));
    fields.push(make_field("Name", "Company Name", false, "Name"));
    fields.push(make_field("AssetType", "Asset Type", false, "AssetType"));
    fields.push(make_field("Exchange", "Exchange", false, "Exchange"));
    fields.push(make_field("Currency", "Currency", false, "Currency"));
    fields.push(make_field("Country", "Country", false, "Country"));
    fields.push(make_field("Sector", "Sector", false, "Sector"));
    fields.push(make_field("Industry", "Industry", false, "Industry"));
    fields.push(make_field("MarketCapitalization", "Market Cap", true, "MarketCapitalization"));
    fields.push(make_field("EBITDA", "EBITDA", true, "EBITDA"));
    fields.push(make_field("PERatio", "P/E Ratio", true, "PERatio"));
    fields.push(make_field("PEGRatio", "PEG Ratio", true, "PEGRatio"));
    fields.push(make_field("BookValue", "Book Value", true, "BookValue"));
    fields.push(make_field("DividendPerShare", "Dividend Per Share", true, "DividendPerShare"));
    fields.push(make_field("DividendYield", "Dividend Yield", true, "DividendYield"));
    fields.push(make_field("EPS", "EPS", true, "EPS"));
    fields.push(
        make_field("RevenuePerShareTTM", "Revenue Per Share TTM", true, "RevenuePerShareTTM"),
    );
    fields.push(make_field("ProfitMargin", "Profit Margin", true, "ProfitMargin"));
    fields.push(
        make_field("OperatingMarginTTM", "Operating Margin TTM", true, "OperatingMarginTTM"),
    );
    fields.push(make_field("ReturnOnAssetsTTM", "Return on Assets TTM", true, "ReturnOnAssetsTTM"));
    fields.push(make_field("ReturnOnEquityTTM", "Return on Equity TTM", true, "ReturnOnEquityTTM"));
    fields.push(make_field("RevenueTTM", "Revenue TTM", true, "RevenueTTM"));
    fields.push(make_field("GrossProfitTTM", "Gross Profit TTM", true, "GrossProfitTTM"));
    assert(fields_view(fields@) =~= company_overview_fields());
    fields
}

/// No two columns of an income statement table have the same name.
pub proof fn law_income_statement_names_distinct()
    ensures
        names_distinct(column_names(report_schema(true, income_statement_fields()))),
{
    let names = column_names(report_schema(true, income_statement_fields()));
    reveal_strlit("period_type");
    reveal_strlit("fiscal_date_ending");
    reveal_strlit("total_revenue");
    reveal_strlit("cost_of_revenue");
    reveal_strlit("gross_profit");
    reveal_strlit("operating_income");
    reveal_strlit("net_income");
    reveal_strlit("ebitda");
    reveal_strlit("ebit");
    reveal_strlit("income_before_tax");
    reveal_strlit("income_tax_expense");
    assert(names.len() == 11);
    assert(names[0] == "period_type"@);
    assert(names[1] == "fiscal_date_ending"@);
    assert(names[2] == "total_revenue"@);
    assert(names[3] == "cost_of_revenue"@);
    assert(names[4] == "gross_profit"@);
    assert(names[5] == "operating_income"@);
    assert(names[6] == "net_income"@);
    assert(names[7] == "ebitda"@);
    assert(names[8] == "ebit"@);
    assert(names[9] == "income_before_tax"@);
    assert(names[10] == "income_tax_expense"@);
    assert("fiscal_date_ending"@[0] == 'f');
    assert("income_tax_expense"@[0] == 'i');
}

/// No two columns of a balance sheet table have the same name.
pub proof fn law_balance_sheet_names_distinct()
    ensures
        names_distinct(column_names(report_schema(true, balance_sheet_fields()))),
{
    let names = column_names(report_schema(true, balance_sheet_fields()));
    reveal_strlit("period_type");
    reveal_strlit("fiscal_date_ending");
    reveal_strlit("total_assets");
    reveal_strlit("total_current_assets");
    reveal_strlit("cash_and_cash_equivalents");
    reveal_strlit("total_liabilities");
    reveal_strlit("total_current_liabilities");
    reveal_strlit("total_shareholder_equity");
    reveal_strlit("retained_earnings");
    reveal_strlit("common_stock");
    assert(names.len() == 10);
    assert(names[0] == "period_type"@);
    assert(names[1] == "fiscal_date_ending"@);
    assert(names[2] == "total_assets"@);
    assert(names[3] == "total_current_assets"@);
    assert(names[4] == "cash_and_cash_equivalents"@);
    assert(names[5] == "total_liabilities"@);
    assert(names[6] == "total_current_liabilities"@);
    assert(names[7] == "total_shareholder_equity"@);
    assert(names[8] == "retained_earnings"@);
    assert(names[9] == "common_stock"@);
    assert("total_assets"@[0] == 't');
    assert("common_stock"@[0] == 'c');
    assert("cash_and_cash_equivalents"@[0] == 'c');
    assert("total_current_liabilities"@[0] == 't');
    assert("total_liabilities"@[0] == 't');
    assert("retained_earnings"@[0] == 'r');
}

/// No two columns of a cash flow table have the same name.
pub proof fn law_cash_flow_names_distinct()
    ensures
        names_distinct(column_names(report_schema(true, cash_flow_fields()))),
{
    let names = column_names(report_schema(true, cash_flow_fields()));
    reveal_strlit("period_type");
    reveal_strlit("fiscal_date_ending");
    reveal_strlit("operating_cashflow");
    reveal_strlit("payments_for_operating_activities");
    reveal_strlit("proceeds_from_operating_activities");
    reveal_strlit("change_in_operating_liabilities");
    reveal_strlit("change_in_operating_assets");
    reveal_strlit("depreciation_depletion_and_amortization");
    reveal_strlit("capital_expenditures");
    reveal_strlit("change_in_receivables");
    reveal_strlit("change_in_inventory");
    reveal_strlit("profit_loss");
    reveal_strlit("cashflow_from_investment");
    reveal_strlit("cashflow_from_financing");
    assert(names.len() == 14);
    assert(names[0] == "period_type"@);
    assert(names[1] == "fiscal_date_ending"@);
    assert(names[2] == "operating_cashflow"@);
    assert(names[3] == "payments_for_operating_activities"@);
    assert(names[4] == "proceeds_from_operating_activities"@);
    assert(names[5] == "change_in_operating_liabilities"@);
    assert(names[6] == "change_in_operating_assets"@);
    assert(names[7] == "depreciation_depletion_and_amortization"@);
    assert(names[8] == "capital_expenditures"@);
    assert(names[9] == "change_in_receivables"@);
    assert(names[10] == "change_in_inventory"@);
    assert(names[11] == "profit_loss"@);
    assert(names[12] == "cashflow_from_investment"@);
    assert(names[13] == "cashflow_from_financing"@);
    assert("period_type"@[1] == 'e');
    assert("profit_loss"@[1] == 'r');
    assert("fiscal_date_ending"@[0] == 'f');
    assert("operating_cashflow"@[0] == 'o');
}

/// No two columns of an earnings table have the same name.
pub proof fn law_earnings_names_distinct()
    ensures
        names_distinct(column_names(report_schema(true, earnings_fields()))),
{
    let names = column_names(report_schema(true, earnings_fields()));
    reveal_strlit("period_type");
    reveal_strlit("fiscal_date_ending");
    reveal_strlit("reported_eps");
    reveal_strlit("reported_date");
    reveal_strlit("estimated_eps");
    reveal_strlit("surprise");
    reveal_strlit("surprise_percentage");
    assert(names.len() == 7);
    assert(names[0] == "period_type"@);
    assert(names[1] == "fiscal_date_ending"@);
    assert(names[2] == "reported_eps"@);
    assert(names[3] == "reported_date"@);
    assert(names[4] == "estimated_eps"@);
    assert(names[5] == "surprise"@);
    assert(names[6] == "surprise_percentage"@);
    assert("reported_date"@[0] == 'r');
    assert("estimated_eps"@[0] == 'e');
}

/// No two columns of an earnings estimates table have the same name.
pub proof fn law_earnings_estimates_names_distinct()
    ensures
        names_distinct(column_names(report_schema(false, earnings_estimates_fields()))),
{
    let names = column_names(report_schema(false, earnings_estimates_fields()));
    reveal_strlit("date");
    reveal_strlit("horizon");
    reveal_strlit("eps_estimate_average");
    reveal_strlit("eps_estimate_high");
    reveal_strlit("eps_estimate_low");
    reveal_strlit("eps_estimate_analyst_count");
    reveal_strlit("revenue_estimate_average");
    reveal_strlit("revenue_estimate_high");
    reveal_strlit("revenue_estimate_low");
    reveal_strlit("revenue_estimate_analyst_count");
    assert(names.len() == 10);
    assert(names[0] == "date"@);
    assert(names[1] == "horizon"@);
    assert(names[2] == "eps_estimate_average"@);
    assert(names[3] == "eps_estimate_high"@);
    assert(names[4] == "eps_estimate_low"@);
    assert(names[5] == "eps_estimate_analyst_count"@);
    assert(names[6] == "revenue_estimate_average"@);
    assert(names[7] == "revenue_estimate_high"@);
    assert(names[8] == "revenue_estimate_low"@);
    assert(names[9] == "revenue_estimate_analyst_count"@);
    assert("eps_estimate_average"@[0] == 'e');
    assert("revenue_estimate_low"@[0] == 'r');
}

/// No two columns of a company overview table have the same name.
pub proof fn law_company_overview_names_distinct()
    ensures
        names_distinct(column_names(report_schema(false, company_overview_fields()))),
{
    let names = column_names(report_schema(false, company_overview_fields()));
    reveal_strlit("Symbol");
    reveal_strlit("Name");
    reveal_strlit("AssetType");
    reveal_strlit("Exchange");
    reveal_strlit("Currency");
    reveal_strlit("Country");
    reveal_strlit("Sector");
    reveal_strlit("Industry");
    reveal_strlit("MarketCapitalization");
    reveal_strlit("EBITDA");
    reveal_strlit("PERatio");
    reveal_strlit("PEGRatio");
    reveal_strlit("BookValue");
    reveal_strlit("DividendPerShare");
    reveal_strlit("DividendYield");
    reveal_strlit("EPS");
    reveal_strlit("RevenuePerShareTTM");
    reveal_strlit("ProfitMargin");
    reveal_strlit("OperatingMarginTTM");
    reveal_strlit("ReturnOnAssetsTTM");
    reveal_strlit("ReturnOnEquityTTM");
    reveal_strlit("RevenueTTM");
    reveal_strlit("GrossProfitTTM");
    assert(names.len() == 23);
    assert(names[0] == "Symbol"@);
    assert(names[1] == "Name"@);
    assert(names[2] == "AssetType"@);
    assert(names[3] == "Exchange"@);
    assert(names[4] == "Currency"@);
    assert(names[5] == "Country"@);
    assert(names[6] == "Sector"@);
    assert(names[7] == "Industry"@);
    assert(names[8] == "MarketCapitalization"@);
    assert(names[9] == "EBITDA"@);
    assert(names[10] == "PERatio"@);
    assert(names[11] == "PEGRatio"@);
    assert(names[12] == "BookValue"@);
    assert(names[13] == "DividendPerShare"@);
    assert(names[14] == "DividendYield"@);
    assert(names[15] == "EPS"@);
    assert(names[16] == "RevenuePerShareTTM"@);
    assert(names[17] == "ProfitMargin"@);
    assert(names[18] == "OperatingMarginTTM"@);
    assert(names[19] == "ReturnOnAssetsTTM"@);
    assert(names[20] == "ReturnOnEquityTTM"@);
    assert(names[21] == "RevenueTTM"@);
    assert(names[22] == "GrossProfitTTM"@);
    assert("Symbol"@[1] == 'y');
    assert("Sector"@[1] == 'e');
    assert("Symbol"@[0] == 'S');
    assert("EBITDA"@[0] == 'E');
    assert("AssetType"@[0] == 'A');
    assert("BookValue"@[0] == 'B');
    assert("Exchange"@[0] == 'E');
    assert("Currency"@[0] == 'C');
    assert("Industry"@[0] == 'I');
    assert("PEGRatio"@[0] == 'P');
    assert("Country"@[0] == 'C');
    assert("PERatio"@[0] == 'P');
    assert("Sector"@[0] == 'S');
    assert("RevenuePerShareTTM"@[0] == 'R');
    assert("OperatingMarginTTM"@[0] == 'O');
    assert("ReturnOnAssetsTTM"@[8] == 'A');
    assert("ReturnOnEquityTTM"@[8] == 'E');
}

/// The table of an earnings estimates response: a row for each estimate, sorted by
/// `date`, most recent first. A response without estimates gives a table without rows.
pub open spec fn earnings_estimates_table(response: JsonValue) -> TableView {
    TableView {
        rows: sort_rows(
            report_rows(None, earnings_estimates_fields(), reports_under(response, "estimates"@)),
            "date"@,
        ),
        schema: report_schema(false, earnings_estimates_fields()),
        metadata: symbol_metadata(response),
    }
}

/// The table of a company overview: the response itself as the only row.
pub open spec fn company_overview_table(response: JsonValue) -> TableView {
    TableView {
        rows: seq![response],
        schema: report_schema(false, company_overview_fields()),
        metadata: None,
    }
}

/// Turns a company overview into a table of one row.
pub fn transform_company_overview_response(response: &Json) -> (r: Result<TransformResult, Error>)
    ensures
        outcome_view(r) == Ok::<TableView, ErrorView>(
            company_overview_table(response@),
        ),
{
    let mut rows: Vec<Json> = Vec::new();
    rows.push(response.clone());
    assert(items_view(rows@) =~= seq![response@]);
    let fields = company_overview_field_list();
    Ok(TransformResult { rows, schema: make_report_schema(false, &fields), metadata: None })
}

/// Turns an earnings response into a table.
pub fn transform_earnings_response(response: &Json) -> (r: Result<TransformResult, Error>)
    ensures
        outcome_view(r) == Ok::<TableView, ErrorView>(
            periodic_table(
                response@,
                "annualEarnings"@,
                "quarterlyEarnings"@,
                earnings_fields(),
            ),
        ),
{
    let fields = earnings_field_list();
    Ok(transform_periodic(response, "annualEarnings", "quarterlyEarnings", &fields))
}

/// Turns an earnings estimates response into a table.
pub fn transform_earnings_estimates_response(response: &Json) -> (r: Result<
    TransformResult,
    Error,
>)
    ensures
        outcome_view(r) == Ok::<TableView, ErrorView>(
            earnings_estimates_table(response@),
        ),
{
    let fields = earnings_estimates_field_list();
    let metadata = make_symbol_metadata(response);
    let mut rows: Vec<Json> = Vec::new();
    assert(items_view(rows@) =~= Seq::<JsonValue>::empty());
    add_report_rows(&mut rows, response, "estimates", &None, &fields, "date");
    proof {
        let wanted = report_rows(
            None,
            earnings_estimates_fields(),
            reports_under(response@, "estimates"@),
        );
        lemma_sort_rows_append(Seq::empty(), wanted, "date"@);
        assert(Seq::<JsonValue>::empty() + wanted =~= wanted);
    }
    Ok(TransformResult { rows, schema: make_report_schema(false, &fields), metadata })
}

/// Turns an income statement response into a table.
pub fn transform_income_statement_response(response: &Json) -> (r: Result<TransformResult, Error>)
    ensures
        outcome_view(r) == Ok::<TableView, ErrorView>(
            periodic_table(
                response@,
                "annualReports"@,
                "quarterlyReports"@,
                income_statement_fields(),
            ),
        ),
{
    let fields = income_statement_field_list();
    Ok(transform_periodic(response, "annualReports", "quarterlyReports", &fields))
}

/// Turns a balance sheet response into a table.
pub fn transform_balance_sheet_response(response: &Json) -> (r: Result<TransformResult, Error>)
    ensures
        outcome_view(r) == Ok::<TableView, ErrorView>(
            periodic_table(
                response@,
                "annualReports"@,
                "quarterlyReports"@,
                balance_sheet_fields(),
            ),
        ),
{
    let fields = balance_sheet_field_list();
    Ok(transform_periodic(response, "annualReports", "quarterlyReports", &fields))
}

/// Turns a cash flow response into a table.
pub fn transform_cash_flow_response(response: &Json) -> (r: Result<TransformResult, Error>)
    ensures
        outcome_view(r) == Ok::<TableView, ErrorView>(
            periodic_table(response@, "annualReports"@, "quarterlyReports"@, cash_flow_fields()),
        ),
{
    let fields = cash_flow_field_list();
    Ok(transform_periodic(response, "annualReports", "quarterlyReports", &fields))
}

} // verus!
