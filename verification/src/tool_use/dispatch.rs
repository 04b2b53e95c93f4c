//! Dispatch of a tool call: from the `{tool, params}` envelope to the request for
//! one endpoint, and from that endpoint's response to a table.
//!
//! A call has two halves with the network between them. [`plan_tool_call`] checks
//! the envelope and says which request to send; nothing is sent for an envelope that
//! it rejects. [`finish_tool_call`] takes what came back and makes the result.

use vstd::prelude::*;
use crate::client::AlphaVantage;
use crate::error::{option_text, Error, ErrorView};
use crate::json::{lemma_array_view, option_view, Json, JsonValue};
use crate::processor::{accepted_document, read_response};
use crate::request::common::{Interval, OutputSize};
use crate::request::query::{build_url, request_url, url_view, Query, QueryView};
use crate::response::Response;
use crate::text::str_eq;
use crate::tool_use::catalog::tool_ids;
use crate::tool_use::fundamentals::{
    balance_sheet_fields, cash_flow_fields, company_overview_table, earnings_estimates_table,
    earnings_fields, income_statement_fields, periodic_table, transform_balance_sheet_response,
    transform_cash_flow_response, transform_company_overview_response,
    transform_earnings_estimates_response, transform_earnings_response,
    transform_income_statement_response,
};
use crate::tool_use::schema::{
    outcome_view, schema_view, ColumnView, Schema, TableView, TransformResult,
};
use crate::tool_use::time_series::{
    intraday_block_key, time_series_table, transform_daily_response,
    transform_intraday_response, transform_monthly_response, transform_weekly_response,
};

verus! {

/// One of the ten tools.
#[derive(Debug, Clone, Copy, PartialEq, Eq, Structural)]
pub enum ToolKind {
    TimeSeriesIntraday,
    TimeSeriesDaily,
    TimeSeriesWeekly,
    TimeSeriesMonthly,
    CompanyOverview,
    Earnings,
    EarningsEstimates,
    IncomeStatement,
    BalanceSheet,
    CashFlow,
}

impl ToolKind {
    /// The id that an envelope names the tool by.
    pub open spec fn id(self) -> Seq<char> {
        match self {
            ToolKind::TimeSeriesIntraday => "time_series_intraday"@,
            ToolKind::TimeSeriesDaily => "time_series_daily"@,
            ToolKind::TimeSeriesWeekly => "time_series_weekly"@,
            ToolKind::TimeSeriesMonthly => "time_series_monthly"@,
            ToolKind::CompanyOverview => "company_overview"@,
            ToolKind::Earnings => "earnings"@,
            ToolKind::EarningsEstimates => "earnings_estimates"@,
            ToolKind::IncomeStatement => "income_statement"@,
            ToolKind::BalanceSheet => "balance_sheet"@,
            ToolKind::CashFlow => "cash_flow"@,
        }
    }

    /// The tool that an id names, character for character.
    pub open spec fn of_id(id: Seq<char>) -> Option<ToolKind> {
        if id == "time_series_intraday"@ {
            Some(ToolKind::TimeSeriesIntraday)
        } else if id == "time_series_daily"@ {
            Some(ToolKind::TimeSeriesDaily)
        } else if id == "time_series_weekly"@ {
            Some(ToolKind::TimeSeriesWeekly)
        } else if id == "time_series_monthly"@ {
            Some(ToolKind::TimeSeriesMonthly)
        } else if id == "company_overview"@ {
            Some(ToolKind::CompanyOverview)
        } else if id == "earnings"@ {
            Some(ToolKind::Earnings)
        } else if id == "earnings_estimates"@ {
            Some(ToolKind::EarningsEstimates)
        } else if id == "income_statement"@ {
            Some(ToolKind::IncomeStatement)
        } else if id == "balance_sheet"@ {
            Some(ToolKind::BalanceSheet)
        } else if id == "cash_flow"@ {
            Some(ToolKind::CashFlow)
        } else {
            None
        }
    }

    /// The function code that the API knows the tool's endpoint by.
    pub open spec fn function(self) -> Seq<char> {
        match self {
            ToolKind::TimeSeriesIntraday => "TIME_SERIES_INTRADAY"@,
            ToolKind::TimeSeriesDaily => "TIME_SERIES_DAILY"@,
            ToolKind::TimeSeriesWeekly => "TIME_SERIES_WEEKLY"@,
            ToolKind::TimeSeriesMonthly => "TIME_SERIES_MONTHLY"@,
            ToolKind::CompanyOverview => "OVERVIEW"@,
            ToolKind::Earnings => "EARNINGS"@,
            ToolKind::EarningsEstimates => "EARNINGS_ESTIMATES"@,
            ToolKind::IncomeStatement => "INCOME_STATEMENT"@,
            ToolKind::BalanceSheet => "BALANCE_SHEET"@,
            ToolKind::CashFlow => "CASH_FLOW"@,
        }
    }

    /// The tool that `id` names, character for character.
    pub fn from_id(id: &str) -> (r: Option<ToolKind>)
        ensures
            r == ToolKind::of_id(id@),
    {
        if str_eq(id, "time_series_intraday") {
            Some(ToolKind::TimeSeriesIntraday)
        } else if str_eq(id, "time_series_daily") {
            Some(ToolKind::TimeSeriesDaily)
        } else if str_eq(id, "time_series_weekly") {
            Some(ToolKind::TimeSeriesWeekly)
        } else if str_eq(id, "time_series_monthly") {
            Some(ToolKind::TimeSeriesMonthly)
        } else if str_eq(id, "company_overview") {
            Some(ToolKind::CompanyOverview)
        } else if str_eq(id, "earnings") {
            Some(ToolKind::Earnings)
        } else if str_eq(id, "earnings_estimates") {
            Some(ToolKind::EarningsEstimates)
        } else if str_eq(id, "income_statement") {
            Some(ToolKind::IncomeStatement)
        } else if str_eq(id, "balance_sheet") {
            Some(ToolKind::BalanceSheet)
        } else if str_eq(id, "cash_flow") {
            Some(ToolKind::CashFlow)
        } else {
            None
        }
    }

    /// The function code that the API knows the tool's endpoint by.
    pub fn function_code(&self) -> (r: &'static str)
        ensures
            r@ == self.function(),
    {
        match self {
            ToolKind::TimeSeriesIntraday => "TIME_SERIES_INTRADAY",
            ToolKind::TimeSeriesDaily => "TIME_SERIES_DAILY",
            ToolKind::TimeSeriesWeekly => "TIME_SERIES_WEEKLY",
            ToolKind::TimeSeriesMonthly => "TIME_SERIES_MONTHLY",
            ToolKind::CompanyOverview => "OVERVIEW",
            ToolKind::Earnings => "EARNINGS",
            ToolKind::EarningsEstimates => "EARNINGS_ESTIMATES",
            ToolKind::IncomeStatement => "INCOME_STATEMENT",
            ToolKind::BalanceSheet => "BALANCE_SHEET",
            ToolKind::CashFlow => "CASH_FLOW",
        }
    }

    /// The id that an envelope names the tool by.
    pub fn as_str(&self) -> (r: &'static str)
        ensures
            r@ == self.id(),
    {
        match self {
            ToolKind::TimeSeriesIntraday => "time_series_intraday",
            ToolKind::TimeSeriesDaily => "time_series_daily",
            ToolKind::TimeSeriesWeekly => "time_series_weekly",
            ToolKind::TimeSeriesMonthly => "time_series_monthly",
            ToolKind::CompanyOverview => "company_overview",
            ToolKind::Earnings => "earnings",
            ToolKind::EarningsEstimates => "earnings_estimates",
            ToolKind::IncomeStatement => "income_statement",
            ToolKind::BalanceSheet => "balance_sheet",
            ToolKind::CashFlow => "cash_flow",
        }
    }
}

/// A tool call that passed validation: the tool, and the parameters it takes.
#[derive(Debug, PartialEq)]
pub struct ToolRequest {
    /// The tool to call.
    pub tool: ToolKind,
    /// Stock symbol.
    pub symbol: String,
    /// The interval; only an intraday series takes one.
    pub interval: Option<Interval>,
    /// The output size; only intraday and daily series take one.
    pub outputsize: Option<OutputSize>,
    /// The horizon; only earnings estimates take one.
    pub horizon: Option<String>,
}

/// The mathematical value of a [`ToolRequest`].
pub struct ToolRequestView {
    pub tool: ToolKind,
    pub symbol: Seq<char>,
    pub interval: Option<Interval>,
    pub outputsize: Option<OutputSize>,
    pub horizon: Option<Seq<char>>,
}

impl View for ToolRequest {
    type V = ToolRequestView;

    open spec fn view(&self) -> ToolRequestView {
        ToolRequestView {
            tool: self.tool,
            symbol: self.symbol@,
            interval: self.interval,
            outputsize: self.outputsize,
            horizon: option_text(self.horizon),
        }
    }
}

/// The value of a request or a failure.
pub open spec fn plan_view(outcome: Result<ToolRequest, Error>) -> Result<
    ToolRequestView,
    ErrorView,
> {
    match outcome {
        Ok(request) => Ok(request@),
        Err(e) => Err(e@),
    }
}

/// The string that `value` holds under `key`; none where it holds no string there.
pub open spec fn text_under(value: JsonValue, key: Seq<char>) -> Option<Seq<char>> {
    match value.get(key) {
        Some(JsonValue::Text(s)) => Some(s),
        _ => None,
    }
}

/// The output size that a value names: a size where the value is the string
/// `compact` or `full`, and none for every other value.
pub open spec fn named_outputsize(value: JsonValue) -> Option<OutputSize> {
    match value {
        JsonValue::Text(token) => OutputSize::of_token(token),
        _ => None,
    }
}

/// The output size that the parameters choose: none where they hold no
/// `outputsize`, the size where they hold the string `compact` or `full`, and a
/// failure that shows the value where they hold anything else.
pub open spec fn chosen_outputsize(params: JsonValue) -> Result<Option<OutputSize>, ErrorView> {
    match params.get("outputsize"@) {
        None => Ok(None),
        Some(value) => match named_outputsize(value) {
            Some(size) => Ok(Some(size)),
            None => Err(ErrorView::InvalidParam("outputsize"@, value.shown())),
        },
    }
}

/// The interval that the parameters choose: it must be there, and be one of the five
/// interval tokens.
pub open spec fn chosen_interval(params: JsonValue) -> Result<Interval, ErrorView> {
    match text_under(params, "interval"@) {
        None => Err(ErrorView::MissingParam("interval"@)),
        Some(token) => match Interval::of_token(token) {
            Some(interval) => Ok(interval),
            None => Err(ErrorView::InvalidParam("interval"@, token)),
        },
    }
}

/// The request for `tool` and `symbol` with what the tool takes of `params`.
pub open spec fn routed_request(tool: ToolKind, symbol: Seq<char>, params: JsonValue) -> Result<
    ToolRequestView,
    ErrorView,
> {
    let plain = ToolRequestView { tool, symbol, interval: None, outputsize: None, horizon: None };
    match tool {
        ToolKind::TimeSeriesIntraday => match chosen_interval(params) {
            Err(e) => Err(e),
            Ok(interval) => match chosen_outputsize(params) {
                Err(e) => Err(e),
                Ok(outputsize) => Ok(
                    ToolRequestView { interval: Some(interval), outputsize, ..plain },
                ),
            },
        },
        ToolKind::TimeSeriesDaily => match chosen_outputsize(params) {
            Err(e) => Err(e),
            Ok(outputsize) => Ok(ToolRequestView { outputsize, ..plain }),
        },
        ToolKind::EarningsEstimates => Ok(
            ToolRequestView { horizon: text_under(params, "horizon"@), ..plain },
        ),
        _ => Ok(plain),
    }
}

/// What an envelope asks for. The checks come in this order: `tool` must be a
/// string, `params` must be there, the tool must exist, `symbol` must be a string,
/// and then the tool's own parameters must be in order.
pub open spec fn planned_request(envelope: JsonValue) -> Result<ToolRequestView, ErrorView> {
    match text_under(envelope, "tool"@) {
        None => Err(ErrorView::MissingField("tool"@)),
        Some(tool) => match envelope.get("params"@) {
            None => Err(ErrorView::MissingField("params"@)),
            Some(params) => match ToolKind::of_id(tool) {
                None => Err(ErrorView::UnknownTool(tool)),
                Some(kind) => match text_under(params, "symbol"@) {
                    None => Err(ErrorView::MissingParam("symbol"@)),
                    Some(symbol) => routed_request(kind, symbol, params),
                },
            },
        },
    }
}

/// An id names a tool exactly when it is one of the ten ids of the catalogue.
pub proof fn lemma_tool_kind_ids(id: Seq<char>)
    ensures
        ToolKind::of_id(id) is Some <==> tool_ids().contains(id),
        ToolKind::of_id(id) matches Some(kind) ==> kind.id() == id,
{
    let ids = tool_ids();
    if ToolKind::of_id(id) is Some {
        let k: int = match ToolKind::of_id(id)->Some_0 {
            ToolKind::TimeSeriesIntraday => 0,
            ToolKind::TimeSeriesDaily => 1,
            ToolKind::TimeSeriesWeekly => 2,
            ToolKind::TimeSeriesMonthly => 3,
            ToolKind::CompanyOverview => 4,
            ToolKind::Earnings => 5,
            ToolKind::EarningsEstimates => 6,
            ToolKind::IncomeStatement => 7,
            ToolKind::BalanceSheet => 8,
            ToolKind::CashFlow => 9,
        };
        assert(ids[k] == id);
    } else if ids.contains(id) {
        let k = choose|k: int| 0 <= k < ids.len() && ids[k] == id;
        assert(ids[k] == id);
    }
}

/// An envelope whose `tool` is missing or no string is rejected for its `tool`
/// field, and one with a `tool` but without `params` for its `params` field. No
/// request comes of either.
pub proof fn law_missing_field(envelope: JsonValue)
    ensures
        text_under(envelope, "tool"@) is None ==> planned_request(envelope) == Err::<
            ToolRequestView,
            ErrorView,
        >(ErrorView::MissingField("tool"@)),
        text_under(envelope, "tool"@) is Some && envelope.get("params"@) is None
            ==> planned_request(envelope) == Err::<ToolRequestView, ErrorView>(
            ErrorView::MissingField("params"@),
        ),
{
}

/// An envelope with `tool` and `params` whose tool is none of the ten ids is
/// rejected as an unknown tool, by the id it gave. No request comes of it.
pub proof fn law_unknown_tool(envelope: JsonValue)
    requires
        text_under(envelope, "tool"@) is Some,
        envelope.get("params"@) is Some,
        !tool_ids().contains(text_under(envelope, "tool"@)->Some_0),
    ensures
        planned_request(envelope) == Err::<ToolRequestView, ErrorView>(
            ErrorView::UnknownTool(text_under(envelope, "tool"@)->Some_0),
        ),
{
    lemma_tool_kind_ids(text_under(envelope, "tool"@)->Some_0);
}

/// An envelope for a daily or an intraday series whose parameters hold an
/// `outputsize` that is neither the string `compact` nor the string `full` is
/// rejected for that parameter, by the value as it is shown, once the symbol and,
/// for an intraday series, the interval are in order. No request comes of it.
pub proof fn law_invalid_outputsize(envelope: JsonValue)
    requires
        text_under(envelope, "tool"@) == Some("time_series_daily"@) || text_under(
            envelope,
            "tool"@,
        ) == Some("time_series_intraday"@),
        envelope.get("params"@) is Some,
        text_under(envelope.get("params"@)->Some_0, "symbol"@) is Some,
        text_under(envelope, "tool"@) == Some("time_series_intraday"@) ==> chosen_interval(
            envelope.get("params"@)->Some_0,
        ) is Ok,
        envelope.get("params"@)->Some_0.get("outputsize"@) is Some,
        envelope.get("params"@)->Some_0.get("outputsize"@)->Some_0 != JsonValue::Text("compact"@),
        envelope.get("params"@)->Some_0.get("outputsize"@)->Some_0 != JsonValue::Text("full"@),
    ensures
        planned_request(envelope) == Err::<ToolRequestView, ErrorView>(
            ErrorView::InvalidParam(
                "outputsize"@,
                envelope.get("params"@)->Some_0.get("outputsize"@)->Some_0.shown(),
            ),
        ),
{
    let tool = text_under(envelope, "tool"@)->Some_0;
    lemma_tool_kind_ids(tool);
    reveal_strlit("time_series_daily");
    reveal_strlit("time_series_intraday");
    assert("time_series_daily"@.len() != "time_series_intraday"@.len());
}

fn get_text<'a>(value: &'a Json, key: &str) -> (r: Option<&'a str>)
    ensures
        match r {
            Some(s) => text_under(value@, key@) == Some(s@),
            None => text_under(value@, key@) is None,
        },
{
    match value.get(key) {
        Some(found) => found.as_str(),
        None => None,
    }
}

fn choose_outputsize(params: &Json) -> (r: Result<Option<OutputSize>, Error>)
    ensures
        match r {
            Ok(size) => chosen_outputsize(params@) == Ok::<Option<OutputSize>, ErrorView>(size),
            Err(e) => chosen_outputsize(params@) == Err::<Option<OutputSize>, ErrorView>(e@),
        },
{
    match params.get("outputsize") {
        None => Ok(None),
        Some(value) => {
            let named = match value.as_str() {
                Some(token) => OutputSize::from_token(token),
                None => None,
            };
            match named {
                Some(size) => Ok(Some(size)),
                None => Err(Error::InvalidParam("outputsize".to_owned(), value.shown())),
            }
        },
    }
}

fn choose_interval(params: &Json) -> (r: Result<Interval, Error>)
    ensures
        match r {
            Ok(interval) => chosen_interval(params@) == Ok::<Interval, ErrorView>(interval),
            Err(e) => chosen_interval(params@) == Err::<Interval, ErrorView>(e@),
        },
{
    match get_text(params, "interval") {
        None => Err(Error::MissingParam("interval".to_owned())),
        Some(token) => match Interval::from_token(token) {
            Some(interval) => Ok(interval),
            None => Err(Error::InvalidParam("interval".to_owned(), token.to_owned())),
        },
    }
}

fn route_request(tool: ToolKind, symbol: &str, params: &Json) -> (r: Result<ToolRequest, Error>)
    ensures
        plan_view(r) == routed_request(tool, symbol@, params@),
{
    let mut request = ToolRequest {
        tool,
        symbol: symbol.to_owned(),
        interval: None,
        outputsize: None,
        horizon: None,
    };
    match tool {
        ToolKind::TimeSeriesIntraday => {
            match choose_interval(params) {
                Err(e) => {
                    return Err(e);
                },
                Ok(interval) => {
                    request.interval = Some(interval);
                },
            }
            match choose_outputsize(params) {
                Err(e) => {
                    return Err(e);
                },
                Ok(outputsize) => {
                    request.outputsize = outputsize;
                },
            }
        },
        ToolKind::TimeSeriesDaily => {
            match choose_outputsize(params) {
                Err(e) => {
                    return Err(e);
                },
                Ok(outputsize) => {
                    request.outputsize = outputsize;
                },
            }
        },
        ToolKind::EarningsEstimates => {
            request.horizon = match get_text(params, "horizon") {
                Some(horizon) => Some(horizon.to_owned()),
                None => None,
            };
        },
        _ => {},
    }
    Ok(request)
}

/// Checks an envelope and says which request it asks for.
pub fn plan_tool_call(envelope: &Json) -> (r: Result<ToolRequest, Error>)
    ensures
        plan_view(r) == planned_request(envelope@),
{
    let tool = match get_text(envelope, "tool") {
        Some(tool) => tool,
        None => {
            return Err(Error::MissingField("tool".to_owned()));
        },
    };
    let params = match envelope.get("params") {
        Some(params) => params,
        None => {
            return Err(Error::MissingField("params".to_owned()));
        },
    };
    let kind = match ToolKind::from_id(tool) {
        Some(kind) => kind,
        None => {
            return Err(Error::UnknownTool(tool.to_owned()));
        },
    };
    let symbol = match get_text(params, "symbol") {
        Some(symbol) => symbol,
        None => {
            return Err(Error::MissingParam("symbol".to_owned()));
        },
    };
    route_request(kind, symbol, params)
}

impl ToolRequestView {
    /// What the request carries besides the symbol and the key.
    pub open spec fn extra(self) -> QueryView {
        QueryView {
            interval: match self.interval {
                Some(interval) => Some(interval.token()),
                None => None,
            },
            outputsize: match self.outputsize {
                Some(size) => Some(size.token()),
                None => None,
            },
            datatype: None,
            horizon: self.horizon,
        }
    }

    /// The address that the request goes to, for a client whose key is `api_key`.
    pub open spec fn address(self, api_key: Option<Seq<char>>) -> Result<Seq<char>, ErrorView> {
        request_url(self.tool.function(), self.symbol, api_key, self.extra())
    }

    /// Whether the request carries what its tool takes, and nothing else.
    pub open spec fn well_formed(self) -> bool {
        &&& self.interval is Some <==> self.tool == ToolKind::TimeSeriesIntraday
        &&& self.outputsize is Some ==> self.tool == ToolKind::TimeSeriesIntraday || self.tool
            == ToolKind::TimeSeriesDaily
        &&& self.horizon is Some ==> self.tool == ToolKind::EarningsEstimates
    }

    /// The interval that an intraday response is read with: the interval of the
    /// request, by its token.
    pub open spec fn interval_token(self) -> Seq<char> {
        match self.interval {
            Some(interval) => interval.token(),
            None => Seq::empty(),
        }
    }

    /// The table that the tool makes of a response.
    pub open spec fn table(self, document: JsonValue) -> Result<TableView, ErrorView> {
        match self.tool {
            ToolKind::TimeSeriesIntraday => time_series_table(
                document,
                intraday_block_key(self.interval_token()),
                "timestamp"@,
                "Timestamp"@,
            ),
            ToolKind::TimeSeriesDaily => time_series_table(
                document,
                "Time Series (Daily)"@,
                "date"@,
                "Date"@,
            ),
            ToolKind::TimeSeriesWeekly => time_series_table(
                document,
                "Weekly Time Series"@,
                "week_ending"@,
                "Week Ending"@,
            ),
            ToolKind::TimeSeriesMonthly => time_series_table(
                document,
                "Monthly Time Series"@,
                "month"@,
                "Month"@,
            ),
            ToolKind::CompanyOverview => Ok(company_overview_table(document)),
            ToolKind::Earnings => Ok(
                periodic_table(
                    document, "annualEarnings"@, "quarterlyEarnings"@, earnings_fields(),
                ),
            ),
            ToolKind::EarningsEstimates => Ok(earnings_estimates_table(document)),
            ToolKind::IncomeStatement => Ok(
                periodic_table(
                    document,
                    "annualReports"@,
                    "quarterlyReports"@,
                    income_statement_fields(),
                ),
            ),
            ToolKind::BalanceSheet => Ok(
                periodic_table(
                    document,
                    "annualReports"@,
                    "quarterlyReports"@,
                    balance_sheet_fields(),
                ),
            ),
            ToolKind::CashFlow => Ok(
                periodic_table(document, "annualReports"@, "quarterlyReports"@, cash_flow_fields()),
            ),
        }
    }

    /// The result of the call for a response that holds `document`.
    pub open spec fn result(self, document: JsonValue) -> Result<ToolResultView, ErrorView> {
        match self.table(document) {
            Ok(table) => Ok(
                ToolResultView::DataFrame {
                    data: JsonValue::Array(table.rows),
                    schema: table.schema,
                    metadata: table.metadata,
                },
            ),
            Err(e) => Err(e),
        }
    }

    /// The result of the call for the outcome of sending the request.
    pub open spec fn result_of_response<R: Response>(self, response: Result<R, Error>) -> Result<
        ToolResultView,
        ErrorView,
    > {
        match accepted_document(response) {
            Ok(document) => self.result(document),
            Err(e) => Err(e),
        }
    }
}

/// Every request that an envelope is given carries what its tool takes, and nothing
/// else.
pub proof fn law_planned_request_well_formed(envelope: JsonValue)
    ensures
        planned_request(envelope) matches Ok(request) ==> request.well_formed(),
{
}

/// What a tool call returns.
#[derive(Debug, PartialEq)]
pub enum ToolCallResult {
    /// Plain text.
    Text(String),
    /// A table.
    DataFrame {
        /// The rows, as a JSON array of objects.
        data: Json,
        /// The columns that describe the rows.
        schema: Schema,
        /// What the response said about itself, if anything.
        metadata: Option<Json>,
    },
}

/// The mathematical value of a [`ToolCallResult`].
pub enum ToolResultView {
    Text(Seq<char>),
    DataFrame { data: JsonValue, schema: Seq<ColumnView>, metadata: Option<JsonValue> },
}

impl View for ToolCallResult {
    type V = ToolResultView;

    open spec fn view(&self) -> ToolResultView {
        match self {
            ToolCallResult::Text(text) => ToolResultView::Text(text@),
            ToolCallResult::DataFrame { data, schema, metadata } => ToolResultView::DataFrame {
                data: data@,
                schema: schema_view(schema@),
                metadata: option_view(*metadata),
            },
        }
    }
}

/// The value of a result or a failure.
pub open spec fn result_view(outcome: Result<ToolCallResult, Error>) -> Result<
    ToolResultView,
    ErrorView,
> {
    match outcome {
        Ok(result) => Ok(result@),
        Err(e) => Err(e@),
    }
}

impl ToolRequest {
    /// The address that the request goes to, for the given client.
    pub fn url<Client>(&self, client: &AlphaVantage<Client>) -> (r: Result<String, Error>)
        ensures
            url_view(r) == self@.address(client.key()),
    {
        let extra = Query {
            interval: match &self.interval {
                Some(interval) => Some(interval.as_str()),
                None => None,
            },
            outputsize: match &self.outputsize {
                Some(size) => Some(size.as_str()),
                None => None,
            },
            datatype: None,
            horizon: match &self.horizon {
                Some(horizon) => Some(horizon.as_str()),
                None => None,
            },
        };
        build_url(self.tool.function_code(), self.symbol.as_str(), client.api_key(), &extra)
    }

    /// The table that the request's tool makes of a response.
    pub fn transform(&self, document: &Json) -> (r: Result<TransformResult, Error>)
        ensures
            outcome_view(r) == self@.table(document@),
    {
        match self.tool {
            ToolKind::TimeSeriesIntraday => {
                let interval = match &self.interval {
                    Some(interval) => interval.as_str(),
                    None => "",
                };
                proof {
                    reveal_strlit("");
                    assert(""@ =~= Seq::<char>::empty());
                }
                transform_intraday_response(document, interval)
            },
            ToolKind::TimeSeriesDaily => transform_daily_response(document),
            ToolKind::TimeSeriesWeekly => transform_weekly_response(document),
            ToolKind::TimeSeriesMonthly => transform_monthly_response(document),
            ToolKind::CompanyOverview => transform_company_overview_response(document),
            ToolKind::Earnings => transform_earnings_response(document),
            ToolKind::EarningsEstimates => transform_earnings_estimates_response(document),
            ToolKind::IncomeStatement => transform_income_statement_response(document),
            ToolKind::BalanceSheet => transform_balance_sheet_response(document),
            ToolKind::CashFlow => transform_cash_flow_response(document),
        }
    }
}

/// The result of a call whose response holds `document`: the tool's table, its
/// rows as a JSON array.
pub fn tool_result(request: &ToolRequest, document: &Json) -> (r: Result<ToolCallResult, Error>)
    ensures
        result_view(r) == request@.result(document@),
{
    match request.transform(document) {
        Err(e) => Err(e),
        Ok(table) => {
            proof {
                lemma_array_view(table.rows);
            }
            Ok(
                ToolCallResult::DataFrame {
                    data: Json::Array(table.rows),
                    schema: table.schema,
                    metadata: table.metadata,
                },
            )
        },
    }
}

/// The result of a call, from the outcome of sending its request: a failure of the
/// transport as it is, an upstream failure for a status outside the 2xx range,
/// `MalformedResponse` for a body that is no JSON, and else the tool's table.
pub fn finish_tool_call<R: Response>(request: &ToolRequest, response: Result<R, Error>) -> (r:
    Result<ToolCallResult, Error>)
    ensures
        result_view(r) == request@.result_of_response(response),
{
    match read_response(response) {
        Err(e) => Err(e),
        Ok(document) => tool_result(request, &document),
    }
}

/// Two runs of a tool on the same document return the same: rows, columns and
/// metadata, or the same failure.
pub proof fn law_tool_result_repeatable(
    request: ToolRequest,
    document: Json,
    first: Result<ToolCallResult, Error>,
    second: Result<ToolCallResult, Error>,
)
    requires
        call_ensures(tool_result, (&request, &document), first),
        call_ensures(tool_result, (&request, &document), second),
    ensures
        result_view(first) == result_view(second),
{
}

/// Two runs of a request's transformation on the same document return the same
/// table, or the same failure.
pub proof fn law_transform_repeatable(
    request: ToolRequest,
    document: Json,
    first: Result<TransformResult, Error>,
    second: Result<TransformResult, Error>,
)
    requires
        call_ensures(ToolRequest::transform, (&request, &document), first),
        call_ensures(ToolRequest::transform, (&request, &document), second),
    ensures
        outcome_view(first) == outcome_view(second),
{
}

} // verus!
