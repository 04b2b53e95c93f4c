//! The catalogue of tools: ten fixed descriptors, in a fixed order.

use vstd::prelude::*;
use crate::json::{lemma_array_view, lemma_object_view, Json, JsonValue, Member};
use crate::text::str_eq;

verus! {

/// What a caller needs to know to use a tool.
#[derive(Debug, PartialEq)]
pub struct ToolInfo {
    /// The key a tool-call envelope names the tool by.
    pub id: String,
    /// The display name.
    pub name: String,
    /// What the tool returns, in a sentence.
    pub description: String,
    /// A JSON Schema document for the tool's parameters.
    pub schema: Json,
}

/// The mathematical value of a [`ToolInfo`].
pub struct ToolInfoView {
    pub id: Seq<char>,
    pub name: Seq<char>,
    pub description: Seq<char>,
    pub schema: JsonValue,
}

impl View for ToolInfo {
    type V = ToolInfoView;

    open spec fn view(&self) -> ToolInfoView {
        ToolInfoView {
            id: self.id@,
            name: self.name@,
            description: self.description@,
            schema: self.schema@,
        }
    }
}

/// The values of a list of descriptors.
pub open spec fn tools_view(tools: Seq<ToolInfo>) -> Seq<ToolInfoView> {
    Seq::new(tools.len(), |i: int| tools[i]@)
}

/// The value of an optional descriptor.
pub open spec fn option_tool_view(tool: Option<ToolInfo>) -> Option<ToolInfoView> {
    match tool {
        Some(t) => Some(t@),
        None => None,
    }
}

/// The characters of each string of a list.
pub open spec fn strs_view(items: Seq<&str>) -> Seq<Seq<char>> {
    Seq::new(items.len(), |i: int| items[i]@)
}

/// A JSON array of strings.
pub open spec fn text_array(items: Seq<Seq<char>>) -> JsonValue {
    JsonValue::Array(Seq::new(items.len(), |i: int| JsonValue::Text(items[i])))
}

/// The schema of one string parameter: its type, then what it may hold, its default
/// and its description, each where there is one.
pub open spec fn string_parameter(
    choices: Option<Seq<Seq<char>>>,
    default: Option<Seq<char>>,
    description: Option<Seq<char>>,
) -> JsonValue {
    JsonValue::Object(
        seq![("type"@, JsonValue::Text("string"@))] + (match choices {
            Some(c) => seq![("enum"@, text_array(c))],
            None => Seq::empty(),
        }) + (match default {
            Some(d) => seq![("default"@, JsonValue::Text(d))],
            None => Seq::empty(),
        }) + (match description {
            Some(d) => seq![("description"@, JsonValue::Text(d))],
            None => Seq::empty(),
        }),
    )
}

/// The schema of a tool's parameters: an object with the given properties, of which
/// `required` must be present.
pub open spec fn parameter_schema(
    properties: Seq<(Seq<char>, JsonValue)>,
    required: Seq<Seq<char>>,
) -> JsonValue {
    JsonValue::Object(
        seq![
            ("type"@, JsonValue::Text("object"@)),
            ("properties"@, JsonValue::Object(properties)),
            ("required"@, text_array(required)),
        ],
    )
}

/// The `symbol` parameter that every tool requires.
pub open spec fn symbol_parameter() -> (Seq<char>, JsonValue) {
    ("symbol"@, string_parameter(None, None, Some("Stock symbol"@)))
}

/// The `outputsize` parameter of the time series that offer one.
pub open spec fn outputsize_parameter(description: Option<Seq<char>>) -> (Seq<char>, JsonValue) {
    (
        "outputsize"@,
        string_parameter(Some(seq!["compact"@, "full"@]), Some("compact"@), description),
    )
}

/// The descriptor of a tool whose only parameter is the symbol.
pub open spec fn symbol_tool(
    id: Seq<char>,
    name: Seq<char>,
    description: Seq<char>,
) -> ToolInfoView {
    ToolInfoView {
        id,
        name,
        description,
        schema: parameter_schema(seq![symbol_parameter()], seq!["symbol"@]),
    }
}

/// The ten tools: four time series, then six fundamentals.
pub open spec fn tool_catalog() -> Seq<ToolInfoView> {
    seq![
        ToolInfoView {
            id: "time_series_intraday"@,
            name: "Intraday Time Series"@,
            description: "Get intraday time series data with specified intervals"@,
            schema: parameter_schema(
                seq![
                    (
                        "symbol"@,
                        string_parameter(None, None, Some("Stock symbol (e.g., 'AAPL')"@)),
                    ),
                    (
                        "interval"@,
                        string_parameter(
                            Some(seq!["1min"@, "5min"@, "15min"@, "30min"@, "60min"@]),
                            None,
                            Some("Time interval between data points"@),
                        ),
                    ),
                    outputsize_parameter(
                        Some("Compact returns last 100 data points, full returns all"@),
                    ),
                ],
                seq!["symbol"@, "interval"@],
            ),
        },
        ToolInfoView {
            id: "time_series_daily"@,
            name: "Daily Time Series"@,
            description: "Get daily time series data (open, high, low, close, volume)"@,
            schema: parameter_schema(
                seq![symbol_parameter(), outputsize_parameter(None)],
                seq!["symbol"@],
            ),
        },
        symbol_tool("time_series_weekly"@, "Weekly Time Series"@, "Get weekly time series data"@),
        symbol_tool(
            "time_series_monthly"@,
            "Monthly Time Series"@,
            "Get monthly time series data"@,
        ),
        symbol_tool(
            "company_overview"@,
            "Company Overview"@,
            "Get comprehensive company information including financials, ratios, and key metrics"@,
        ),
        symbol_tool("earnings"@, "Earnings"@, "Get quarterly and annual earnings data"@),
        ToolInfoView {
            id: "earnings_estimates"@,
            name: "Earnings Estimates"@,
            description: "Get analysts' earnings estimates and consensus data"@,
            schema: parameter_schema(
                seq![
                    symbol_parameter(),
                    (
                        "horizon"@,
                        string_parameter(
                            Some(seq!["3month"@, "6month"@, "12month"@, "all"@]),
                            Some("all"@),
                            Some("Time horizon for estimates"@),
                        ),
                    ),
                ],
                seq!["symbol"@],
            ),
        },
        symbol_tool(
            "income_statement"@,
            "Income Statement"@,
            "Get annual and quarterly income statements"@,
        ),
        symbol_tool(
            "balance_sheet"@,
            "Balance Sheet"@,
            "Get annual and quarterly balance sheet data"@,
        ),
        symbol_tool(
            "cash_flow"@,
            "Cash Flow Statement"@,
            "Get annual and quarterly cash flow data"@,
        ),
    ]
}

/// The first descriptor of `tools` whose id is `id`.
pub open spec fn find_tool(tools: Seq<ToolInfoView>, id: Seq<char>) -> Option<ToolInfoView>
    decreases tools.len(),
{
    if tools.len() == 0 {
        None
    } else if tools[0].id == id {
        Some(tools[0])
    } else {
        find_tool(tools.drop_first(), id)
    }
}

/// The ids of the ten tools, in the catalogue's order.
pub open spec fn tool_ids() -> Seq<Seq<char>> {
    seq![
        "time_series_intraday"@,
        "time_series_daily"@,
        "time_series_weekly"@,
        "time_series_monthly"@,
        "company_overview"@,
        "earnings"@,
        "earnings_estimates"@,
        "income_statement"@,
        "balance_sheet"@,
        "cash_flow"@,
    ]
}

/// A search finds a descriptor that carries the id it was asked for, and finds
/// nothing only where no descriptor carries it.
pub proof fn lemma_find_tool(tools: Seq<ToolInfoView>, id: Seq<char>)
    ensures
        match find_tool(tools, id) {
            Some(t) => t.id == id && tools.contains(t),
            None => forall|k: int| 0 <= k < tools.len() ==> tools[k].id != id,
        },
    decreases tools.len(),
{
    if tools.len() > 0 && tools[0].id != id {
        let rest = tools.drop_first();
        lemma_find_tool(rest, id);
        match find_tool(rest, id) {
            Some(t) => {
                let k = choose|k: int| 0 <= k < rest.len() && rest[k] == t;
                assert(tools[k + 1] == t);
            },
            None => {
                assert forall|k: int| 0 <= k < tools.len() implies tools[k].id != id by {
                    if k > 0 {
                        assert(rest[k - 1] == tools[k]);
                    }
                }
            },
        }
    }
}

/// The catalogue lists the ten ids, each once per position.
pub proof fn lemma_catalog_ids()
    ensures
        tool_catalog().len() == 10,
        tool_ids().len() == 10,
        forall|k: int| 0 <= k < 10 ==> (#[trigger] tool_catalog()[k]).id == tool_ids()[k],
{
}

/// For each of the ten tool ids the catalogue yields a descriptor that carries that
/// id; for every other string it yields nothing.
pub proof fn law_details_by_id(id: Seq<char>)
    ensures
        tool_ids().contains(id) ==> (find_tool(tool_catalog(), id) matches Some(t) && t.id == id),
        !tool_ids().contains(id) ==> find_tool(tool_catalog(), id) is None,
{
    lemma_find_tool(tool_catalog(), id);
    lemma_catalog_ids();
    if tool_ids().contains(id) {
        let k = choose|k: int| 0 <= k < tool_ids().len() && tool_ids()[k] == id;
        assert(tool_catalog()[k].id == id);
    } else {
        if let Some(t) = find_tool(tool_catalog(), id) {
            let k = choose|k: int| 0 <= k < tool_catalog().len() && tool_catalog()[k] == t;
            assert(tool_ids()[k] == id);
        }
    }
}

fn text_member(key: &str, value: &str) -> (r: Member)
    ensures
        r.key@ == key@,
        r.value@ == JsonValue::Text(value@),
{
    Member { key: key.to_owned(), value: Json::Text(value.to_owned()) }
}

fn build_text_array(items: Vec<&str>) -> (r: Json)
    ensures
        r@ == text_array(strs_view(items@)),
{
    let mut texts: Vec<Json> = Vec::new();
    let mut i: usize = 0;
    while i < items.len()
        invariant
            i <= items.len(),
            texts.len() == i,
            forall|k: int| 0 <= k < i ==> texts@[k]@ == JsonValue::Text(items@[k]@),
        decreases items.len() - i,
    {
        texts.push(Json::Text(items[i].to_owned()));
        i += 1;
    }
    proof {
        lemma_array_view(texts);
        assert(crate::json::items_view(texts@) =~= text_array(strs_view(items@))->Array_0);
    }
    Json::Array(texts)
}

fn build_string_parameter(
    choices: Option<Vec<&str>>,
    default: Option<&str>,
    description: Option<&str>,
) -> (r: Json)
    ensures
        r@ == string_parameter(
            match choices {
                Some(c) => Some(strs_view(c@)),
                None => None,
            },
            match default {
                Some(d) => Some(d@),
                None => None,
            },
            match description {
                Some(d) => Some(d@),
                None => None,
            },
        ),
{
    let mut members: Vec<Member> = Vec::new();
    members.push(text_member("type", "string"));
    let ghost mut expected = seq![("type"@, JsonValue::Text("string"@))];
    assert(crate::json::members_view(members@) =~= expected);
    if let Some(c) = choices {
        let ghost cv = strs_view(c@);
        members.push(Member { key: "enum".to_owned(), value: build_text_array(c) });
        proof {
            expected = expected + seq![("enum"@, text_array(cv))];
        }
        assert(crate::json::members_view(members@) =~= expected);
    }
    if let Some(d) = default {
        members.push(text_member("default", d));
        proof {
            expected = expected + seq![("default"@, JsonValue::Text(d@))];
        }
        assert(crate::json::members_view(members@) =~= expected);
    }
    if let Some(d) = description {
        members.push(text_member("description", d));
        proof {
            expected = expected + seq![("description"@, JsonValue::Text(d@))];
        }
        assert(crate::json::members_view(members@) =~= expected);
    }
    proof {
        lemma_object_view(members);
    }
    Json::Object(members)
}

fn build_parameter_schema(properties: Vec<Member>, required: Vec<&str>) -> (r: Json)
    ensures
        r@ == parameter_schema(crate::json::members_view(properties@), strs_view(required@)),
{
    let ghost pv = crate::json::members_view(properties@);
    let ghost rv = strs_view(required@);
    proof {
        lemma_object_view(properties);
    }
    let mut members: Vec<Member> = Vec::new();
    members.push(text_member("type", "object"));
    members.push(Member { key: "properties".to_owned(), value: Json::Object(properties) });
    members.push(Member { key: "required".to_owned(), value: build_text_array(required) });
    proof {
        lemma_object_view(members);
        assert(crate::json::members_view(members@) =~= seq![
            ("type"@, JsonValue::Text("object"@)),
            ("properties"@, JsonValue::Object(pv)),
            ("required"@, text_array(rv)),
        ]);
    }
    Json::Object(members)
}

fn build_symbol_parameter() -> (r: Member)
    ensures
        (r.key@, r.value@) == symbol_parameter(),
{
    Member {
        key: "symbol".to_owned(),
        value: build_string_parameter(None, None, Some("Stock symbol")),
    }
}

fn build_outputsize_parameter(description: Option<&str>) -> (r: Member)
    ensures
        (r.key@, r.value@) == outputsize_parameter(
            match description {
                Some(d) => Some(d@),
                None => None,
            },
        ),
{
    let choices = vec!["compact", "full"];
    assert(strs_view(choices@) =~= seq!["compact"@, "full"@]);
    Member {
        key: "outputsize".to_owned(),
        value: build_string_parameter(Some(choices), Some("compact"), description),
    }
}

fn build_tool(id: &str, name: &str, description: &str, schema: Json) -> (r: ToolInfo)
    ensures
        r@ == (ToolInfoView { id: id@, name: name@, description: description@, schema: schema@ }),
{
    ToolInfo {
        id: id.to_owned(),
        name: name.to_owned(),
        description: description.to_owned(),
        schema,
    }
}

fn build_symbol_tool(id: &str, name: &str, description: &str) -> (r: ToolInfo)
    ensures
        r@ == symbol_tool(id@, name@, description@),
{
    let mut properties: Vec<Member> = Vec::new();
    properties.push(build_symbol_parameter());
    let required = vec!["symbol"];
    assert(crate::json::members_view(properties@) =~= seq![symbol_parameter()]);
    assert(strs_view(required@) =~= seq!["symbol"@]);
    build_tool(id, name, description, build_parameter_schema(properties, required))
}

fn build_intraday_tool() -> (r: ToolInfo)
    ensures
        r@ == tool_catalog()[0],
{
    let mut properties: Vec<Member> = Vec::new();
    properties.push(
        Member {
            key: "symbol".to_owned(),
            value: build_string_parameter(None, None, Some("Stock symbol (e.g., 'AAPL')")),
        },
    );
    let intervals = vec!["1min", "5min", "15min", "30min", "60min"];
    assert(strs_view(intervals@) =~= seq!["1min"@, "5min"@, "15min"@, "30min"@, "60min"@]);
    properties.push(
        Member {
            key: "interval".to_owned(),
            value: build_string_parameter(
                Some(intervals),
                None,
                Some("Time interval between data points"),
            ),
        },
    );
    properties.push(
        build_outputsize_parameter(Some("Compact returns last 100 data points, full returns all")),
    );
    let required = vec!["symbol", "interval"];
    assert(strs_view(required@) =~= seq!["symbol"@, "interval"@]);
    assert(crate::json::members_view(properties@) =~= seq![
        ("symbol"@, string_parameter(None, None, Some("Stock symbol (e.g., 'AAPL')"@))),
        (
            "interval"@,
            string_parameter(
                Some(seq!["1min"@, "5min"@, "15min"@, "30min"@, "60min"@]),
                None,
                Some("Time interval between data points"@),
            ),
        ),
        outputsize_parameter(Some("Compact returns last 100 data points, full returns all"@)),
    ]);
    build_tool(
        "time_series_intraday",
        "Intraday Time Series",
        "Get intraday time series data with specified intervals",
        build_parameter_schema(properties, required),
    )
}

fn build_daily_tool() -> (r: ToolInfo)
    ensures
        r@ == tool_catalog()[1],
{
    let mut properties: Vec<Member> = Vec::new();
    properties.push(build_symbol_parameter());
    properties.push(build_outputsize_parameter(None));
    let required = vec!["symbol"];
    assert(strs_view(required@) =~= seq!["symbol"@]);
    assert(crate::json::members_view(properties@) =~= seq![
        symbol_parameter(),
        outputsize_parameter(None),
    ]);
    build_tool(
        "time_series_daily",
        "Daily Time Series",
        "Get daily time series data (open, high, low, close, volume)",
        build_parameter_schema(properties, required),
    )
}

fn build_estimates_tool() -> (r: ToolInfo)
    ensures
        r@ == tool_catalog()[6],
{
    let mut properties: Vec<Member> = Vec::new();
    properties.push(build_symbol_parameter());
    let horizons = vec!["3month", "6month", "12month", "all"];
    assert(strs_view(horizons@) =~= seq!["3month"@, "6month"@, "12month"@, "all"@]);
    properties.push(
        Member {
            key: "horizon".to_owned(),
            value: build_string_parameter(
                Some(horizons),
                Some("all"),
                Some("Time horizon for estimates"),
            ),
        },
    );
    let required = vec!["symbol"];
    assert(strs_view(required@) =~= seq!["symbol"@]);
    assert(crate::json::members_view(properties@) =~= seq![
        symbol_parameter(),
        (
            "horizon"@,
            string_parameter(
                Some(seq!["3month"@, "6month"@, "12month"@, "all"@]),
                Some("all"@),
                Some("Time horizon for estimates"@),
            ),
        ),
    ]);
    build_tool(
        "earnings_estimates",
        "Earnings Estimates",
        "Get analysts' earnings estimates and consensus data",
        build_parameter_schema(properties, required),
    )
}

/// Every tool, in the catalogue's order.
pub fn list_tools() -> (r: Vec<ToolInfo>)
    ensures
        tools_view(r@) == tool_catalog(),
{
    let mut tools: Vec<ToolInfo> = Vec::new();
    tools.push(build_intraday_tool());
    tools.push(build_daily_tool());
    tools.push(
        build_symbol_tool(
            "time_series_weekly", "Weekly Time Series", "Get weekly time series data",
        ),
    );
    tools.push(
        build_symbol_tool(
            "time_series_monthly",
            "Monthly Time Series",
            "Get monthly time series data",
        ),
    );
    tools.push(
        build_symbol_tool(
            "company_overview",
            "Company Overview",
            "Get comprehensive company information including financials, ratios, and key metrics",
        ),
    );
    tools.push(build_symbol_tool("earnings", "Earnings", "Get quarterly and annual earnings data"));
    tools.push(build_estimates_tool());
    tools.push(
        build_symbol_tool(
            "income_statement",
            "Income Statement",
            "Get annual and quarterly income statements",
        ),
    );
    tools.push(
        build_symbol_tool(
            "balance_sheet",
            "Balance Sheet",
            "Get annual and quarterly balance sheet data",
        ),
    );
    tools.push(
        build_symbol_tool(
            "cash_flow",
            "Cash Flow Statement",
            "Get annual and quarterly cash flow data",
        ),
    );
    assert(tools_view(tools@) =~= tool_catalog());
    tools
}

/// The descriptor of the tool `tool_id`, if there is such a tool.
pub fn get_tool_details(tool_id: &str) -> (r: Option<ToolInfo>)
    ensures
        option_tool_view(r) == find_tool(tool_catalog(), tool_id@),
{
    let mut tools = list_tools();
    let ghost all = tools_view(tools@);
    let mut i: usize = 0;
    assert(all.skip(0) =~= all);
    while i < tools.len()
        invariant
            i <= tools.len(),
            all == tools_view(tools@),
            all == tool_catalog(),
            find_tool(all, tool_id@) == find_tool(all.skip(i as int), tool_id@),
        decreases tools.len() - i,
    {
        let ghost rest = all.skip(i as int);
        assert(rest[0] == all[i as int]);
        assert(rest.drop_first() =~= all.skip(i + 1));
        if str_eq(tools[i].id.as_str(), tool_id) {
            assert(all[i as int] == tools@[i as int]@);
            let found = tools.remove(i);
            return Some(found);
        }
        i += 1;
    }
    None
}

} // verus!
