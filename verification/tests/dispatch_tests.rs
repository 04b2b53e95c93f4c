use alphav::json::Json;
use alphav::request::common::{Interval, OutputSize};
use alphav::request::HttpResponse;
use alphav::tool_use::{
    finish_tool_call, plan_tool_call, tool_result, ToolCallResult, ToolKind, ToolRequest,
};
use alphav::{AlphaVantage, Error};

fn json(text: &str) -> Json {
    Json::parse(text).expect("the text is JSON")
}

fn plan(text: &str) -> Result<ToolRequest, Error> {
    plan_tool_call(&json(text))
}

fn request(tool: ToolKind, symbol: &str) -> ToolRequest {
    ToolRequest { tool, symbol: symbol.to_string(), interval: None, outputsize: None, horizon: None }
}

fn answer(status: u16, body: &str) -> Result<HttpResponse, Error> {
    Ok(HttpResponse::new(status, body.to_string(), Some("req-7".to_string())))
}

#[test]
fn an_envelope_without_tool_is_rejected_for_that_field() {
    let missing = Err(Error::MissingField("tool".to_string()));
    assert_eq!(plan(r#"{"params": {"symbol": "AAPL"}}"#), missing);
    assert_eq!(plan(r#"{"tool": 7, "params": {"symbol": "AAPL"}}"#), missing);
    assert_eq!(plan(r#"{"tool": null, "params": {}}"#), missing);
    assert_eq!(plan(r#"{}"#), missing);
    assert_eq!(plan(r#"["tool", "params"]"#), missing);
    assert_eq!(plan(r#""time_series_daily""#), missing);
}

#[test]
fn an_envelope_without_params_is_rejected_for_that_field() {
    let missing = Err(Error::MissingField("params".to_string()));
    assert_eq!(plan(r#"{"tool": "time_series_daily"}"#), missing);
    assert_eq!(plan(r#"{"tool": "foo"}"#), missing);
    assert_eq!(plan(r#"{"tool": "earnings", "Params": {"symbol": "X"}}"#), missing);
}

#[test]
fn an_unknown_tool_is_rejected_by_its_id() {
    assert_eq!(
        plan(r#"{"tool": "foo", "params": {"symbol": "AAPL"}}"#),
        Err(Error::UnknownTool("foo".to_string()))
    );
    assert_eq!(
        plan(r#"{"tool": "TIME_SERIES_DAILY", "params": {}}"#),
        Err(Error::UnknownTool("TIME_SERIES_DAILY".to_string()))
    );
    assert_eq!(plan(r#"{"tool": "", "params": null}"#), Err(Error::UnknownTool(String::new())));
}

#[test]
fn every_tool_requires_a_symbol() {
    for id in [
        "time_series_intraday",
        "time_series_daily",
        "time_series_weekly",
        "time_series_monthly",
        "company_overview",
        "earnings",
        "earnings_estimates",
        "income_statement",
        "balance_sheet",
        "cash_flow",
    ] {
        let missing = Err(Error::MissingParam("symbol".to_string()));
        assert_eq!(plan(&format!(r#"{{"tool": "{id}", "params": {{}}}}"#)), missing);
        assert_eq!(plan(&format!(r#"{{"tool": "{id}", "params": {{"symbol": 5}}}}"#)), missing);
        assert_eq!(plan(&format!(r#"{{"tool": "{id}", "params": "IBM"}}"#)), missing);
    }
}

#[test]
fn intraday_takes_an_interval_and_an_output_size() {
    assert_eq!(
        plan(
            r#"{"tool": "time_series_intraday",
                "params": {"symbol": "AAPL", "interval": "5min", "outputsize": "compact"}}"#
        ),
        Ok(ToolRequest {
            tool: ToolKind::TimeSeriesIntraday,
            symbol: "AAPL".to_string(),
            interval: Some(Interval::FiveMin),
            outputsize: Some(OutputSize::Compact),
            horizon: None,
        })
    );
    for (token, interval) in [
        ("1min", Interval::OneMin),
        ("5min", Interval::FiveMin),
        ("15min", Interval::FifteenMin),
        ("30min", Interval::ThirtyMin),
        ("60min", Interval::SixtyMin),
    ] {
        let planned = plan(&format!(
            r#"{{"tool": "time_series_intraday", "params": {{"symbol": "A", "interval": "{token}"}}}}"#
        ))
        .unwrap();
        assert_eq!(planned.interval, Some(interval));
        assert_eq!(planned.outputsize, None);
    }
    assert_eq!(
        plan(r#"{"tool": "time_series_intraday", "params": {"symbol": "A", "interval": "5MIN"}}"#),
        Err(Error::InvalidParam("interval".to_string(), "5MIN".to_string()))
    );
    assert_eq!(
        plan(r#"{"tool": "time_series_intraday", "params": {"symbol": "A", "interval": 5}}"#),
        Err(Error::MissingParam("interval".to_string()))
    );
    assert_eq!(
        plan(
            r#"{"tool": "time_series_intraday",
                "params": {"symbol": "A", "interval": "2min", "outputsize": "huge"}}"#
        ),
        Err(Error::InvalidParam("interval".to_string(), "2min".to_string()))
    );
    assert_eq!(
        plan(
            r#"{"tool": "time_series_intraday",
                "params": {"symbol": "A", "interval": "1min", "outputsize": "huge"}}"#
        ),
        Err(Error::InvalidParam("outputsize".to_string(), "huge".to_string()))
    );
}

#[test]
fn daily_takes_an_output_size() {
    assert_eq!(
        plan(r#"{"tool": "time_series_daily", "params": {"symbol": "MSFT", "outputsize": "full"}}"#),
        Ok(ToolRequest {
            outputsize: Some(OutputSize::Full),
            ..request(ToolKind::TimeSeriesDaily, "MSFT")
        })
    );
    assert_eq!(
        plan(r#"{"tool": "time_series_daily", "params": {"symbol": "MSFT", "outputsize": "Full"}}"#),
        Err(Error::InvalidParam("outputsize".to_string(), "Full".to_string()))
    );
    for (value, shown) in [
        ("100", "100"),
        ("-2.5", "-2.5"),
        ("null", "null"),
        ("true", "true"),
        ("false", "false"),
        (r#""""#, ""),
        (r#""COMPACT""#, "COMPACT"),
        (r#""full ""#, "full "),
        (r#"["full"]"#, "[...]"),
        ("[]", "[...]"),
        (r#"{"size": "full"}"#, "{...}"),
    ] {
        let rejected = Err(Error::InvalidParam("outputsize".to_string(), shown.to_string()));
        assert_eq!(
            plan(&format!(
                r#"{{"tool": "time_series_daily", "params": {{"symbol": "M", "outputsize": {value}}}}}"#
            )),
            rejected
        );
        assert_eq!(
            plan(&format!(
                r#"{{"tool": "time_series_intraday",
                     "params": {{"symbol": "M", "interval": "5min", "outputsize": {value}}}}}"#
            )),
            rejected
        );
        assert_eq!(
            plan(&format!(
                r#"{{"tool": "time_series_weekly", "params": {{"symbol": "M", "outputsize": {value}}}}}"#
            )),
            Ok(request(ToolKind::TimeSeriesWeekly, "M"))
        );
    }
    assert_eq!(
        plan(r#"{"tool": "time_series_daily", "params": {"outputsize": 100}}"#),
        Err(Error::MissingParam("symbol".to_string()))
    );
    assert_eq!(
        plan(r#"{"tool": "time_series_intraday", "params": {"symbol": "M", "outputsize": 100}}"#),
        Err(Error::MissingParam("interval".to_string()))
    );
    assert_eq!(
        plan(
            r#"{"tool": "time_series_daily",
                "params": {"symbol": "MSFT", "interval": "5min", "horizon": "3month"}}"#
        ),
        Ok(request(ToolKind::TimeSeriesDaily, "MSFT"))
    );
}

#[test]
fn other_tools_take_the_symbol_alone() {
    assert_eq!(
        plan(r#"{"tool": "time_series_weekly", "params": {"symbol": "GOOGL", "outputsize": "x"}}"#),
        Ok(request(ToolKind::TimeSeriesWeekly, "GOOGL"))
    );
    assert_eq!(
        plan(r#"{"tool": "company_overview", "params": {"symbol": "AAPL"}}"#),
        Ok(request(ToolKind::CompanyOverview, "AAPL"))
    );
    assert_eq!(
        plan(r#"{"tool": "earnings_estimates", "params": {"symbol": "META", "horizon": "3month"}}"#),
        Ok(ToolRequest {
            horizon: Some("3month".to_string()),
            ..request(ToolKind::EarningsEstimates, "META")
        })
    );
    assert_eq!(
        plan(r#"{"tool": "earnings_estimates", "params": {"symbol": "META", "horizon": "never"}}"#),
        Ok(ToolRequest {
            horizon: Some("never".to_string()),
            ..request(ToolKind::EarningsEstimates, "META")
        })
    );
    assert_eq!(
        plan(r#"{"tool": "earnings_estimates", "params": {"symbol": "META", "horizon": 3}}"#),
        Ok(request(ToolKind::EarningsEstimates, "META"))
    );
}

#[test]
fn a_request_goes_to_the_address_of_its_endpoint() {
    let client = AlphaVantage::new(()).with_key("demo");
    let intraday = plan(
        r#"{"tool": "time_series_intraday",
            "params": {"symbol": "IBM", "interval": "15min", "outputsize": "full"}}"#,
    )
    .unwrap();
    assert_eq!(
        intraday.url(&client),
        Ok("https://www.alphavantage.co/query?function=TIME_SERIES_INTRADAY&symbol=IBM\
            &interval=15min&apikey=demo&outputsize=full"
            .to_string())
    );
    let estimates = ToolRequest {
        horizon: Some("3month".to_string()),
        ..request(ToolKind::EarningsEstimates, "IBM")
    };
    assert_eq!(
        estimates.url(&client),
        Ok("https://www.alphavantage.co/query?function=EARNINGS_ESTIMATES&symbol=IBM\
            &apikey=demo&horizon=3month"
            .to_string())
    );
    for (tool, function) in [
        (ToolKind::TimeSeriesDaily, "TIME_SERIES_DAILY"),
        (ToolKind::TimeSeriesWeekly, "TIME_SERIES_WEEKLY"),
        (ToolKind::TimeSeriesMonthly, "TIME_SERIES_MONTHLY"),
        (ToolKind::CompanyOverview, "OVERVIEW"),
        (ToolKind::Earnings, "EARNINGS"),
        (ToolKind::IncomeStatement, "INCOME_STATEMENT"),
        (ToolKind::BalanceSheet, "BALANCE_SHEET"),
        (ToolKind::CashFlow, "CASH_FLOW"),
    ] {
        assert_eq!(
            request(tool, "IBM").url(&client),
            Ok(format!(
                "https://www.alphavantage.co/query?function={function}&symbol=IBM&apikey=demo"
            ))
        );
    }
    let keyless = AlphaVantage::new(());
    assert_eq!(request(ToolKind::Earnings, "IBM").url(&keyless), Err(Error::MissingApiKey));
}

#[test]
fn a_table_comes_back_as_a_data_frame() {
    let daily = request(ToolKind::TimeSeriesDaily, "MSFT");
    let body = r#"{"Meta Data": {"2. Symbol": "MSFT"},
                   "Time Series (Daily)": {"2024-05-01": {"1. open": "400.1"},
                                           "2024-05-02": {"1. open": "401.2"}}}"#;
    let result = finish_tool_call(&daily, answer(200, body)).unwrap();
    match &result {
        ToolCallResult::DataFrame { data, schema, metadata } => {
            let rows = data.as_array().expect("the data is an array");
            assert_eq!(rows.len(), 2);
            assert_eq!(rows[0].get("date"), Some(&Json::Text("2024-05-02".to_string())));
            assert_eq!(rows[0].get("open"), Some(&Json::Text("401.2".to_string())));
            assert_eq!(rows[1].get("date"), Some(&Json::Text("2024-05-01".to_string())));
            assert_eq!(rows[1].get("volume"), Some(&Json::Null));
            assert_eq!(schema.len(), 6);
            assert_eq!(metadata, &Some(json(r#"{"2. Symbol": "MSFT"}"#)));
        }
        ToolCallResult::Text(_) => panic!("a time series is a table"),
    }
    assert_eq!(tool_result(&daily, &json(body)), Ok(result));
    assert_eq!(finish_tool_call(&daily, answer(204, body)), tool_result(&daily, &json(body)));
}

#[test]
fn intraday_results_are_read_with_the_interval_of_the_request() {
    let body = r#"{"Time Series (5min)": {"2024-01-02 09:30:00": {}},
                   "Time Series (1min)": {"2024-01-02 09:30:00": {}, "2024-01-02 09:31:00": {}}}"#;
    let five = ToolRequest {
        interval: Some(Interval::FiveMin),
        ..request(ToolKind::TimeSeriesIntraday, "A")
    };
    let one =
        ToolRequest { interval: Some(Interval::OneMin), ..request(ToolKind::TimeSeriesIntraday, "A") };
    assert_eq!(five.transform(&json(body)).unwrap().rows.len(), 1);
    assert_eq!(one.transform(&json(body)).unwrap().rows.len(), 2);
    let sixty = ToolRequest {
        interval: Some(Interval::SixtyMin),
        ..request(ToolKind::TimeSeriesIntraday, "A")
    };
    assert_eq!(
        sixty.transform(&json(body)),
        Err(Error::TransformError("No 'Time Series (60min)' data found in response".to_string()))
    );
}

#[test]
fn each_tool_has_its_own_table() {
    let body = json(
        r#"{"symbol": "X",
            "annualReports": [{"fiscalDateEnding": "2023-12-31"}],
            "annualEarnings": [{"fiscalDateEnding": "2023-12-31"}, {}],
            "estimates": [{}, {}, {}]}"#,
    );
    let sizes = [
        (ToolKind::CompanyOverview, 1, 23),
        (ToolKind::Earnings, 2, 7),
        (ToolKind::EarningsEstimates, 3, 10),
        (ToolKind::IncomeStatement, 1, 11),
        (ToolKind::BalanceSheet, 1, 10),
        (ToolKind::CashFlow, 1, 14),
    ];
    for (tool, rows, columns) in sizes {
        let table = request(tool, "X").transform(&body).unwrap();
        assert_eq!((table.rows.len(), table.schema.len()), (rows, columns));
    }
    for tool in [ToolKind::TimeSeriesDaily, ToolKind::TimeSeriesWeekly, ToolKind::TimeSeriesMonthly]
    {
        assert!(matches!(request(tool, "X").transform(&body), Err(Error::TransformError(_))));
    }
}

#[test]
fn a_response_outside_2xx_is_an_upstream_error() {
    let daily = request(ToolKind::TimeSeriesDaily, "MSFT");
    for status in [199, 300, 404, 429, 500] {
        assert_eq!(
            finish_tool_call(&daily, answer(status, "rate limited")),
            Err(Error::UpstreamError {
                status: Some(status),
                body: "rate limited".to_string(),
                request_id: Some("req-7".to_string()),
            })
        );
    }
    let unlabelled: Result<HttpResponse, Error> =
        Ok(HttpResponse::new(503, "down".to_string(), None));
    assert_eq!(
        finish_tool_call(&daily, unlabelled),
        Err(Error::UpstreamError { status: Some(503), body: "down".to_string(), request_id: None })
    );
}

#[test]
fn a_failure_of_the_transport_is_passed_on() {
    let daily = request(ToolKind::TimeSeriesDaily, "MSFT");
    let failure = Error::UpstreamError {
        status: None,
        body: "connection refused".to_string(),
        request_id: None,
    };
    let outcome: Result<HttpResponse, Error> = Err(Error::UpstreamError {
        status: None,
        body: "connection refused".to_string(),
        request_id: None,
    });
    assert_eq!(finish_tool_call(&daily, outcome), Err(failure));
}

#[test]
fn a_body_that_is_no_json_is_a_malformed_response() {
    let daily = request(ToolKind::TimeSeriesDaily, "MSFT");
    for body in ["", "<html>", "{\"a\": ", "{'a': 1}", "nul"] {
        match finish_tool_call(&daily, answer(200, body)) {
            Err(Error::MalformedResponse(detail)) => assert!(!detail.is_empty()),
            other => panic!("{body:?} gave {other:?}"),
        }
    }
    assert_eq!(
        finish_tool_call(&daily, answer(200, "{}")),
        Err(Error::TransformError("No 'Time Series (Daily)' data found in response".to_string()))
    );
}

#[test]
fn errors_describe_themselves() {
    assert_eq!(Error::MissingApiKey.message(), "API key not set");
    assert_eq!(Error::MissingField("tool".to_string()).message(), "Missing 'tool' field");
    assert_eq!(Error::MissingParam("symbol".to_string()).message(), "Missing 'symbol' parameter");
    assert_eq!(
        Error::InvalidParam("interval".to_string(), "2min".to_string()).message(),
        "Invalid interval: 2min"
    );
    assert_eq!(Error::UnknownTool("foo".to_string()).message(), "Unknown tool: foo");
    assert_eq!(
        Error::UpstreamError { status: Some(500), body: "oops".to_string(), request_id: None }
            .message(),
        "Upstream request failed: oops"
    );
    assert_eq!(
        Error::MalformedResponse("EOF at line 1".to_string()).message(),
        "Failed to parse response: EOF at line 1"
    );
    assert_eq!(Error::TransformError("No data".to_string()).message(), "No data");
}
