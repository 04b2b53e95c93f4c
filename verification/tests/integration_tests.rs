use alphav::processor::{Decoder, Processor, Raw, Table};
use alphav::request::common::{Interval, OutputSize, SortOrder};
use alphav::request::fundamentals::{CashFlow, EarningsEstimates};
use alphav::request::time_series::{TimeSeriesDaily, TimeSeriesIntraday};
use alphav::request::HttpResponse;
use alphav::response::Response;
use alphav::json::{Json, Member};
use alphav::text::{str_eq, str_le, str_lt};
use alphav::{rest, AlphaVantage, Error};

fn answer(status: u16, body: &str) -> Result<HttpResponse, Error> {
    Ok(HttpResponse::new(status, body.to_string(), None))
}

#[test]
fn test_missing_api_key() {
    let client = AlphaVantage::new(());
    let result = rest::time_series::daily(&client, "IBM").url();
    assert!(result.is_err(), "Request without API key should fail");
    if let Err(e) = result {
        let error_msg = e.message();
        assert!(error_msg.contains("API key"), "Error should mention API key: {}", error_msg);
    }
}

#[test]
fn test_client_initialization() {
    let client = AlphaVantage::new(()).with_key("test_key");
    assert_eq!(client.api_key(), Some("test_key"));
}

#[test]
fn test_builder_pattern() {
    let client = AlphaVantage::new(()).with_key("test_key");
    let request =
        rest::time_series::daily(&client, "TEST").outputsize(OutputSize::Compact).datatype("json");
    assert_eq!(request.symbol, "TEST");
    assert_eq!(request.outputsize, Some(OutputSize::Compact));
    assert_eq!(request.datatype, Some("json".to_string()));
    assert_eq!(
        request.url(),
        Ok("https://www.alphavantage.co/query?function=TIME_SERIES_DAILY&symbol=TEST\
            &apikey=test_key&outputsize=compact&datatype=json"
            .to_string())
    );
}

#[test]
fn a_client_keeps_its_transport_and_its_key() {
    let client: AlphaVantage<u8> = AlphaVantage::default();
    assert_eq!(client.api_key(), None);
    assert_eq!(*client.client(), 0);
    let client = client.with_key("first").with_client(9).with_key("second");
    assert_eq!(client.api_key(), Some("second"));
    assert_eq!(*client.client(), 9);
}

#[test]
fn requests_build_their_address_from_what_was_set() {
    let client = AlphaVantage::new(()).with_key("K");
    assert_eq!(
        TimeSeriesIntraday::new(&client, "AAPL", Interval::FiveMin).url(),
        Ok("https://www.alphavantage.co/query?function=TIME_SERIES_INTRADAY&symbol=AAPL\
            &interval=5min&apikey=K"
            .to_string())
    );
    assert_eq!(
        rest::time_series::intraday(&client, "AAPL", Interval::SixtyMin)
            .datatype("csv")
            .outputsize(OutputSize::Full)
            .url(),
        Ok("https://www.alphavantage.co/query?function=TIME_SERIES_INTRADAY&symbol=AAPL\
            &interval=60min&apikey=K&outputsize=full&datatype=csv"
            .to_string())
    );
    assert_eq!(
        TimeSeriesDaily::new(&client, "IBM").url(),
        Ok("https://www.alphavantage.co/query?function=TIME_SERIES_DAILY&symbol=IBM&apikey=K"
            .to_string())
    );
    assert_eq!(
        EarningsEstimates::new(&client, "IBM").horizon("12month").url(),
        Ok("https://www.alphavantage.co/query?function=EARNINGS_ESTIMATES&symbol=IBM\
            &apikey=K&horizon=12month"
            .to_string())
    );
    assert_eq!(
        CashFlow::new(&client, "IBM").url(),
        Ok("https://www.alphavantage.co/query?function=CASH_FLOW&symbol=IBM&apikey=K".to_string())
    );
    let addresses = [
        rest::time_series::weekly(&client, "S").url(),
        rest::time_series::monthly(&client, "S").url(),
        rest::fundamentals::company_overview(&client, "S").url(),
        rest::fundamentals::earnings(&client, "S").url(),
        rest::fundamentals::earnings_estimates(&client, "S").url(),
        rest::fundamentals::income_statement(&client, "S").url(),
        rest::fundamentals::balance_sheet(&client, "S").url(),
        rest::fundamentals::cash_flow(&client, "S").url(),
    ];
    let functions = [
        "TIME_SERIES_WEEKLY",
        "TIME_SERIES_MONTHLY",
        "OVERVIEW",
        "EARNINGS",
        "EARNINGS_ESTIMATES",
        "INCOME_STATEMENT",
        "BALANCE_SHEET",
        "CASH_FLOW",
    ];
    for (address, function) in addresses.iter().zip(functions) {
        assert_eq!(
            address,
            &Ok(format!("https://www.alphavantage.co/query?function={function}&symbol=S&apikey=K"))
        );
    }
    let keyless = AlphaVantage::new(());
    assert_eq!(CashFlow::new(&keyless, "IBM").url(), Err(Error::MissingApiKey));
}

#[test]
fn a_request_hands_the_response_to_its_processor() {
    let client = AlphaVantage::new(()).with_key("K");
    let raw = rest::time_series::daily(&client, "IBM").complete(answer(200, "{\"a\": 1}"));
    assert_eq!(raw, Ok("{\"a\": 1}".to_string()));
    let failed = rest::time_series::daily(&client, "IBM").complete(answer(500, "no"));
    assert_eq!(
        failed,
        Err(Error::UpstreamError { status: Some(500), body: "no".to_string(), request_id: None })
    );
    let records = rest::fundamentals::earnings_estimates(&client, "IBM")
        .horizon("3month")
        .as_dataframe()
        .complete(answer(200, r#"{"symbol": "IBM", "estimates": [{"date": "2024-06-30"}]}"#));
    assert_eq!(records, Json::parse(r#"[{"date": "2024-06-30"}]"#));
}

#[test]
fn intervals_and_sizes_are_read_in_any_case() {
    assert_eq!("1min".parse::<Interval>(), Ok(Interval::OneMin));
    assert_eq!("5MIN".parse::<Interval>(), Ok(Interval::FiveMin));
    assert_eq!("15Min".parse::<Interval>(), Ok(Interval::FifteenMin));
    assert_eq!("30min".parse::<Interval>(), Ok(Interval::ThirtyMin));
    assert_eq!("60MIN".parse::<Interval>(), Ok(Interval::SixtyMin));
    assert_eq!(
        "2Min".parse::<Interval>(),
        Err(Error::InvalidParam("interval".to_string(), "2Min".to_string()))
    );
    assert_eq!(Interval::from_token("5MIN"), None);
    assert_eq!(Interval::from_token("5min"), Some(Interval::FiveMin));
    assert_eq!("COMPACT".parse::<OutputSize>(), Ok(OutputSize::Compact));
    assert_eq!("Full".parse::<OutputSize>(), Ok(OutputSize::Full));
    assert_eq!(
        "Fuller".parse::<OutputSize>(),
        Err(Error::InvalidParam("outputsize".to_string(), "Fuller".to_string()))
    );
    assert_eq!(OutputSize::from_token("Full"), None);
    for interval in [
        Interval::OneMin,
        Interval::FiveMin,
        Interval::FifteenMin,
        Interval::ThirtyMin,
        Interval::SixtyMin,
    ] {
        assert_eq!(Interval::from_token(interval.as_str()), Some(interval));
        assert_eq!(interval.to_string(), interval.as_str());
    }
    assert_eq!(Interval::FifteenMin.to_string(), "15min");
    assert_eq!(OutputSize::Compact.as_str(), "compact");
    assert_eq!(OutputSize::Full.as_str(), "full");
}

#[test]
fn a_sort_order_is_ascending_unless_it_says_desc() {
    assert_eq!(SortOrder::from("asc"), SortOrder::Asc);
    assert_eq!(SortOrder::from("desc"), SortOrder::Desc);
    assert_eq!(SortOrder::from("DESC"), SortOrder::Asc);
    assert_eq!(SortOrder::from(""), SortOrder::Asc);
    assert_eq!(SortOrder::from("desc".to_string()), SortOrder::Desc);
    assert_eq!(SortOrder::from("sideways".to_string()), SortOrder::Asc);
}

#[test]
fn a_response_gives_back_what_it_was_made_of() {
    let response = HttpResponse::new(201, "body".to_string(), Some("id-1".to_string()));
    assert_eq!(response.status(), 201);
    assert_eq!(response.body(), "body");
    assert_eq!(response.request_id(), &Some("id-1".to_string()));
}

#[test]
fn the_raw_processor_returns_the_body() {
    assert_eq!(Raw.process(answer(200, "anything at all")), Ok("anything at all".to_string()));
    assert_eq!(Raw.process(answer(299, "")), Ok(String::new()));
    assert_eq!(
        Raw.process(answer(404, "gone")),
        Err(Error::UpstreamError { status: Some(404), body: "gone".to_string(), request_id: None })
    );
    let lost: Result<HttpResponse, Error> = Err(Error::MissingApiKey);
    assert_eq!(Raw.process(lost), Err(Error::MissingApiKey));
}

#[test]
fn the_table_processor_picks_the_records() {
    let parse = |text: &str| Json::parse(text);
    assert_eq!(
        Table.process(answer(200, r#"{"estimates": [1], "results": [2], "data": [3]}"#)),
        parse("[1]")
    );
    assert_eq!(
        Table.process(answer(200, r#"{"data": [3], "quarterlyReports": [4], "results": [2]}"#)),
        parse("[2]")
    );
    assert_eq!(
        Table.process(answer(200, r#"{"data": [3], "quarterlyReports": [4], "annualReports": []}"#)),
        parse("[]")
    );
    assert_eq!(
        Table.process(answer(200, r#"{"data": [3], "quarterlyReports": [4]}"#)),
        parse("[4]")
    );
    assert_eq!(Table.process(answer(200, r#"{"data": [3]}"#)), parse("[3]"));
    assert_eq!(Table.process(answer(200, r#"[{"a": 1}]"#)), parse(r#"[{"a": 1}]"#));
    let failure = |kind: &str| {
        Err(Error::TransformError(format!(
            "Expected array data for DataFrame conversion, got: {kind}"
        )))
    };
    assert_eq!(Table.process(answer(200, r#"{"symbol": "X"}"#)), failure("object"));
    assert_eq!(Table.process(answer(200, r#"{"estimates": null, "data": []}"#)), failure("null"));
    assert_eq!(Table.process(answer(200, r#"{"results": "none"}"#)), failure("other"));
    assert_eq!(Table.process(answer(200, "17")), failure("other"));
    assert!(matches!(Table.process(answer(200, "{")), Err(Error::MalformedResponse(_))));
    assert!(matches!(
        Table.process(answer(500, "[]")),
        Err(Error::UpstreamError { status: Some(500), .. })
    ));
}

fn symbol_of(value: decoder::Value) -> Result<String, String> {
    let mut map = decoder::decode::map(value).map_err(|e| e.to_string())?;
    map.required("symbol", decoder::decode::string).map_err(|e| e.to_string())
}

#[test]
fn the_decoder_applies_the_callers_function() {
    let symbol = Decoder::new(symbol_of);
    assert_eq!(symbol.process(answer(200, r#"{"symbol": "IBM"}"#)), Ok("IBM".to_string()));
    match symbol.process(answer(200, r#"{"Symbol": "IBM"}"#)) {
        Err(Error::TransformError(detail)) => assert!(detail.starts_with("missing field")),
        other => panic!("a body without symbol gave {other:?}"),
    }
    match symbol.process(answer(200, r#"["symbol"]"#)) {
        Err(Error::TransformError(detail)) => assert!(detail.starts_with("invalid type")),
        other => panic!("an array gave {other:?}"),
    }
    assert!(matches!(symbol.process(answer(200, "symbol")), Err(Error::MalformedResponse(_))));
    assert!(matches!(symbol.process(answer(401, "{}")), Err(Error::UpstreamError { .. })));
    let lost: Result<HttpResponse, Error> = Err(Error::MissingApiKey);
    assert_eq!(symbol.process(lost), Err(Error::MissingApiKey));

    let value: decoder::Value = serde_json::from_str(r#"{"symbol": "X", "n": 1}"#).unwrap();
    assert_eq!(symbol.decode(value.clone()), Ok("X".to_string()));
    assert_eq!(symbol.decode_parsed(Ok(value)), Ok("X".to_string()));
    assert_eq!(
        symbol.decode_parsed(Err("bad".to_string())),
        Err(Error::MalformedResponse("bad".to_string()))
    );
    let fixed = Decoder::new(|_: decoder::Value| Err::<u8, String>("never".to_string()));
    assert_eq!(
        fixed.process(answer(200, "null")),
        Err(Error::TransformError("never".to_string()))
    );
}

#[test]
fn json_is_read_into_the_document_model() {
    let document = Json::parse(
        r#"{"b": [1, -2, 2.5, 1e3, true, false, null, "s"], "a": {"z": {}, "y": []}, "b ": ""}"#,
    )
    .unwrap();
    let mut keys: Vec<&str> =
        document.as_object().unwrap().iter().map(|m| m.key.as_str()).collect();
    keys.sort();
    assert_eq!(keys, ["a", "b", "b "]);
    assert_eq!(
        document.get("b"),
        Some(&Json::Array(vec![
            Json::Number("1".to_string()),
            Json::Number("-2".to_string()),
            Json::Number("2.5".to_string()),
            Json::Number("1000.0".to_string()),
            Json::Bool(true),
            Json::Bool(false),
            Json::Null,
            Json::Text("s".to_string()),
        ]))
    );
    let inner = document.get("a").unwrap();
    assert_eq!(inner.as_object().map(|m| m.len()), Some(2));
    assert_eq!(inner.get("y"), Some(&Json::Array(vec![])));
    assert_eq!(inner.get("z"), Some(&Json::Object(vec![])));
    assert_eq!(document.get("b "), Some(&Json::Text(String::new())));
    assert_eq!(Json::parse(r#"{"k": 1, "k": 2}"#), Json::parse(r#"{"k": 2}"#));
    assert_eq!(Json::parse(r#""é\n""#), Ok(Json::Text("é\n".to_string())));
    match Json::parse("[1, 2") {
        Err(Error::MalformedResponse(detail)) => assert!(detail.contains("line 1")),
        other => panic!("an open array gave {other:?}"),
    }
    assert_eq!(
        Json::from_parsed(Err("bad".to_string())),
        Err(Error::MalformedResponse("bad".to_string()))
    );
    assert_eq!(Json::from_parsed(Ok(serde_json::Value::Bool(true))), Ok(Json::Bool(true)));
    assert_eq!(
        Json::from_parsed(Ok(serde_json::Value::String("é".to_string()))),
        Ok(Json::Text("é".to_string()))
    );
    let value: serde_json::Value = serde_json::from_str(r#"[{"n": 7}, "x", null]"#).unwrap();
    assert_eq!(Json::from_value(value), Json::parse(r#"[{"n": 7}, "x", null]"#).unwrap());
}

#[test]
fn a_value_is_shown_by_its_text_or_its_shape() {
    let shown = |text: &str| Json::parse(text).unwrap().shown();
    assert_eq!(shown("null"), "null");
    assert_eq!(shown("true"), "true");
    assert_eq!(shown("false"), "false");
    assert_eq!(shown("12"), "12");
    assert_eq!(shown("-0.5"), "-0.5");
    assert_eq!(shown(r#""compact""#), "compact");
    assert_eq!(shown(r#""""#), "");
    assert_eq!(shown("[]"), "[...]");
    assert_eq!(shown("[1, 2]"), "[...]");
    assert_eq!(shown("{}"), "{...}");
    assert_eq!(shown(r#"{"a": 1}"#), "{...}");
}

#[test]
fn a_lookup_returns_the_first_member_of_that_key() {
    let document = Json::Object(vec![
        Member { key: "a".to_string(), value: Json::Bool(true) },
        Member { key: "b".to_string(), value: Json::Text("first".to_string()) },
        Member { key: "b".to_string(), value: Json::Text("second".to_string()) },
    ]);
    assert_eq!(document.get("b"), Some(&Json::Text("first".to_string())));
    assert_eq!(document.get("a").and_then(|v| v.as_str()), None);
    assert_eq!(document.get("b").and_then(|v| v.as_str()), Some("first"));
    assert_eq!(document.get("c"), None);
    assert_eq!(document.get(""), None);
    assert_eq!(Json::Array(vec![document.clone()]).get("a"), None);
    assert_eq!(document.as_object().map(|m| m.len()), Some(3));
    assert_eq!(document.as_array(), None);
    assert_eq!(Json::Null.as_object(), None);
    assert_eq!(Json::Array(vec![Json::Null]).as_array(), Some(&vec![Json::Null]));
    assert_eq!(document.clone(), document);
}

#[test]
fn strings_are_ordered_by_their_bytes() {
    let samples =
        ["", " ", "2024-01-02", "2024-01-02 09:30:00", "2024-01-10", "2024-1-9", "A", "a", "é", "日本", "😀"];
    for a in samples {
        for b in samples {
            assert_eq!(str_le(a, b), a <= b, "{a:?} <= {b:?}");
            assert_eq!(str_lt(a, b), a < b, "{a:?} < {b:?}");
            assert_eq!(str_eq(a, b), a == b, "{a:?} == {b:?}");
        }
    }
}
