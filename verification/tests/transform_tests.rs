use alphav::json::{Json, Member};
use alphav::tool_use::fundamentals::{
    transform_balance_sheet_response, transform_cash_flow_response,
    transform_company_overview_response, transform_earnings_estimates_response,
    transform_earnings_response, transform_income_statement_response,
};
use alphav::tool_use::time_series::{
    transform_daily_response, transform_intraday_response, transform_monthly_response,
    transform_weekly_response,
};
use alphav::tool_use::schema::has_distinct_names;
use alphav::tool_use::{ColumnDef, TransformResult};
use alphav::Error;

fn json(text: &str) -> Json {
    Json::parse(text).expect("the text is JSON")
}

fn text(s: &str) -> Json {
    Json::Text(s.to_string())
}

fn keys(row: &Json) -> Vec<String> {
    row.as_object().expect("a row is an object").iter().map(|m| m.key.clone()).collect()
}

fn names(table: &TransformResult) -> Vec<String> {
    table.schema.iter().map(|c| c.name.clone()).collect()
}

fn column(table: &TransformResult, name: &str) -> Vec<Json> {
    table.rows.iter().map(|r| r.get(name).expect("the row has the column").clone()).collect()
}

const INTRADAY: &str = r#"{
    "Meta Data": {"1. Information": "Intraday (5min)", "2. Symbol": "AAPL"},
    "Time Series (5min)": {
        "2024-01-02 09:30:00": {"1. open": "1.0", "2. high": "2.0", "3. low": "0.5",
                                "4. close": "1.5", "5. volume": "100"},
        "2024-01-02 09:25:00": {"1. open": "0.9", "2. high": "1.1", "3. low": "0.8",
                                "4. close": "1.0", "5. volume": "80"}
    }
}"#;

#[test]
fn intraday_rows_come_most_recent_first() {
    let table = transform_intraday_response(&json(INTRADAY), "5min").unwrap();
    assert_eq!(table.rows.len(), 2);
    assert_eq!(
        column(&table, "timestamp"),
        vec![text("2024-01-02 09:30:00"), text("2024-01-02 09:25:00")]
    );
    assert_eq!(names(&table), ["timestamp", "open", "high", "low", "close", "volume"]);
    assert_eq!(
        table.metadata,
        Some(json(r#"{"1. Information": "Intraday (5min)", "2. Symbol": "AAPL"}"#))
    );
    assert_eq!(
        table.rows[0],
        Json::Object(vec![
            Member { key: "timestamp".to_string(), value: text("2024-01-02 09:30:00") },
            Member { key: "open".to_string(), value: text("1.0") },
            Member { key: "high".to_string(), value: text("2.0") },
            Member { key: "low".to_string(), value: text("0.5") },
            Member { key: "close".to_string(), value: text("1.5") },
            Member { key: "volume".to_string(), value: text("100") },
        ])
    );
}

#[test]
fn intraday_reads_the_block_of_its_interval() {
    let result = transform_intraday_response(&json(INTRADAY), "1min");
    assert_eq!(
        result,
        Err(Error::TransformError("No 'Time Series (1min)' data found in response".to_string()))
    );
}

#[test]
fn earnings_estimates_without_estimates_is_an_empty_table() {
    let table =
        transform_earnings_estimates_response(&json(r#"{"symbol":"X","estimates":[]}"#)).unwrap();
    assert_eq!(table.rows.len(), 0);
    assert_eq!(table.metadata, Some(json(r#"{"symbol":"X"}"#)));
    assert_eq!(table.schema.len(), 10);

    let table = transform_earnings_estimates_response(&json(r#"{}"#)).unwrap();
    assert_eq!(table.rows.len(), 0);
    assert_eq!(table.metadata, None);
}

#[test]
fn daily_without_its_block_is_a_transform_error() {
    let result = transform_daily_response(&json(r#"{"Meta Data": {"2. Symbol": "IBM"}}"#));
    assert_eq!(
        result,
        Err(Error::TransformError("No 'Time Series (Daily)' data found in response".to_string()))
    );
    let result = transform_daily_response(&json(r#"{"Time Series (Daily)": [1, 2]}"#));
    assert_eq!(
        result,
        Err(Error::TransformError("No 'Time Series (Daily)' data found in response".to_string()))
    );
    match transform_daily_response(&json("[]")) {
        Err(e) => assert!(e.message().contains("Time Series (Daily)")),
        Ok(_) => panic!("an array has no time series"),
    }
}

#[test]
fn weekly_and_monthly_name_their_missing_block() {
    assert_eq!(
        transform_weekly_response(&json("{}")),
        Err(Error::TransformError("No 'Weekly Time Series' data found in response".to_string()))
    );
    assert_eq!(
        transform_monthly_response(&json("{}")),
        Err(Error::TransformError("No 'Monthly Time Series' data found in response".to_string()))
    );
}

#[test]
fn time_series_rows_hold_exactly_the_six_columns() {
    let response = json(
        r#"{"Time Series (Daily)": {
            "2024-03-01": {"1. open": "10", "4. close": "11", "6. extra": "x"},
            "2024-03-04": {},
            "2024-02-29": {"5. volume": 7, "2. high": null, "3. low": "9"},
            "2024-03-05": "not an object"
        }}"#,
    );
    let table = transform_daily_response(&response).unwrap();
    assert_eq!(table.metadata, None);
    assert_eq!(names(&table), ["date", "open", "high", "low", "close", "volume"]);
    let dtypes: Vec<&str> = table.schema.iter().map(|c| c.dtype.as_str()).collect();
    assert_eq!(dtypes, ["string", "number", "number", "number", "number", "number"]);
    let aliases: Vec<&str> = table.schema.iter().map(|c| c.alias.as_str()).collect();
    assert_eq!(aliases, ["Date", "Open", "High", "Low", "Close", "Volume"]);
    assert_eq!(table.rows.len(), 3);
    for row in &table.rows {
        assert_eq!(keys(row), names(&table));
    }
    assert_eq!(
        column(&table, "date"),
        vec![text("2024-03-04"), text("2024-03-01"), text("2024-02-29")]
    );
    assert_eq!(column(&table, "open"), vec![Json::Null, text("10"), Json::Null]);
    assert_eq!(column(&table, "high"), vec![Json::Null, Json::Null, Json::Null]);
    assert_eq!(column(&table, "low"), vec![Json::Null, Json::Null, text("9")]);
    assert_eq!(column(&table, "close"), vec![Json::Null, text("11"), Json::Null]);
    assert_eq!(
        column(&table, "volume"),
        vec![Json::Null, Json::Null, Json::Number("7".to_string())]
    );
}

#[test]
fn time_series_rows_are_never_in_ascending_order() {
    let response = json(
        r#"{"Weekly Time Series": {
            "2023-12-29": {}, "2024-01-05": {}, "2024-01-12": {}, "2022-07-01": {},
            "2024-01-12 ": {}, "2024": {}, "": {}
        }}"#,
    );
    let table = transform_weekly_response(&response).unwrap();
    let dates: Vec<String> = column(&table, "week_ending")
        .iter()
        .map(|d| d.as_str().expect("a date is a string").to_string())
        .collect();
    assert_eq!(
        dates,
        ["2024-01-12 ", "2024-01-12", "2024-01-05", "2024", "2023-12-29", "2022-07-01", ""]
    );
    for pair in dates.windows(2) {
        assert!(pair[0] >= pair[1]);
    }
    assert_eq!(names(&table)[0], "week_ending");
    assert_eq!(table.schema[0].alias, "Week Ending");

    let table = transform_monthly_response(&json(
        r#"{"Monthly Time Series": {"2024-01-31": {}, "2024-02-29": {}}, "Meta Data": 3}"#,
    ))
    .unwrap();
    assert_eq!(column(&table, "month"), vec![text("2024-02-29"), text("2024-01-31")]);
    assert_eq!(table.metadata, Some(Json::Number("3".to_string())));
}

#[test]
fn dates_are_compared_as_strings_not_as_dates() {
    let response = json(
        r#"{"Time Series (Daily)": {"2024-1-9": {}, "2024-01-10": {}, "2024-10-01": {}}}"#,
    );
    let table = transform_daily_response(&response).unwrap();
    assert_eq!(
        column(&table, "date"),
        vec![text("2024-10-01"), text("2024-1-9"), text("2024-01-10")]
    );
}

const STATEMENTS: &str = r#"{
    "symbol": "NVDA",
    "annualReports": [
        {"fiscalDateEnding": "2023-01-31", "totalRevenue": "100", "netIncome": "10",
         "totalAssets": "500", "operatingCashflow": "40"},
        {"fiscalDateEnding": "2022-01-31", "totalRevenue": "90"}
    ],
    "quarterlyReports": [
        {"fiscalDateEnding": "2023-04-30", "totalRevenue": "30", "ebitda": "5",
         "commonStock": "2", "capitalExpenditures": "3"},
        {"fiscalDateEnding": "2023-01-31", "totalRevenue": "28"},
        {"fiscalDateEnding": "2022-10-31"}
    ]
}"#;

#[test]
fn statements_have_a_row_for_every_report() {
    let response = json(STATEMENTS);
    let income = transform_income_statement_response(&response).unwrap();
    let balance = transform_balance_sheet_response(&response).unwrap();
    let cash = transform_cash_flow_response(&response).unwrap();
    for table in [&income, &balance, &cash] {
        assert_eq!(table.rows.len(), 2 + 3);
        assert_eq!(table.metadata, Some(json(r#"{"symbol": "NVDA"}"#)));
        assert_eq!(
            column(table, "fiscal_date_ending"),
            vec![
                text("2023-04-30"),
                text("2023-01-31"),
                text("2023-01-31"),
                text("2022-10-31"),
                text("2022-01-31")
            ]
        );
        assert_eq!(
            column(table, "period_type"),
            vec![
                text("quarterly"),
                text("annual"),
                text("quarterly"),
                text("quarterly"),
                text("annual")
            ]
        );
        for row in &table.rows {
            assert_eq!(keys(row), names(table));
            let period = row.get("period_type").unwrap().as_str().unwrap();
            assert!(period == "annual" || period == "quarterly");
        }
    }
    assert_eq!(
        names(&income),
        [
            "period_type",
            "fiscal_date_ending",
            "total_revenue",
            "cost_of_revenue",
            "gross_profit",
            "operating_income",
            "net_income",
            "ebitda",
            "ebit",
            "income_before_tax",
            "income_tax_expense"
        ]
    );
    assert_eq!(
        column(&income, "total_revenue"),
        vec![text("30"), text("100"), text("28"), Json::Null, text("90")]
    );
    assert_eq!(column(&income, "ebitda")[0], text("5"));
    assert_eq!(column(&income, "net_income")[1], text("10"));
    assert_eq!(balance.schema.len(), 10);
    assert_eq!(column(&balance, "total_assets")[1], text("500"));
    assert_eq!(column(&balance, "common_stock")[0], text("2"));
    assert_eq!(cash.schema.len(), 14);
    assert_eq!(column(&cash, "operating_cashflow")[1], text("40"));
    assert_eq!(column(&cash, "capital_expenditures")[0], text("3"));
}

#[test]
fn statements_count_a_missing_array_as_no_reports() {
    let only_annual = json(r#"{"annualReports": [{"fiscalDateEnding": "2020-12-31"}]}"#);
    let table = transform_income_statement_response(&only_annual).unwrap();
    assert_eq!(table.rows.len(), 1);
    assert_eq!(column(&table, "period_type"), vec![text("annual")]);
    assert_eq!(table.metadata, None);

    let only_quarterly =
        json(r#"{"quarterlyReports": [{}, {}], "annualReports": {"not": "an array"}}"#);
    let table = transform_balance_sheet_response(&only_quarterly).unwrap();
    assert_eq!(table.rows.len(), 2);
    assert_eq!(column(&table, "period_type"), vec![text("quarterly"), text("quarterly")]);
    assert_eq!(column(&table, "fiscal_date_ending"), vec![Json::Null, Json::Null]);

    let neither = json(r#"{"symbol": "X"}"#);
    let table = transform_cash_flow_response(&neither).unwrap();
    assert_eq!(table.rows.len(), 0);
    assert_eq!(table.schema.len(), 14);
}

#[test]
fn rows_of_equal_date_keep_the_order_they_were_met_in() {
    let response = json(
        r#"{
            "annualReports": [
                {"fiscalDateEnding": "2023-12-31", "totalRevenue": "a1"},
                {"fiscalDateEnding": "2023-12-31", "totalRevenue": "a2"},
                {"totalRevenue": "a3"}
            ],
            "quarterlyReports": [
                {"fiscalDateEnding": "2023-12-31", "totalRevenue": "q1"},
                {"fiscalDateEnding": 20231231, "totalRevenue": "q2"},
                {"fiscalDateEnding": "2024-03-31", "totalRevenue": "q3"}
            ]
        }"#,
    );
    let table = transform_income_statement_response(&response).unwrap();
    assert_eq!(
        column(&table, "total_revenue"),
        vec![text("q3"), text("a1"), text("a2"), text("q1"), text("a3"), text("q2")]
    );
}

#[test]
fn annual_earnings_hold_null_for_what_only_quarters_report() {
    let response = json(
        r#"{
            "symbol": "TSLA",
            "annualEarnings": [{"fiscalDateEnding": "2023-12-31", "reportedEPS": "3.1",
                                "reportedDate": "2024-01-24", "surprise": "0.5"}],
            "quarterlyEarnings": [{"fiscalDateEnding": "2024-03-31", "reportedEPS": "0.45",
                                   "reportedDate": "2024-04-23", "estimatedEPS": "0.49",
                                   "surprise": "-0.04", "surprisePercentage": "-8.1"}]
        }"#,
    );
    let table = transform_earnings_response(&response).unwrap();
    assert_eq!(
        names(&table),
        [
            "period_type",
            "fiscal_date_ending",
            "reported_eps",
            "reported_date",
            "estimated_eps",
            "surprise",
            "surprise_percentage"
        ]
    );
    assert_eq!(table.rows.len(), 2);
    assert_eq!(
        table.rows[0],
        Json::Object(vec![
            Member { key: "period_type".to_string(), value: text("quarterly") },
            Member { key: "fiscal_date_ending".to_string(), value: text("2024-03-31") },
            Member { key: "reported_eps".to_string(), value: text("0.45") },
            Member { key: "reported_date".to_string(), value: text("2024-04-23") },
            Member { key: "estimated_eps".to_string(), value: text("0.49") },
            Member { key: "surprise".to_string(), value: text("-0.04") },
            Member { key: "surprise_percentage".to_string(), value: text("-8.1") },
        ])
    );
    assert_eq!(
        table.rows[1],
        Json::Object(vec![
            Member { key: "period_type".to_string(), value: text("annual") },
            Member { key: "fiscal_date_ending".to_string(), value: text("2023-12-31") },
            Member { key: "reported_eps".to_string(), value: text("3.1") },
            Member { key: "reported_date".to_string(), value: Json::Null },
            Member { key: "estimated_eps".to_string(), value: Json::Null },
            Member { key: "surprise".to_string(), value: Json::Null },
            Member { key: "surprise_percentage".to_string(), value: Json::Null },
        ])
    );
    assert_eq!(table.metadata, Some(json(r#"{"symbol": "TSLA"}"#)));
    assert_eq!(table.schema[6].alias, "Surprise %");
}

#[test]
fn earnings_estimates_are_sorted_by_date() {
    let response = json(
        r#"{"symbol": "META", "estimates": [
            {"date": "2024-06-30", "horizon": "next fiscal quarter",
             "eps_estimate_average": "4.7", "revenue_estimate_analyst_count": "35"},
            {"date": "2025-12-31", "horizon": "next fiscal year", "eps_estimate_high": "25"},
            {"date": "2024-12-31", "horizon": "current fiscal year"}
        ]}"#,
    );
    let table = transform_earnings_estimates_response(&response).unwrap();
    assert_eq!(
        column(&table, "date"),
        vec![text("2025-12-31"), text("2024-12-31"), text("2024-06-30")]
    );
    assert_eq!(
        names(&table),
        [
            "date",
            "horizon",
            "eps_estimate_average",
            "eps_estimate_high",
            "eps_estimate_low",
            "eps_estimate_analyst_count",
            "revenue_estimate_average",
            "revenue_estimate_high",
            "revenue_estimate_low",
            "revenue_estimate_analyst_count"
        ]
    );
    for row in &table.rows {
        assert_eq!(keys(row), names(&table));
    }
    assert_eq!(column(&table, "eps_estimate_average")[2], text("4.7"));
    assert_eq!(column(&table, "revenue_estimate_analyst_count")[2], text("35"));
    assert_eq!(column(&table, "eps_estimate_high")[0], text("25"));
    assert_eq!(column(&table, "eps_estimate_low")[0], Json::Null);
    assert_eq!(table.schema[2].alias, "EPS Estimate (Avg)");
    assert_eq!(table.schema[0].dtype, "string");
    assert_eq!(table.schema[1].dtype, "string");
    assert_eq!(table.schema[2].dtype, "number");
}

#[test]
fn company_overview_is_one_row() {
    let response = json(
        r#"{"Symbol": "AAPL", "Name": "Apple Inc", "Exchange": "NASDAQ",
            "MarketCapitalization": "3000000000000", "52WeekHigh": "199.6"}"#,
    );
    let table = transform_company_overview_response(&response).unwrap();
    assert_eq!(table.rows, vec![response.clone()]);
    assert_eq!(table.metadata, None);
    assert_eq!(table.schema.len(), 23);
    assert_eq!(
        table.schema[0],
        ColumnDef {
            name: "Symbol".to_string(),
            alias: "Symbol".to_string(),
            dtype: "string".to_string()
        }
    );
    assert_eq!(
        table.schema[1],
        ColumnDef {
            name: "Name".to_string(),
            alias: "Company Name".to_string(),
            dtype: "string".to_string()
        }
    );
    assert_eq!(
        table.schema[8],
        ColumnDef {
            name: "MarketCapitalization".to_string(),
            alias: "Market Cap".to_string(),
            dtype: "number".to_string()
        }
    );
    assert_eq!(
        table.schema[22],
        ColumnDef {
            name: "GrossProfitTTM".to_string(),
            alias: "Gross Profit TTM".to_string(),
            dtype: "number".to_string()
        }
    );
    let strings = table.schema.iter().filter(|c| c.dtype == "string").count();
    let numbers = table.schema.iter().filter(|c| c.dtype == "number").count();
    assert_eq!((strings, numbers), (8, 15));
}

#[test]
fn a_transformation_gives_the_same_table_every_time() {
    let response = json(STATEMENTS);
    let first = transform_cash_flow_response(&response);
    let second = transform_cash_flow_response(&response);
    assert_eq!(first, second);
    let copy = response.clone();
    assert_eq!(transform_cash_flow_response(&copy), first);

    let response = json(INTRADAY);
    let first = transform_intraday_response(&response, "5min");
    let second = transform_intraday_response(&response, "5min");
    assert_eq!(first, second);
    assert!(first.is_ok());
}

#[test]
fn no_table_has_two_columns_of_one_name() {
    let empty = json(r#"{"Time Series (1min)": {}, "Time Series (Daily)": {},
                          "Weekly Time Series": {}, "Monthly Time Series": {}}"#);
    let tables = [
        transform_intraday_response(&empty, "1min"),
        transform_daily_response(&empty),
        transform_weekly_response(&empty),
        transform_monthly_response(&empty),
        transform_company_overview_response(&empty),
        transform_earnings_response(&empty),
        transform_earnings_estimates_response(&empty),
        transform_income_statement_response(&empty),
        transform_balance_sheet_response(&empty),
        transform_cash_flow_response(&empty),
    ];
    for table in tables {
        let table = table.unwrap();
        assert!(has_distinct_names(&table.schema));
        for column in &table.schema {
            assert!(column.dtype == "string" || column.dtype == "number");
        }
    }
    let twice = vec![
        ColumnDef { name: "a".to_string(), alias: String::new(), dtype: "string".to_string() },
        ColumnDef { name: "b".to_string(), alias: String::new(), dtype: "string".to_string() },
        ColumnDef { name: "a".to_string(), alias: "A".to_string(), dtype: "number".to_string() },
    ];
    assert!(!has_distinct_names(&twice));
    assert!(has_distinct_names(&Vec::new()));
}

#[test]
fn a_long_series_is_sorted_whatever_order_it_arrives_in() {
    let days: Vec<String> = (0..4000)
        .map(|n| format!("{:04}-{:02}-{:02}", 2000 + n / 336, 1 + (n / 28) % 12, 1 + n % 28))
        .collect();
    let quotes = |open: usize| {
        Json::Object(vec![Member { key: "1. open".to_string(), value: text(&open.to_string()) }])
    };
    let member = |n: usize| Member { key: days[n].clone(), value: quotes(n) };
    let ascending: Vec<Member> = (0..4000).map(member).collect();
    let descending: Vec<Member> = (0..4000).rev().map(member).collect();
    for block in [ascending, descending] {
        let response = Json::Object(vec![Member {
            key: "Time Series (Daily)".to_string(),
            value: Json::Object(block),
        }]);
        let table = transform_daily_response(&response).unwrap();
        assert_eq!(table.rows.len(), 4000);
        let dates = column(&table, "date");
        for (n, date) in dates.iter().enumerate() {
            assert_eq!(date, &text(&days[3999 - n]));
        }
        assert_eq!(table.rows[0].get("open"), Some(&text("3999")));
    }
}
