//! Requests for fundamental data.

pub mod balance_sheet;
pub mod cash_flow;
pub mod company_overview;
pub mod earnings;
pub mod earnings_estimates;
pub mod income_statement;

pub use balance_sheet::BalanceSheet;
pub use cash_flow::CashFlow;
pub use company_overview::CompanyOverview;
pub use earnings::Earnings;
pub use earnings_estimates::EarningsEstimates;
pub use income_statement::IncomeStatement;
