//! Requests for time series.

pub mod daily;
pub mod intraday;
pub mod monthly;
pub mod weekly;

pub use daily::TimeSeriesDaily;
pub use intraday::TimeSeriesIntraday;
pub use monthly::TimeSeriesMonthly;
pub use weekly::TimeSeriesWeekly;
