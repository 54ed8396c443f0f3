//! Price-history analysis for a stock symbol.
//!
//! Given a chronologically ordered series of daily quotes, the library
//! reduces it to the period high, the period low and the latest close,
//! places the latest close inside the low-high range as a percentage, and
//! turns that percentage into a buy / don't-buy recommendation, assembled
//! into a printable report.
//!
//! All prices are fixed-point integers in hundredths of a currency unit
//! (cents), and percentages are fixed-point integers in hundredths of a
//! percent (basis points), so every computation is exact.

pub mod advice;
pub mod decimal;
pub mod history;
pub mod report;

pub use advice::recommend;
pub use history::{stats, Quote, QuoteHistory};
pub use report::{build_report, Report, ReportError};
