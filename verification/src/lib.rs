//! The projection operator of a teaching database engine, in the Volcano
//! (iterator) model: a `ProjectScan` wraps any scan and lets through only
//! the fields of its projection list (`SELECT col1, col2 FROM ...`).
//!
//! Public interface:
//!   - `Scan`          the trait that every scan operator implements
//!   - `ProjectScan`   the projection operator
//!   - `Value`         the value of a field (`Int` / `Str`)
//!   - `DbError`       the error type shared by all operators
//!   - `MockTableScan` an in-memory table, to stand in for a real table scan
//!   - `Row`           one record of a `MockTableScan`
pub mod error;
pub mod value;
pub mod row;
pub mod scan;
pub mod project_scan;
pub mod mock_scan;
pub mod laws;

pub use error::{DbError, DbErrorView, Result};
pub use mock_scan::MockTableScan;
pub use project_scan::ProjectScan;
pub use row::Row;
pub use scan::Scan;
pub use value::Value;
