//! A durable "week counter": a single monotonically increasing counter kept
//! in a key-value store, incremented either unconditionally or at most once
//! per calling identity per UTC calendar day.

pub mod clock;
pub mod codec;
pub mod dates;
pub mod laws;
pub mod record;
pub mod storage;
pub mod store;

pub use dates::calculate_date_from_weeks;
pub use record::{DbError, WeekData};
pub use store::Database;
