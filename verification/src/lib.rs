//! An encoder for the Test Anything Protocol, version 14: a line-oriented
//! text format for reporting test results to generic harness tooling.
//!
//! Two independent components:
//!
//! - [`TapWriter`], a sequence generator that hands out strictly increasing
//!   1-based test-point numbers on demand;
//! - the protocol encoders (`write_version`, `write_plan`,
//!   `write_test_point`, `write_bail_out`, `write_comment`, `write_skip`,
//!   `write_todo`), pure functions that each render exactly one protocol
//!   element as text. The caller owns the byte sink and the ordering of
//!   elements; the encoders keep no state between calls.

pub mod decimal;
pub mod encode;
pub mod sequence;

pub use encode::TestResult;
pub use encode::write_test_point;
pub use encode::write_bail_out;
pub use encode::write_comment;
pub use encode::write_plan;
pub use encode::write_skip;
pub use encode::write_todo;
pub use encode::write_version;
pub use sequence::TapWriter;
