//! A sampler of prices.
//!
//! Every ten seconds the sampler asks for the price of each tracked
//! instrument and appends what it reads, with the time, to one CSV file per
//! instrument. This library holds the rules: which request asks for a
//! quote, what a reply says, when an observation changes, what goes to the
//! file, and which step comes next. It sends nothing, writes no file and
//! holds no floating-point number: a driver does that, step by step, as the
//! [`scheduler`] tells it.

pub mod decimal;
pub mod json;
pub mod price;
pub mod scheduler;
pub mod sink;
pub mod source;
pub mod timestamp;
