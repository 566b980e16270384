//! Aggregation over a sequence of tagged values, each either a signed
//! 64-bit integer or a text string: the sum of the integers and the total
//! length of the strings, both accumulated with wraparound arithmetic.

pub mod aggregator;
pub mod laws;
