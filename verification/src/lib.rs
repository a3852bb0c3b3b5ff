//! Transformation engine of an HTTP intermediary: header rules, JSON body
//! rules, chunk accumulation and the per-exchange state machine that ties
//! them together.

pub mod assoc;
pub mod text;
pub mod accumulator;
pub mod clock;
pub mod json;
pub mod headers;
pub mod json_rules;
pub mod json_laws;
pub mod exchange;
