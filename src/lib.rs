//! Small verified lessons in Rust: an owned singly-linked stack with
//! borrowing and consuming iteration, and the short programs around it on
//! custom types, conversions, control flow, functions, generics, borrowing,
//! traits and error handling.

pub mod linked_list;
pub mod post;
pub mod custom_types;
pub mod conversion;
pub mod flow_control;
pub mod functions;
pub mod generics;
pub mod scoping;
pub mod traits;
pub mod error_handling;
pub mod std_types;
mod text;
