//! A stack-based bytecode virtual machine over dynamically tagged values.
//!
//! The numeric tower, the aggregate values, the instruction set, the
//! evaluator and the frame driver are executable Rust whose behaviour is
//! stated in contracts over mathematical models and proved by Verus.
//!
//! The machine computes on whole numbers and on fractions itself. What it
//! cannot do itself it asks of its host: the input and the output, the
//! store of named values, and every computation on floating-point
//! numbers, which it carries as bit patterns.

pub mod instruction;
pub mod machine;
pub mod program;
pub mod render;
pub mod stack;
pub mod value;
