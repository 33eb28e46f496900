//! Helpers of the AST-to-MIR lowering: literals and type widening, names
//! and sizes of types, builtin signatures, lowering of type annotations,
//! generic instantiation, closures and classes, and the per-function
//! lowering context.
pub mod builtins;
pub mod classes;
pub mod closures;
pub mod ctx;
pub mod generics;
pub mod helpers;
pub mod laws;
pub mod resolve;
pub mod types;
