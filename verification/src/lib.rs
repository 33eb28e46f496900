//! Mid-level IR of the kyc compiler: the MIR data model and its textual
//! form, the helpers that lower source-level types and annotations into
//! MIR types, the per-function lowering context, and the ownership
//! (use-after-move / borrow) analysis that runs over MIR.

pub mod ast;
pub mod borrow_analysis;
pub mod collect;
pub mod dataflow;
pub mod laws;
pub mod local_set;
pub mod listing;
pub mod lower;
pub mod mir;
pub mod mir_text;
pub mod name_table;
pub mod ownership;
pub mod text;
