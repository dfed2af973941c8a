//! Path manipulation primitives behind a small command dispatcher.
//!
//! Every operation takes paths as text and answers with text, a yes/no, or
//! a failure. The splitting of a path into components, and everything else
//! that depends on the platform's path conventions, is done by
//! `std::path`; this crate adds the index arithmetic, the folding of joins
//! and the dispatch of commands, and states what each command yields.

pub mod index;
pub mod platform;
pub mod ops;
pub mod command;
pub mod laws;
