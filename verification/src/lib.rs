//! Diagnostic reporting for a language-analysis front end.
//!
//! Analysis passes construct diagnostic kind instances, append them in
//! emission order to a producer-owned collection, and hand the collection to
//! a consumer, which reads codes, messages and locations through a shared
//! capability interface and may recover the concrete kind of each entry.
//! Locations are position-addressed pointers into a syntax tree that can be
//! re-resolved against any later tree snapshot: resolution either finds the
//! exact node originally targeted or reports that the pointer no longer
//! applies, and never faults.

pub mod anchor;
pub mod code;
pub mod collection;
pub mod diagnostic;
pub mod pointer;
pub mod tree;
