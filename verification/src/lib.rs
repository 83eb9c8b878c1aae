//! Extraction and resolution of "Did You Know" (DYK) records from parsed
//! wiki-template invocations.
//!
//! A DYK template is positionally overloaded: its second unnamed parameter is
//! either a continuation of the date (when it consists of decimal digits) or
//! the hook text. This crate decides which slot holds what, resolves the
//! nomination page -- directly when the template names one, or from the
//! outcome of an existence probe over two candidate titles otherwise -- and
//! flattens the resolved record into ordered key/value pairs.
//!
//! The existence probe itself is a remote query; callers perform it and hand
//! the per-title outcome back, so everything here is plain computation.

pub mod dyk;
pub mod laws;
pub mod template;
pub mod text;
