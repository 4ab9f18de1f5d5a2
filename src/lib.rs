//! A syntactic lint for functions that perform a durable write and may then
//! still fail.
//!
//! The lint walks one function body in pre-order, collects the calls, method
//! calls, returns and `?` expressions it meets, and reports the function when
//! the earliest call whose source text holds the mutation marker starts before
//! the latest return or `?`. It is a heuristic: it consults no types and does
//! not tell an error return from a successful one.

pub mod syntax;
pub mod walk;
pub mod text;
pub mod analysis;
pub mod lint;
pub mod laws;
pub mod pallet;
