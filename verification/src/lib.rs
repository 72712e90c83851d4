//! Memory-safety core of an embedded, garbage-collected runtime: the rooting
//! protocol that lets native call frames keep heap references alive across
//! operations that may trigger a collection.
//!
//! The pieces, leaves first: the heap anchor and its root-set bookkeeping
//! ([`object`], [`root_set`]), the stack-discipline guard that registers and
//! deregisters a root ([`guard`]), the session-branded owner/root-cell pair
//! that mediates access to rooted storage ([`session`]), the in-place rooted
//! representation of values and its projections ([`rooted`]), and the tracing
//! contract the collector's mark phase relies on ([`trace`]).
//!
//! Alongside the core stand the two smallest consumers of the heap boundary:
//! the integer side of the numeric tower ([`arith`]) and interned symbols
//! with their function cells ([`symbol`]).

pub mod arith;
pub mod guard;
pub mod object;
pub mod root_set;
pub mod rooted;
pub mod session;
pub mod symbol;
pub mod trace;
