//! A driver core for MAUI oscilloscopes: block framing, device paths,
//! command text and the completion and transfer protocols that run over a
//! textual command/query channel.
//!
//! The channel itself is not part of this crate. The protocols are written as
//! state machines: the caller performs each requested step on the channel or
//! the local filesystem and reports back what it observed.
use vstd::prelude::*;

pub mod error;
pub mod codec;
pub mod text;
pub mod path;
pub mod fields;
pub mod poll;
pub mod transfer;
pub mod commands;

verus! {

} // verus!
