//! A composable tool server: independently authored handlers form one
//! logical pipeline by sequential delegation. Each handler answers the
//! requests it owns — merging the tools list, or computing a synthetic tool
//! by issuing nested calls into the rest of the chain — and forwards
//! everything else unchanged. The dispatch contract, the tools-list merge,
//! the synthetic compositions and the numeric-result extraction are all
//! specified and proved here over an exact fixed-point scalar domain.
use vstd::prelude::*;

pub mod args;
pub mod dispatch;
pub mod fixed;
pub mod geo_tools;
pub mod json;
pub mod laws;
pub mod math_tools;
pub mod protocol;
pub mod numtext;
pub mod stats_tools;
pub mod text;
pub mod trig;

verus! {

} // verus!
