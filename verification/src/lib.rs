//! Command invocation engine: a declarative catalog of command templates,
//! a pure argument-line builder, and the decision logic of a session output
//! capturer with a wall-clock timeout.

pub mod builder;
pub mod capture;
pub mod config;
pub mod docs;
pub mod hostinfo;
pub mod numeric;
pub mod report;
pub mod template;

use vstd::prelude::*;

verus! {

} // verus!
