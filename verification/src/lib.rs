//! What the resources of an Outscale account cost: the inventory of the account,
//! how it is read from the API, and the priced resources that it is listed as.
use vstd::prelude::*;

pub mod clock;
pub mod config;
pub mod laws;
pub mod model;
pub mod notice;
pub mod oapi;
pub mod resource;
pub mod table;
pub mod throttle;

verus! {

/// The version of this program, which every listed resource carries.
pub const VERSION: &'static str = "0.1.0";

} // verus!
