//! The decisions of the routes. A route is a chain of decisions with storage between
//! them: each function here takes what the previous step and storage gave, and says
//! either what to respond or what to go on with.

use crate::responses::JsonResponse;
use vstd::prelude::*;

pub mod auth;
pub mod item;
pub mod public;
pub mod users;

verus! {

/// Where a route stands after one of its decisions: it has its response, or it needs
/// the storage layer to do one thing first and goes on with what that gave.
#[derive(Debug)]
pub enum Step<T> {
    Respond(JsonResponse),
    Continue(T),
}

} // verus!
