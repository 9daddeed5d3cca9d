//! The three answers of a guard.

use vstd::prelude::*;

verus! {

/// How a guard answers a request: it lets the request through with a value, turns it
/// down with an error, or declares itself not applicable, so that another handler may
/// try. The third answer is no failure; what it carries is for that other handler.
#[derive(Debug)]
pub enum Outcome<S, E, F> {
    Success(S),
    Failure(E),
    Forward(F),
}

} // verus!
