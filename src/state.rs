use vstd::prelude::*;
use std::rc::Rc;
use crate::gate::{UnstableChecker, UnstableViolation};

verus! {

/// The runtime state that every operation can reach. It owns the switch
/// for experimental APIs, set once when the runtime is built.
pub struct OpState {
    pub unstable_checker: UnstableChecker,
}

impl OpState {
    pub fn new(unstable: bool) -> (r: Self)
        ensures
            r.unstable_checker.unstable == unstable,
    {
        OpState { unstable_checker: UnstableChecker::new(unstable) }
    }
}

/// Gate check for synchronous operations, which hold the state for the
/// length of the call.
pub fn check_unstable(state: &OpState, api_name: &str) -> (r: Result<(), UnstableViolation>)
    ensures
        r is Ok <==> state.unstable_checker.unstable,
        r matches Err(v) ==> v.api_name@ == api_name@,
{
    state.unstable_checker.check_unstable(api_name)
}

/// Gate check for asynchronous operations, which hold a shared handle to
/// the state.
pub fn check_unstable2(state: &Rc<OpState>, api_name: &str) -> (r: Result<(), UnstableViolation>)
    ensures
        r is Ok <==> state.unstable_checker.unstable,
        r matches Err(v) ==> v.api_name@ == api_name@,
{
    let s: &OpState = state;
    check_unstable(s, api_name)
}

} // verus!
