use vstd::prelude::*;
use vstd::string::StringExecFns;

verus! {

/// Exit status with which the process ends when a gated API is used
/// without the opt-in flag.
pub const UNSTABLE_EXIT_CODE: i32 = 70;

/// The diagnostic line written when `api_name` is used without the flag.
pub open spec fn unstable_message(api_name: Seq<char>) -> Seq<char> {
    "Unstable API '"@ + api_name + "'. The --unstable flag must be provided."@
}

/// Process-wide switch for experimental APIs, fixed at startup.
///
/// It is a struct of its own so that it can sit in the shared runtime state
/// under a type that nothing else uses.
pub struct UnstableChecker {
    pub unstable: bool,
}

/// A use of a gated API while the flag is off.
///
/// This is deliberately not an error that a script can catch: whoever
/// receives it writes `message()` to the error stream and ends the process
/// with `UNSTABLE_EXIT_CODE`, so that a script cannot probe for gated APIs.
pub struct UnstableViolation {
    pub api_name: String,
}

impl UnstableViolation {
    /// The diagnostic line naming the gated API.
    pub fn message(&self) -> (r: String)
        ensures
            r@ == unstable_message(self.api_name@),
    {
        let mut s = String::from_str("Unstable API '");
        s.append(self.api_name.as_str());
        s.append("'. The --unstable flag must be provided.");
        proof {
            reveal_strlit("Unstable API '");
            reveal_strlit("'. The --unstable flag must be provided.");
        }
        s
    }

    /// The status with which the process must end.
    pub fn exit_code(&self) -> (r: i32)
        ensures
            r == UNSTABLE_EXIT_CODE,
    {
        UNSTABLE_EXIT_CODE
    }
}

impl UnstableChecker {
    pub fn new(unstable: bool) -> (r: Self)
        ensures
            r.unstable == unstable,
    {
        UnstableChecker { unstable }
    }

    /// Decides whether `api_name` may be used: always when the flag is on,
    /// never when it is off, in which case the violation names the API.
    pub fn check_unstable(&self, api_name: &str) -> (r: Result<(), UnstableViolation>)
        ensures
            r is Ok <==> self.unstable,
            r matches Err(v) ==> v.api_name@ == api_name@,
    {
        if self.unstable {
            Ok(())
        } else {
            Err(UnstableViolation { api_name: String::from_str(api_name) })
        }
    }
}

} // verus!
