//! What a run is configured with: the endpoint, the scope to create and
//! the size of the batch.

use vstd::prelude::*;
use vstd::string::*;

verus! {

/// The number of calls of a batch.
pub const DEFAULT_CALLS: usize = 10000;

/// The endpoint that the arguments of the process select: the first
/// argument after the program's name, or the local default without one.
pub open spec fn endpoint_from(args: Seq<String>) -> Seq<char> {
    if args.len() > 1 {
        args[1]@
    } else {
        "127.0.0.1:9090"@
    }
}

/// The configuration of one run.
#[derive(Debug)]
pub struct Config {
    /// The `host:port` address of the control-plane service.
    pub endpoint: String,
    /// The name of the scope that every call asks for.
    pub scope: String,
    /// The number of calls of the batch.
    pub calls: usize,
}

impl Config {
    /// The configuration for the arguments of the process, the program's
    /// name first. Only the endpoint can be chosen; further arguments are
    /// not looked at.
    pub fn from_args(args: &Vec<String>) -> (config: Config)
        ensures
            config.endpoint@ == endpoint_from(args@),
            config.scope@ == "hello5"@,
            config.calls == DEFAULT_CALLS,
    {
        let endpoint = if args.len() > 1 {
            args[1].clone()
        } else {
            String::from_str("127.0.0.1:9090")
        };
        Config { endpoint, scope: String::from_str("hello5"), calls: DEFAULT_CALLS }
    }

    /// The requests of the batch: as many as there are calls, each the
    /// name of the scope.
    pub fn requests(&self) -> (requests: Vec<String>)
        ensures
            requests@.len() == self.calls,
            forall|i: int| 0 <= i < requests@.len() ==> (#[trigger] requests@[i])@ == self.scope@,
    {
        let mut requests: Vec<String> = Vec::new();
        let mut i: usize = 0;
        while i < self.calls
            invariant
                i <= self.calls,
                requests@.len() == i,
                forall|k: int|
                    0 <= k < requests@.len() ==> (#[trigger] requests@[k])@ == self.scope@,
            decreases self.calls - i,
        {
            requests.push(self.scope.clone());
            i = i + 1;
        }
        requests
    }
}

} // verus!
