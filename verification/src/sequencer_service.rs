//! The methods of the gRPC service `astria.sequencerblock.v1alpha1.SequencerService`
//! and the request paths by which a client calls them and a server routes them.
use vstd::prelude::*;

verus! {

/// A method of the sequencer block service.
#[derive(Clone, Copy, Debug, PartialEq, Eq, Structural)]
pub enum SequencerServiceMethod {
    /// Given a block height, returns the sequencer block at that height.
    GetSequencerBlock,
    /// Given a block height and a set of rollup ids, returns the sequencer
    /// block at that height filtered to the transactions of those rollups.
    GetFilteredSequencerBlock,
    /// Returns the chain id of the sequencer.
    GetChainId,
    /// Given a height, returns the commit at that height.
    GetCommit,
    /// Given a height, returns the validator set at that height.
    GetValidators,
    /// Returns the ABCI info of the sequencer application.
    GetAbciInfo,
}

/// The fully qualified name of the service.
pub open spec fn spec_service_name() -> Seq<char> {
    "astria.sequencerblock.v1alpha1.SequencerService"@
}

/// The name of a method within the service.
pub open spec fn spec_method_name(m: SequencerServiceMethod) -> Seq<char> {
    match m {
        SequencerServiceMethod::GetSequencerBlock => "GetSequencerBlock"@,
        SequencerServiceMethod::GetFilteredSequencerBlock => "GetFilteredSequencerBlock"@,
        SequencerServiceMethod::GetChainId => "GetChainId"@,
        SequencerServiceMethod::GetCommit => "GetCommit"@,
        SequencerServiceMethod::GetValidators => "GetValidators"@,
        SequencerServiceMethod::GetAbciInfo => "GetAbciInfo"@,
    }
}

/// The request path of a method, as the client sends it and the server
/// routes it.
pub open spec fn spec_path(m: SequencerServiceMethod) -> Seq<char> {
    match m {
        SequencerServiceMethod::GetSequencerBlock => {
            "/astria.sequencerblock.v1alpha1.SequencerService/GetSequencerBlock"@
        },
        SequencerServiceMethod::GetFilteredSequencerBlock => {
            "/astria.sequencerblock.v1alpha1.SequencerService/GetFilteredSequencerBlock"@
        },
        SequencerServiceMethod::GetChainId => {
            "/astria.sequencerblock.v1alpha1.SequencerService/GetChainId"@
        },
        SequencerServiceMethod::GetCommit => {
            "/astria.sequencerblock.v1alpha1.SequencerService/GetCommit"@
        },
        SequencerServiceMethod::GetValidators => {
            "/astria.sequencerblock.v1alpha1.SequencerService/GetValidators"@
        },
        SequencerServiceMethod::GetAbciInfo => {
            "/astria.sequencerblock.v1alpha1.SequencerService/GetAbciInfo"@
        },
    }
}

/// The method that a server dispatches a request path to, if any.
pub open spec fn spec_route(path: Seq<char>) -> Option<SequencerServiceMethod> {
    if path == spec_path(SequencerServiceMethod::GetSequencerBlock) {
        Some(SequencerServiceMethod::GetSequencerBlock)
    } else if path == spec_path(SequencerServiceMethod::GetFilteredSequencerBlock) {
        Some(SequencerServiceMethod::GetFilteredSequencerBlock)
    } else if path == spec_path(SequencerServiceMethod::GetChainId) {
        Some(SequencerServiceMethod::GetChainId)
    } else if path == spec_path(SequencerServiceMethod::GetCommit) {
        Some(SequencerServiceMethod::GetCommit)
    } else if path == spec_path(SequencerServiceMethod::GetValidators) {
        Some(SequencerServiceMethod::GetValidators)
    } else if path == spec_path(SequencerServiceMethod::GetAbciInfo) {
        Some(SequencerServiceMethod::GetAbciInfo)
    } else {
        None
    }
}

/// The fully qualified name of the service.
pub fn service_name() -> (name: &'static str)
    ensures
        name@ == spec_service_name(),
{
    "astria.sequencerblock.v1alpha1.SequencerService"
}

/// Whether two strings are equal.
fn str_eq(a: &str, b: &str) -> (eq: bool)
    ensures
        eq == (a@ == b@),
{
    let a_owned = a.to_owned();
    let b_owned = b.to_owned();
    a_owned == b_owned
}

impl SequencerServiceMethod {
    /// The name of the method within the service.
    pub fn method_name(&self) -> (name: &'static str)
        ensures
            name@ == spec_method_name(*self),
    {
        match self {
            SequencerServiceMethod::GetSequencerBlock => "GetSequencerBlock",
            SequencerServiceMethod::GetFilteredSequencerBlock => "GetFilteredSequencerBlock",
            SequencerServiceMethod::GetChainId => "GetChainId",
            SequencerServiceMethod::GetCommit => "GetCommit",
            SequencerServiceMethod::GetValidators => "GetValidators",
            SequencerServiceMethod::GetAbciInfo => "GetAbciInfo",
        }
    }

    /// The request path of the method.
    pub fn path(&self) -> (path: &'static str)
        ensures
            path@ == spec_path(*self),
    {
        match self {
            SequencerServiceMethod::GetSequencerBlock => {
                "/astria.sequencerblock.v1alpha1.SequencerService/GetSequencerBlock"
            },
            SequencerServiceMethod::GetFilteredSequencerBlock => {
                "/astria.sequencerblock.v1alpha1.SequencerService/GetFilteredSequencerBlock"
            },
            SequencerServiceMethod::GetChainId => {
                "/astria.sequencerblock.v1alpha1.SequencerService/GetChainId"
            },
            SequencerServiceMethod::GetCommit => {
                "/astria.sequencerblock.v1alpha1.SequencerService/GetCommit"
            },
            SequencerServiceMethod::GetValidators => {
                "/astria.sequencerblock.v1alpha1.SequencerService/GetValidators"
            },
            SequencerServiceMethod::GetAbciInfo => {
                "/astria.sequencerblock.v1alpha1.SequencerService/GetAbciInfo"
            },
        }
    }
}

/// The method that a server dispatches a request with this path to; `None`
/// for a path that names no method of the service, which the server answers
/// with the gRPC status `UNIMPLEMENTED`.
pub fn route(path: &str) -> (method: Option<SequencerServiceMethod>)
    ensures
        method == spec_route(path@),
{
    let methods = [
        SequencerServiceMethod::GetSequencerBlock,
        SequencerServiceMethod::GetFilteredSequencerBlock,
        SequencerServiceMethod::GetChainId,
        SequencerServiceMethod::GetCommit,
        SequencerServiceMethod::GetValidators,
        SequencerServiceMethod::GetAbciInfo,
    ];
    let mut i: usize = 0;
    while i < 6
        invariant
            i <= 6,
            methods@ == seq![
                SequencerServiceMethod::GetSequencerBlock,
                SequencerServiceMethod::GetFilteredSequencerBlock,
                SequencerServiceMethod::GetChainId,
                SequencerServiceMethod::GetCommit,
                SequencerServiceMethod::GetValidators,
                SequencerServiceMethod::GetAbciInfo,
            ],
            forall|j: int| 0 <= j < i ==> path@ != spec_path(#[trigger] methods@[j]),
        decreases 6 - i,
    {
        let m = methods[i];
        if str_eq(path, m.path()) {
            return Some(m);
        }
        i = i + 1;
    }
    None
}

/// The request path of each method is the service name and the method name,
/// each after a slash.
pub proof fn lemma_path_is_service_and_method(m: SequencerServiceMethod)
    ensures
        spec_path(m) == seq!['/'] + spec_service_name() + seq!['/'] + spec_method_name(m),
{
    reveal_strlit("astria.sequencerblock.v1alpha1.SequencerService");
    match m {
        SequencerServiceMethod::GetSequencerBlock => {
            reveal_strlit("GetSequencerBlock");
            reveal_strlit("/astria.sequencerblock.v1alpha1.SequencerService/GetSequencerBlock");
        },
        SequencerServiceMethod::GetFilteredSequencerBlock => {
            reveal_strlit("GetFilteredSequencerBlock");
            reveal_strlit(
                "/astria.sequencerblock.v1alpha1.SequencerService/GetFilteredSequencerBlock",
            );
        },
        SequencerServiceMethod::GetChainId => {
            reveal_strlit("GetChainId");
            reveal_strlit("/astria.sequencerblock.v1alpha1.SequencerService/GetChainId");
        },
        SequencerServiceMethod::GetCommit => {
            reveal_strlit("GetCommit");
            reveal_strlit("/astria.sequencerblock.v1alpha1.SequencerService/GetCommit");
        },
        SequencerServiceMethod::GetValidators => {
            reveal_strlit("GetValidators");
            reveal_strlit("/astria.sequencerblock.v1alpha1.SequencerService/GetValidators");
        },
        SequencerServiceMethod::GetAbciInfo => {
            reveal_strlit("GetAbciInfo");
            reveal_strlit("/astria.sequencerblock.v1alpha1.SequencerService/GetAbciInfo");
        },
    }
    assert(spec_path(m) =~= seq!['/'] + spec_service_name() + seq!['/'] + spec_method_name(m));
}

/// A server dispatches the path that a client sends for a method to that
/// same method.
pub proof fn lemma_route_of_path(m: SequencerServiceMethod)
    ensures
        spec_route(spec_path(m)) == Some(m),
{
    reveal_strlit("/astria.sequencerblock.v1alpha1.SequencerService/GetSequencerBlock");
    reveal_strlit("/astria.sequencerblock.v1alpha1.SequencerService/GetFilteredSequencerBlock");
    reveal_strlit("/astria.sequencerblock.v1alpha1.SequencerService/GetChainId");
    reveal_strlit("/astria.sequencerblock.v1alpha1.SequencerService/GetCommit");
    reveal_strlit("/astria.sequencerblock.v1alpha1.SequencerService/GetValidators");
    reveal_strlit("/astria.sequencerblock.v1alpha1.SequencerService/GetAbciInfo");
    let p0 = spec_path(SequencerServiceMethod::GetSequencerBlock);
    let p1 = spec_path(SequencerServiceMethod::GetFilteredSequencerBlock);
    let p2 = spec_path(SequencerServiceMethod::GetChainId);
    let p3 = spec_path(SequencerServiceMethod::GetCommit);
    let p4 = spec_path(SequencerServiceMethod::GetValidators);
    let p5 = spec_path(SequencerServiceMethod::GetAbciInfo);
    // the paths differ in length or in the first letter after `/Get`
    assert(p0[52] == 'S' && p1[52] == 'F' && p2[52] == 'C' && p3[52] == 'C' && p4[52] == 'V'
        && p5[52] == 'A');
    assert(p2.len() != p3.len());
}

/// A server dispatches a path to a method only if it is that method's path.
pub proof fn lemma_route_only_exact_paths(path: Seq<char>)
    ensures
        spec_route(path) matches Some(m) ==> path == spec_path(m),
{
}

} // verus!
