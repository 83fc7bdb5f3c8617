use vstd::prelude::*;

verus! {

/// Why a typed read failed: the retrieval function's error, or the error of
/// parsing the text it returned. Both are carried unchanged.
#[derive(Debug, Clone, PartialEq, PartialOrd)]
pub enum EnvError<G, P> {
    GetterError(G),
    ParseError(P),
}

} // verus!
