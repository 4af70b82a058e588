use vstd::prelude::*;

verus! {

/// Result of a synchronisation with the remote. `ok` is `false` only when
/// the local and remote histories have diverged.
#[derive(Debug, Clone, Copy, PartialEq, Eq, Structural)]
pub struct Sync {
    pub ok: bool,
}

impl Sync {
    pub fn new(ok: bool) -> (res: Self)
        ensures
            res.ok == ok,
    {
        Sync { ok }
    }
}

} // verus!
