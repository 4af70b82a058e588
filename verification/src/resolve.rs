use vstd::prelude::*;

verus! {

/// Result of a bidirectional reconciliation. `ok` is `false` only when the
/// local and remote histories have diverged.
#[derive(Debug, Clone, Copy, PartialEq, Eq, Structural)]
pub struct Resolve {
    pub ok: bool,
}

impl Resolve {
    pub fn new(ok: bool) -> (res: Self)
        ensures
            res.ok == ok,
    {
        Resolve { ok }
    }
}

} // verus!
