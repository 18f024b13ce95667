use vstd::prelude::*;

verus! {

/// The resource through which host-framework systems reach the root console
/// while the bridge holds it: `Some` for the duration of one update or
/// render phase, `None` while the console is back with the host loop.
pub struct DoryenRootConsole(pub Option<doryen_rs::Console>);

impl Default for DoryenRootConsole {
    /// Empty: the host loop owns the console until the first take.
    fn default() -> (r: Self)
        ensures
            r.0 is None,
    {
        DoryenRootConsole(None)
    }
}

} // verus!
