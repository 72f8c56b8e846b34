use vstd::prelude::*;

verus! {

/// A system-wide command, produced by a control-register write or an
/// operator input and rebroadcast by the command router.
#[derive(Debug, Clone, Copy, PartialEq, Eq, Structural)]
pub enum SystemCommand {
    Off,
    On,
    Quit,
}

} // verus!
