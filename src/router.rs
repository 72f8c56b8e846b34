use crate::command::SystemCommand;
use crate::data::{started, BmsData};
use vstd::prelude::*;

verus! {

/// Length of the debounce window that an accepted command opens.
pub const DEBOUNCE_WINDOW_MS: u64 = 1000;

/// Whether a unit's store holds a frozen record.
pub open spec fn is_frozen(store: Option<BmsData>) -> bool {
    store matches Some(d) && d.control_frozen
}

/// The store's record (a fresh one if it has none) with its freeze flag set
/// to `frozen`.
pub open spec fn with_frozen(store: Option<BmsData>, frozen: bool) -> BmsData {
    BmsData { control_frozen: frozen, ..started(store) }
}

/// One command arriving at the router: while either unit is frozen it is
/// dropped; otherwise both units are frozen and the command is forwarded.
/// Gives both stores after and the command forwarded, if any.
pub open spec fn route_step(s1: Option<BmsData>, s2: Option<BmsData>, command: SystemCommand) -> (
    Option<BmsData>,
    Option<BmsData>,
    Option<SystemCommand>,
) {
    if is_frozen(s1) || is_frozen(s2) {
        (s1, s2, None)
    } else {
        (Some(with_frozen(s1, true)), Some(with_frozen(s2, true)), Some(command))
    }
}

/// Commands arriving one after another, none of them after the window
/// closed: both stores after, and the commands forwarded, in order.
pub open spec fn route_all(s1: Option<BmsData>, s2: Option<BmsData>, commands: Seq<SystemCommand>) -> (
    Option<BmsData>,
    Option<BmsData>,
    Seq<SystemCommand>,
)
    decreases commands.len(),
{
    if commands.len() == 0 {
        (s1, s2, Seq::empty())
    } else {
        let step = route_step(s1, s2, commands[0]);
        let rest = route_all(step.0, step.1, commands.drop_first());
        let forwarded = match step.2 {
            Some(c) => seq![c],
            None => Seq::empty(),
        };
        (rest.0, rest.1, forwarded + rest.2)
    }
}

fn freeze_flag(store: &mut Option<BmsData>, frozen: bool)
    ensures
        *final(store) == Some(with_frozen(*old(store), frozen)),
{
    let mut data = match store {
        Some(d) => *d,
        None => BmsData::default(),
    };
    data.control_frozen = frozen;
    *store = Some(data);
}

/// Handles one command event for the two units' stores, which the caller
/// holds exclusively for the duration: forwards the command and freezes
/// both units unless either is frozen already.
pub fn route_command(
    store1: &mut Option<BmsData>,
    store2: &mut Option<BmsData>,
    command: SystemCommand,
) -> (r: Option<SystemCommand>)
    ensures
        (*final(store1), *final(store2), r) == route_step(*old(store1), *old(store2), command),
{
    let frozen1 = match store1 {
        Some(d) => d.control_frozen,
        None => false,
    };
    let frozen2 = match store2 {
        Some(d) => d.control_frozen,
        None => false,
    };
    if frozen1 || frozen2 {
        None
    } else {
        freeze_flag(store1, true);
        freeze_flag(store2, true);
        Some(command)
    }
}

/// Closes the debounce window: both units are thawed.
pub fn reset_control_frozen(store1: &mut Option<BmsData>, store2: &mut Option<BmsData>)
    ensures
        *final(store1) == Some(with_frozen(*old(store1), false)),
        *final(store2) == Some(with_frozen(*old(store2), false)),
{
    freeze_flag(store1, false);
    freeze_flag(store2, false);
}

/// While either unit is frozen, every arriving command is dropped and the
/// stores stay as they are.
pub proof fn lemma_frozen_drops_all(
    s1: Option<BmsData>,
    s2: Option<BmsData>,
    commands: Seq<SystemCommand>,
)
    requires
        is_frozen(s1) || is_frozen(s2),
    ensures
        route_all(s1, s2, commands) == (s1, s2, Seq::<SystemCommand>::empty()),
    decreases commands.len(),
{
    if commands.len() > 0 {
        lemma_frozen_drops_all(s1, s2, commands.drop_first());
        assert(Seq::<SystemCommand>::empty() + Seq::<SystemCommand>::empty() =~= Seq::<
            SystemCommand,
        >::empty());
    }
}

/// A run of commands that starts while no window is open forwards its first
/// command alone and leaves both units frozen.
pub proof fn lemma_first_command_opens_window(
    s1: Option<BmsData>,
    s2: Option<BmsData>,
    commands: Seq<SystemCommand>,
)
    requires
        !is_frozen(s1),
        !is_frozen(s2),
        commands.len() >= 1,
    ensures
        route_all(s1, s2, commands) == (
            Some(with_frozen(s1, true)),
            Some(with_frozen(s2, true)),
            seq![commands[0]],
        ),
{
    lemma_frozen_drops_all(
        Some(with_frozen(s1, true)),
        Some(with_frozen(s2, true)),
        commands.drop_first(),
    );
    assert(seq![commands[0]] + Seq::<SystemCommand>::empty() =~= seq![commands[0]]);
}

/// Debounce: of any number of commands that arrive within one window opened
/// while both units were thawed, exactly the first is forwarded; both units
/// are frozen after each arrival; once the window is closed both are thawed
/// and the next command is forwarded again.
pub proof fn lemma_debounce(
    s1: Option<BmsData>,
    s2: Option<BmsData>,
    commands: Seq<SystemCommand>,
    next: SystemCommand,
)
    requires
        !is_frozen(s1),
        !is_frozen(s2),
        commands.len() >= 1,
    ensures
        route_all(s1, s2, commands).2 == seq![commands[0]],
        forall|k: int|
            1 <= k <= commands.len() ==> {
                let after = #[trigger] route_all(s1, s2, commands.take(k));
                is_frozen(after.0) && is_frozen(after.1)
            },
        ({
            let after = route_all(s1, s2, commands);
            let t1 = Some(with_frozen(after.0, false));
            let t2 = Some(with_frozen(after.1, false));
            &&& !is_frozen(t1)
            &&& !is_frozen(t2)
            &&& route_step(t1, t2, next).2 == Some(next)
        }),
{
    lemma_first_command_opens_window(s1, s2, commands);
    assert forall|k: int| 1 <= k <= commands.len() implies {
        let after = #[trigger] route_all(s1, s2, commands.take(k));
        is_frozen(after.0) && is_frozen(after.1)
    } by {
        lemma_first_command_opens_window(s1, s2, commands.take(k));
    }
}

} // verus!
