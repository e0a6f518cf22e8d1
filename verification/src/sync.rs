//! The render synchronizer's decisions.
//!
//! Output events arrive tagged with the identifier of the session that
//! produced them. For each, the synchronizer decides whether it is applied,
//! and to which tab, or thrown away because its session is gone. An applied
//! event opens an update that lasts until the next render pass is over:
//! the caller announces the update before it applies the event and closes
//! it after the render, so that an observer can compare the two moments.
//!
//! Events are decided on one at a time, in the order of their arrival. The
//! queue that they wait in belongs to the caller; where it has no bound, a
//! session that writes faster than the window draws makes it grow without
//! limit.

use crate::registry::{Registry, RegistryModel, TabType};
use vstd::prelude::*;

verus! {

/// Where the synchronizer stands between two events.
#[derive(Clone, Copy, Debug, PartialEq, Eq, Structural)]
pub enum Phase {
    /// No update is open.
    Idle,
    /// An event was applied to this session and the render pass that shows
    /// it is not over yet.
    AwaitingRender(u64),
}

/// What is to be done with one output event.
#[derive(Clone, Copy, Debug, PartialEq, Eq, Structural)]
pub enum Delivery {
    /// An update is still open: keep the event and offer it again after
    /// the render pass.
    Busy,
    /// The event's session is not an open terminal: throw the event away.
    Discard,
    /// Announce the update to the session's observers, apply the event to
    /// the terminal of the tab at `index`, wait for the next render pass
    /// and report it with [`Synchronizer::on_render`].
    Apply { index: usize },
}

/// Whether the tab at `index` is the open terminal of `session`.
pub open spec fn terminal_at(registry: RegistryModel, session: u64, index: int) -> bool {
    &&& 0 <= index < registry.tabs.len()
    &&& registry.tabs[index].id == session
    &&& registry.tabs[index].tab_type == TabType::Terminal
}

/// Whether `session` is an open terminal.
pub open spec fn has_terminal(registry: RegistryModel, session: u64) -> bool {
    exists|index: int| terminal_at(registry, session, index)
}

/// An identifier that was handed out and whose tab has left the table.
pub open spec fn retired(registry: RegistryModel, session: u64) -> bool {
    session < registry.next_id && !registry.has_id(session)
}

/// The position of the tab that an event of `session` is applied to, if
/// the session is an open terminal.
pub open spec fn target(registry: RegistryModel, session: u64) -> Option<int> {
    if has_terminal(registry, session) {
        Some(choose|index: int| terminal_at(registry, session, index))
    } else {
        None
    }
}

/// The arrivals that `session` produced, by their positions in the order
/// of arrival.
pub open spec fn produced_by(arrivals: Seq<u64>, session: u64) -> Seq<int>
    decreases arrivals.len(),
{
    if arrivals.len() == 0 {
        Seq::empty()
    } else {
        let before = produced_by(arrivals.drop_last(), session);
        if arrivals.last() == session {
            before.push(arrivals.len() - 1)
        } else {
            before
        }
    }
}

/// The arrivals that are applied to the tab at `index` when the events are
/// decided on one after the other, by their positions in the order of
/// arrival. An arrival is the identifier of the session that produced the
/// event.
pub open spec fn applied_at(registry: RegistryModel, arrivals: Seq<u64>, index: int) -> Seq<int>
    decreases arrivals.len(),
{
    if arrivals.len() == 0 {
        Seq::empty()
    } else {
        let before = applied_at(registry, arrivals.drop_last(), index);
        if target(registry, arrivals.last()) == Some(index) {
            before.push(arrivals.len() - 1)
        } else {
            before
        }
    }
}

/// The synchronizer: at most one update is open at a time.
#[derive(Debug)]
pub struct Synchronizer {
    phase: Phase,
}

impl View for Synchronizer {
    type V = Phase;

    closed spec fn view(&self) -> Phase {
        self.phase
    }
}

/// The position of the open terminal of `session`, if there is one.
pub fn find_terminal(registry: &Registry, session: u64) -> (found: Option<usize>)
    requires
        registry.wf(),
    ensures
        found matches Some(index) ==> terminal_at(registry@, session, index as int),
        found.is_some() == has_terminal(registry@, session),
        match found {
            Some(index) => target(registry@, session) == Some(index as int),
            None => target(registry@, session).is_none(),
        },
{
    match registry.position_of(session) {
        Some(index) => {
            match registry.tab(index) {
                Some(tab) => {
                    if tab.tab_type == TabType::Terminal {
                        assert(terminal_at(registry@, session, index as int));
                        proof {
                            lemma_target(registry@, session, index as int);
                        }
                        Some(index)
                    } else {
                        assert forall|other: int| !terminal_at(registry@, session, other) by {
                            if terminal_at(registry@, session, other) {
                                assert(registry@.tabs[other].id == registry@.tabs[index as int].id);
                            }
                        }
                        None
                    }
                },
                None => None,
            }
        },
        None => {
            assert forall|other: int| !terminal_at(registry@, session, other) by {
                if terminal_at(registry@, session, other) {
                    assert(registry@.tabs[other].id == session);
                }
            }
            None
        },
    }
}

impl Synchronizer {
    /// A synchronizer with no update open.
    pub fn new() -> (synchronizer: Synchronizer)
        ensures
            synchronizer@ == Phase::Idle,
    {
        Synchronizer { phase: Phase::Idle }
    }

    /// The phase that the synchronizer is in.
    pub fn phase(&self) -> (phase: Phase)
        ensures
            phase == self@,
    {
        self.phase
    }

    /// Decides on an output event of `session`. While an update is open the
    /// event has to wait. Otherwise it is applied to the tab of its own
    /// session, which opens an update, or thrown away where that session
    /// is no open terminal.
    pub fn on_output(&mut self, registry: &Registry, session: u64) -> (delivery: Delivery)
        requires
            registry.wf(),
        ensures
            delivery is Busy <==> old(self)@ is AwaitingRender,
            old(self)@ is AwaitingRender ==> final(self)@ == old(self)@,
            old(self)@ is Idle && has_terminal(registry@, session) ==> final(self)@
                == Phase::AwaitingRender(session),
            old(self)@ is Idle && !has_terminal(registry@, session) ==> final(self)@ == Phase::Idle,
            delivery is Discard <==> old(self)@ is Idle && !has_terminal(registry@, session),
            delivery matches Delivery::Apply { index } ==> old(self)@ is Idle && terminal_at(
                registry@,
                session,
                index as int,
            ) && target(registry@, session) == Some(index as int),
    {
        match self.phase {
            Phase::AwaitingRender(_) => Delivery::Busy,
            Phase::Idle => {
                match find_terminal(registry, session) {
                    Some(index) => {
                        self.phase = Phase::AwaitingRender(session);
                        Delivery::Apply { index }
                    },
                    None => Delivery::Discard,
                }
            },
        }
    }

    /// Takes the end of a render pass, which closes the open update.
    /// Returns the session whose observers are to be told that the update
    /// is over: the one that the update was opened for, if it is still an
    /// open terminal. With no update open, nothing changes.
    pub fn on_render(&mut self, registry: &Registry) -> (updated: Option<u64>)
        requires
            registry.wf(),
        ensures
            final(self)@ == Phase::Idle,
            match old(self)@ {
                Phase::AwaitingRender(session) => updated == (if has_terminal(registry@, session) {
                    Some(session)
                } else {
                    None
                }),
                Phase::Idle => updated.is_none(),
            },
    {
        match self.phase {
            Phase::AwaitingRender(session) => {
                self.phase = Phase::Idle;
                match find_terminal(registry, session) {
                    Some(_) => Some(session),
                    None => None,
                }
            },
            Phase::Idle => None,
        }
    }
}

/// An event is applied to one tab only: a session has at most one open
/// terminal, and it carries the session's identifier.
pub proof fn lemma_delivery_target_is_unique(
    registry: RegistryModel,
    session: u64,
    first: int,
    second: int,
)
    requires
        registry.valid(),
        terminal_at(registry, session, first),
        terminal_at(registry, session, second),
    ensures
        first == second,
        registry.tabs[first].id == session,
{
    if first < second {
        assert(registry.tabs[first].id != registry.tabs[second].id);
    } else if second < first {
        assert(registry.tabs[second].id != registry.tabs[first].id);
    }
}

/// Once a tab is closed its session is retired: no tab carries its
/// identifier, so its events are thrown away.
pub proof fn lemma_closed_session_is_retired(registry: RegistryModel, index: int)
    requires
        registry.valid(),
        0 <= index < registry.tabs.len(),
    ensures
        retired(registry.close(index), registry.tabs[index].id),
        !has_terminal(registry.close(index), registry.tabs[index].id),
{
    let session = registry.tabs[index].id;
    let after = registry.close(index);
    assert forall|k: int| 0 <= k < after.tabs.len() implies (#[trigger] after.tabs[k]).id
        != session by {
        if k < index {
            assert(after.tabs[k] == registry.tabs[k]);
        } else {
            assert(after.tabs[k] == registry.tabs[k + 1]);
        }
    }
    lemma_retired_has_no_terminal(after, session);
}

/// The events of a retired session are thrown away.
pub proof fn lemma_retired_has_no_terminal(registry: RegistryModel, session: u64)
    requires
        retired(registry, session),
    ensures
        !has_terminal(registry, session),
{
    assert forall|index: int| !terminal_at(registry, session, index) by {
        if terminal_at(registry, session, index) {
            assert(registry.tabs[index].id == session);
        }
    }
}

/// A retired session stays retired whatever happens to the table: new tabs
/// get identifiers that were never handed out, and nothing else adds one.
pub proof fn lemma_retired_stays_retired(
    registry: RegistryModel,
    session: u64,
    index: int,
    renamed: u64,
    tab_type: TabType,
    name: Seq<char>,
    pty: Seq<char>,
)
    requires
        registry.valid(),
        retired(registry, session),
    ensures
        retired(registry.close(index), session),
        registry.next_id < u64::MAX ==> retired(registry.create(tab_type, name, pty), session),
        retired(registry.focus_on(index), session),
        retired(registry.next(), session),
        retired(registry.previous(), session),
        retired(registry.rename(renamed, name), session),
{
    let closed = registry.close(index);
    assert forall|k: int| 0 <= k < closed.tabs.len() implies (#[trigger] closed.tabs[k]).id
        != session by {
        if 0 <= index < registry.tabs.len() {
            if k < index {
                assert(closed.tabs[k] == registry.tabs[k]);
            } else {
                assert(closed.tabs[k] == registry.tabs[k + 1]);
            }
        } else {
            assert(closed.tabs[k] == registry.tabs[k]);
        }
    }
    if registry.next_id < u64::MAX {
        let created = registry.create(tab_type, name, pty);
        assert forall|k: int| 0 <= k < created.tabs.len() implies (#[trigger] created.tabs[k]).id
            != session by {
            if k < registry.tabs.len() {
                assert(created.tabs[k] == registry.tabs[k]);
            }
        }
    }
    let titled = registry.rename(renamed, name);
    assert forall|k: int| 0 <= k < titled.tabs.len() implies (#[trigger] titled.tabs[k]).id
        != session by {
        assert(registry.tabs[k].id != session);
    }
}

/// The tab that an event is applied to is the open terminal of its own
/// session, and no other.
pub proof fn lemma_target(registry: RegistryModel, session: u64, index: int)
    requires
        registry.valid(),
        terminal_at(registry, session, index),
    ensures
        target(registry, session) == Some(index),
{
    let chosen = choose|other: int| terminal_at(registry, session, other);
    lemma_delivery_target_is_unique(registry, session, index, chosen);
}

/// The terminal of an open session gets every event that the session
/// produced, in the order of arrival, and no event of any other session,
/// whatever the other sessions produce in between.
pub proof fn lemma_events_reach_their_terminal_in_order(
    registry: RegistryModel,
    arrivals: Seq<u64>,
    session: u64,
    index: int,
)
    requires
        registry.valid(),
        terminal_at(registry, session, index),
    ensures
        applied_at(registry, arrivals, index) == produced_by(arrivals, session),
    decreases arrivals.len(),
{
    if arrivals.len() > 0 {
        lemma_events_reach_their_terminal_in_order(registry, arrivals.drop_last(), session, index);
        let last = arrivals.last();
        lemma_target(registry, session, index);
        if last != session && target(registry, last) == Some(index) {
            let chosen = choose|other: int| terminal_at(registry, last, other);
            assert(terminal_at(registry, last, chosen));
        }
    }
}

/// No event is applied to a tab that is not the open terminal of the
/// event's session: the events of a session that has no open terminal reach
/// no tab at all.
pub proof fn lemma_events_reach_no_other_tab(
    registry: RegistryModel,
    arrivals: Seq<u64>,
    index: int,
)
    ensures
        forall|k: int|
            0 <= k < applied_at(registry, arrivals, index).len() ==> {
                let at = #[trigger] applied_at(registry, arrivals, index)[k];
                0 <= at < arrivals.len() && terminal_at(registry, arrivals[at], index)
            },
    decreases arrivals.len(),
{
    if arrivals.len() > 0 {
        lemma_events_reach_no_other_tab(registry, arrivals.drop_last(), index);
        let before = applied_at(registry, arrivals.drop_last(), index);
        assert forall|k: int| 0 <= k < before.len() implies arrivals[before[k]]
            == arrivals.drop_last()[before[k]] by {}
        if target(registry, arrivals.last()) == Some(index) {
            let chosen = choose|other: int| terminal_at(registry, arrivals.last(), other);
            assert(terminal_at(registry, arrivals.last(), chosen));
        }
    }
}

} // verus!
