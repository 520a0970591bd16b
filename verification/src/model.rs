//! The application as a mathematical state machine.
//!
//! [`AppModel`] is what an [`crate::app::App`] is in contracts. Each key has a
//! transition here, and the contracts of the executable methods say that they
//! make exactly these transitions.

use crate::event::{Event, KeyCode, KeyEvent, KeyEventKind};
use crate::host::{sample_host_models, HostModel};
use crate::selection::{advanced, first, is_settled, last, retreated};
use vstd::prelude::*;

verus! {

/// The state of the application.
pub struct AppModel {
    /// The counter that the arrow keys move, from 0 to 255.
    pub counter: nat,
    /// The selected row of the host list, if any.
    pub selected: Option<nat>,
    /// The host list.
    pub hosts: Seq<HostModel>,
    /// Whether the application has been told to quit.
    pub exit: bool,
}

/// The largest value of the counter.
pub open spec fn counter_max() -> nat {
    255
}

impl AppModel {
    /// What holds of every state of an application: the counter is in its
    /// range, and the selection names no row or a row of the host list.
    pub open spec fn wf(self) -> bool {
        &&& self.counter <= counter_max()
        &&& is_settled(self.selected, self.hosts.len())
    }

    /// The state before anything is loaded: no hosts, nothing selected.
    pub open spec fn empty() -> AppModel {
        AppModel { counter: 0, selected: None, hosts: Seq::empty(), exit: false }
    }

    /// The state in which a list of `hosts` is first shown: the selection is
    /// on the first row, if there is one.
    pub open spec fn showing(hosts: Seq<HostModel>) -> AppModel {
        AppModel { counter: 0, selected: first(hosts.len()), hosts, exit: false }
    }

    /// The state after the start: the sample hosts are added to the end of the
    /// list, and the first row is selected.
    pub open spec fn started(self) -> AppModel {
        AppModel { selected: Some(0nat), hosts: self.hosts + sample_host_models(), ..self }
    }

    /// Left arrow: the counter goes down by one and stays at 0 once there.
    pub open spec fn decrement_counter(self) -> AppModel {
        AppModel { counter: if self.counter == 0 { 0 } else { (self.counter - 1) as nat }, ..self }
    }

    /// Right arrow: the counter goes up by one and stays at its largest value
    /// once there.
    pub open spec fn increment_counter(self) -> AppModel {
        AppModel {
            counter: if self.counter >= counter_max() { self.counter } else { self.counter + 1 },
            ..self
        }
    }

    /// `q`: the application is told to quit.
    pub open spec fn exit(self) -> AppModel {
        AppModel { exit: true, ..self }
    }

    /// `j`: the selection advances, round to the first row from the last.
    pub open spec fn next(self) -> AppModel {
        AppModel { selected: advanced(self.selected, self.hosts.len()), ..self }
    }

    /// `k`: the selection retreats, round to the last row from the first.
    pub open spec fn prev(self) -> AppModel {
        AppModel { selected: retreated(self.selected, self.hosts.len()), ..self }
    }

    /// `g`: the selection jumps to the first row.
    pub open spec fn go_top(self) -> AppModel {
        AppModel { selected: first(self.hosts.len()), ..self }
    }

    /// `G`: the selection jumps to the last row.
    pub open spec fn go_bottom(self) -> AppModel {
        AppModel { selected: last(self.hosts.len()), ..self }
    }

    /// What pressing one key does.
    pub open spec fn on_key(self, code: KeyCode) -> AppModel {
        match code {
            KeyCode::Left => self.decrement_counter(),
            KeyCode::Right => self.increment_counter(),
            KeyCode::Char('q') => self.exit(),
            KeyCode::Char('j') => self.next(),
            KeyCode::Char('k') => self.prev(),
            KeyCode::Char('g') => self.go_top(),
            KeyCode::Char('G') => self.go_bottom(),
            KeyCode::Char(_) => self,
            KeyCode::Other => self,
        }
    }

    /// What one event does: a key press acts as its key says, and every other
    /// event leaves the state as it is.
    pub open spec fn on_event(self, event: Event) -> AppModel {
        match event {
            Event::Key(key) => if key.kind == KeyEventKind::Press {
                self.on_key(key.code)
            } else {
                self
            },
            Event::Other => self,
        }
    }

    /// What a run of events does. The events act in turn while the
    /// application has not been told to quit; once it has, the rest is left
    /// unread.
    pub open spec fn replay(self, events: Seq<Event>) -> AppModel
        decreases events.len(),
    {
        if self.exit || events.len() == 0 {
            self
        } else {
            self.on_event(events[0]).replay(events.drop_first())
        }
    }

    /// How many events of a run are read before the application has been told
    /// to quit or the run ends.
    pub open spec fn consumed(self, events: Seq<Event>) -> nat
        decreases events.len(),
    {
        if self.exit || events.len() == 0 {
            0
        } else {
            1 + self.on_event(events[0]).consumed(events.drop_first())
        }
    }
}

/// Whether the event is a press of the quit key, `q`.
pub open spec fn is_quit(event: Event) -> bool {
    event == Event::Key(KeyEvent { code: KeyCode::Char('q'), kind: KeyEventKind::Press })
}

/// Every event leaves a well-formed state well-formed: the selection stays in
/// the host list and the counter in its range.
pub proof fn on_event_keeps_wf(state: AppModel, event: Event)
    requires
        state.wf(),
    ensures
        state.on_event(event).wf(),
{
}

/// The start leaves a well-formed state well-formed.
pub proof fn started_is_wf(state: AppModel)
    requires
        state.wf(),
    ensures
        state.started().wf(),
{
}

/// A run of events leaves a well-formed state well-formed.
pub proof fn replay_keeps_wf(state: AppModel, events: Seq<Event>)
    requires
        state.wf(),
    ensures
        state.replay(events).wf(),
    decreases events.len(),
{
    if !state.exit && events.len() > 0 {
        on_event_keeps_wf(state, events[0]);
        replay_keeps_wf(state.on_event(events[0]), events.drop_first());
    }
}

/// An event changes nothing but the counter, the selection and the exit
/// flag: the host list stays as it is.
pub proof fn on_event_keeps_hosts(state: AppModel, event: Event)
    ensures
        state.on_event(event).hosts == state.hosts,
{
}

/// After one event the application has been told to quit exactly if it had
/// been before or the event is a press of the quit key. So the flag is never
/// taken back, and nothing but the quit key sets it.
pub proof fn exit_after_event(state: AppModel, event: Event)
    ensures
        state.on_event(event).exit == (state.exit || is_quit(event)),
{
}

/// After a run of events the application has been told to quit exactly if it
/// had been before or the quit key is pressed somewhere in the run.
pub proof fn exit_after_replay(state: AppModel, events: Seq<Event>)
    ensures
        state.replay(events).exit == (state.exit || exists|i: int|
            0 <= i < events.len() && is_quit(#[trigger] events[i])),
    decreases events.len(),
{
    if !state.exit && events.len() > 0 {
        let rest = events.drop_first();
        exit_after_event(state, events[0]);
        exit_after_replay(state.on_event(events[0]), rest);
        if state.replay(events).exit {
            if !is_quit(events[0]) {
                let i = choose|i: int| 0 <= i < rest.len() && is_quit(#[trigger] rest[i]);
                assert(is_quit(events[i + 1]));
            }
        } else {
            assert forall|i: int| 0 <= i < events.len() implies !is_quit(#[trigger] events[i]) by {
                if i > 0 {
                    assert(events[i] == rest[i - 1]);
                }
            }
        }
    }
}

/// Once the application has been told to quit, no event is read and nothing
/// changes any more.
pub proof fn exited_is_final(state: AppModel, events: Seq<Event>)
    requires
        state.exit,
    ensures
        state.replay(events) == state,
        state.consumed(events) == 0,
{
}

/// The events of a run that are read are its first ones, and the quit key is
/// pressed in none of them but the last: a run is read up to the first press
/// of the quit key and no further.
pub proof fn consumed_ends_at_quit(state: AppModel, events: Seq<Event>)
    requires
        !state.exit,
    ensures
        state.consumed(events) <= events.len(),
        forall|i: int| 0 <= i < state.consumed(events) - 1 ==> !is_quit(#[trigger] events[i]),
        state.consumed(events) < events.len() ==> state.consumed(events) >= 1 && is_quit(
            events[state.consumed(events) - 1],
        ),
    decreases events.len(),
{
    if events.len() > 0 {
        let rest = events.drop_first();
        let after = state.on_event(events[0]);
        exit_after_event(state, events[0]);
        if !after.exit {
            consumed_ends_at_quit(after, rest);
            assert forall|i: int| 0 <= i < state.consumed(events) - 1 implies !is_quit(
                #[trigger] events[i],
            ) by {
                if i > 0 {
                    assert(events[i] == rest[i - 1]);
                }
            }
            if state.consumed(events) < events.len() {
                assert(events[state.consumed(events) - 1] == rest[after.consumed(rest) - 1]);
            }
        }
    }
}

} // verus!
