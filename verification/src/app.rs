//! The application: its state and what each key does to it.

use crate::event::{Event, KeyCode, KeyEvent, KeyEventKind};
use crate::host::{host_models, sample_hosts, HostItem};
use crate::list_state;
use crate::model::{is_quit, AppModel};
use crate::selection::{as_nat, is_settled, settle};
use vstd::prelude::*;

verus! {

/// The state of the application: a counter, the host list with its selection,
/// and whether the application was told to quit.
///
/// The selection always names no row or a row of the host list.
#[derive(Debug)]
pub struct App<'a> {
    counter: u8,
    selected: Option<usize>,
    hosts: Vec<HostItem<'a>>,
    exit: bool,
}

impl<'a> View for App<'a> {
    type V = AppModel;

    closed spec fn view(&self) -> AppModel {
        AppModel {
            counter: self.counter as nat,
            selected: as_nat(self.selected),
            hosts: host_models(self.hosts@),
            exit: self.exit,
        }
    }
}

impl<'a> App<'a> {
    #[verifier::type_invariant]
    spec fn selection_in_list(&self) -> bool {
        is_settled(as_nat(self.selected), self.hosts.len() as nat)
    }

    /// Puts the selection where a move of the list state left it, pulled back
    /// into the host list.
    fn place(&mut self, moved: Option<usize>)
        ensures
            final(self)@ == (AppModel {
                selected: crate::selection::settled(as_nat(moved), old(self)@.hosts.len()),
                ..old(self)@
            }),
            old(self)@.hosts.len() <= usize::MAX,
    {
        self.selected = settle(moved, self.hosts.len());
    }

    /// Makes the application with the given host list, showing it with the
    /// selection on its first row.
    pub fn new(hosts: Vec<HostItem<'a>>) -> (app: Self)
        ensures
            app@ == AppModel::showing(host_models(hosts@)),
    {
        let selected = settle(list_state::select_first(None), hosts.len());
        App { counter: 0, selected, hosts, exit: false }
    }

    /// Starts the application: adds the sample hosts to the end of the host
    /// list and selects the first row.
    pub fn start(&mut self)
        ensures
            final(self)@ == old(self)@.started(),
    {
        let mut items = sample_hosts();
        let mut taken = App::default();
        core::mem::swap(self, &mut taken);
        let App { counter, selected, mut hosts, exit } = taken;
        let ghost before = hosts@;
        let ghost added = items@;
        hosts.append(&mut items);
        assert(host_models(before + added) =~= host_models(before) + host_models(added));
        let selected = settle(list_state::select_first(selected), hosts.len());
        *self = App { counter, selected, hosts, exit };
    }

    /// Runs the application on the events that the terminal delivers, in
    /// their order: starts it, then lets each event act until the application
    /// has been told to quit or the events have run out. Returns how many
    /// events were read.
    pub fn run(&mut self, events: &Vec<Event>) -> (read: usize)
        ensures
            final(self)@ == old(self)@.started().replay(events@),
            read == old(self)@.started().consumed(events@),
    {
        self.start();
        let ghost started = self@;
        let mut read: usize = 0;
        assert(events@.skip(0) =~= events@);
        while read < events.len() && !self.exit
            invariant
                read <= events.len(),
                self@.replay(events@.skip(read as int)) == started.replay(events@),
                read + self@.consumed(events@.skip(read as int)) == started.consumed(events@),
            decreases events.len() - read,
        {
            proof {
                let rest = events@.skip(read as int);
                assert(rest[0] == events@[read as int]);
                assert(rest.drop_first() =~= events@.skip(read + 1));
            }
            self.handler_events(events[read]);
            read += 1;
        }
        read
    }

    /// Lets one event act: a key press does what its key says, and every
    /// other event is passed over.
    pub fn handler_events(&mut self, event: Event)
        ensures
            final(self)@ == old(self)@.on_event(event),
            final(self)@.exit == (old(self)@.exit || is_quit(event)),
    {
        match event {
            Event::Key(key_event) => {
                if key_event.kind == KeyEventKind::Press {
                    self.handle_key_event(key_event)
                }
            },
            Event::Other => {},
        }
    }

    /// Does what the key of `key_event` says, whatever kind of event it is.
    pub fn handle_key_event(&mut self, key_event: KeyEvent)
        ensures
            final(self)@ == old(self)@.on_key(key_event.code),
            final(self)@.exit == (old(self)@.exit || key_event.code == KeyCode::Char('q')),
    {
        match key_event.code {
            KeyCode::Left => self.decrement_counter(),
            KeyCode::Right => self.increment_counter(),
            KeyCode::Char('q') => self.exit(),
            KeyCode::Char('j') => self.next(),
            KeyCode::Char('k') => self.prev(),
            KeyCode::Char('g') => self.go_top(),
            KeyCode::Char('G') => self.go_bottom(),
            _ => {},
        }
    }

    /// Moves the selection to the first row.
    pub fn go_top(&mut self)
        ensures
            final(self)@ == old(self)@.go_top(),
            old(self)@.hosts.len() >= 1 ==> final(self)@.selected == Some(0nat),
    {
        let moved = list_state::select_first(self.selected);
        self.place(moved);
    }

    /// Moves the selection to the last row.
    pub fn go_bottom(&mut self)
        ensures
            final(self)@ == old(self)@.go_bottom(),
            old(self)@.hosts.len() >= 1 ==> final(self)@.selected == Some(
                (old(self)@.hosts.len() - 1) as nat,
            ),
    {
        let moved = list_state::select_last(self.selected);
        self.place(moved);
    }

    /// Moves the selection one row down, and from the last row to the first.
    pub fn next(&mut self)
        ensures
            final(self)@ == old(self)@.next(),
            old(self)@.selected matches Some(i) ==> final(self)@.selected == Some(
                if i == old(self)@.hosts.len() - 1 {
                    0nat
                } else {
                    i + 1
                },
            ),
    {
        proof {
            use_type_invariant(&*self);
        }
        let moved = match self.selected {
            Some(i) => {
                if i >= self.hosts.len() - 1 {
                    list_state::select_first(self.selected)
                } else {
                    list_state::select_next(self.selected)
                }
            },
            None => list_state::select_first(self.selected),
        };
        self.place(moved);
    }

    /// Moves the selection one row up, and from the first row to the last.
    pub fn prev(&mut self)
        ensures
            final(self)@ == old(self)@.prev(),
            old(self)@.selected matches Some(i) ==> final(self)@.selected == Some(
                if i == 0 {
                    (old(self)@.hosts.len() - 1) as nat
                } else {
                    (i - 1) as nat
                },
            ),
    {
        proof {
            use_type_invariant(&*self);
        }
        let moved = match self.selected {
            Some(i) => {
                let i = if i <= 0 {
                    self.hosts.len() - 1
                } else {
                    i - 1
                };
                list_state::select(self.selected, Some(i))
            },
            None => list_state::select_last(self.selected),
        };
        self.place(moved);
    }

    /// Takes one from the counter, which stays at 0 once it is there.
    pub fn decrement_counter(&mut self)
        ensures
            final(self)@ == old(self)@.decrement_counter(),
    {
        proof {
            use_type_invariant(&*self);
        }
        self.counter = self.counter.saturating_sub(1);
    }

    /// Adds one to the counter, which stays at 255 once it is there.
    pub fn increment_counter(&mut self)
        ensures
            final(self)@ == old(self)@.increment_counter(),
    {
        proof {
            use_type_invariant(&*self);
        }
        self.counter = self.counter.saturating_add(1);
    }

    /// Tells the application to quit.
    pub fn exit(&mut self)
        ensures
            final(self)@ == old(self)@.exit(),
    {
        proof {
            use_type_invariant(&*self);
        }
        self.exit = true;
    }
}

impl<'a> App<'a> {
    /// The counter.
    pub fn counter(&self) -> (counter: u8)
        ensures
            counter == self@.counter,
    {
        self.counter
    }

    /// The index of the selected row, if one is selected. It is always a row
    /// of the host list.
    pub fn selected(&self) -> (selected: Option<usize>)
        ensures
            as_nat(selected) == self@.selected,
            selected matches Some(i) ==> i < self@.hosts.len(),
    {
        proof {
            use_type_invariant(self);
        }
        self.selected
    }

    /// The host list, in the order of its rows.
    pub fn hosts(&self) -> (hosts: &Vec<HostItem<'a>>)
        ensures
            host_models(hosts@) == self@.hosts,
    {
        &self.hosts
    }

    /// Whether the application has been told to quit.
    pub fn exited(&self) -> (exited: bool)
        ensures
            exited == self@.exit,
    {
        self.exit
    }
}

impl<'a> Default for App<'a> {
    /// The application before anything is loaded: no hosts, nothing selected,
    /// the counter at 0.
    fn default() -> (app: Self)
        ensures
            app@ == AppModel::empty(),
    {
        let app = App { counter: 0, selected: None, hosts: Vec::new(), exit: false };
        assert(app@.hosts =~= Seq::empty());
        app
    }
}

} // verus!
