//! The selection controller: a state machine over a list of group names.
//! Each input event moves the highlighted row, confirms the selection, or
//! quits; navigation is strictly circular modulo the group count.

use crate::model::{AppCommand, Config, clone_strings, group_names};
use vstd::arithmetic::div_mod::{lemma_add_mod_noop_right, lemma_mod_self_0, lemma_small_mod};
use vstd::prelude::*;

verus! {

/// A key press as the controller reads it. The host translates whatever its
/// input backend delivers into one of these plain values.
#[derive(Clone, Copy, Debug, PartialEq, Eq, Structural)]
pub enum Key {
    Char(char),
    Up,
    Down,
    Enter,
    Esc,
    Other,
}

/// The controller's input alphabet: every key maps to exactly one of these.
#[derive(Clone, Copy, Debug, PartialEq, Eq, Structural)]
pub enum InputEvent {
    NavigateUp,
    NavigateDown,
    Confirm,
    Quit,
    Ignored,
}

/// Where the controller stands after a transition. `Confirmed` and `Quit`
/// are terminal: the host stops its loop on either.
#[derive(Clone, Copy, Debug, PartialEq, Eq, Structural)]
pub enum ControllerStatus {
    Running,
    Confirmed,
    Quit,
}

/// The event a key stands for: `q`/`Esc` quit, `Down`/`j` and `Up`/`k`
/// navigate, `Enter` confirms, anything else is ignored.
pub open spec fn event_of_key(k: Key) -> InputEvent {
    match k {
        Key::Char(c) => if c == 'q' {
            InputEvent::Quit
        } else if c == 'j' {
            InputEvent::NavigateDown
        } else if c == 'k' {
            InputEvent::NavigateUp
        } else {
            InputEvent::Ignored
        },
        Key::Esc => InputEvent::Quit,
        Key::Down => InputEvent::NavigateDown,
        Key::Up => InputEvent::NavigateUp,
        Key::Enter => InputEvent::Confirm,
        Key::Other => InputEvent::Ignored,
    }
}

/// Translate one key press into the controller's input alphabet.
pub fn map_key(k: Key) -> (ev: InputEvent)
    ensures
        ev == event_of_key(k),
{
    match k {
        Key::Char(c) => if c == 'q' {
            InputEvent::Quit
        } else if c == 'j' {
            InputEvent::NavigateDown
        } else if c == 'k' {
            InputEvent::NavigateUp
        } else {
            InputEvent::Ignored
        },
        Key::Esc => InputEvent::Quit,
        Key::Down => InputEvent::NavigateDown,
        Key::Up => InputEvent::NavigateUp,
        Key::Enter => InputEvent::Confirm,
        Key::Other => InputEvent::Ignored,
    }
}

/// One step down the list, wrapping from the last row to the first.
pub open spec fn wrap_down(sel: nat, n: nat) -> nat
    recommends
        n >= 1,
{
    (sel + 1) % n
}

/// One step up the list, wrapping from the first row to the last.
pub open spec fn wrap_up(sel: nat, n: nat) -> nat
    recommends
        n >= 1,
{
    if sel == 0 {
        (n - 1) as nat
    } else {
        (sel - 1) as nat
    }
}

/// The selected index after one event: navigation moves it, every other
/// event leaves it in place.
pub open spec fn step_sel(sel: nat, n: nat, ev: InputEvent) -> nat
    recommends
        n >= 1,
{
    match ev {
        InputEvent::NavigateDown => wrap_down(sel, n),
        InputEvent::NavigateUp => wrap_up(sel, n),
        _ => sel,
    }
}

/// The controller's status after one event: `Confirm` and `Quit` end the
/// run, everything else keeps it going.
pub open spec fn status_of(ev: InputEvent) -> ControllerStatus {
    match ev {
        InputEvent::Confirm => ControllerStatus::Confirmed,
        InputEvent::Quit => ControllerStatus::Quit,
        _ => ControllerStatus::Running,
    }
}

/// The selected index after a whole sequence of events, starting from 0.
pub open spec fn sel_after(n: nat, events: Seq<InputEvent>) -> nat
    recommends
        n >= 1,
    decreases events.len(),
{
    if events.len() == 0 {
        0
    } else {
        step_sel(sel_after(n, events.drop_last()), n, events.last())
    }
}

/// Construction fails when the configuration has no groups: the selected
/// index could not be validly initialized.
#[derive(Clone, Copy, Debug, PartialEq, Eq, Structural)]
pub enum StartupError {
    NoGroups,
}

/// What the renderer is handed each frame: a centered title, the list of
/// group names with one row highlighted, and a centered footer legend.
pub struct FrameData {
    pub title: String,
    pub group_names: Vec<String>,
    pub selected: usize,
    pub footer: String,
}

/// The selection controller. It owns the configuration, the cached list of
/// group names shown each frame, and the selected index.
pub struct App {
    /// Group names, in configuration order, cached for display.
    pub groups: Vec<String>,
    /// The highlighted row; always within the group list.
    pub selected: usize,
    /// The configuration the controller was started with; never mutated.
    pub config: Config,
}

impl App {
    /// How many groups there are.
    pub open spec fn group_count(self) -> nat {
        self.config.groups@.len()
    }

    /// Well-formedness: at least one group, the selected index in range,
    /// and the cached names equal to the groups' names, in order.
    pub open spec fn wf(self) -> bool {
        &&& self.group_count() >= 1
        &&& (self.selected as nat) < self.group_count()
        &&& self.groups.deep_view() == group_names(self.config@.groups)
    }

    /// Build a controller over `config`, highlighting the first group.
    /// An empty group list is a startup error: nothing is rendered and no
    /// selection state exists.
    pub fn new(config: Config) -> (r: Result<App, StartupError>)
        ensures
            r is Err <==> config.groups@.len() == 0,
            r matches Err(e) ==> e == StartupError::NoGroups,
            r matches Ok(a) ==> a.wf() && a.selected == 0 && a.config == config,
    {
        if config.groups.len() == 0 {
            return Err(StartupError::NoGroups);
        }
        let mut names: Vec<String> = Vec::new();
        let mut i: usize = 0;
        while i < config.groups.len()
            invariant
                i <= config.groups@.len(),
                names@.len() == i,
                forall|j: int| 0 <= j < i ==> names@[j]@ == config.groups@[j].name@,
            decreases config.groups@.len() - i,
        {
            names.push(config.groups[i].name.clone());
            i += 1;
        }
        proof {
            assert(names.deep_view() =~= group_names(config@.groups));
        }
        Ok(App { groups: names, selected: 0, config })
    }

    /// Move the highlight one row down, wrapping from last to first.
    pub fn next(&mut self)
        requires
            old(self).wf(),
        ensures
            final(self).wf(),
            final(self).config == old(self).config,
            final(self).groups == old(self).groups,
            final(self).selected as nat == wrap_down(
                old(self).selected as nat,
                old(self).group_count(),
            ),
    {
        proof {
            assert(self.groups.deep_view().len() == self.group_count());
        }
        let n: usize = self.groups.len();
        self.selected = (self.selected + 1) % n;
    }

    /// Move the highlight one row up, wrapping from first to last.
    pub fn prev(&mut self)
        requires
            old(self).wf(),
        ensures
            final(self).wf(),
            final(self).config == old(self).config,
            final(self).groups == old(self).groups,
            final(self).selected as nat == wrap_up(
                old(self).selected as nat,
                old(self).group_count(),
            ),
            old(self).selected == 0 ==> final(self).selected as nat == old(self).group_count() - 1,
    {
        proof {
            assert(self.groups.deep_view().len() == self.group_count());
        }
        if self.selected > 0 {
            self.selected = self.selected - 1;
        } else {
            self.selected = self.groups.len() - 1;
        }
    }

    /// Apply one input event: navigation updates the selected index and the
    /// run goes on; `Confirm` and `Quit` leave the state untouched and end
    /// it. The returned status tells the host what the event decided.
    pub fn step(&mut self, ev: InputEvent) -> (st: ControllerStatus)
        requires
            old(self).wf(),
        ensures
            final(self).wf(),
            final(self).config == old(self).config,
            final(self).groups == old(self).groups,
            final(self).selected as nat == step_sel(
                old(self).selected as nat,
                old(self).group_count(),
                ev,
            ),
            st == status_of(ev),
    {
        match ev {
            InputEvent::NavigateDown => {
                self.next();
                ControllerStatus::Running
            },
            InputEvent::NavigateUp => {
                self.prev();
                ControllerStatus::Running
            },
            InputEvent::Confirm => ControllerStatus::Confirmed,
            InputEvent::Quit => ControllerStatus::Quit,
            InputEvent::Ignored => ControllerStatus::Running,
        }
    }

    /// What one frame shows: the title banner, the group names in order,
    /// the highlighted row, and the control legend. The renderer gets no
    /// other access to controller state.
    pub fn frame_data(&self) -> (fd: FrameData)
        requires
            self.wf(),
        ensures
            fd.title@ == "What are you going to do today?"@,
            fd.group_names@ == self.groups@,
            fd.selected == self.selected,
            fd.footer@ == "↑/k: Up | ↓/j: Down | Enter: Select | q/Esc: Quit"@,
    {
        FrameData {
            title: "What are you going to do today?".to_owned(),
            group_names: clone_strings(&self.groups),
            selected: self.selected,
            footer: "↑/k: Up | ↓/j: Down | Enter: Select | q/Esc: Quit".to_owned(),
        }
    }

    /// The launch plan of a confirmed selection: the selected group's
    /// commands, in list order.
    pub fn select(&self) -> (plan: &Vec<AppCommand>)
        requires
            self.wf(),
        ensures
            plan.deep_view() == self.config@.groups[self.selected as int].apps,
    {
        &self.config.groups[self.selected].apps
    }
}

/// After `k` consecutive `NavigateDown` events from the start, the selected
/// index is `k` modulo the group count.
pub proof fn lemma_down_sequence(n: nat, events: Seq<InputEvent>)
    requires
        n >= 1,
        forall|i: int| 0 <= i < events.len() ==> events[i] == InputEvent::NavigateDown,
    ensures
        sel_after(n, events) == events.len() % n,
    decreases events.len(),
{
    if events.len() == 0 {
        lemma_small_mod(0, n);
    } else {
        lemma_down_sequence(n, events.drop_last());
        lemma_add_mod_noop_right(1, (events.len() - 1) as int, n as int);
    }
}

/// One `NavigateUp` from the first row wraps to the last row.
pub proof fn lemma_up_wraps_to_last(n: nat)
    requires
        n >= 1,
    ensures
        step_sel(0, n, InputEvent::NavigateUp) == n - 1,
{
}

/// `NavigateDown` followed by `NavigateUp`, and the other way round, leave
/// the selected index where it was.
pub proof fn lemma_down_up_identity(sel: nat, n: nat)
    requires
        n >= 1,
        sel < n,
    ensures
        step_sel(step_sel(sel, n, InputEvent::NavigateDown), n, InputEvent::NavigateUp) == sel,
        step_sel(step_sel(sel, n, InputEvent::NavigateUp), n, InputEvent::NavigateDown) == sel,
{
    if sel + 1 < n {
        lemma_small_mod(sel + 1, n);
    } else {
        lemma_mod_self_0(n as int);
    }
    if sel == 0 {
        lemma_mod_self_0(n as int);
    } else {
        lemma_small_mod(sel, n);
    }
}

} // verus!
