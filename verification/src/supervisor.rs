//! The supervisor's decisions: which child process to stop and which to
//! start when the power source is reported.
//!
//! The supervisor owns the slot that holds the handle of the running child.
//! It never touches a process itself. A driver reports each value of the
//! "on battery" property with [`Supervisor::notify`], performs the actions it
//! gets back in their order, and hands the result of a start to
//! [`Supervisor::install`].

use crate::command::{hypridle_command, hypridle_command_for, CommandLine, CommandLineView};
use crate::config::{Config, ConfigView};
use crate::power::PowerSource;
use vstd::prelude::*;

verus! {

/// One thing the driver has to do for the supervisor.
pub enum Action<H> {
    /// Request the termination of this child and wait until it has exited.
    Stop(H),
    /// Start a child with this command line, and hand what came of it to
    /// [`Supervisor::install`].
    Start(CommandLine),
}

/// An action as a mathematical value.
pub enum ActionView<H> {
    Stop(H),
    Start(CommandLineView),
}

impl<H> View for Action<H> {
    type V = ActionView<H>;

    open spec fn view(&self) -> ActionView<H> {
        match self {
            Action::Stop(child) => ActionView::Stop(*child),
            Action::Start(command) => ActionView::Start(command@),
        }
    }
}

impl<H> DeepView for Action<H> {
    type V = ActionView<H>;

    open spec fn deep_view(&self) -> ActionView<H> {
        self@
    }
}

/// The supervisor's state: the settings, the power source last acted on, and
/// the slot for the handle of the child. The handle is of a type `H` that the
/// driver chooses; the slot holds at most one, and nothing else holds any.
pub struct Supervisor<H> {
    config: Config,
    source: PowerSource,
    child: Option<H>,
}

/// The supervisor's state as a mathematical value.
pub struct SupervisorView<H> {
    pub config: ConfigView,
    pub source: PowerSource,
    pub child: Option<H>,
}

impl<H> SupervisorView<H> {
    /// The state at startup, before the first child is started.
    pub open spec fn started(config: ConfigView, on_battery: bool) -> Self {
        SupervisorView { config, source: PowerSource::of(on_battery), child: None }
    }

    /// The actions at startup: start a child for the initial power source.
    pub open spec fn first_actions(config: ConfigView, on_battery: bool) -> Seq<ActionView<H>> {
        seq![ActionView::Start(hypridle_command_for(config, PowerSource::of(on_battery)))]
    }

    /// Whether a reported value differs from the power source last acted on.
    pub open spec fn changes(self, on_battery: bool) -> bool {
        PowerSource::of(on_battery) != self.source
    }

    /// The state in which a notification leaves the supervisor: unchanged
    /// where the value is the one last acted on; else with the new power
    /// source and an empty slot.
    pub open spec fn notified(self, on_battery: bool) -> Self {
        if self.changes(on_battery) {
            SupervisorView { config: self.config, source: PowerSource::of(on_battery), child: None }
        } else {
            self
        }
    }

    /// The actions with which the supervisor answers a notification, in the
    /// order in which they are to be performed: none where the value is the
    /// one last acted on; else a stop of the child, if there is one, and
    /// after it a start for the new power source.
    pub open spec fn reaction(self, on_battery: bool) -> Seq<ActionView<H>> {
        let start = ActionView::Start(
            hypridle_command_for(self.config, PowerSource::of(on_battery)),
        );
        if !self.changes(on_battery) {
            seq![]
        } else {
            match self.child {
                Some(child) => seq![ActionView::Stop(child), start],
                None => seq![start],
            }
        }
    }

    /// The state after the result of a start is put into the slot.
    pub open spec fn installed(self, child: Option<H>) -> Self {
        SupervisorView { config: self.config, source: self.source, child }
    }
}

impl<H> View for Supervisor<H> {
    type V = SupervisorView<H>;

    closed spec fn view(&self) -> SupervisorView<H> {
        SupervisorView { config: self.config@, source: self.source, child: self.child }
    }
}

impl<H> Supervisor<H> {
    /// Begins supervision with the value of the "on battery" property read
    /// at startup. The slot is empty; the actions returned start the first
    /// child.
    pub fn start(config: Config, on_battery: bool) -> (begun: (Supervisor<H>, Vec<Action<H>>))
        ensures
            begun.0@ == SupervisorView::<H>::started(config@, on_battery),
            begun.1.deep_view() == SupervisorView::<H>::first_actions(config@, on_battery),
    {
        let mut actions: Vec<Action<H>> = Vec::new();
        actions.push(Action::Start(hypridle_command(on_battery, &config)));
        let supervisor = Supervisor {
            config,
            source: PowerSource::from_on_battery(on_battery),
            child: None,
        };
        (supervisor, actions)
    }

    /// Reports a value of the "on battery" property. A value equal to the
    /// one last acted on changes nothing and asks for nothing. A different
    /// one becomes the current power source: the child, if there is one,
    /// leaves the slot to be stopped, and a start for the new power source
    /// follows it.
    pub fn notify(&mut self, on_battery: bool) -> (actions: Vec<Action<H>>)
        ensures
            final(self)@ == old(self)@.notified(on_battery),
            actions.deep_view() == old(self)@.reaction(on_battery),
    {
        let mut actions: Vec<Action<H>> = Vec::new();
        let source = PowerSource::from_on_battery(on_battery);
        if source != self.source {
            self.source = source;
            match self.child.take() {
                Some(child) => {
                    actions.push(Action::Stop(child));
                },
                None => {},
            }
            actions.push(Action::Start(hypridle_command(on_battery, &self.config)));
        }
        actions
    }

    /// Puts the result of a start into the slot: the handle of the new
    /// child, or nothing where the start failed.
    pub fn install(&mut self, child: Option<H>)
        ensures
            final(self)@ == old(self)@.installed(child),
    {
        self.child = child;
    }

    /// The power source last acted on.
    pub fn source(&self) -> (source: PowerSource)
        ensures
            source == self@.source,
    {
        self.source
    }

    /// The settings.
    pub fn config(&self) -> (config: &Config)
        ensures
            config@ == self@.config,
    {
        &self.config
    }

    /// The handle in the slot, if there is one.
    pub fn child(&self) -> (child: Option<&H>)
        ensures
            child is Some == self@.child is Some,
            child matches Some(handle) ==> self@.child == Some(*handle),
    {
        self.child.as_ref()
    }
}

/// A reaction replaces the child strictly by stopping, then starting: it
/// holds at most one stop and at most one start, the stop is of the child
/// that was in the slot, and no stop comes after the start.
pub proof fn theorem_stop_precedes_start<H>(state: SupervisorView<H>, on_battery: bool)
    ensures
        ({
            let reaction = state.reaction(on_battery);
            &&& reaction.len() <= 2
            &&& forall|i: int|
                0 <= i < reaction.len() && #[trigger] reaction[i] is Stop ==> i == 0
                    && state.child == Some(reaction[i]->Stop_0)
            &&& forall|i: int|
                0 <= i < reaction.len() && #[trigger] reaction[i] is Start ==> i == reaction.len()
                    - 1
            &&& state.changes(on_battery) <==> reaction.len() > 0 && reaction.last() is Start
            &&& state.changes(on_battery) && state.child is Some <==> reaction.len() == 2
        }),
{
}

} // verus!
