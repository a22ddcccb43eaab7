//! A model of the supervisor at work, and what holds of every run.
//!
//! The driver performs the supervisor's actions in their order. In the model
//! a child process is known by the command line that started it, so the
//! handle type is `CommandLineView`, and the world counts the children that
//! are alive. What a stop and a start do outside is given by an [`Outcome`].

use crate::command::{hypridle_command_for, CommandLineView};
use crate::config::ConfigView;
use crate::power::PowerSource;
use crate::supervisor::{ActionView, SupervisorView};
use vstd::prelude::*;

verus! {

/// What happens outside while the actions of one reaction are performed.
pub struct Outcome {
    /// Whether a child whose termination is requested has exited once the
    /// stop is over.
    pub stop_takes_effect: bool,
    /// Whether the start brings up a child.
    pub spawn_succeeds: bool,
}

/// A reported value of the "on battery" property, with what happens outside
/// while it is handled.
pub struct Notification {
    pub on_battery: bool,
    pub outcome: Outcome,
}

/// The supervisor and the number of its children that are alive.
pub struct World {
    pub supervisor: SupervisorView<CommandLineView>,
    pub live: nat,
}

impl World {
    /// The world after the driver has performed one action. A stop that
    /// takes effect ends one child. A start that succeeds brings up one child
    /// and puts it into the slot; one that fails leaves the slot empty.
    pub open spec fn perform(self, action: ActionView<CommandLineView>, outcome: Outcome) -> World {
        match action {
            ActionView::Stop(_) => World {
                supervisor: self.supervisor,
                live: if outcome.stop_takes_effect && self.live > 0 {
                    (self.live - 1) as nat
                } else {
                    self.live
                },
            },
            ActionView::Start(command) => if outcome.spawn_succeeds {
                World { supervisor: self.supervisor.installed(Some(command)), live: self.live + 1 }
            } else {
                World { supervisor: self.supervisor.installed(None), live: self.live }
            },
        }
    }

    /// The world after the driver has performed the actions in their order.
    pub open spec fn perform_all(
        self,
        actions: Seq<ActionView<CommandLineView>>,
        outcome: Outcome,
    ) -> World
        decreases actions.len(),
    {
        if actions.len() == 0 {
            self
        } else {
            self.perform_all(actions.drop_last(), outcome).perform(actions.last(), outcome)
        }
    }

    /// The world when supervision has begun and the first start is over.
    pub open spec fn boot(config: ConfigView, on_battery: bool, outcome: Outcome) -> World {
        World { supervisor: SupervisorView::started(config, on_battery), live: 0 }.perform_all(
            SupervisorView::first_actions(config, on_battery),
            outcome,
        )
    }

    /// The world while a notification is handled: the supervisor has taken
    /// the value in, and the driver has performed the first `done` actions of
    /// the reaction.
    pub open spec fn during(self, notification: Notification, done: int) -> World {
        World {
            supervisor: self.supervisor.notified(notification.on_battery),
            live: self.live,
        }.perform_all(
            self.supervisor.reaction(notification.on_battery).take(done),
            notification.outcome,
        )
    }

    /// The world after a notification has been handled.
    pub open spec fn handle(self, notification: Notification) -> World {
        self.during(notification, self.supervisor.reaction(notification.on_battery).len() as int)
    }

    /// The world after the notifications have been handled one by one.
    pub open spec fn handle_all(self, notifications: Seq<Notification>) -> World
        decreases notifications.len(),
    {
        if notifications.len() == 0 {
            self
        } else {
            self.handle_all(notifications.drop_last()).handle(notifications.last())
        }
    }

    /// The children alive are exactly the one in the slot, if there is one.
    pub open spec fn settled(self) -> bool {
        self.live == if self.supervisor.child is Some {
            1nat
        } else {
            0nat
        }
    }

    /// The child in the slot, if there is one, was started with the command
    /// for the current power source.
    pub open spec fn matched(self) -> bool {
        self.supervisor.child matches Some(command) ==> command == hypridle_command_for(
            self.supervisor.config,
            self.supervisor.source,
        )
    }
}

/// The value reported last, or the initial one where none was reported.
pub open spec fn last_reported(initial: bool, notifications: Seq<Notification>) -> bool {
    if notifications.len() == 0 {
        initial
    } else {
        notifications.last().on_battery
    }
}

/// Whether every stop requested while these notifications are handled takes
/// effect.
pub open spec fn stops_take_effect(notifications: Seq<Notification>) -> bool {
    forall|i: int|
        0 <= i < notifications.len() ==> (#[trigger] notifications[i]).outcome.stop_takes_effect
}

proof fn lemma_perform_one(world: World, action: ActionView<CommandLineView>, outcome: Outcome)
    ensures
        world.perform_all(seq![action], outcome) == world.perform(action, outcome),
{
    reveal_with_fuel(World::perform_all, 2);
}

proof fn lemma_perform_two(
    world: World,
    first: ActionView<CommandLineView>,
    second: ActionView<CommandLineView>,
    outcome: Outcome,
)
    ensures
        world.perform_all(seq![first, second], outcome) == world.perform(first, outcome).perform(
            second,
            outcome,
        ),
{
    assert(seq![first, second].drop_last() =~= seq![first]);
    lemma_perform_one(world, first, outcome);
}

/// What one handled notification makes of the world: nothing where the value
/// is the one last acted on; else the child in the slot is stopped and a
/// child for the new power source is started in its place.
proof fn lemma_handle(world: World, notification: Notification)
    ensures
        world.handle(notification) == if !world.supervisor.changes(notification.on_battery) {
            world
        } else {
            let taken = World {
                supervisor: world.supervisor.notified(notification.on_battery),
                live: world.live,
            };
            let start = ActionView::Start(
                hypridle_command_for(
                    world.supervisor.config,
                    PowerSource::of(notification.on_battery),
                ),
            );
            match world.supervisor.child {
                Some(child) => taken.perform(ActionView::Stop(child), notification.outcome).perform(
                    start,
                    notification.outcome,
                ),
                None => taken.perform(start, notification.outcome),
            }
        },
{
    let reaction = world.supervisor.reaction(notification.on_battery);
    assert(reaction.take(reaction.len() as int) =~= reaction);
    let taken = World {
        supervisor: world.supervisor.notified(notification.on_battery),
        live: world.live,
    };
    if world.supervisor.changes(notification.on_battery) {
        let start = ActionView::Start(
            hypridle_command_for(world.supervisor.config, PowerSource::of(notification.on_battery)),
        );
        match world.supervisor.child {
            Some(child) => {
                lemma_perform_two(taken, ActionView::Stop(child), start, notification.outcome);
            },
            None => {
                lemma_perform_one(taken, start, notification.outcome);
            },
        }
    }
}

/// A notification that repeats the value last acted on leaves everything as
/// it is: no child is stopped and none is started.
pub proof fn theorem_repeated_value_is_ignored(world: World, notification: Notification)
    requires
        PowerSource::of(notification.on_battery) == world.supervisor.source,
    ensures
        world.supervisor.reaction(notification.on_battery) == Seq::<
            ActionView<CommandLineView>,
        >::empty(),
        world.handle(notification) == world,
{
    lemma_handle(world, notification);
}

/// A notification with a value other than the one last acted on makes that
/// value the current power source and replaces the child: the slot holds
/// the child started for the new power source, or nothing where the start
/// failed. Where the world was settled and the stop takes effect, no other
/// child is alive.
pub proof fn theorem_changed_value_replaces_child(world: World, notification: Notification)
    requires
        PowerSource::of(notification.on_battery) != world.supervisor.source,
    ensures
        ({
            let after = world.handle(notification);
            let source = PowerSource::of(notification.on_battery);
            &&& after.supervisor.config == world.supervisor.config
            &&& after.supervisor.source == source
            &&& after.supervisor.child == if notification.outcome.spawn_succeeds {
                Some(hypridle_command_for(world.supervisor.config, source))
            } else {
                None
            }
            &&& world.settled() && notification.outcome.stop_takes_effect ==> after.settled()
        }),
{
    lemma_handle(world, notification);
}

/// After startup and any sequence of notifications, the current power
/// source is the one reported last, and the child in the slot, if there is
/// one, was started for it: with the program `hypridle` and, behind `-c`,
/// the configuration path of that power source.
pub proof fn theorem_child_matches_last_report(
    config: ConfigView,
    on_battery: bool,
    first: Outcome,
    notifications: Seq<Notification>,
)
    ensures
        ({
            let end = World::boot(config, on_battery, first).handle_all(notifications);
            &&& end.supervisor.config == config
            &&& end.supervisor.source == PowerSource::of(last_reported(on_battery, notifications))
            &&& end.matched()
            &&& end.supervisor.child matches Some(command) ==> {
                &&& command.program == "hypridle"@
                &&& command.args[0] == "-c"@
                &&& command.args[1] == config.conf_path(end.supervisor.source)
            }
        }),
    decreases notifications.len(),
{
    if notifications.len() == 0 {
        let begun = World {
            supervisor: SupervisorView::<CommandLineView>::started(config, on_battery),
            live: 0,
        };
        lemma_perform_one(
            begun,
            ActionView::Start(hypridle_command_for(config, PowerSource::of(on_battery))),
            first,
        );
    } else {
        theorem_child_matches_last_report(config, on_battery, first, notifications.drop_last());
        lemma_handle(
            World::boot(config, on_battery, first).handle_all(notifications.drop_last()),
            notifications.last(),
        );
    }
}

/// While a notification is handled, at every point between two actions, at
/// most one child is alive, provided the stop takes effect. Once it is
/// handled the children alive are again exactly the one in the slot.
pub proof fn theorem_at_most_one_child(world: World, notification: Notification, done: int)
    requires
        world.settled(),
        notification.outcome.stop_takes_effect,
        0 <= done <= world.supervisor.reaction(notification.on_battery).len(),
    ensures
        world.during(notification, done).live <= 1,
        world.handle(notification).settled(),
{
    let reaction = world.supervisor.reaction(notification.on_battery);
    let taken = World {
        supervisor: world.supervisor.notified(notification.on_battery),
        live: world.live,
    };
    lemma_handle(world, notification);
    if 0 < done < reaction.len() {
        assert(reaction.take(1) =~= seq![reaction[0]]);
        lemma_perform_one(taken, reaction[0], notification.outcome);
    }
}

/// After startup and any sequence of notifications whose stops take effect,
/// the children alive are exactly the one in the slot: never more than one.
pub proof fn theorem_settled_after_every_notification(
    config: ConfigView,
    on_battery: bool,
    first: Outcome,
    notifications: Seq<Notification>,
)
    requires
        stops_take_effect(notifications),
    ensures
        World::boot(config, on_battery, first).handle_all(notifications).settled(),
        World::boot(config, on_battery, first).handle_all(notifications).live <= 1,
    decreases notifications.len(),
{
    if notifications.len() == 0 {
        let begun = World {
            supervisor: SupervisorView::<CommandLineView>::started(config, on_battery),
            live: 0,
        };
        lemma_perform_one(
            begun,
            ActionView::Start(hypridle_command_for(config, PowerSource::of(on_battery))),
            first,
        );
    } else {
        let earlier = notifications.drop_last();
        theorem_settled_after_every_notification(config, on_battery, first, earlier);
        theorem_at_most_one_child(
            World::boot(config, on_battery, first).handle_all(earlier),
            notifications.last(),
            0,
        );
    }
}

/// At no instant of a run are two children alive, provided every stop takes
/// effect: after startup and any notifications handled before, and after any
/// number of the actions that the current notification asks for, at most one
/// child is alive.
pub proof fn theorem_never_two_children(
    config: ConfigView,
    on_battery: bool,
    first: Outcome,
    earlier: Seq<Notification>,
    current: Notification,
    done: int,
)
    requires
        stops_take_effect(earlier),
        current.outcome.stop_takes_effect,
        0 <= done <= World::boot(config, on_battery, first).handle_all(
            earlier,
        ).supervisor.reaction(current.on_battery).len(),
    ensures
        World::boot(config, on_battery, first).handle_all(earlier).during(current, done).live <= 1,
{
    theorem_settled_after_every_notification(config, on_battery, first, earlier);
    theorem_at_most_one_child(
        World::boot(config, on_battery, first).handle_all(earlier),
        current,
        done,
    );
}

/// A start that fails leaves the slot empty and spoils nothing: the next
/// notification with a different value asks for a start alone, for the new
/// power source, and where that start succeeds its child is in the slot.
pub proof fn theorem_failed_start_is_retried(world: World, failed: Notification, next: Notification)
    requires
        world.supervisor.changes(failed.on_battery),
        !failed.outcome.spawn_succeeds,
        next.on_battery != failed.on_battery,
    ensures
        world.handle(failed).supervisor.child is None,
        world.handle(failed).supervisor.reaction(next.on_battery) == seq![
            ActionView::<CommandLineView>::Start(
                hypridle_command_for(world.supervisor.config, PowerSource::of(next.on_battery)),
            ),
        ],
        next.outcome.spawn_succeeds ==> world.handle(failed).handle(next).supervisor.child == Some(
            hypridle_command_for(world.supervisor.config, PowerSource::of(next.on_battery)),
        ),
{
    lemma_handle(world, failed);
    lemma_handle(world.handle(failed), next);
}

} // verus!
