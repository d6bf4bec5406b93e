use crate::world::conditions::WorldCondition;
use crate::world::drawings::has_drawing;
use crate::world::{
    now_millis, timer_report, timers_after_query, TriggerView, World, WorldEventTrigger,
    WorldView,
};
use vstd::prelude::*;

verus! {

impl TriggerView {
    /// The trigger fires when it is looked at at `now`, in `world`.
    pub open spec fn fires(self, world: WorldView, now: u64) -> bool {
        match self {
            TriggerView::GameStarted => world.elapsed_loops == 0,
            TriggerView::Anything => true,
            TriggerView::Traveled(distance) => world.player.traveled >= distance,
            TriggerView::TimerElapsed(key) => timer_report(world.timers, key, now) == Some(true),
            TriggerView::DrawingExists(key) => has_drawing(world.custom_drawings, key),
            TriggerView::Custom(condition) => condition.holds(world),
        }
    }

    /// The world that looking at the trigger at `now` leaves. Only a timer
    /// trigger changes anything: its timer is queried.
    pub open spec fn leaves(self, world: WorldView, now: u64) -> WorldView {
        match self {
            TriggerView::TimerElapsed(key) => WorldView {
                timers: timers_after_query(world.timers, key, now),
                ..world
            },
            _ => world,
        }
    }
}

impl WorldEventTrigger {
    /// Fires when the timer under `timer_key` is found elapsed.
    pub fn timer_elapsed(timer_key: String) -> (trigger: Self)
        ensures
            trigger@ == TriggerView::TimerElapsed(timer_key@),
    {
        WorldEventTrigger::TimerElapsed(timer_key)
    }

    /// Fires while `trigger` holds.
    pub fn custom(trigger: WorldCondition) -> (custom: Self)
        ensures
            custom@ == TriggerView::Custom(trigger),
    {
        WorldEventTrigger::Custom(trigger)
    }

    /// Looks at the trigger at `now`. The world is only read, but for a
    /// timer trigger, which queries its timer.
    pub fn is_triggered_at(&self, world: &mut World, now: u64) -> (fired: bool)
        ensures
            fired == self@.fires(old(world)@, now),
            final(world)@ == self@.leaves(old(world)@, now),
    {
        match self {
            WorldEventTrigger::Anything => true,
            WorldEventTrigger::Traveled(distance) => world.player.traveled >= *distance as u64,
            WorldEventTrigger::TimerElapsed(key) => {
                match world.timer_elapsed_at(key.as_str(), now) {
                    Some(elapsed) => elapsed,
                    None => false,
                }
            },
            WorldEventTrigger::GameStarted => world.elapsed_loops == 0,
            WorldEventTrigger::Custom(trigger) => trigger.check(world),
            WorldEventTrigger::DrawingExists(key) => world.has_drawing(key.as_str()),
        }
    }

    /// Looks at the trigger at the present time: see
    /// [`WorldEventTrigger::is_triggered_at`].
    pub fn is_triggered(&self, world: &mut World) -> (fired: bool)
        ensures
            exists|now: u64|
                {
                    &&& fired == #[trigger] self@.fires(old(world)@, now)
                    &&& final(world)@ == self@.leaves(old(world)@, now)
                },
    {
        let now: u64 = now_millis();
        self.is_triggered_at(world, now)
    }
}

} // verus!
