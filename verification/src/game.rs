use crate::sources::fresh_key;
use crate::entities::PlayerStatus;
use crate::world::effects::{
    effects_keep_the_life_cycle, effects_take_nothing_back, new_pickup, newcomer, Effect,
    EffectView, SECOND,
};
use crate::world::events::{enemies_checked, enemies_moved, fuels_checked, fuels_moved};
use crate::world::{
    events_view, new_world, now_millis, TriggerView, World, WorldEvent, WorldEventTrigger,
    WorldEventView, WorldTimer, WorldView,
};
use vstd::prelude::*;

verus! {

/// The world together with its live handlers, in the order in which they
/// were registered. Handlers see the world only: what they add is staged in
/// the world and joins the live ones between two ticks.
pub struct Game {
    pub world: World,
    pub events: Vec<WorldEvent>,
}

/// The handler `event` was looked at at `now` in the world `before`, and
/// `after` is the world it left: `fired` says whether its trigger fired, and
/// only then has its effect taken place.
pub open spec fn handler_step(
    event: WorldEventView,
    before: WorldView,
    after: WorldView,
    fired: bool,
    now: u64,
) -> bool {
    &&& fired == event.trigger.fires(before, now)
    &&& if fired {
        event.handler.yields(event.trigger.leaves(before, now), after, now)
    } else {
        after == event.trigger.leaves(before, now)
    }
}

/// The handlers `events` were looked at one after the other, in their order
/// and each exactly once: `trace[i]` is the world that handler `i` found,
/// `trace[i + 1]` the world it left, and `fired[i]` says whether it fired.
pub open spec fn handlers_ran(
    events: Seq<WorldEventView>,
    trace: Seq<WorldView>,
    fired: Seq<bool>,
    now: u64,
) -> bool {
    &&& trace.len() == events.len() + 1
    &&& fired.len() == events.len()
    &&& forall|i: int|
        #![trigger events[i]]
        0 <= i < events.len() ==> handler_step(events[i], trace[i], trace[i + 1], fired[i], now)
}

/// The handlers that stay after a tick: all but those that fired and do not
/// continue, in the same order.
pub open spec fn retained(events: Seq<WorldEventView>, fired: Seq<bool>) -> Seq<WorldEventView>
    decreases events.len(),
{
    if events.len() == 0 {
        Seq::empty()
    } else {
        let rest = retained(events.drop_last(), fired.drop_last());
        if fired.last() && !events.last().is_continues {
            rest
        } else {
            rest.push(events.last())
        }
    }
}

/// The tick counter one tick later.
pub open spec fn next_loop(loops: usize) -> usize {
    if loops < usize::MAX {
        (loops + 1) as usize
    } else {
        loops
    }
}

/// The world as a tick leaves it, `last` being the world that the last
/// handler left: the staged handlers have moved out and the tick is counted.
pub open spec fn tick_closed(last: WorldView) -> WorldView {
    WorldView { new_events: Seq::empty(), elapsed_loops: next_loop(last.elapsed_loops), ..last }
}

/// The handlers that the game starts with, in their order: the per-tick
/// rules, the timed stages under the keys of their timers, and the warm-up
/// on the first tick.
pub open spec fn standard_handlers(
    narrowing_key: Seq<char>,
    seconds_key: Seq<char>,
) -> Seq<WorldEventView> {
    seq![
        every_tick(EffectView::CheckPlayerStatus),
        every_tick(EffectView::CheckEnemyStatus),
        every_tick(EffectView::CheckFuelStatus),
        every_tick(EffectView::UpdateMap),
        every_tick(EffectView::CreateEnemy),
        every_tick(EffectView::CreateFuel),
        every_tick(EffectView::MoveEnemies),
        every_tick(EffectView::MoveFuel),
        every_tick(EffectView::MoveBullets),
        every_tick(EffectView::BurnFuel),
        every_tick(EffectView::Travel),
        WorldEventView {
            trigger: TriggerView::TimerElapsed(narrowing_key),
            is_continues: true,
            handler: EffectView::NarrowRiver,
        },
        WorldEventView {
            trigger: TriggerView::TimerElapsed(seconds_key),
            is_continues: true,
            handler: EffectView::CountSecond,
        },
        WorldEventView {
            trigger: TriggerView::GameStarted,
            is_continues: false,
            handler: EffectView::Warmup,
        },
    ]
}

/// The handler that goes with a timer under `key`: it brings `on_elapsed`
/// when the timer is found elapsed, and stays if the timer repeats.
pub open spec fn timer_handler(
    key: Seq<char>,
    timer: WorldTimer,
    on_elapsed: EffectView,
) -> WorldEventView {
    WorldEventView {
        trigger: TriggerView::TimerElapsed(key),
        is_continues: timer.repeat,
        handler: on_elapsed,
    }
}

/// `timers` with the two timers that the game starts with, under their keys
/// and started at `now`: a minute for the narrowing of the river, a second
/// for the count of seconds.
pub open spec fn standard_timers(
    timers: Map<Seq<char>, WorldTimer>,
    narrowing_key: Seq<char>,
    seconds_key: Seq<char>,
    now: u64,
) -> Map<Seq<char>, WorldTimer> {
    timers.insert(
        narrowing_key,
        WorldTimer { duration: (60 * SECOND) as u64, repeat: true, instant: now },
    ).insert(seconds_key, WorldTimer { duration: SECOND, repeat: true, instant: now })
}

/// The handler that brings `handler` on every tick.
pub open spec fn every_tick(handler: EffectView) -> WorldEventView {
    WorldEventView { trigger: TriggerView::Anything, is_continues: true, handler }
}

/// The handlers that were staged during a tick are the last of the live
/// handlers after it, in the order in which they were staged; before them
/// stand handlers of before the tick only, none more than once.
pub proof fn staged_handlers_join_last(
    live: Seq<WorldEventView>,
    fired: Seq<bool>,
    staged: Seq<WorldEventView>,
)
    requires
        fired.len() == live.len(),
    ensures
        retained(live, fired).len() <= live.len(),
        (retained(live, fired) + staged).skip(retained(live, fired).len() as int) == staged,
        (retained(live, fired) + staged).take(retained(live, fired).len() as int) == retained(
            live,
            fired,
        ),
        (forall|i: int| 0 <= i < live.len() ==> (#[trigger] live[i]).is_continues) ==> retained(
            live,
            fired,
        ) == live,
    decreases live.len(),
{
    if live.len() > 0 {
        staged_handlers_join_last(live.drop_last(), fired.drop_last(), staged);
        if forall|i: int| 0 <= i < live.len() ==> (#[trigger] live[i]).is_continues {
            assert(live[live.len() - 1].is_continues);
            assert forall|i: int| 0 <= i < live.drop_last().len() implies (
            #[trigger] live.drop_last()[i]).is_continues by {
                assert(live[i].is_continues);
            }
            assert(retained(live, fired) == live);
        }
    }
}

/// Each step of a tick changes the enemies and the fuel pickups by one of
/// the rules of the game only: they stay as they are, go through a status
/// check, move one line down, or are joined by a living newcomer at the top.
/// So on every tick, whatever the handlers, each of them keeps to its life
/// cycle.
pub proof fn every_step_keeps_the_life_cycle(
    events: Seq<WorldEventView>,
    trace: Seq<WorldView>,
    fired: Seq<bool>,
    now: u64,
    step: int,
)
    requires
        handlers_ran(events, trace, fired, now),
        0 <= step < events.len(),
    ensures
        ({
            let before = trace[step];
            let after = trace[step + 1];
            &&& {
                ||| after.enemies == before.enemies
                ||| after.enemies == enemies_checked(before.enemies, before.bullets)
                ||| after.enemies == enemies_moved(before.enemies, before.maxl)
                ||| exists|column: u16|
                    after.enemies == before.enemies.push(
                        #[trigger] newcomer(column, before.enemies_armor),
                    )
            }
            &&& {
                ||| after.fuels == before.fuels
                ||| after.fuels == fuels_checked(
                    before.fuels,
                    before.player.location,
                    before.bullets,
                )
                ||| after.fuels == fuels_moved(before.fuels, before.maxl)
                ||| exists|column: u16|
                    after.fuels == before.fuels.push(#[trigger] new_pickup(column))
            }
        }),
{
    let event = events[step];
    assert(handler_step(event, trace[step], trace[step + 1], fired[step], now));
    if fired[step] {
        effects_keep_the_life_cycle(
            event.handler,
            event.trigger.leaves(trace[step], now),
            trace[step + 1],
            now,
        );
    }
}

/// Over the steps of a tick nothing that was gained is taken back: up to
/// any step, score, distance and the seconds played have not gone down, a
/// dead player has stayed dead, the player has not been moved, the field has
/// kept its size, the tick count has been left alone, and what was staged
/// before the tick is still staged, first and in its order.
pub proof fn ticks_take_nothing_back(
    events: Seq<WorldEventView>,
    trace: Seq<WorldView>,
    fired: Seq<bool>,
    now: u64,
    upto: int,
)
    requires
        handlers_ran(events, trace, fired, now),
        0 <= upto <= events.len(),
    ensures
        trace[upto].player.score >= trace[0].player.score,
        trace[upto].player.traveled >= trace[0].player.traveled,
        trace[upto].elapsed_time >= trace[0].elapsed_time,
        trace[0].player.status != PlayerStatus::Alive ==> trace[upto].player.status
            != PlayerStatus::Alive,
        trace[upto].player.location == trace[0].player.location,
        trace[upto].maxc == trace[0].maxc,
        trace[upto].maxl == trace[0].maxl,
        trace[upto].elapsed_loops == trace[0].elapsed_loops,
        trace[upto].new_events.len() >= trace[0].new_events.len(),
        trace[upto].new_events.take(trace[0].new_events.len() as int) == trace[0].new_events,
    decreases upto,
{
    if upto == 0 {
        assert(trace[0].new_events.take(trace[0].new_events.len() as int) == trace[0].new_events);
    } else {
        ticks_take_nothing_back(events, trace, fired, now, upto - 1);
        let event = events[upto - 1];
        let before = trace[upto - 1];
        let after = trace[upto];
        assert(handler_step(event, before, after, fired[upto - 1], now));
        if fired[upto - 1] {
            effects_take_nothing_back(event.handler, event.trigger.leaves(before, now), after, now);
        }
        let staged = trace[0].new_events.len() as int;
        assert(after.new_events.take(staged) == before.new_events.take(staged)) by {
            assert(after.new_events.take(before.new_events.len() as int).take(staged)
                == after.new_events.take(staged));
        }
    }
}

/// The start of the game is over once the first tick is: however the tick
/// went, the trigger for the start does not fire on the world it leaves.
pub proof fn game_starts_once(last: WorldView, now: u64)
    ensures
        !TriggerView::GameStarted.fires(tick_closed(last), now),
        tick_closed(last).elapsed_loops >= last.elapsed_loops,
        tick_closed(last).new_events.len() == 0,
{
}

impl Game {
    /// The live handlers as contracts see them.
    pub open spec fn live(&self) -> Seq<WorldEventView> {
        events_view(self.events@)
    }

    /// A game on `maxc` columns and `maxl` lines, without handlers yet.
    pub fn new(maxc: u16, maxl: u16) -> (game: Game)
        requires
            maxl >= 1,
        ensures
            game.world@ == new_world(maxc, maxl),
            game.live() == Seq::<WorldEventView>::empty(),
    {
        let game = Game { world: World::new(maxc, maxl), events: Vec::new() };
        assert(game.live() == Seq::<WorldEventView>::empty());
        game
    }

    /// Registers `event` as the last of the live handlers.
    pub fn add_event_handler(&mut self, event: WorldEvent)
        ensures
            final(self).live() == old(self).live().push(event@),
            final(self).world@ == old(self).world@,
    {
        self.events.push(event);
        assert(events_view(self.events@) == events_view(old(self).events@).push(event@));
    }

    /// Registers `timer` under `key`, in place of any timer that was there,
    /// and registers the handler that brings `on_elapsed` when the timer is
    /// found elapsed; the handler stays if the timer repeats.
    pub fn add_timer_as(&mut self, key: String, timer: WorldTimer, on_elapsed: Effect)
        ensures
            final(self).live() == old(self).live().push(timer_handler(key@, timer, on_elapsed@)),
            final(self).world@ == (WorldView {
                timers: old(self).world@.timers.insert(key@, timer),
                ..old(self).world@
            }),
    {
        let trigger = WorldEventTrigger::TimerElapsed(key.clone());
        self.world.timers.insert(key, timer);
        self.add_event_handler(WorldEvent::new(trigger, timer.repeat, on_elapsed));
    }

    /// Registers `timer` under a key of its own: see [`Game::add_timer_as`].
    pub fn add_timer(&mut self, timer: WorldTimer, on_elapsed: Effect)
        ensures
            exists|key: Seq<char>|
                {
                    &&& final(self).live() == old(self).live().push(
                        #[trigger] timer_handler(key, timer, on_elapsed@),
                    )
                    &&& final(self).world@ == (WorldView {
                        timers: old(self).world@.timers.insert(key, timer),
                        ..old(self).world@
                    })
                },
    {
        let key = fresh_key();
        let ghost chars = key@;
        self.add_timer_as(key, timer, on_elapsed);
        assert(final(self).live() == old(self).live().push(
            timer_handler(chars, timer, on_elapsed@),
        ));
    }

    /// Registers the handlers that the game starts with, the two timers
    /// under the given keys and started at `now`: every minute the river
    /// narrows, every second is counted.
    pub fn setup_event_handlers_as(&mut self, narrowing_key: String, seconds_key: String, now: u64)
        ensures
            final(self).live() == old(self).live() + standard_handlers(
                narrowing_key@,
                seconds_key@,
            ),
            final(self).world@ == (WorldView {
                timers: standard_timers(
                    old(self).world@.timers,
                    narrowing_key@,
                    seconds_key@,
                    now,
                ),
                ..old(self).world@
            }),
    {
        let ghost before = self.live();
        self.add_event_handler(
            WorldEvent::new(WorldEventTrigger::Anything, true, Effect::CheckPlayerStatus),
        );
        self.add_event_handler(
            WorldEvent::new(WorldEventTrigger::Anything, true, Effect::CheckEnemyStatus),
        );
        self.add_event_handler(
            WorldEvent::new(WorldEventTrigger::Anything, true, Effect::CheckFuelStatus),
        );
        self.add_event_handler(
            WorldEvent::new(WorldEventTrigger::Anything, true, Effect::UpdateMap),
        );
        self.add_event_handler(
            WorldEvent::new(WorldEventTrigger::Anything, true, Effect::CreateEnemy),
        );
        self.add_event_handler(
            WorldEvent::new(WorldEventTrigger::Anything, true, Effect::CreateFuel),
        );
        self.add_event_handler(
            WorldEvent::new(WorldEventTrigger::Anything, true, Effect::MoveEnemies),
        );
        self.add_event_handler(WorldEvent::new(WorldEventTrigger::Anything, true, Effect::MoveFuel));
        self.add_event_handler(
            WorldEvent::new(WorldEventTrigger::Anything, true, Effect::MoveBullets),
        );
        self.add_event_handler(WorldEvent::new(WorldEventTrigger::Anything, true, Effect::BurnFuel));
        self.add_event_handler(WorldEvent::new(WorldEventTrigger::Anything, true, Effect::Travel));
        self.add_timer_as(
            narrowing_key,
            WorldTimer::started_at(60 * SECOND, true, now),
            Effect::NarrowRiver,
        );
        self.add_timer_as(
            seconds_key,
            WorldTimer::started_at(SECOND, true, now),
            Effect::CountSecond,
        );
        self.add_event_handler(
            WorldEvent::new(WorldEventTrigger::GameStarted, false, Effect::Warmup),
        );
        assert(self.live() == before + standard_handlers(narrowing_key@, seconds_key@));
    }

    /// Registers the handlers that the game starts with, the timers under
    /// keys of their own and started at the present time: see
    /// [`Game::setup_event_handlers_as`].
    pub fn setup_event_handlers(&mut self)
        ensures
            exists|narrowing_key: Seq<char>, seconds_key: Seq<char>, now: u64|
                {
                    &&& final(self).live() == old(self).live() + standard_handlers(
                        narrowing_key,
                        seconds_key,
                    )
                    &&& final(self).world@ == (WorldView {
                        timers: #[trigger] standard_timers(
                            old(self).world@.timers,
                            narrowing_key,
                            seconds_key,
                            now,
                        ),
                        ..old(self).world@
                    })
                },
    {
        let narrowing_key = fresh_key();
        let seconds_key = fresh_key();
        let now: u64 = now_millis();
        let ghost narrowing = narrowing_key@;
        let ghost seconds = seconds_key@;
        self.setup_event_handlers_as(narrowing_key, seconds_key, now);
        assert(final(self).world@ == (WorldView {
            timers: standard_timers(old(self).world@.timers, narrowing, seconds, now),
            ..old(self).world@
        }));
    }

    /// Removes the handlers that fired and do not continue.
    fn drop_spent(&mut self, fired: &Vec<bool>)
        requires
            fired@.len() == old(self).events@.len(),
        ensures
            final(self).live() == retained(old(self).live(), fired@),
            final(self).world == old(self).world,
    {
        let ghost before = self.live();
        let mut i: usize = 0;
        let mut seen: usize = 0;
        while seen < fired.len()
            invariant
                before.len() == fired@.len(),
                seen <= fired@.len(),
                i <= self.events@.len(),
                self.events@.len() - i == before.len() - seen,
                self.world == old(self).world,
                self.live().take(i as int) == retained(
                    before.take(seen as int),
                    fired@.take(seen as int),
                ),
                self.live().skip(i as int) == before.skip(seen as int),
            decreases fired@.len() - seen,
        {
            let ghost left = self.live();
            assert(i < self.events.len());
            assert(before.take(seen + 1).drop_last() == before.take(seen as int));
            assert(fired@.take(seen + 1).drop_last() == fired@.take(seen as int));
            assert(left[i as int] == left.skip(i as int)[0]);
            assert(before[seen as int] == before.skip(seen as int)[0]);
            assert(before.skip(seen + 1) == before.skip(seen as int).skip(1));
            if fired[seen] && !self.events[i].is_continues {
                self.events.remove(i);
                assert(self.live() == left.remove(i as int));
                assert(self.live().take(i as int) == left.take(i as int));
                assert(self.live().skip(i as int) == left.skip(i as int).skip(1));
            } else {
                assert(left.take(i + 1) == left.take(i as int).push(left[i as int]));
                assert(left.skip(i + 1) == left.skip(i as int).skip(1));
                i += 1;
            }
            seen += 1;
        }
        assert(self.live().take(i as int) == self.live());
        assert(before.take(seen as int) == before);
        assert(fired@.take(seen as int) == fired@);
    }

    /// One tick at `now`. Each live handler is looked at once, in the order
    /// of registration, and takes effect if its trigger fires; handlers
    /// that are staged meanwhile are not looked at. Then the handlers that
    /// fired and do not continue leave, the staged ones join the live ones
    /// at the end, and the tick is counted.
    pub fn tick_at(&mut self, now: u64)
        ensures
            exists|trace: Seq<WorldView>, fired: Seq<bool>|
                {
                    &&& #[trigger] handlers_ran(old(self).live(), trace, fired, now)
                    &&& trace[0] == old(self).world@
                    &&& final(self).world@ == tick_closed(trace.last())
                    &&& final(self).live() == retained(old(self).live(), fired)
                        + trace.last().new_events
                },
            final(self).world@.elapsed_loops == next_loop(old(self).world@.elapsed_loops),
            final(self).world@.new_events.len() == 0,
            final(self).live().len() >= old(self).world@.new_events.len(),
    {
        let ghost live = self.live();
        let ghost mut trace: Seq<WorldView> = seq![self.world@];
        let count: usize = self.events.len();
        let mut fired: Vec<bool> = Vec::new();
        let mut i: usize = 0;
        while i < count
            invariant
                self.events == old(self).events,
                live == old(self).live(),
                count == self.events@.len(),
                i <= count,
                fired@.len() == i,
                trace.len() == i + 1,
                trace[0] == old(self).world@,
                trace[i as int] == self.world@,
                forall|j: int|
                    #![trigger live[j]]
                    0 <= j < i ==> handler_step(live[j], trace[j], trace[j + 1], fired@[j], now),
            decreases count - i,
        {
            let ghost found = self.world@;
            let hit = self.events[i].trigger.is_triggered_at(&mut self.world, now);
            if hit {
                self.events[i].handler.apply(&mut self.world, now);
            }
            fired.push(hit);
            proof {
                trace = trace.push(self.world@);
                assert(live[i as int] == self.events@[i as int]@);
                assert(handler_step(live[i as int], found, self.world@, hit, now));
            }
            i += 1;
        }
        let ghost last = self.world@;
        assert(handlers_ran(live, trace, fired@, now));
        proof {
            ticks_take_nothing_back(live, trace, fired@, now, count as int);
        }
        self.drop_spent(&fired);
        let ghost kept = self.events@;
        self.events.append(&mut self.world.new_events);
        assert(events_view(self.events@) == events_view(kept) + last.new_events);
        assert(events_view(self.world.new_events@) == Seq::<WorldEventView>::empty());
        if self.world.elapsed_loops < usize::MAX {
            self.world.elapsed_loops += 1;
        }
        assert(self.world@ == tick_closed(last));
    }

    /// One tick at the present time: see [`Game::tick_at`].
    pub fn tick(&mut self)
        ensures
            exists|trace: Seq<WorldView>, fired: Seq<bool>, now: u64|
                {
                    &&& #[trigger] handlers_ran(old(self).live(), trace, fired, now)
                    &&& trace[0] == old(self).world@
                    &&& final(self).world@ == tick_closed(trace.last())
                    &&& final(self).live() == retained(old(self).live(), fired)
                        + trace.last().new_events
                },
            final(self).world@.elapsed_loops == next_loop(old(self).world@.elapsed_loops),
            final(self).world@.new_events.len() == 0,
            final(self).live().len() >= old(self).world@.new_events.len(),
    {
        let now: u64 = now_millis();
        self.tick_at(now);
    }
}

} // verus!
