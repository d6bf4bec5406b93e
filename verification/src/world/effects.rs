use crate::canvas::{Color, Style};
use crate::entities::{Enemy, EntityStatus, Fuel, Location, PlayerStatus};
use crate::restorable::Restorable;
use crate::sources::fresh_key;
use crate::world::drawings::{has_drawing, removal_is_exact, with_drawing};
use crate::world::events::{
    add_score, burn_fuel, check_enemy_status, check_fuel_status, check_player_status,
    count_second, create_enemy, create_fuel, enemies_checked, enemies_moved, fuels_checked,
    fuels_moved, move_bullets, move_enemies, move_fuel, travel,
};
use crate::world::map::{may_follow, Passage, RiverMode, RiverView};
use crate::world::{World, WorldTimer, WorldView, FULL_CHANCE};
use vstd::prelude::*;

verus! {

/// Milliseconds in a second.
pub const SECOND: u64 = 1000;

/// What each escalation adds to the chance of a new enemy, in thousandths.
pub const ESCALATION_STEP: u16 = 100;

/// Points for every ten seconds played.
pub const SURVIVAL_POINTS: u64 = 10;

/// The style of the warm-up popups: green on magenta.
pub open spec fn script_style() -> Option<Style> {
    Some(Style { foreground: Some(Color::Green), background: Some(Color::Magenta) })
}

/// The style of the marker that goes with a narrowing river: black on red.
pub open spec fn marker_style() -> Option<Style> {
    Some(Style { foreground: Some(Color::Black), background: Some(Color::Red) })
}

/// What a handler does to the world when its trigger fires: one of the
/// per-tick rules of the game, a stage of its script, or the closing of a
/// popup followed by another effect.
#[derive(Debug)]
pub enum Effect {
    /// The player dies off the river or on an empty tank.
    CheckPlayerStatus,
    /// Enemies age, collide with the player and take bullet hits.
    CheckEnemyStatus,
    /// Fuel pickups age, are picked up or shot.
    CheckFuelStatus,
    /// The river scrolls by one line.
    UpdateMap,
    /// Perhaps a new enemy at the top.
    CreateEnemy,
    /// Perhaps a new fuel pickup at the top.
    CreateFuel,
    /// Enemies come one line closer.
    MoveEnemies,
    /// Fuel pickups come one line closer.
    MoveFuel,
    /// Bullets fly two lines up and tire.
    MoveBullets,
    /// One unit of fuel is burnt.
    BurnFuel,
    /// One more line is flown.
    Travel,
    /// One more second has passed.
    CountSecond,
    /// The river narrows to the middle and a marker pops up for a second;
    /// when it closes, [`Effect::Escalate`] follows.
    NarrowRiver,
    /// Enemies get more frequent and the river gets its shape back.
    Escalate,
    /// The warm-up begins: nothing spawns, the river keeps to the middle and
    /// "Warmup" pops up for ten seconds; [`Effect::GetReady`] follows.
    Warmup,
    /// "Ready!!" pops up for two seconds; [`Effect::Go`] follows.
    GetReady,
    /// "GO!!" pops up for a second; [`Effect::StartRunning`] follows.
    Go,
    /// The warm-up is over: spawning and the river's shape are restored, and
    /// from now on every ten seconds bring [`Effect::ScoreBonus`].
    StartRunning,
    /// Ten points for staying alive.
    ScoreBonus,
    /// The drawing registered under `drawing` is removed, then `after` takes
    /// effect.
    ClosePopup { drawing: String, after: Box<Effect> },
}

/// An effect as contracts see it: keys by their characters.
pub enum EffectView {
    CheckPlayerStatus,
    CheckEnemyStatus,
    CheckFuelStatus,
    UpdateMap,
    CreateEnemy,
    CreateFuel,
    MoveEnemies,
    MoveFuel,
    MoveBullets,
    BurnFuel,
    Travel,
    CountSecond,
    NarrowRiver,
    Escalate,
    Warmup,
    GetReady,
    Go,
    StartRunning,
    ScoreBonus,
    ClosePopup { drawing: Seq<char>, after: Box<EffectView> },
}

/// The view of `effect`.
pub open spec fn effect_view(effect: Effect) -> EffectView
    decreases effect,
{
    match effect {
        Effect::CheckPlayerStatus => EffectView::CheckPlayerStatus,
        Effect::CheckEnemyStatus => EffectView::CheckEnemyStatus,
        Effect::CheckFuelStatus => EffectView::CheckFuelStatus,
        Effect::UpdateMap => EffectView::UpdateMap,
        Effect::CreateEnemy => EffectView::CreateEnemy,
        Effect::CreateFuel => EffectView::CreateFuel,
        Effect::MoveEnemies => EffectView::MoveEnemies,
        Effect::MoveFuel => EffectView::MoveFuel,
        Effect::MoveBullets => EffectView::MoveBullets,
        Effect::BurnFuel => EffectView::BurnFuel,
        Effect::Travel => EffectView::Travel,
        Effect::CountSecond => EffectView::CountSecond,
        Effect::NarrowRiver => EffectView::NarrowRiver,
        Effect::Escalate => EffectView::Escalate,
        Effect::Warmup => EffectView::Warmup,
        Effect::GetReady => EffectView::GetReady,
        Effect::Go => EffectView::Go,
        Effect::StartRunning => EffectView::StartRunning,
        Effect::ScoreBonus => EffectView::ScoreBonus,
        Effect::ClosePopup { drawing, after } => EffectView::ClosePopup {
            drawing: drawing@,
            after: Box::new(effect_view(*after)),
        },
    }
}

impl View for Effect {
    type V = EffectView;

    open spec fn view(&self) -> EffectView {
        effect_view(*self)
    }
}

impl WorldView {
    /// The world with the river's shape mode set to `mode`; the mode to go
    /// back to stays.
    pub open spec fn river_shaped(self, mode: RiverMode) -> WorldView {
        WorldView {
            map: RiverView {
                mode: Restorable { baseline: self.map.mode.baseline, value: mode },
                ..self.map
            },
            ..self
        }
    }

    /// The world with the river kept to the middle, half the field wide.
    pub open spec fn river_narrowed(self) -> WorldView {
        self.river_shaped(
            RiverMode::ConstWidthAndCenter { width: self.maxc / 2, center_c: self.maxc / 2 },
        )
    }

    /// The world with the river back in the shape mode it was made with.
    pub open spec fn river_restored(self) -> WorldView {
        self.river_shaped(self.map.mode.baseline)
    }

    /// The world after the river has scrolled by one line, `row` being the
    /// new leading line.
    pub open spec fn river_scrolled(self, row: Passage) -> WorldView {
        WorldView { map: self.map.scrolled(row), ..self }
    }

    /// `after` is the world once the river has scrolled by one line, the
    /// new leading line being one that may follow the present one in the
    /// shape mode in force, and lying between the banks.
    pub open spec fn river_updated(self, after: WorldView) -> bool {
        exists|row: Passage|
            {
                &&& may_follow(self.map.mode.value, self.map.leading(), row, self.map.maxc)
                &&& row.start <= row.end <= self.map.maxc
                &&& after == #[trigger] self.river_scrolled(row)
            }
    }

    /// The world after an escalation: the chance of a new enemy goes up by
    /// [`ESCALATION_STEP`], but not beyond [`FULL_CHANCE`], and the river
    /// gets its shape back.
    pub open spec fn escalated(self) -> WorldView {
        let chance = self.enemy_spawn_probability;
        WorldView {
            enemy_spawn_probability: Restorable {
                value: if chance.value >= FULL_CHANCE {
                    chance.value
                } else if chance.value + ESCALATION_STEP > FULL_CHANCE {
                    FULL_CHANCE
                } else {
                    (chance.value + ESCALATION_STEP) as u16
                },
                ..chance
            },
            ..self
        }.river_restored()
    }

    /// The world made calm for the warm-up: nothing spawns and the river
    /// keeps to the middle.
    pub open spec fn calmed(self) -> WorldView {
        WorldView {
            enemy_spawn_probability: Restorable { value: 0, ..self.enemy_spawn_probability },
            fuel_spawn_probability: Restorable { value: 0, ..self.fuel_spawn_probability },
            ..self
        }.river_narrowed()
    }

    /// The world let loose after the warm-up: the river's shape and both
    /// spawn chances are back at their baselines.
    pub open spec fn released(self) -> WorldView {
        WorldView {
            enemy_spawn_probability: Restorable {
                value: self.enemy_spawn_probability.baseline,
                ..self.enemy_spawn_probability
            },
            fuel_spawn_probability: Restorable {
                value: self.fuel_spawn_probability.baseline,
                ..self.fuel_spawn_probability
            },
            ..self
        }.river_restored()
    }

    /// The world after [`Effect::NarrowRiver`] at `now`, with the keys that
    /// the marker and its timer got.
    pub open spec fn narrowing(self, drawing_key: Seq<char>, timer_key: Seq<char>, now: u64) -> WorldView {
        self.river_narrowed().popup_shown(
            drawing_key,
            timer_key,
            now,
            "^ ^ ^"@,
            SECOND,
            EffectView::Escalate,
            marker_style(),
        )
    }

    /// The world after [`Effect::Warmup`] at `now`, with the keys that the
    /// popup and its timer got.
    pub open spec fn warming_up(self, drawing_key: Seq<char>, timer_key: Seq<char>, now: u64) -> WorldView {
        self.calmed().popup_shown(
            drawing_key,
            timer_key,
            now,
            "Warmup"@,
            (10 * SECOND) as u64,
            EffectView::GetReady,
            script_style(),
        )
    }

    /// The world after [`Effect::GetReady`] at `now`.
    pub open spec fn getting_ready(self, drawing_key: Seq<char>, timer_key: Seq<char>, now: u64) -> WorldView {
        self.popup_shown(
            drawing_key,
            timer_key,
            now,
            "Ready!!"@,
            (2 * SECOND) as u64,
            EffectView::Go,
            script_style(),
        )
    }

    /// The world after [`Effect::Go`] at `now`.
    pub open spec fn going(self, drawing_key: Seq<char>, timer_key: Seq<char>, now: u64) -> WorldView {
        self.popup_shown(
            drawing_key,
            timer_key,
            now,
            "GO!!"@,
            SECOND,
            EffectView::StartRunning,
            script_style(),
        )
    }

    /// The world after [`Effect::StartRunning`] at `now`, with the key that
    /// the bonus timer got.
    pub open spec fn running(self, timer_key: Seq<char>, now: u64) -> WorldView {
        self.released().timer_added(
            timer_key,
            WorldTimer { duration: (10 * SECOND) as u64, repeat: true, instant: now },
            EffectView::ScoreBonus,
        )
    }
}

impl EffectView {
    /// `after` is a world that the effect can leave when it takes effect on
    /// `before` at `now`. The rules of the game leave exactly one world;
    /// where chance or a fresh key comes in, there is one for each outcome.
    pub open spec fn yields(self, before: WorldView, after: WorldView, now: u64) -> bool
        decreases self,
    {
        match self {
            EffectView::CheckPlayerStatus => after == before.player_checked(),
            EffectView::CheckEnemyStatus => after == before.enemies_checked(),
            EffectView::CheckFuelStatus => after == before.fuels_checked(),
            EffectView::UpdateMap => before.river_updated(after),
            EffectView::CreateEnemy => before.enemy_created(after),
            EffectView::CreateFuel => before.fuel_created(after),
            EffectView::MoveEnemies => after == before.enemies_moved(),
            EffectView::MoveFuel => after == before.fuels_moved(),
            EffectView::MoveBullets => after == before.bullets_moved(),
            EffectView::BurnFuel => after == before.fuel_burnt(),
            EffectView::Travel => after == before.traveled_on(),
            EffectView::CountSecond => after == before.second_counted(),
            EffectView::NarrowRiver => exists|drawing_key: Seq<char>, timer_key: Seq<char>|
                after == #[trigger] before.narrowing(drawing_key, timer_key, now),
            EffectView::Escalate => after == before.escalated(),
            EffectView::Warmup => exists|drawing_key: Seq<char>, timer_key: Seq<char>|
                after == #[trigger] before.warming_up(drawing_key, timer_key, now),
            EffectView::GetReady => exists|drawing_key: Seq<char>, timer_key: Seq<char>|
                after == #[trigger] before.getting_ready(drawing_key, timer_key, now),
            EffectView::Go => exists|drawing_key: Seq<char>, timer_key: Seq<char>|
                after == #[trigger] before.going(drawing_key, timer_key, now),
            EffectView::StartRunning => exists|timer_key: Seq<char>|
                after == #[trigger] before.running(timer_key, now),
            EffectView::ScoreBonus => after == before.scored(SURVIVAL_POINTS),
            EffectView::ClosePopup { drawing, after: next } => next.yields(
                before.drawing_cleared(drawing),
                after,
                now,
            ),
        }
    }
}

/// Whatever effect takes place, the enemies and the fuel pickups change by
/// one of the rules of the game only: they stay as they are, go through a
/// status check, move one line down, or are joined by a living newcomer at
/// the top. So on every tick each of them keeps to its life cycle, as the
/// laws of the status check and of the moves have it.
pub proof fn effects_keep_the_life_cycle(
    effect: EffectView,
    before: WorldView,
    after: WorldView,
    now: u64,
)
    requires
        effect.yields(before, after, now),
    ensures
        ({
            ||| after.enemies == before.enemies
            ||| after.enemies == enemies_checked(before.enemies, before.bullets)
            ||| after.enemies == enemies_moved(before.enemies, before.maxl)
            ||| exists|column: u16|
                after.enemies == before.enemies.push(
                    #[trigger] newcomer(column, before.enemies_armor),
                )
        }),
        ({
            ||| after.fuels == before.fuels
            ||| after.fuels == fuels_checked(before.fuels, before.player.location, before.bullets)
            ||| after.fuels == fuels_moved(before.fuels, before.maxl)
            ||| exists|column: u16| after.fuels == before.fuels.push(#[trigger] new_pickup(column))
        }),
    decreases effect,
{
    match effect {
        EffectView::ClosePopup { drawing, after: next } => {
            effects_keep_the_life_cycle(*next, before.drawing_cleared(drawing), after, now);
        },
        EffectView::CreateEnemy => {
            if after != before {
                let column = choose|column: u16|
                    before.map.borders(0).spec_contains(column) && after
                        == #[trigger] before.enemy_spawned(column);
                assert(after.enemies == before.enemies.push(
                    newcomer(column, before.enemies_armor),
                ));
            }
        },
        EffectView::CreateFuel => {
            if after != before {
                let column = choose|column: u16|
                    before.map.borders(0).spec_contains(column) && after
                        == #[trigger] before.fuel_spawned(column);
                assert(after.fuels == before.fuels.push(new_pickup(column)));
            }
        },
        _ => {},
    }
}

/// Whatever effect takes place, nothing that was gained is taken back:
/// score, distance and the seconds played do not go down, a dead player
/// stays dead, the player is not moved, the field keeps its size, the tick
/// count is left alone, and the handlers staged so far stay staged, in their
/// order, before any new one.
pub proof fn effects_take_nothing_back(
    effect: EffectView,
    before: WorldView,
    after: WorldView,
    now: u64,
)
    requires
        effect.yields(before, after, now),
    ensures
        after.player.score >= before.player.score,
        after.player.traveled >= before.player.traveled,
        after.elapsed_time >= before.elapsed_time,
        before.player.status != PlayerStatus::Alive ==> after.player.status != PlayerStatus::Alive,
        after.player.location == before.player.location,
        after.maxc == before.maxc,
        after.maxl == before.maxl,
        after.elapsed_loops == before.elapsed_loops,
        after.new_events.len() >= before.new_events.len(),
        after.new_events.take(before.new_events.len() as int) == before.new_events,
    decreases effect,
{
    assert(before.new_events.take(before.new_events.len() as int) == before.new_events);
    match effect {
        EffectView::ClosePopup { drawing, after: next } => {
            effects_take_nothing_back(*next, before.drawing_cleared(drawing), after, now);
        },
        EffectView::NarrowRiver => {
            let (drawn, timed) = choose|drawn: Seq<char>, timed: Seq<char>|
                after == #[trigger] before.narrowing(drawn, timed, now);
            assert(after.new_events.drop_last() == before.new_events);
        },
        EffectView::Warmup => {
            let (drawn, timed) = choose|drawn: Seq<char>, timed: Seq<char>|
                after == #[trigger] before.warming_up(drawn, timed, now);
            assert(after.new_events.drop_last() == before.new_events);
        },
        EffectView::GetReady => {
            let (drawn, timed) = choose|drawn: Seq<char>, timed: Seq<char>|
                after == #[trigger] before.getting_ready(drawn, timed, now);
            assert(after.new_events.drop_last() == before.new_events);
        },
        EffectView::Go => {
            let (drawn, timed) = choose|drawn: Seq<char>, timed: Seq<char>|
                after == #[trigger] before.going(drawn, timed, now);
            assert(after.new_events.drop_last() == before.new_events);
        },
        EffectView::StartRunning => {
            let timed = choose|timed: Seq<char>| after == #[trigger] before.running(timed, now);
            assert(after.new_events.drop_last() == before.new_events);
        },
        _ => {},
    }
}

/// A popup stays up for its duration and is then closed: from the moment it
/// went up, the handler that was staged with it fires exactly when the
/// duration has passed, and when it fires the popup's drawing is removed
/// before anything else happens, and its timer is gone.
pub proof fn popup_closes_on_time(
    world: WorldView,
    drawing_key: Seq<char>,
    timer_key: Seq<char>,
    now: u64,
    message: Seq<char>,
    duration: u64,
    after: EffectView,
    style: Option<Style>,
    later: u64,
    closed: WorldView,
)
    ensures
        ({
            let shown = world.popup_shown(
                drawing_key,
                timer_key,
                now,
                message,
                duration,
                after,
                style,
            );
            let closing = shown.new_events.last();
            let looked = closing.trigger.leaves(shown, later);
            &&& has_drawing(shown.custom_drawings, drawing_key)
            &&& shown.new_events == world.new_events.push(closing)
            &&& !closing.is_continues
            &&& closing.trigger.fires(shown, later) <==> crate::world::time_since(now, later)
                >= duration
            &&& closing.trigger.fires(shown, later) ==> !looked.timers.contains_key(timer_key)
            &&& closing.trigger.fires(shown, later) && closing.handler.yields(
                looked,
                closed,
                later,
            ) ==> after.yields(looked.drawing_cleared(drawing_key), closed, later) && !has_drawing(
                looked.drawing_cleared(drawing_key).custom_drawings,
                drawing_key,
            )
        }),
{
    let shown = world.popup_shown(drawing_key, timer_key, now, message, duration, after, style);
    let strokes = crate::world::popup_strokes(message, style, world.maxc, world.maxl);
    let drawn = with_drawing(world.custom_drawings, drawing_key, strokes);
    assert(drawn[drawn.len() - 1].0 == drawing_key);
    let closing = shown.new_events.last();
    let looked = closing.trigger.leaves(shown, later);
    removal_is_exact(looked.custom_drawings, drawing_key, drawing_key);
}

/// A living enemy at the top of `column`.
pub open spec fn newcomer(column: u16, armor: u16) -> Enemy {
    Enemy { location: Location { c: column, l: 0 }, status: EntityStatus::Alive, armor }
}

/// A living fuel pickup at the top of `column`.
pub open spec fn new_pickup(column: u16) -> Fuel {
    Fuel { location: Location { c: column, l: 0 }, status: EntityStatus::Alive }
}

/// Keeps the river to the middle, half the field wide, until it is restored.
pub fn narrow_river(world: &mut World)
    ensures
        final(world)@ == old(world)@.river_narrowed(),
{
    let half: u16 = world.maxc / 2;
    world.map.change_river_mode(RiverMode::ConstWidthAndCenter { width: half, center_c: half });
}

/// Scrolls the river by one line: see [`crate::world::map::River::update`].
pub fn update_map(world: &mut World)
    ensures
        old(world)@.river_updated(final(world)@),
{
    world.map.update(&mut world.rng);
    proof {
        let before = old(world)@;
        let row = choose|row: Passage|
            {
                &&& may_follow(before.map.mode.value, before.map.leading(), row, before.map.maxc)
                &&& row.start <= row.end <= before.map.maxc
                &&& final(world)@.map == #[trigger] before.map.scrolled(row)
            };
        assert(final(world)@ == before.river_scrolled(row));
    }
}

/// Makes enemies more frequent and gives the river its shape back.
pub fn escalate(world: &mut World)
    ensures
        final(world)@ == old(world)@.escalated(),
{
    let chance: u16 = world.enemy_spawn_probability.value;
    if chance < FULL_CHANCE {
        if FULL_CHANCE - chance < ESCALATION_STEP {
            world.enemy_spawn_probability.set(FULL_CHANCE);
        } else {
            world.enemy_spawn_probability.set(chance + ESCALATION_STEP);
        }
    }
    world.map.restore_river_mode();
}

/// Begins a narrowing of the river at `now`: the river keeps to the middle
/// and a marker goes up for a second under `drawing_key`; the timer under
/// `timer_key` closes it and brings [`Effect::Escalate`].
pub fn begin_narrowing(world: &mut World, drawing_key: String, timer_key: String, now: u64)
    ensures
        final(world)@ == old(world)@.narrowing(drawing_key@, timer_key@, now),
{
    narrow_river(world);
    world.temp_popup_as(
        drawing_key,
        timer_key,
        now,
        "^ ^ ^",
        SECOND,
        Effect::Escalate,
        Some(Style::on(Color::Black, Color::Red)),
    );
}

/// Begins the warm-up at `now`: nothing spawns, the river keeps to the
/// middle, and "Warmup" goes up for ten seconds under `drawing_key`; the
/// timer under `timer_key` closes it and brings [`Effect::GetReady`].
pub fn begin_warmup(world: &mut World, drawing_key: String, timer_key: String, now: u64)
    ensures
        final(world)@ == old(world)@.warming_up(drawing_key@, timer_key@, now),
{
    world.enemy_spawn_probability.set(0);
    world.fuel_spawn_probability.set(0);
    narrow_river(world);
    world.temp_popup_as(
        drawing_key,
        timer_key,
        now,
        "Warmup",
        10 * SECOND,
        Effect::GetReady,
        Some(Style::on(Color::Green, Color::Magenta)),
    );
}

/// Puts up "Ready!!" at `now` for two seconds; [`Effect::Go`] follows.
pub fn get_ready(world: &mut World, drawing_key: String, timer_key: String, now: u64)
    ensures
        final(world)@ == old(world)@.getting_ready(drawing_key@, timer_key@, now),
{
    world.temp_popup_as(
        drawing_key,
        timer_key,
        now,
        "Ready!!",
        2 * SECOND,
        Effect::Go,
        Some(Style::on(Color::Green, Color::Magenta)),
    );
}

/// Puts up "GO!!" at `now` for a second; [`Effect::StartRunning`]
/// follows.
pub fn go(world: &mut World, drawing_key: String, timer_key: String, now: u64)
    ensures
        final(world)@ == old(world)@.going(drawing_key@, timer_key@, now),
{
    world.temp_popup_as(
        drawing_key,
        timer_key,
        now,
        "GO!!",
        SECOND,
        Effect::StartRunning,
        Some(Style::on(Color::Green, Color::Magenta)),
    );
}

/// Ends the warm-up at `now`: the river's shape and both spawn chances go
/// back to their baselines, and a repeating timer under `timer_key` brings
/// [`Effect::ScoreBonus`] every ten seconds.
pub fn start_running(world: &mut World, timer_key: String, now: u64)
    ensures
        final(world)@ == old(world)@.running(timer_key@, now),
{
    world.map.restore_river_mode();
    world.fuel_spawn_probability.restore();
    world.enemy_spawn_probability.restore();
    world.add_timer_as(
        timer_key,
        WorldTimer::started_at(10 * SECOND, true, now),
        Effect::ScoreBonus,
    );
}

impl Effect {
    /// Lets the effect take effect on `world` at `now`.
    pub fn apply(&self, world: &mut World, now: u64)
        ensures
            self@.yields(old(world)@, final(world)@, now),
        decreases self,
    {
        match self {
            Effect::CheckPlayerStatus => check_player_status(world),
            Effect::CheckEnemyStatus => check_enemy_status(world),
            Effect::CheckFuelStatus => check_fuel_status(world),
            Effect::UpdateMap => update_map(world),
            Effect::CreateEnemy => create_enemy(world),
            Effect::CreateFuel => create_fuel(world),
            Effect::MoveEnemies => move_enemies(world),
            Effect::MoveFuel => move_fuel(world),
            Effect::MoveBullets => move_bullets(world),
            Effect::BurnFuel => burn_fuel(world),
            Effect::Travel => travel(world),
            Effect::CountSecond => count_second(world),
            Effect::NarrowRiver => {
                let drawing_key = fresh_key();
                let timer_key = fresh_key();
                let ghost drawn = drawing_key@;
                let ghost timed = timer_key@;
                begin_narrowing(world, drawing_key, timer_key, now);
                assert(final(world)@ == old(world)@.narrowing(drawn, timed, now));
            },
            Effect::Escalate => escalate(world),
            Effect::Warmup => {
                let drawing_key = fresh_key();
                let timer_key = fresh_key();
                let ghost drawn = drawing_key@;
                let ghost timed = timer_key@;
                begin_warmup(world, drawing_key, timer_key, now);
                assert(final(world)@ == old(world)@.warming_up(drawn, timed, now));
            },
            Effect::GetReady => {
                let drawing_key = fresh_key();
                let timer_key = fresh_key();
                let ghost drawn = drawing_key@;
                let ghost timed = timer_key@;
                get_ready(world, drawing_key, timer_key, now);
                assert(final(world)@ == old(world)@.getting_ready(drawn, timed, now));
            },
            Effect::Go => {
                let drawing_key = fresh_key();
                let timer_key = fresh_key();
                let ghost drawn = drawing_key@;
                let ghost timed = timer_key@;
                go(world, drawing_key, timer_key, now);
                assert(final(world)@ == old(world)@.going(drawn, timed, now));
            },
            Effect::StartRunning => {
                let timer_key = fresh_key();
                let ghost timed = timer_key@;
                start_running(world, timer_key, now);
                assert(final(world)@ == old(world)@.running(timed, now));
            },
            Effect::ScoreBonus => add_score(world, SURVIVAL_POINTS),
            Effect::ClosePopup { drawing, after } => {
                world.clear_drawing(drawing.as_str());
                after.apply(world, now);
            },
        }
    }
}

} // verus!
