use crate::canvas::Style;
use crate::drawable::{CustomDrawing, Stroke};
use crate::entities::{Bullet, Enemy, Fuel, Location, Player};
use crate::restorable::Restorable;
use crate::sources::{epoch_millis, fresh_key};
use crate::world::conditions::WorldCondition;
use crate::world::drawings::{has_drawing, with_drawing, without_drawing, Drawings, DrawingsView};
use crate::world::effects::{Effect, EffectView};
use crate::world::map::{River, RiverView};
use rand::rngs::ThreadRng;
use vstd::hash_map::StringHashMap;
use vstd::prelude::*;

pub mod conditions;
pub mod drawings;
pub mod effects;
pub mod events;
pub mod map;
pub mod timers;
pub mod triggers;

verus! {

/// A reading of the clock as the time that the timers go by: `0` where the
/// clock had no reading to give, the greatest `u64` where the reading does
/// not fit.
pub open spec fn reading_as_time(reading: Option<u128>) -> u64 {
    match reading {
        Some(millis) => if millis > u64::MAX {
            u64::MAX
        } else {
            millis as u64
        },
        None => 0,
    }
}

/// Computes [`reading_as_time`].
pub fn time_of_reading(reading: Option<u128>) -> (time: u64)
    ensures
        time == reading_as_time(reading),
{
    match reading {
        Some(millis) => if millis > u64::MAX as u128 {
            u64::MAX
        } else {
            millis as u64
        },
        None => 0,
    }
}

/// The present time in milliseconds, as the system clock has it.
pub fn now_millis() -> u64 {
    time_of_reading(epoch_millis())
}

/// The milliseconds from `instant` to `now`; none when `now` is the earlier.
pub open spec fn time_since(instant: u64, now: u64) -> int {
    if now >= instant {
        now - instant
    } else {
        0
    }
}

/// A deadline: `duration` milliseconds after `instant`, the time of the last
/// reset. A repeating timer starts over when it is found elapsed, any other
/// is gone after that.
#[derive(Clone, Copy, Debug, PartialEq, Eq, Structural)]
pub struct WorldTimer {
    pub duration: u64,
    pub repeat: bool,
    pub instant: u64,
}

impl WorldTimer {
    /// The deadline has been reached at `now`.
    pub open spec fn elapsed_at(self, now: u64) -> bool {
        time_since(self.instant, now) >= self.duration
    }

    /// The timer after a reset at `now`.
    pub open spec fn reset_at(self, now: u64) -> WorldTimer {
        WorldTimer { instant: now, ..self }
    }

    /// A timer that was last reset at `now`.
    pub fn started_at(duration: u64, repeat: bool, now: u64) -> (timer: Self)
        ensures
            timer == (WorldTimer { duration, repeat, instant: now }),
    {
        WorldTimer { duration, repeat, instant: now }
    }

    /// A timer of `duration` milliseconds that starts at the present time.
    pub fn new(duration: u64, repeat: bool) -> (timer: Self)
        ensures
            timer.duration == duration,
            timer.repeat == repeat,
    {
        WorldTimer::started_at(duration, repeat, now_millis())
    }

    /// Decides [`WorldTimer::elapsed_at`].
    pub fn has_elapsed(&self, now: u64) -> (elapsed: bool)
        ensures
            elapsed == self.elapsed_at(now),
    {
        if now >= self.instant {
            now - self.instant >= self.duration
        } else {
            self.duration == 0
        }
    }
}

/// The timers by key.
pub type TimersView = Map<Seq<char>, WorldTimer>;

/// What a query for `key` at `now` reports: `None` without such a timer,
/// else whether it has elapsed.
pub open spec fn timer_report(timers: TimersView, key: Seq<char>, now: u64) -> Option<bool> {
    if timers.contains_key(key) {
        Some(timers[key].elapsed_at(now))
    } else {
        None
    }
}

/// The timers after a query for `key` at `now`: an elapsed timer starts over
/// if it repeats and is removed if not; all else stays.
pub open spec fn timers_after_query(timers: TimersView, key: Seq<char>, now: u64) -> TimersView {
    if timers.contains_key(key) && timers[key].elapsed_at(now) {
        if timers[key].repeat {
            timers.insert(key, timers[key].reset_at(now))
        } else {
            timers.remove(key)
        }
    } else {
        timers
    }
}

/// The timers after the one under `key`, if any, was reset at `now`.
pub open spec fn timers_after_reset(timers: TimersView, key: Seq<char>, now: u64) -> TimersView {
    if timers.contains_key(key) {
        timers.insert(key, timers[key].reset_at(now))
    } else {
        timers
    }
}

/// Whether the world flows or stands still.
#[derive(Clone, Copy, Debug, PartialEq, Eq, Structural)]
pub enum WorldStatus {
    Fluent,
    Solid,
}

/// When a handler fires. A trigger is looked at anew on every tick.
#[derive(Debug)]
pub enum WorldEventTrigger {
    /// On the first tick only.
    GameStarted,
    /// On every tick.
    Anything,
    /// Once the player has flown that far, and ever after.
    Traveled(u16),
    /// When the timer under this key is found elapsed. Looking consumes: a
    /// repeating timer starts over, any other is removed.
    TimerElapsed(String),
    /// While a drawing is registered under this key.
    DrawingExists(String),
    /// While the condition holds.
    Custom(WorldCondition),
}

/// A trigger as contracts see it: keys by their characters.
pub enum TriggerView {
    GameStarted,
    Anything,
    Traveled(u16),
    TimerElapsed(Seq<char>),
    DrawingExists(Seq<char>),
    Custom(WorldCondition),
}

impl View for WorldEventTrigger {
    type V = TriggerView;

    open spec fn view(&self) -> TriggerView {
        match self {
            WorldEventTrigger::GameStarted => TriggerView::GameStarted,
            WorldEventTrigger::Anything => TriggerView::Anything,
            WorldEventTrigger::Traveled(distance) => TriggerView::Traveled(*distance),
            WorldEventTrigger::TimerElapsed(key) => TriggerView::TimerElapsed(key@),
            WorldEventTrigger::DrawingExists(key) => TriggerView::DrawingExists(key@),
            WorldEventTrigger::Custom(condition) => TriggerView::Custom(*condition),
        }
    }
}

/// A handler: when `trigger` fires, `handler` takes effect. One that
/// `is_continues` stays for the ticks to come, any other is removed after
/// the tick on which it fired.
#[derive(Debug)]
pub struct WorldEvent {
    pub trigger: WorldEventTrigger,
    pub is_continues: bool,
    pub handler: Effect,
}

/// A handler as contracts see it.
pub struct WorldEventView {
    pub trigger: TriggerView,
    pub is_continues: bool,
    pub handler: EffectView,
}

impl View for WorldEvent {
    type V = WorldEventView;

    open spec fn view(&self) -> WorldEventView {
        WorldEventView {
            trigger: self.trigger@,
            is_continues: self.is_continues,
            handler: self.handler@,
        }
    }
}

/// The handlers of a list as contracts see them, in the same order.
pub open spec fn events_view(events: Seq<WorldEvent>) -> Seq<WorldEventView> {
    Seq::new(events.len(), |i: int| events[i]@)
}

impl WorldEvent {
    pub fn new(trigger: WorldEventTrigger, is_continues: bool, handler: Effect) -> (event: Self)
        ensures
            event.trigger == trigger,
            event.is_continues == is_continues,
            event.handler == handler,
    {
        WorldEvent { trigger, is_continues, handler }
    }
}

/// Everything the game is made of.
pub struct World {
    pub status: WorldStatus,
    pub player: Player,
    pub map: River,
    pub maxc: u16,
    pub maxl: u16,
    /// The armor that a new enemy gets.
    pub enemies_armor: u16,
    /// Chance of a new enemy on a tick, in thousandths.
    pub enemy_spawn_probability: Restorable<u16>,
    /// Chance of a new fuel pickup on a tick, in thousandths.
    pub fuel_spawn_probability: Restorable<u16>,
    pub enemies: Vec<Enemy>,
    pub fuels: Vec<Fuel>,
    pub bullets: Vec<Bullet>,
    /// The generator that columns and river lines are drawn with.
    pub rng: ThreadRng,
    /// Seconds played.
    pub elapsed_time: usize,
    /// Ticks played.
    pub elapsed_loops: usize,
    pub timers: StringHashMap<WorldTimer>,
    pub custom_drawings: Drawings,
    /// Handlers that were added during a tick; they join the live ones when
    /// the tick is over.
    pub new_events: Vec<WorldEvent>,
}

/// The world as contracts see it: all of it but the random number
/// generator.
pub struct WorldView {
    pub status: WorldStatus,
    pub player: Player,
    pub map: RiverView,
    pub maxc: u16,
    pub maxl: u16,
    pub enemies_armor: u16,
    pub enemy_spawn_probability: Restorable<u16>,
    pub fuel_spawn_probability: Restorable<u16>,
    pub enemies: Seq<Enemy>,
    pub fuels: Seq<Fuel>,
    pub bullets: Seq<Bullet>,
    pub elapsed_time: usize,
    pub elapsed_loops: usize,
    pub timers: TimersView,
    pub custom_drawings: DrawingsView,
    pub new_events: Seq<WorldEventView>,
}

impl View for World {
    type V = WorldView;

    open spec fn view(&self) -> WorldView {
        WorldView {
            status: self.status,
            player: self.player,
            map: self.map@,
            maxc: self.maxc,
            maxl: self.maxl,
            enemies_armor: self.enemies_armor,
            enemy_spawn_probability: self.enemy_spawn_probability,
            fuel_spawn_probability: self.fuel_spawn_probability,
            enemies: self.enemies@,
            fuels: self.fuels@,
            bullets: self.bullets@,
            elapsed_time: self.elapsed_time,
            elapsed_loops: self.elapsed_loops,
            timers: self.timers@,
            custom_drawings: self.custom_drawings@,
            new_events: events_view(self.new_events@),
        }
    }
}

/// A full chance, in the thousandths that spawn probabilities are given in.
pub const FULL_CHANCE: u16 = 1000;

/// The widest message that a popup on `maxc` columns shows.
pub open spec fn popup_width(message: Seq<char>, maxc: u16) -> nat {
    if message.len() <= maxc {
        message.len()
    } else {
        maxc as nat
    }
}

/// The first `count` strokes of a popup that is `width` characters wide.
pub open spec fn popup_strokes_upto(
    message: Seq<char>,
    style: Option<Style>,
    maxc: u16,
    maxl: u16,
    width: nat,
    count: nat,
) -> Seq<Stroke>
    decreases count,
{
    if count == 0 {
        Seq::empty()
    } else {
        popup_strokes_upto(message, style, maxc, maxl, width, (count - 1) as nat).push(
            Stroke {
                location: Location { c: ((maxc - width) / 2 + count - 1) as u16, l: maxl / 2 },
                symbol: message[count - 1],
                style: crate::canvas::style_or_plain(style),
            },
        )
    }
}

/// The strokes of a popup: `message` on the middle line, centred, cut off
/// after `maxc` characters.
pub open spec fn popup_strokes(
    message: Seq<char>,
    style: Option<Style>,
    maxc: u16,
    maxl: u16,
) -> Seq<Stroke> {
    let width = popup_width(message, maxc);
    popup_strokes_upto(message, style, maxc, maxl, width, width)
}

impl WorldView {
    /// The world after `event` was staged for the ticks to come.
    pub open spec fn staged(self, event: WorldEventView) -> WorldView {
        WorldView { new_events: self.new_events.push(event), ..self }
    }

    /// The world after `timer` was registered under `key`, with a staged
    /// handler that brings `on_elapsed` when the timer is found elapsed, and
    /// that stays if the timer repeats.
    pub open spec fn timer_added(
        self,
        key: Seq<char>,
        timer: WorldTimer,
        on_elapsed: EffectView,
    ) -> WorldView {
        WorldView { timers: self.timers.insert(key, timer), ..self }.staged(
            WorldEventView {
                trigger: TriggerView::TimerElapsed(key),
                is_continues: timer.repeat,
                handler: on_elapsed,
            },
        )
    }

    /// The world after `strokes` were registered as a drawing under `key`.
    pub open spec fn drawing_added(self, key: Seq<char>, strokes: Seq<Stroke>) -> WorldView {
        WorldView { custom_drawings: with_drawing(self.custom_drawings, key, strokes), ..self }
    }

    /// The world without the drawing under `key`.
    pub open spec fn drawing_cleared(self, key: Seq<char>) -> WorldView {
        WorldView { custom_drawings: without_drawing(self.custom_drawings, key), ..self }
    }

    /// The world after a popup with `message` went up at `now` for
    /// `duration` milliseconds: the popup is drawn under `drawing_key`, and a
    /// timer under `timer_key` closes it and then brings `after`.
    pub open spec fn popup_shown(
        self,
        drawing_key: Seq<char>,
        timer_key: Seq<char>,
        now: u64,
        message: Seq<char>,
        duration: u64,
        after: EffectView,
        style: Option<Style>,
    ) -> WorldView {
        self.drawing_added(
            drawing_key,
            popup_strokes(message, style, self.maxc, self.maxl),
        ).timer_added(
            timer_key,
            WorldTimer { duration, repeat: false, instant: now },
            EffectView::ClosePopup { drawing: drawing_key, after: Box::new(after) },
        )
    }
}

/// The world at the start of a game on `maxc` columns and `maxl` lines: the
/// player alive with a full tank in the middle of the last line, a river
/// straight down the middle that will wander, one enemy in ten ticks and one
/// fuel pickup in a hundred to come, and no enemies, pickups, bullets,
/// timers, drawings or staged handlers yet.
pub open spec fn new_world(maxc: u16, maxl: u16) -> WorldView {
    WorldView {
        status: WorldStatus::Fluent,
        player: Player {
            location: Location { c: maxc / 2, l: (maxl - 1) as u16 },
            status: crate::entities::PlayerStatus::Alive,
            fuel: 1700,
            score: 0,
            traveled: 0,
        },
        map: crate::world::map::straight_river(maxc, maxl, 5, maxc / 3, 2, 5),
        maxc,
        maxl,
        enemies_armor: 1,
        enemy_spawn_probability: Restorable { baseline: 100, value: 100 },
        fuel_spawn_probability: Restorable { baseline: 10, value: 10 },
        enemies: Seq::empty(),
        fuels: Seq::empty(),
        bullets: Seq::empty(),
        elapsed_time: 0,
        elapsed_loops: 0,
        timers: Map::empty(),
        custom_drawings: Seq::empty(),
        new_events: Seq::empty(),
    }
}

impl World {
    /// A world of `maxc` columns and `maxl` lines: see [`new_world`].
    pub fn new(maxc: u16, maxl: u16) -> (world: World)
        requires
            maxl >= 1,
        ensures
            world@ == new_world(maxc, maxl),
    {
        let world = World {
            status: WorldStatus::Fluent,
            player: Player::new((maxc / 2, maxl - 1), 1700),
            map: River::new(maxc, maxl, 5, maxc / 3, 2, 5),
            maxc,
            maxl,
            enemies_armor: 1,
            enemy_spawn_probability: Restorable::new(100),
            fuel_spawn_probability: Restorable::new(10),
            enemies: Vec::new(),
            fuels: Vec::new(),
            bullets: Vec::new(),
            rng: rand::thread_rng(),
            elapsed_time: 0,
            elapsed_loops: 0,
            timers: StringHashMap::new(),
            custom_drawings: Drawings::new(),
            new_events: Vec::new(),
        };
        assert(world@.new_events == Seq::<WorldEventView>::empty());
        assert(world@.enemies == Seq::<Enemy>::empty());
        assert(world@.fuels == Seq::<Fuel>::empty());
        assert(world@.bullets == Seq::<Bullet>::empty());
        world
    }

    /// The number of lines.
    pub fn max_l(&self) -> (maxl: u16)
        ensures
            maxl == self@.maxl,
    {
        self.maxl
    }

    /// The number of columns.
    pub fn max_c(&self) -> (maxc: u16)
        ensures
            maxc == self@.maxc,
    {
        self.maxc
    }

    /// The enemies, oldest first.
    pub fn enemies(&self) -> (enemies: &Vec<Enemy>)
        ensures
            enemies@ == self@.enemies,
    {
        &self.enemies
    }

    /// Asks at `now` whether the timer under `key` has elapsed: `None`
    /// without such a timer. A timer that is found elapsed starts over if it
    /// repeats and is removed if not.
    pub fn timer_elapsed_at(&mut self, key: &str, now: u64) -> (report: Option<bool>)
        ensures
            report == timer_report(old(self)@.timers, key@, now),
            final(self)@ == (WorldView {
                timers: timers_after_query(old(self)@.timers, key@, now),
                ..old(self)@
            }),
    {
        let timer = match self.timers.get(key) {
            Some(timer) => *timer,
            None => {
                return None;
            },
        };
        if !timer.has_elapsed(now) {
            Some(false)
        } else {
            if timer.repeat {
                self.timers.insert(key.to_owned(), WorldTimer { instant: now, ..timer });
            } else {
                self.timers.remove(key);
            }
            Some(true)
        }
    }

    /// Asks whether the timer under `key` has elapsed by the present time:
    /// see [`World::timer_elapsed_at`].
    pub fn timer_elapsed(&mut self, key: &str) -> (report: Option<bool>)
        ensures
            exists|now: u64|
                {
                    &&& report == #[trigger] timer_report(old(self)@.timers, key@, now)
                    &&& final(self)@ == (WorldView {
                        timers: timers_after_query(old(self)@.timers, key@, now),
                        ..old(self)@
                    })
                },
    {
        let now: u64 = now_millis();
        self.timer_elapsed_at(key, now)
    }

    /// Resets the timer under `key` to start over at `now`: `None` without
    /// such a timer.
    pub fn reset_timer_at(&mut self, timer_key: &str, now: u64) -> (done: Option<bool>)
        ensures
            done == if old(self)@.timers.contains_key(timer_key@) {
                Some(true)
            } else {
                None
            },
            final(self)@ == (WorldView {
                timers: timers_after_reset(old(self)@.timers, timer_key@, now),
                ..old(self)@
            }),
    {
        let timer = match self.timers.get(timer_key) {
            Some(timer) => *timer,
            None => {
                return None;
            },
        };
        self.timers.insert(timer_key.to_owned(), WorldTimer { instant: now, ..timer });
        Some(true)
    }

    /// Resets the timer under `key` to start over at the present time: see
    /// [`World::reset_timer_at`].
    pub fn reset_timer(&mut self, timer_key: &str) -> (done: Option<bool>)
        ensures
            done == if old(self)@.timers.contains_key(timer_key@) {
                Some(true)
            } else {
                None
            },
            exists|now: u64|
                final(self)@ == (WorldView {
                    timers: #[trigger] timers_after_reset(old(self)@.timers, timer_key@, now),
                    ..old(self)@
                }),
    {
        let now: u64 = now_millis();
        self.reset_timer_at(timer_key, now)
    }

    /// Stages `event`: it joins the live handlers when the present tick is
    /// over.
    pub fn add_event_handler(&mut self, event: WorldEvent)
        ensures
            final(self)@ == old(self)@.staged(event@),
    {
        let ghost before = self.new_events@;
        self.new_events.push(event);
        assert(events_view(self.new_events@) == events_view(before).push(event@));
    }

    /// Registers `timer` under `key`, in place of any timer that was there,
    /// and stages the handler that brings `on_elapsed` when it is found
    /// elapsed.
    pub fn add_timer_as(&mut self, key: String, timer: WorldTimer, on_elapsed: Effect)
        ensures
            final(self)@ == old(self)@.timer_added(key@, timer, on_elapsed@),
    {
        let is_repeat = timer.repeat;
        let trigger = WorldEventTrigger::TimerElapsed(key.clone());
        self.timers.insert(key, timer);
        self.add_event_handler(WorldEvent::new(trigger, is_repeat, on_elapsed));
    }

    /// Registers `timer` under a key of its own: see [`World::add_timer_as`].
    pub fn add_timer(&mut self, timer: WorldTimer, on_elapsed: Effect)
        ensures
            exists|key: Seq<char>|
                final(self)@ == #[trigger] old(self)@.timer_added(key, timer, on_elapsed@),
    {
        let key = fresh_key();
        let ghost chars = key@;
        self.add_timer_as(key, timer, on_elapsed);
        assert(final(self)@ == old(self)@.timer_added(chars, timer, on_elapsed@));
    }

    /// Registers `drawing` under `key`, in place of any drawing that was
    /// there.
    pub fn add_drawing(&mut self, key: String, drawing: CustomDrawing)
        ensures
            final(self)@ == old(self)@.drawing_added(key@, drawing@),
    {
        self.custom_drawings.insert(key, drawing);
    }

    /// Removes the drawing under `key`, if there is one.
    pub fn clear_drawing(&mut self, key: &str)
        ensures
            final(self)@ == old(self)@.drawing_cleared(key@),
    {
        self.custom_drawings.remove(key);
    }

    /// A drawing is registered under `key`.
    pub fn has_drawing(&self, key: &str) -> (found: bool)
        ensures
            found == has_drawing(self@.custom_drawings, key@),
    {
        self.custom_drawings.contains_key(key)
    }

    /// The drawing of a popup: `message` centred on the middle line.
    pub fn popup(&self, message: &str, style: Option<Style>) -> (drawing: CustomDrawing)
        ensures
            drawing@ == popup_strokes(message@, style, self@.maxc, self@.maxl),
    {
        let length: usize = message.unicode_len();
        let width: u16 = if length <= self.maxc as usize {
            length as u16
        } else {
            self.maxc
        };
        let left: u16 = (self.maxc - width) / 2;
        let line: u16 = self.maxl / 2;
        let shown = match style {
            Some(s) => s,
            None => Style::plain(),
        };
        let ghost wide = popup_width(message@, self.maxc);
        let mut strokes: Vec<Stroke> = Vec::new();
        let mut i: u16 = 0;
        while i < width
            invariant
                i <= width,
                width == wide,
                wide == popup_width(message@, self.maxc),
                left == (self.maxc - width) / 2,
                line == self.maxl / 2,
                shown == crate::canvas::style_or_plain(style),
                strokes@ == popup_strokes_upto(
                    message@,
                    style,
                    self.maxc,
                    self.maxl,
                    wide,
                    i as nat,
                ),
            decreases width - i,
        {
            let symbol = message.get_char(i as usize);
            strokes.push(
                Stroke { location: Location { c: left + i, l: line }, symbol, style: shown },
            );
            i += 1;
        }
        CustomDrawing::new(strokes)
    }

    /// Puts up a popup with `message` at `now` for `duration` milliseconds.
    /// The popup is drawn under `drawing_key`; the timer under `timer_key`,
    /// when found elapsed, closes it and then brings `after`.
    pub fn temp_popup_as(
        &mut self,
        drawing_key: String,
        timer_key: String,
        now: u64,
        message: &str,
        duration: u64,
        after: Effect,
        style: Option<Style>,
    )
        ensures
            final(self)@ == old(self)@.popup_shown(
                drawing_key@,
                timer_key@,
                now,
                message@,
                duration,
                after@,
                style,
            ),
    {
        let drawing = self.popup(message, style);
        let closing = Effect::ClosePopup { drawing: drawing_key.clone(), after: Box::new(after) };
        self.add_drawing(drawing_key, drawing);
        self.add_timer_as(timer_key, WorldTimer::started_at(duration, false, now), closing);
    }

    /// Puts up a popup with `message` for `duration` milliseconds from the
    /// present time, under keys of its own: see [`World::temp_popup_as`].
    pub fn temp_popup(&mut self, message: &str, duration: u64, after: Effect, style: Option<Style>)
        ensures
            exists|drawing_key: Seq<char>, timer_key: Seq<char>, now: u64|
                final(self)@ == #[trigger] old(self)@.popup_shown(
                    drawing_key,
                    timer_key,
                    now,
                    message@,
                    duration,
                    after@,
                    style,
                ),
    {
        let drawing_key = fresh_key();
        let timer_key = fresh_key();
        let now: u64 = now_millis();
        let ghost drawn = drawing_key@;
        let ghost timed = timer_key@;
        self.temp_popup_as(drawing_key, timer_key, now, message, duration, after, style);
        assert(final(self)@ == old(self)@.popup_shown(
            drawn,
            timed,
            now,
            message@,
            duration,
            after@,
            style,
        ));
    }
}

} // verus!
