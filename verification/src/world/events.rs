use crate::entities::{
    Bullet, DeathCause, Enemy, EntityStatus, Fuel, Location, Player, PlayerStatus,
};
use crate::sources::random_in;
use crate::world::map::RiverView;
use crate::world::{World, WorldView, FULL_CHANCE};
use vstd::prelude::*;

verus! {

/// Points for an enemy that was shot down.
pub const ENEMY_POINTS: u64 = 10;

/// Points for a fuel pickup that was shot.
pub const FUEL_POINTS: u64 = 20;

/// Fuel that a pickup brings.
pub const FUEL_GAIN: u16 = 200;

/// `score` with `points` added, as far as the counter goes.
pub open spec fn raised(score: u64, points: nat) -> u64 {
    if score + points > u64::MAX {
        u64::MAX
    } else {
        (score + points) as u64
    }
}

/// A tank of `fuel` with `gain` added, as far as the gauge goes.
pub open spec fn refilled(fuel: u16, gain: nat) -> u16 {
    if fuel + gain > u16::MAX {
        u16::MAX
    } else {
        (fuel + gain) as u16
    }
}

/// `bullet` hits what stands at `target`: on the bullet's line, at most one
/// column to either side.
pub open spec fn bullet_reaches(bullet: Bullet, target: Location) -> bool {
    bullet.location.within_margin(target, 1, 0, 1, 0)
}

/// The number of `bullets` that hit what stands at `target`.
pub open spec fn hits_on(bullets: Seq<Bullet>, target: Location) -> nat
    decreases bullets.len(),
{
    if bullets.len() == 0 {
        0
    } else {
        hits_on(bullets.drop_last(), target) + if bullet_reaches(bullets.last(), target) {
            1nat
        } else {
            0nat
        }
    }
}

/// Counts [`hits_on`].
pub fn count_hits(bullets: &Vec<Bullet>, target: &Location) -> (hits: usize)
    ensures
        hits == hits_on(bullets@, *target),
{
    let count: usize = bullets.len();
    let mut hits: usize = 0;
    let mut i: usize = 0;
    while i < count
        invariant
            count == bullets@.len(),
            i <= count,
            hits <= i,
            hits == hits_on(bullets@.take(i as int), *target),
        decreases count - i,
    {
        assert(bullets@.take(i + 1).drop_last() == bullets@.take(i as int));
        if bullets[i].location.hit_with_margin(target, 1, 0, 1, 0) {
            hits += 1;
        }
        i += 1;
    }
    assert(bullets@.take(count as int) == bullets@);
    hits
}

// ---------------------------------------------------------------- player

impl WorldView {
    /// The world after the player's status was checked: off the river the
    /// player is dead by the ground, and on an empty tank dead by want of
    /// fuel, which overrides any other cause.
    pub open spec fn player_checked(self) -> WorldView {
        let borders = self.map.borders(self.player.location.l as int);
        let landed = if borders.spec_contains(self.player.location.c) {
            self.player.status
        } else {
            PlayerStatus::Dead(DeathCause::Ground)
        };
        let status = if self.player.fuel == 0 {
            PlayerStatus::Dead(DeathCause::Fuel)
        } else {
            landed
        };
        WorldView { player: Player { status, ..self.player }, ..self }
    }
}

/// Checks whether the player has left the river or run out of fuel.
pub fn check_player_status(world: &mut World)
    ensures
        final(world)@ == old(world)@.player_checked(),
{
    let player_line: usize = world.player.location.l as usize;
    let river_border = world.map.river_borders_index(player_line);
    if !river_border.contains(world.player.location.c) {
        world.player.status = PlayerStatus::Dead(DeathCause::Ground);
    }
    if world.player.fuel == 0 {
        world.player.status = PlayerStatus::Dead(DeathCause::Fuel);
    }
}

// --------------------------------------------------------------- enemies

/// An enemy falls on this tick: it is alive, is hit, and the hits use up its
/// armor.
pub open spec fn enemy_falls(enemy: Enemy, hits: nat) -> bool {
    enemy.status == EntityStatus::Alive && hits >= 1 && hits >= enemy.armor
}

/// An enemy one status check later, `hits` bullets having hit it. A living
/// enemy loses one armor for each hit and becomes a wreck when it falls; a
/// wreck disappears; bullets do nothing to what is not alive.
pub open spec fn enemy_checked(enemy: Enemy, hits: nat) -> Enemy {
    if enemy.status == EntityStatus::Alive {
        if enemy_falls(enemy, hits) {
            Enemy { status: EntityStatus::DeadBody, armor: 0, ..enemy }
        } else {
            Enemy { armor: (enemy.armor - hits) as u16, ..enemy }
        }
    } else {
        Enemy { status: enemy.status.aged(), ..enemy }
    }
}

/// The enemies after a status check: the dead ones are gone, the others are
/// as [`enemy_checked`] has them, in the same order.
pub open spec fn enemies_checked(enemies: Seq<Enemy>, bullets: Seq<Bullet>) -> Seq<Enemy>
    decreases enemies.len(),
{
    if enemies.len() == 0 {
        Seq::empty()
    } else {
        let rest = enemies_checked(enemies.drop_last(), bullets);
        let last = enemies.last();
        if last.status == EntityStatus::Dead {
            rest
        } else {
            rest.push(enemy_checked(last, hits_on(bullets, last.location)))
        }
    }
}

/// The number of enemies that fall on this tick.
pub open spec fn enemies_fallen(enemies: Seq<Enemy>, bullets: Seq<Bullet>) -> nat
    decreases enemies.len(),
{
    if enemies.len() == 0 {
        0
    } else {
        enemies_fallen(enemies.drop_last(), bullets) + if enemy_falls(
            enemies.last(),
            hits_on(bullets, enemies.last().location),
        ) {
            1nat
        } else {
            0nat
        }
    }
}

/// A living enemy stands where the player is.
pub open spec fn enemy_collides(enemies: Seq<Enemy>, player: Location) -> bool
    decreases enemies.len(),
{
    if enemies.len() == 0 {
        false
    } else {
        enemy_collides(enemies.drop_last(), player) || (enemies.last().status
            == EntityStatus::Alive && player.overlaps(enemies.last().location))
    }
}

impl WorldView {
    /// The world after the enemies were checked: see [`enemies_checked`].
    /// The player dies of a collision with a living enemy, and each enemy
    /// that falls brings [`ENEMY_POINTS`], once.
    pub open spec fn enemies_checked(self) -> WorldView {
        WorldView {
            enemies: enemies_checked(self.enemies, self.bullets),
            player: Player {
                status: if enemy_collides(self.enemies, self.player.location) {
                    PlayerStatus::Dead(DeathCause::Enemy)
                } else {
                    self.player.status
                },
                score: raised(
                    self.player.score,
                    ENEMY_POINTS as nat * enemies_fallen(self.enemies, self.bullets),
                ),
                ..self.player
            },
            ..self
        }
    }
}

/// An enemy after a status check: computes [`enemy_checked`] and
/// [`enemy_falls`].
pub fn check_enemy(enemy: Enemy, hits: usize) -> (checked: (Enemy, bool))
    ensures
        checked.0 == enemy_checked(enemy, hits as nat),
        checked.1 == enemy_falls(enemy, hits as nat),
{
    match enemy.status {
        EntityStatus::Alive => {
            if hits >= 1 && hits >= enemy.armor as usize {
                (Enemy { status: EntityStatus::DeadBody, armor: 0, ..enemy }, true)
            } else {
                (Enemy { armor: enemy.armor - hits as u16, ..enemy }, false)
            }
        },
        EntityStatus::DeadBody => (Enemy { status: EntityStatus::Dead, ..enemy }, false),
        EntityStatus::Dead => (enemy, false),
    }
}

/// Checks what the enemies have hit and what has hit them.
pub fn check_enemy_status(world: &mut World)
    ensures
        final(world)@ == old(world)@.enemies_checked(),
{
    let ghost before = world@;
    let count: usize = world.enemies.len();
    let mut checked: Vec<Enemy> = Vec::new();
    let mut i: usize = 0;
    while i < count
        invariant
            count == before.enemies.len(),
            i <= count,
            checked@ == enemies_checked(before.enemies.take(i as int), before.bullets),
            world@ == (WorldView {
                player: Player {
                    status: if enemy_collides(
                        before.enemies.take(i as int),
                        before.player.location,
                    ) {
                        PlayerStatus::Dead(DeathCause::Enemy)
                    } else {
                        before.player.status
                    },
                    score: raised(
                        before.player.score,
                        ENEMY_POINTS as nat * enemies_fallen(
                            before.enemies.take(i as int),
                            before.bullets,
                        ),
                    ),
                    ..before.player
                },
                ..before
            }),
        decreases count - i,
    {
        assert(before.enemies.take(i + 1).drop_last() == before.enemies.take(i as int));
        let enemy = world.enemies[i];
        if enemy.status.is_alive() && world.player.location.hit(&enemy.location) {
            world.player.status = PlayerStatus::Dead(DeathCause::Enemy);
        }
        if !enemy.status.is_dead() {
            let hits = count_hits(&world.bullets, &enemy.location);
            let (after, fallen) = check_enemy(enemy, hits);
            if fallen {
                world.player.score = world.player.score.saturating_add(ENEMY_POINTS);
            }
            checked.push(after);
        }
        i += 1;
    }
    assert(before.enemies.take(count as int) == before.enemies);
    world.enemies = checked;
}

// ----------------------------------------------------------------- fuels

/// The player picks the pickup up: it is alive and the player is on it.
pub open spec fn fuel_picked(fuel: Fuel, player: Location) -> bool {
    fuel.status == EntityStatus::Alive && player.overlaps(fuel.location)
}

/// The pickup is shot: it is alive, the player is not on it, and a bullet
/// hits it.
pub open spec fn fuel_shot(fuel: Fuel, player: Location, hits: nat) -> bool {
    fuel.status == EntityStatus::Alive && !player.overlaps(fuel.location) && hits >= 1
}

/// A pickup one status check later: picked up or shot it is used up, used up
/// it disappears.
pub open spec fn fuel_checked(fuel: Fuel, player: Location, hits: nat) -> Fuel {
    if fuel_picked(fuel, player) || fuel_shot(fuel, player, hits) {
        Fuel { status: EntityStatus::DeadBody, ..fuel }
    } else {
        Fuel { status: fuel.status.aged(), ..fuel }
    }
}

/// The pickups after a status check: the dead ones are gone, the others are
/// as [`fuel_checked`] has them, in the same order.
pub open spec fn fuels_checked(
    fuels: Seq<Fuel>,
    player: Location,
    bullets: Seq<Bullet>,
) -> Seq<Fuel>
    decreases fuels.len(),
{
    if fuels.len() == 0 {
        Seq::empty()
    } else {
        let rest = fuels_checked(fuels.drop_last(), player, bullets);
        let last = fuels.last();
        if last.status == EntityStatus::Dead {
            rest
        } else {
            rest.push(fuel_checked(last, player, hits_on(bullets, last.location)))
        }
    }
}

/// The number of pickups that the player picks up on this tick.
pub open spec fn fuels_picked(fuels: Seq<Fuel>, player: Location) -> nat
    decreases fuels.len(),
{
    if fuels.len() == 0 {
        0
    } else {
        fuels_picked(fuels.drop_last(), player) + if fuel_picked(fuels.last(), player) {
            1nat
        } else {
            0nat
        }
    }
}

/// The number of pickups that are shot on this tick.
pub open spec fn fuels_shot(fuels: Seq<Fuel>, player: Location, bullets: Seq<Bullet>) -> nat
    decreases fuels.len(),
{
    if fuels.len() == 0 {
        0
    } else {
        fuels_shot(fuels.drop_last(), player, bullets) + if fuel_shot(
            fuels.last(),
            player,
            hits_on(bullets, fuels.last().location),
        ) {
            1nat
        } else {
            0nat
        }
    }
}

impl WorldView {
    /// The world after the fuel pickups were checked: see [`fuels_checked`].
    /// Each pickup that the player picks up brings [`FUEL_GAIN`], each one
    /// that is shot brings [`FUEL_POINTS`]; no pickup brings both.
    pub open spec fn fuels_checked(self) -> WorldView {
        WorldView {
            fuels: fuels_checked(self.fuels, self.player.location, self.bullets),
            player: Player {
                fuel: refilled(
                    self.player.fuel,
                    FUEL_GAIN as nat * fuels_picked(self.fuels, self.player.location),
                ),
                score: raised(
                    self.player.score,
                    FUEL_POINTS as nat * fuels_shot(
                        self.fuels,
                        self.player.location,
                        self.bullets,
                    ),
                ),
                ..self.player
            },
            ..self
        }
    }
}

/// Checks which fuel pickups were picked up or shot.
pub fn check_fuel_status(world: &mut World)
    ensures
        final(world)@ == old(world)@.fuels_checked(),
{
    let ghost before = world@;
    let place = world.player.location;
    let count: usize = world.fuels.len();
    let mut checked: Vec<Fuel> = Vec::new();
    let mut i: usize = 0;
    while i < count
        invariant
            count == before.fuels.len(),
            i <= count,
            place == before.player.location,
            checked@ == fuels_checked(before.fuels.take(i as int), place, before.bullets),
            world@ == (WorldView {
                player: Player {
                    fuel: refilled(
                        before.player.fuel,
                        FUEL_GAIN as nat * fuels_picked(before.fuels.take(i as int), place),
                    ),
                    score: raised(
                        before.player.score,
                        FUEL_POINTS as nat * fuels_shot(
                            before.fuels.take(i as int),
                            place,
                            before.bullets,
                        ),
                    ),
                    ..before.player
                },
                ..before
            }),
        decreases count - i,
    {
        assert(before.fuels.take(i + 1).drop_last() == before.fuels.take(i as int));
        let fuel = world.fuels[i];
        match fuel.status {
            EntityStatus::Alive => {
                if place.hit(&fuel.location) {
                    world.player.fuel = world.player.fuel.saturating_add(FUEL_GAIN);
                    checked.push(Fuel { status: EntityStatus::DeadBody, ..fuel });
                } else if count_hits(&world.bullets, &fuel.location) >= 1 {
                    world.player.score = world.player.score.saturating_add(FUEL_POINTS);
                    checked.push(Fuel { status: EntityStatus::DeadBody, ..fuel });
                } else {
                    checked.push(fuel);
                }
            },
            EntityStatus::DeadBody => {
                checked.push(Fuel { status: EntityStatus::Dead, ..fuel });
            },
            EntityStatus::Dead => {},
        }
        i += 1;
    }
    assert(before.fuels.take(count as int) == before.fuels);
    world.fuels = checked;
}

// ------------------------------------------------------------- movement

/// The enemies one line further down; those that leave the `maxl` lines are
/// gone.
pub open spec fn enemies_moved(enemies: Seq<Enemy>, maxl: u16) -> Seq<Enemy>
    decreases enemies.len(),
{
    if enemies.len() == 0 {
        Seq::empty()
    } else {
        let rest = enemies_moved(enemies.drop_last(), maxl);
        let last = enemies.last();
        if last.location.l + 1 < maxl {
            rest.push(
                Enemy {
                    location: Location { l: (last.location.l + 1) as u16, ..last.location },
                    ..last
                },
            )
        } else {
            rest
        }
    }
}

/// The pickups one line further down; those that leave the `maxl` lines are
/// gone.
pub open spec fn fuels_moved(fuels: Seq<Fuel>, maxl: u16) -> Seq<Fuel>
    decreases fuels.len(),
{
    if fuels.len() == 0 {
        Seq::empty()
    } else {
        let rest = fuels_moved(fuels.drop_last(), maxl);
        let last = fuels.last();
        if last.location.l + 1 < maxl {
            rest.push(
                Fuel {
                    location: Location { l: (last.location.l + 1) as u16, ..last.location },
                    ..last
                },
            )
        } else {
            rest
        }
    }
}

/// A bullet one tick later, if it is still there: spent, or on one of the
/// top three lines, it is gone; else it flies two lines up on one unit of
/// energy, and is gone where it lands off the river.
pub open spec fn bullet_moved(bullet: Bullet, map: RiverView) -> Option<Bullet> {
    if bullet.energy == 0 || bullet.location.l <= 2 {
        None
    } else {
        let line = (bullet.location.l - 2) as u16;
        if map.borders(line as int).spec_contains(bullet.location.c) {
            Some(
                Bullet {
                    location: Location { l: line, ..bullet.location },
                    energy: (bullet.energy - 1) as u16,
                },
            )
        } else {
            None
        }
    }
}

/// The bullets one tick later, in the same order: see [`bullet_moved`].
pub open spec fn bullets_moved(bullets: Seq<Bullet>, map: RiverView) -> Seq<Bullet>
    decreases bullets.len(),
{
    if bullets.len() == 0 {
        Seq::empty()
    } else {
        let rest = bullets_moved(bullets.drop_last(), map);
        match bullet_moved(bullets.last(), map) {
            Some(bullet) => rest.push(bullet),
            None => rest,
        }
    }
}

impl WorldView {
    pub open spec fn enemies_moved(self) -> WorldView {
        WorldView { enemies: enemies_moved(self.enemies, self.maxl), ..self }
    }

    pub open spec fn fuels_moved(self) -> WorldView {
        WorldView { fuels: fuels_moved(self.fuels, self.maxl), ..self }
    }

    pub open spec fn bullets_moved(self) -> WorldView {
        WorldView { bullets: bullets_moved(self.bullets, self.map), ..self }
    }
}

/// Moves the enemies down the river.
pub fn move_enemies(world: &mut World)
    ensures
        final(world)@ == old(world)@.enemies_moved(),
{
    let ghost before = world@;
    let count: usize = world.enemies.len();
    let mut moved: Vec<Enemy> = Vec::new();
    let mut i: usize = 0;
    while i < count
        invariant
            count == before.enemies.len(),
            i <= count,
            world@ == before,
            moved@ == enemies_moved(before.enemies.take(i as int), before.maxl),
        decreases count - i,
    {
        assert(before.enemies.take(i + 1).drop_last() == before.enemies.take(i as int));
        let enemy = world.enemies[i];
        if enemy.location.l < u16::MAX && enemy.location.l + 1 < world.maxl {
            moved.push(
                Enemy { location: Location { l: enemy.location.l + 1, ..enemy.location }, ..enemy },
            );
        }
        i += 1;
    }
    assert(before.enemies.take(count as int) == before.enemies);
    world.enemies = moved;
}

/// Moves the fuel pickups down the river.
pub fn move_fuel(world: &mut World)
    ensures
        final(world)@ == old(world)@.fuels_moved(),
{
    let ghost before = world@;
    let count: usize = world.fuels.len();
    let mut moved: Vec<Fuel> = Vec::new();
    let mut i: usize = 0;
    while i < count
        invariant
            count == before.fuels.len(),
            i <= count,
            world@ == before,
            moved@ == fuels_moved(before.fuels.take(i as int), before.maxl),
        decreases count - i,
    {
        assert(before.fuels.take(i + 1).drop_last() == before.fuels.take(i as int));
        let fuel = world.fuels[i];
        if fuel.location.l < u16::MAX && fuel.location.l + 1 < world.maxl {
            moved.push(
                Fuel { location: Location { l: fuel.location.l + 1, ..fuel.location }, ..fuel },
            );
        }
        i += 1;
    }
    assert(before.fuels.take(count as int) == before.fuels);
    world.fuels = moved;
}

/// Moves the bullets up the river.
pub fn move_bullets(world: &mut World)
    ensures
        final(world)@ == old(world)@.bullets_moved(),
{
    let ghost before = world@;
    let count: usize = world.bullets.len();
    let mut moved: Vec<Bullet> = Vec::new();
    let mut i: usize = 0;
    while i < count
        invariant
            count == before.bullets.len(),
            i <= count,
            world@ == before,
            moved@ == bullets_moved(before.bullets.take(i as int), before.map),
        decreases count - i,
    {
        assert(before.bullets.take(i + 1).drop_last() == before.bullets.take(i as int));
        let bullet = world.bullets[i];
        if !(bullet.energy == 0 || bullet.location.l <= 2) {
            let line: u16 = bullet.location.l - 2;
            let river_border = world.map.river_borders_index(line as usize);
            if river_border.contains(bullet.location.c) {
                moved.push(
                    Bullet {
                        location: Location { l: line, ..bullet.location },
                        energy: bullet.energy - 1,
                    },
                );
            }
        }
        i += 1;
    }
    assert(before.bullets.take(count as int) == before.bullets);
    world.bullets = moved;
}

// ------------------------------------------------------------- spawning

/// A draw of `roll` thousandths wins against a chance of `probability`
/// thousandths.
pub open spec fn chance_won(roll: u16, probability: u16) -> bool {
    roll < probability
}

/// Decides [`chance_won`].
pub fn chance_hits(roll: u16, probability: u16) -> (won: bool)
    ensures
        won == chance_won(roll, probability),
{
    roll < probability
}

/// Tries a chance of `probability` thousandths: never won at `0`, always
/// from [`FULL_CHANCE`] on.
pub fn is_the_chance(probability: u16) -> (won: bool)
    ensures
        probability == 0 ==> !won,
        probability >= FULL_CHANCE ==> won,
{
    let mut rng = rand::thread_rng();
    let roll: u16 = random_in(&mut rng, 0, FULL_CHANCE);
    chance_hits(roll, probability)
}

impl WorldView {
    /// The world with a new enemy at the top of `column`.
    pub open spec fn enemy_spawned(self, column: u16) -> WorldView {
        WorldView {
            enemies: self.enemies.push(
                Enemy {
                    location: Location { c: column, l: 0 },
                    status: EntityStatus::Alive,
                    armor: self.enemies_armor,
                },
            ),
            ..self
        }
    }

    /// The world with a new fuel pickup at the top of `column`.
    pub open spec fn fuel_spawned(self, column: u16) -> WorldView {
        WorldView {
            fuels: self.fuels.push(
                Fuel { location: Location { c: column, l: 0 }, status: EntityStatus::Alive },
            ),
            ..self
        }
    }

    /// `after` is the world once an enemy has had its chance to appear:
    /// either nothing has changed, which a full chance on an open river
    /// rules out, or one enemy has appeared at the top, on the water, which
    /// takes a chance above none.
    pub open spec fn enemy_created(self, after: WorldView) -> bool {
        let borders = self.map.borders(0);
        let chance = self.enemy_spawn_probability.value;
        ||| after == self && (chance < FULL_CHANCE || borders.spec_is_empty())
        ||| chance > 0 && exists|column: u16|
            borders.spec_contains(column) && after == #[trigger] self.enemy_spawned(column)
    }

    /// `after` is the world once a fuel pickup has had its chance to appear:
    /// as [`WorldView::enemy_created`].
    pub open spec fn fuel_created(self, after: WorldView) -> bool {
        let borders = self.map.borders(0);
        let chance = self.fuel_spawn_probability.value;
        ||| after == self && (chance < FULL_CHANCE || borders.spec_is_empty())
        ||| chance > 0 && exists|column: u16|
            borders.spec_contains(column) && after == #[trigger] self.fuel_spawned(column)
    }
}

/// Puts a new enemy at the top of `column`.
pub fn spawn_enemy(world: &mut World, column: u16)
    ensures
        final(world)@ == old(world)@.enemy_spawned(column),
{
    world.enemies.push(Enemy::new((column, 0), world.enemies_armor));
}

/// Puts a new fuel pickup at the top of `column`.
pub fn spawn_fuel(world: &mut World, column: u16)
    ensures
        final(world)@ == old(world)@.fuel_spawned(column),
{
    world.fuels.push(Fuel::new((column, 0), EntityStatus::Alive));
}

/// Creates a new enemy, maybe: with the world's chance for it, somewhere on
/// the water of the top line.
pub fn create_enemy(world: &mut World)
    ensures
        old(world)@.enemy_created(final(world)@),
{
    let river_border = world.map.river_borders_index(0);
    if is_the_chance(world.enemy_spawn_probability.value) && !river_border.is_empty() {
        let column: u16 = random_in(&mut world.rng, river_border.start, river_border.end);
        spawn_enemy(world, column);
        assert(final(world)@ == old(world)@.enemy_spawned(column));
    }
}

/// Creates a new fuel pickup, maybe: with the world's chance for it,
/// somewhere on the water of the top line.
pub fn create_fuel(world: &mut World)
    ensures
        old(world)@.fuel_created(final(world)@),
{
    let river_border = world.map.river_borders_index(0);
    if is_the_chance(world.fuel_spawn_probability.value) && !river_border.is_empty() {
        let column: u16 = random_in(&mut world.rng, river_border.start, river_border.end);
        spawn_fuel(world, column);
        assert(final(world)@ == old(world)@.fuel_spawned(column));
    }
}

// ------------------------------------------------------ decay and score

impl WorldView {
    /// One unit of fuel less, but never less than none.
    pub open spec fn fuel_burnt(self) -> WorldView {
        WorldView {
            player: Player {
                fuel: if self.player.fuel >= 1 {
                    (self.player.fuel - 1) as u16
                } else {
                    0
                },
                ..self.player
            },
            ..self
        }
    }

    /// One more line flown.
    pub open spec fn traveled_on(self) -> WorldView {
        WorldView {
            player: Player { traveled: raised(self.player.traveled, 1), ..self.player },
            ..self
        }
    }

    /// One more second played.
    pub open spec fn second_counted(self) -> WorldView {
        WorldView {
            elapsed_time: if self.elapsed_time < usize::MAX {
                (self.elapsed_time + 1) as usize
            } else {
                self.elapsed_time
            },
            ..self
        }
    }

    /// `points` more on the score.
    pub open spec fn scored(self, points: u64) -> WorldView {
        WorldView {
            player: Player { score: raised(self.player.score, points as nat), ..self.player },
            ..self
        }
    }
}

/// Burns one unit of fuel; an empty tank stays empty.
pub fn burn_fuel(world: &mut World)
    ensures
        final(world)@ == old(world)@.fuel_burnt(),
        final(world)@.player.fuel == if old(world)@.player.fuel - 1 >= 0 {
            old(world)@.player.fuel - 1
        } else {
            0
        },
{
    if world.player.fuel >= 1 {
        world.player.fuel -= 1;
    }
}

/// Counts one more line flown.
pub fn travel(world: &mut World)
    ensures
        final(world)@ == old(world)@.traveled_on(),
{
    world.player.traveled = world.player.traveled.saturating_add(1);
}

/// Counts one more second played.
pub fn count_second(world: &mut World)
    ensures
        final(world)@ == old(world)@.second_counted(),
{
    if world.elapsed_time < usize::MAX {
        world.elapsed_time += 1;
    }
}

/// Adds `points` to the score.
pub fn add_score(world: &mut World, points: u64)
    ensures
        final(world)@ == old(world)@.scored(points),
{
    world.player.score = world.player.score.saturating_add(points);
}

// ------------------------------------------------------------ in other words

/// The player collides exactly when some living enemy stands where the
/// player is.
pub proof fn collision_is_an_overlap(enemies: Seq<Enemy>, player: Location)
    ensures
        enemy_collides(enemies, player) <==> exists|i: int|
            0 <= i < enemies.len() && (#[trigger] enemies[i]).status == EntityStatus::Alive
                && player.overlaps(enemies[i].location),
    decreases enemies.len(),
{
    if enemies.len() > 0 {
        let rest = enemies.drop_last();
        collision_is_an_overlap(rest, player);
        if enemy_collides(enemies, player) {
            if enemy_collides(rest, player) {
                let i = choose|i: int|
                    0 <= i < rest.len() && (#[trigger] rest[i]).status == EntityStatus::Alive
                        && player.overlaps(rest[i].location);
                assert(enemies[i] == rest[i]);
            } else {
                assert(enemies[enemies.len() - 1] == enemies.last());
            }
        }
        if exists|i: int|
            0 <= i < enemies.len() && (#[trigger] enemies[i]).status == EntityStatus::Alive
                && player.overlaps(enemies[i].location) {
            let i = choose|i: int|
                0 <= i < enemies.len() && (#[trigger] enemies[i]).status == EntityStatus::Alive
                    && player.overlaps(enemies[i].location);
            if i < rest.len() {
                assert(rest[i] == enemies[i]);
            }
        }
    }
}

/// There are no more hits than bullets, and there is none exactly when no
/// bullet reaches the target.
pub proof fn hits_are_bullets_in_reach(bullets: Seq<Bullet>, target: Location)
    ensures
        hits_on(bullets, target) <= bullets.len(),
        hits_on(bullets, target) == 0 <==> forall|i: int|
            0 <= i < bullets.len() ==> !bullet_reaches(#[trigger] bullets[i], target),
    decreases bullets.len(),
{
    if bullets.len() > 0 {
        let rest = bullets.drop_last();
        hits_are_bullets_in_reach(rest, target);
        if hits_on(bullets, target) == 0 {
            assert forall|i: int| 0 <= i < bullets.len() implies !bullet_reaches(
                #[trigger] bullets[i],
                target,
            ) by {
                if i < rest.len() {
                    assert(rest[i] == bullets[i]);
                }
            }
        }
        if forall|i: int| 0 <= i < bullets.len() ==> !bullet_reaches(#[trigger] bullets[i], target) {
            assert forall|i: int| 0 <= i < rest.len() implies !bullet_reaches(
                #[trigger] rest[i],
                target,
            ) by {
                assert(rest[i] == bullets[i]);
            }
            assert(!bullet_reaches(bullets[bullets.len() - 1], target));
        }
    }
}

// ------------------------------------------------------------ life cycle

/// The enemies of a list that are not dead, in the same order.
pub open spec fn surviving_enemies(enemies: Seq<Enemy>) -> Seq<Enemy>
    decreases enemies.len(),
{
    if enemies.len() == 0 {
        Seq::empty()
    } else if enemies.last().status == EntityStatus::Dead {
        surviving_enemies(enemies.drop_last())
    } else {
        surviving_enemies(enemies.drop_last()).push(enemies.last())
    }
}

/// The fuel pickups of a list that are not dead, in the same order.
pub open spec fn surviving_fuels(fuels: Seq<Fuel>) -> Seq<Fuel>
    decreases fuels.len(),
{
    if fuels.len() == 0 {
        Seq::empty()
    } else if fuels.last().status == EntityStatus::Dead {
        surviving_fuels(fuels.drop_last())
    } else {
        surviving_fuels(fuels.drop_last()).push(fuels.last())
    }
}

/// A status check moves an enemy forward in its life cycle by at most one
/// step and never backward; a wreck always disappears; the enemy stays where
/// it is and gains no armor.
pub proof fn enemy_status_moves_forward(enemy: Enemy, hits: nat)
    ensures
        enemy_checked(enemy, hits).status.rank() >= enemy.status.rank(),
        enemy_checked(enemy, hits).status.rank() <= enemy.status.rank() + 1,
        enemy.status == EntityStatus::DeadBody ==> enemy_checked(enemy, hits).status
            == EntityStatus::Dead,
        enemy_checked(enemy, hits).status == EntityStatus::DeadBody <==> enemy_falls(enemy, hits),
        enemy_checked(enemy, hits).location == enemy.location,
        enemy_checked(enemy, hits).armor <= enemy.armor,
{
}

/// A status check moves a fuel pickup forward in its life cycle by at most
/// one step and never backward; a used pickup always disappears; picking up
/// and shooting exclude each other.
pub proof fn fuel_status_moves_forward(fuel: Fuel, player: Location, hits: nat)
    ensures
        fuel_checked(fuel, player, hits).status.rank() >= fuel.status.rank(),
        fuel_checked(fuel, player, hits).status.rank() <= fuel.status.rank() + 1,
        fuel.status == EntityStatus::DeadBody ==> fuel_checked(fuel, player, hits).status
            == EntityStatus::Dead,
        fuel_checked(fuel, player, hits).status == EntityStatus::DeadBody <==> (fuel_picked(
            fuel,
            player,
        ) || fuel_shot(fuel, player, hits)),
        !(fuel_picked(fuel, player) && fuel_shot(fuel, player, hits)),
        fuel_checked(fuel, player, hits).location == fuel.location,
{
}

/// After a status check the enemies are the survivors of before, one for
/// one and in their order, each a step further in its life cycle or where
/// it was: no dead enemy stays, and none comes back.
pub proof fn checked_enemies_are_the_survivors(enemies: Seq<Enemy>, bullets: Seq<Bullet>)
    ensures
        enemies_checked(enemies, bullets).len() == surviving_enemies(enemies).len(),
        surviving_enemies(enemies).len() <= enemies.len(),
        forall|k: int|
            #![trigger enemies_checked(enemies, bullets)[k]]
            0 <= k < surviving_enemies(enemies).len() ==> {
                let was = surviving_enemies(enemies)[k];
                let is = enemies_checked(enemies, bullets)[k];
                &&& was.status != EntityStatus::Dead
                &&& is == enemy_checked(was, hits_on(bullets, was.location))
                &&& is.status.rank() >= was.status.rank()
                &&& is.status != EntityStatus::Alive ==> is.status.rank() == was.status.rank() + 1
            },
    decreases enemies.len(),
{
    if enemies.len() > 0 {
        checked_enemies_are_the_survivors(enemies.drop_last(), bullets);
    }
}

/// After a status check the fuel pickups are the survivors of before, one
/// for one and in their order, each a step further in its life cycle or
/// where it was: no dead pickup stays, and none comes back.
pub proof fn checked_fuels_are_the_survivors(
    fuels: Seq<Fuel>,
    player: Location,
    bullets: Seq<Bullet>,
)
    ensures
        fuels_checked(fuels, player, bullets).len() == surviving_fuels(fuels).len(),
        surviving_fuels(fuels).len() <= fuels.len(),
        forall|k: int|
            #![trigger fuels_checked(fuels, player, bullets)[k]]
            0 <= k < surviving_fuels(fuels).len() ==> {
                let was = surviving_fuels(fuels)[k];
                let is = fuels_checked(fuels, player, bullets)[k];
                &&& was.status != EntityStatus::Dead
                &&& is == fuel_checked(was, player, hits_on(bullets, was.location))
                &&& is.status.rank() >= was.status.rank()
                &&& is.status != EntityStatus::Alive ==> is.status.rank() == was.status.rank() + 1
            },
    decreases fuels.len(),
{
    if fuels.len() > 0 {
        checked_fuels_are_the_survivors(fuels.drop_last(), player, bullets);
    }
}

/// Moving changes no status: each enemy after the move is an enemy of
/// before, one line further down.
pub proof fn moved_enemies_keep_their_status(enemies: Seq<Enemy>, maxl: u16)
    ensures
        enemies_moved(enemies, maxl).len() <= enemies.len(),
        forall|k: int|
            #![trigger enemies_moved(enemies, maxl)[k]]
            0 <= k < enemies_moved(enemies, maxl).len() ==> exists|j: int|
                0 <= j < enemies.len() && enemies_moved(enemies, maxl)[k] == (Enemy {
                    location: Location {
                        l: ((#[trigger] enemies[j]).location.l + 1) as u16,
                        ..enemies[j].location
                    },
                    ..enemies[j]
                }) && enemies[j].location.l + 1 < maxl,
    decreases enemies.len(),
{
    if enemies.len() > 0 {
        let rest = enemies.drop_last();
        moved_enemies_keep_their_status(rest, maxl);
        let moved = enemies_moved(enemies, maxl);
        let before = enemies_moved(rest, maxl);
        assert forall|k: int| #![trigger moved[k]] 0 <= k < moved.len() implies exists|j: int|
            0 <= j < enemies.len() && moved[k] == (Enemy {
                location: Location {
                    l: ((#[trigger] enemies[j]).location.l + 1) as u16,
                    ..enemies[j].location
                },
                ..enemies[j]
            }) && enemies[j].location.l + 1 < maxl by {
            if k < before.len() {
                assert(moved[k] == before[k]);
                let j = choose|j: int|
                    0 <= j < rest.len() && before[k] == (Enemy {
                        location: Location {
                            l: ((#[trigger] rest[j]).location.l + 1) as u16,
                            ..rest[j].location
                        },
                        ..rest[j]
                    }) && rest[j].location.l + 1 < maxl;
                assert(enemies[j] == rest[j]);
            } else {
                assert(enemies[enemies.len() - 1] == enemies.last());
            }
        }
    }
}

/// Moving changes no status: each fuel pickup after the move is a pickup of
/// before, one line further down.
pub proof fn moved_fuels_keep_their_status(fuels: Seq<Fuel>, maxl: u16)
    ensures
        fuels_moved(fuels, maxl).len() <= fuels.len(),
        forall|k: int|
            #![trigger fuels_moved(fuels, maxl)[k]]
            0 <= k < fuels_moved(fuels, maxl).len() ==> exists|j: int|
                0 <= j < fuels.len() && fuels_moved(fuels, maxl)[k] == (Fuel {
                    location: Location {
                        l: ((#[trigger] fuels[j]).location.l + 1) as u16,
                        ..fuels[j].location
                    },
                    ..fuels[j]
                }) && fuels[j].location.l + 1 < maxl,
    decreases fuels.len(),
{
    if fuels.len() > 0 {
        let rest = fuels.drop_last();
        moved_fuels_keep_their_status(rest, maxl);
        let moved = fuels_moved(fuels, maxl);
        let before = fuels_moved(rest, maxl);
        assert forall|k: int| #![trigger moved[k]] 0 <= k < moved.len() implies exists|j: int|
            0 <= j < fuels.len() && moved[k] == (Fuel {
                location: Location {
                    l: ((#[trigger] fuels[j]).location.l + 1) as u16,
                    ..fuels[j].location
                },
                ..fuels[j]
            }) && fuels[j].location.l + 1 < maxl by {
            if k < before.len() {
                assert(moved[k] == before[k]);
                let j = choose|j: int|
                    0 <= j < rest.len() && before[k] == (Fuel {
                        location: Location {
                            l: ((#[trigger] rest[j]).location.l + 1) as u16,
                            ..rest[j].location
                        },
                        ..rest[j]
                    }) && rest[j].location.l + 1 < maxl;
                assert(fuels[j] == rest[j]);
            } else {
                assert(fuels[fuels.len() - 1] == fuels.last());
            }
        }
    }
}

/// The points of a status check come from the enemies that fall on it, and
/// an enemy falls once: no more enemies fall than there are, whatever the
/// number of bullets, and one that has fallen does not fall again.
pub proof fn each_enemy_falls_once(
    enemies: Seq<Enemy>,
    bullets: Seq<Bullet>,
    enemy: Enemy,
    hits: nat,
    later_hits: nat,
)
    ensures
        enemies_fallen(enemies, bullets) <= enemies.len(),
        enemy_falls(enemy, hits) ==> !enemy_falls(enemy_checked(enemy, hits), later_hits),
        enemy.status != EntityStatus::Alive ==> !enemy_falls(enemy, hits),
    decreases enemies.len(),
{
    if enemies.len() > 0 {
        each_enemy_falls_once(enemies.drop_last(), bullets, enemy, hits, later_hits);
    }
}

} // verus!
