use river_raid::entities::{
    Bullet, DeathCause, Enemy, EntityStatus, Fuel, Location, Player, PlayerStatus,
};
use river_raid::world::events::{
    add_score, burn_fuel, chance_hits, check_enemy, check_enemy_status, check_fuel_status,
    check_player_status, count_hits, count_second, create_enemy, create_fuel, is_the_chance,
    move_bullets, move_enemies, move_fuel, spawn_enemy, spawn_fuel, travel,
};
use river_raid::world::map::Passage;
use river_raid::world::World;

fn open_world(maxc: u16, maxl: u16) -> World {
    let mut world = World::new(maxc, maxl);
    let mut line: u16 = 0;
    while line < maxl {
        world.map.scroll_to(Passage { start: 0, end: maxc });
        line += 1;
    }
    world
}

#[test]
fn location_hit_is_same_cell() {
    let a = Location::new(5, 7);
    assert!(a.hit(&Location::new(5, 7)));
    assert!(!a.hit(&Location::new(6, 7)));
    assert!(!a.hit(&Location::new(5, 8)));
}

#[test]
fn hit_margin_is_horizontal_only() {
    let bullet = Location::new(5, 7);
    assert!(bullet.hit_with_margin(&Location::new(4, 7), 1, 0, 1, 0));
    assert!(bullet.hit_with_margin(&Location::new(6, 7), 1, 0, 1, 0));
    assert!(bullet.hit_with_margin(&Location::new(5, 7), 1, 0, 1, 0));
    assert!(!bullet.hit_with_margin(&Location::new(3, 7), 1, 0, 1, 0));
    assert!(!bullet.hit_with_margin(&Location::new(7, 7), 1, 0, 1, 0));
    assert!(!bullet.hit_with_margin(&Location::new(5, 6), 1, 0, 1, 0));
    assert!(!bullet.hit_with_margin(&Location::new(5, 8), 1, 0, 1, 0));
}

#[test]
fn hit_margin_at_the_edges_of_the_field() {
    let corner = Location::new(0, 0);
    assert!(corner.hit_with_margin(&Location::new(1, 0), 1, 0, 1, 0));
    assert!(corner.hit_with_margin(&Location::new(0, 1), 65535, 65535, 65535, 65535));
    let far = Location::new(65535, 65535);
    assert!(far.hit_with_margin(&Location::new(65534, 65535), 1, 0, 1, 0));
    assert!(far.hit_with_margin(&Location::new(0, 0), 65535, 65535, 0, 0));
    assert!(!far.hit_with_margin(&Location::new(0, 0), 0, 0, 65535, 65535));
}

#[test]
fn count_hits_counts_each_bullet_in_reach() {
    let bullets = vec![
        Bullet::new((4, 3), 5),
        Bullet::new((5, 3), 5),
        Bullet::new((6, 3), 5),
        Bullet::new((7, 3), 5),
        Bullet::new((5, 2), 5),
    ];
    assert_eq!(count_hits(&bullets, &Location::new(5, 3)), 3);
    assert_eq!(count_hits(&bullets, &Location::new(20, 3)), 0);
    assert_eq!(count_hits(&Vec::new(), &Location::new(5, 3)), 0);
}

#[test]
fn check_enemy_follows_the_life_cycle() {
    let alive = Enemy::new((5, 3), 3);
    assert_eq!(check_enemy(alive, 0), (alive, false));
    assert_eq!(check_enemy(alive, 2), (Enemy { armor: 1, ..alive }, false));
    assert_eq!(
        check_enemy(alive, 3),
        (Enemy { armor: 0, status: EntityStatus::DeadBody, ..alive }, true)
    );
    assert_eq!(
        check_enemy(alive, 9),
        (Enemy { armor: 0, status: EntityStatus::DeadBody, ..alive }, true)
    );
    let wreck = Enemy { status: EntityStatus::DeadBody, ..alive };
    assert_eq!(check_enemy(wreck, 5), (Enemy { status: EntityStatus::Dead, ..alive }, false));
    let dead = Enemy { status: EntityStatus::Dead, ..alive };
    assert_eq!(check_enemy(dead, 5), (dead, false));
}

#[test]
fn enemy_without_armor_falls_on_the_first_hit_only() {
    let bare = Enemy::new((5, 3), 0);
    assert_eq!(check_enemy(bare, 0), (bare, false));
    assert_eq!(check_enemy(bare, 1), (Enemy { status: EntityStatus::DeadBody, ..bare }, true));
}

#[test]
fn enemy_hit_by_two_bullets_dies_once() {
    let mut world = open_world(40, 10);
    world.player.location = Location::new(0, 9);
    world.enemies.push(Enemy::new((10, 4), 2));
    world.bullets.push(Bullet::new((10, 4), 5));
    world.bullets.push(Bullet::new((11, 4), 5));
    check_enemy_status(&mut world);
    assert_eq!(world.enemies.len(), 1);
    assert_eq!(world.enemies[0].status, EntityStatus::DeadBody);
    assert_eq!(world.enemies[0].armor, 0);
    assert_eq!(world.player.score, 10);
    assert_eq!(world.player.status, PlayerStatus::Alive);
    check_enemy_status(&mut world);
    assert_eq!(world.enemies.len(), 1);
    assert_eq!(world.enemies[0].status, EntityStatus::Dead);
    assert_eq!(world.player.score, 10);
    check_enemy_status(&mut world);
    assert_eq!(world.enemies.len(), 0);
    assert_eq!(world.player.score, 10);
}

#[test]
fn enemy_with_armor_left_stays_alive() {
    let mut world = open_world(40, 10);
    world.player.location = Location::new(0, 9);
    world.enemies.push(Enemy::new((10, 4), 3));
    world.bullets.push(Bullet::new((10, 4), 5));
    world.bullets.push(Bullet::new((9, 4), 5));
    check_enemy_status(&mut world);
    assert_eq!(world.enemies[0], Enemy { armor: 1, ..Enemy::new((10, 4), 3) });
    assert_eq!(world.player.score, 0);
}

#[test]
fn several_enemies_are_scored_one_by_one() {
    let mut world = open_world(40, 10);
    world.player.location = Location::new(0, 9);
    world.enemies.push(Enemy::new((10, 4), 1));
    world.enemies.push(Enemy { status: EntityStatus::Dead, ..Enemy::new((3, 3), 1) });
    world.enemies.push(Enemy::new((20, 5), 1));
    world.enemies.push(Enemy::new((30, 6), 1));
    world.bullets.push(Bullet::new((10, 4), 5));
    world.bullets.push(Bullet::new((21, 5), 5));
    check_enemy_status(&mut world);
    assert_eq!(world.player.score, 20);
    assert_eq!(world.enemies.len(), 3);
    assert_eq!(world.enemies[0].status, EntityStatus::DeadBody);
    assert_eq!(world.enemies[1].status, EntityStatus::DeadBody);
    assert_eq!(world.enemies[2], Enemy::new((30, 6), 1));
    assert_eq!(world.enemies[0].location, Location::new(10, 4));
    assert_eq!(world.enemies[1].location, Location::new(20, 5));
}

#[test]
fn enemy_on_the_player_kills_the_player() {
    let mut world = open_world(40, 10);
    world.player.location = Location::new(7, 9);
    world.enemies.push(Enemy::new((7, 9), 1));
    check_enemy_status(&mut world);
    assert_eq!(world.player.status, PlayerStatus::Dead(DeathCause::Enemy));
    assert_eq!(world.enemies[0].status, EntityStatus::Alive);
}

#[test]
fn wreck_on_the_player_is_harmless() {
    let mut world = open_world(40, 10);
    world.player.location = Location::new(7, 9);
    world.enemies.push(Enemy { status: EntityStatus::DeadBody, ..Enemy::new((7, 9), 1) });
    check_enemy_status(&mut world);
    assert_eq!(world.player.status, PlayerStatus::Alive);
    assert_eq!(world.enemies[0].status, EntityStatus::Dead);
}

#[test]
fn bullets_do_nothing_to_a_wreck() {
    let mut world = open_world(40, 10);
    world.player.location = Location::new(0, 9);
    world.enemies.push(Enemy { status: EntityStatus::DeadBody, ..Enemy::new((10, 4), 1) });
    world.bullets.push(Bullet::new((10, 4), 5));
    check_enemy_status(&mut world);
    assert_eq!(world.enemies[0].status, EntityStatus::Dead);
    assert_eq!(world.enemies[0].armor, 1);
    assert_eq!(world.player.score, 0);
}

#[test]
fn score_stops_at_the_top_of_the_counter() {
    let mut world = open_world(40, 10);
    world.player.location = Location::new(0, 9);
    world.player.score = u64::MAX - 3;
    world.enemies.push(Enemy::new((10, 4), 1));
    world.bullets.push(Bullet::new((10, 4), 5));
    check_enemy_status(&mut world);
    assert_eq!(world.player.score, u64::MAX);
    add_score(&mut world, 10);
    assert_eq!(world.player.score, u64::MAX);
}

#[test]
fn fuel_touched_by_player_is_picked_up() {
    let mut world = open_world(40, 10);
    world.player.location = Location::new(7, 9);
    world.player.fuel = 300;
    world.fuels.push(Fuel::new((7, 9), EntityStatus::Alive));
    check_fuel_status(&mut world);
    assert_eq!(world.fuels.len(), 1);
    assert_eq!(world.fuels[0].status, EntityStatus::DeadBody);
    assert_eq!(world.player.fuel, 500);
    assert_eq!(world.player.score, 0);
    check_fuel_status(&mut world);
    assert_eq!(world.fuels[0].status, EntityStatus::Dead);
    assert_eq!(world.player.fuel, 500);
    check_fuel_status(&mut world);
    assert_eq!(world.fuels.len(), 0);
    assert_eq!(world.player.fuel, 500);
}

#[test]
fn fuel_touched_and_shot_counts_as_picked_up_only() {
    let mut world = open_world(40, 10);
    world.player.location = Location::new(7, 9);
    world.player.fuel = 300;
    world.fuels.push(Fuel::new((7, 9), EntityStatus::Alive));
    world.bullets.push(Bullet::new((7, 9), 5));
    world.bullets.push(Bullet::new((8, 9), 5));
    check_fuel_status(&mut world);
    assert_eq!(world.fuels[0].status, EntityStatus::DeadBody);
    assert_eq!(world.player.fuel, 500);
    assert_eq!(world.player.score, 0);
}

#[test]
fn fuel_shot_brings_points_once() {
    let mut world = open_world(40, 10);
    world.player.location = Location::new(0, 9);
    world.fuels.push(Fuel::new((7, 4), EntityStatus::Alive));
    world.bullets.push(Bullet::new((7, 4), 5));
    world.bullets.push(Bullet::new((6, 4), 5));
    check_fuel_status(&mut world);
    assert_eq!(world.fuels[0].status, EntityStatus::DeadBody);
    assert_eq!(world.player.score, 20);
    assert_eq!(world.player.fuel, 1700);
    check_fuel_status(&mut world);
    assert_eq!(world.fuels[0].status, EntityStatus::Dead);
    assert_eq!(world.player.score, 20);
}

#[test]
fn fuel_gauge_stops_at_the_top() {
    let mut world = open_world(40, 10);
    world.player.location = Location::new(7, 9);
    world.player.fuel = u16::MAX - 50;
    world.fuels.push(Fuel::new((7, 9), EntityStatus::Alive));
    check_fuel_status(&mut world);
    assert_eq!(world.player.fuel, u16::MAX);
}

#[test]
fn untouched_fuel_stays_alive() {
    let mut world = open_world(40, 10);
    world.player.location = Location::new(0, 9);
    world.fuels.push(Fuel::new((7, 4), EntityStatus::Alive));
    world.bullets.push(Bullet::new((7, 5), 5));
    check_fuel_status(&mut world);
    assert_eq!(world.fuels[0], Fuel::new((7, 4), EntityStatus::Alive));
    assert_eq!(world.player.score, 0);
}

#[test]
fn player_leaves_the_river_when_the_map_scrolls() {
    let mut world = World::new(40, 3);
    let column = world.player.location.c;
    assert_eq!(world.player.location, Location::new(20, 2));
    world.map.scroll_to(Passage { start: column - 2, end: column + 3 });
    world.map.scroll_to(Passage { start: column + 1, end: column + 6 });
    world.map.scroll_to(Passage { start: 0, end: 40 });
    assert_eq!(world.map.river_borders_index(2), Passage { start: 18, end: 23 });
    check_player_status(&mut world);
    assert_eq!(world.player.status, PlayerStatus::Alive);
    world.map.scroll_to(Passage { start: 0, end: 40 });
    assert_eq!(world.map.river_borders_index(2), Passage { start: 21, end: 26 });
    check_player_status(&mut world);
    assert_eq!(world.player.status, PlayerStatus::Dead(DeathCause::Ground));
}

#[test]
fn player_on_the_bank_columns() {
    let mut world = World::new(40, 1);
    world.map.scroll_to(Passage { start: 20, end: 21 });
    check_player_status(&mut world);
    assert_eq!(world.player.status, PlayerStatus::Alive);
    world.map.scroll_to(Passage { start: 19, end: 20 });
    check_player_status(&mut world);
    assert_eq!(world.player.status, PlayerStatus::Dead(DeathCause::Ground));
}

#[test]
fn empty_tank_kills_and_overrides_the_ground() {
    let mut world = World::new(40, 1);
    world.map.scroll_to(Passage { start: 0, end: 5 });
    world.player.fuel = 0;
    check_player_status(&mut world);
    assert_eq!(world.player.status, PlayerStatus::Dead(DeathCause::Fuel));
    let mut afloat = open_world(40, 5);
    afloat.player.fuel = 0;
    check_player_status(&mut afloat);
    assert_eq!(afloat.player.status, PlayerStatus::Dead(DeathCause::Fuel));
}

#[test]
fn dead_player_stays_dead() {
    let mut world = open_world(40, 5);
    world.player.status = PlayerStatus::Dead(DeathCause::Enemy);
    check_player_status(&mut world);
    assert_eq!(world.player.status, PlayerStatus::Dead(DeathCause::Enemy));
}

#[test]
fn player_off_the_map_is_on_the_ground() {
    let mut world = open_world(40, 5);
    world.player.location = Location::new(3, 9);
    check_player_status(&mut world);
    assert_eq!(world.player.status, PlayerStatus::Dead(DeathCause::Ground));
}

#[test]
fn fuel_burns_down_to_zero_and_stays() {
    let mut world = open_world(40, 5);
    world.player.fuel = 2;
    burn_fuel(&mut world);
    assert_eq!(world.player.fuel, 1);
    burn_fuel(&mut world);
    assert_eq!(world.player.fuel, 0);
    burn_fuel(&mut world);
    assert_eq!(world.player.fuel, 0);
}

#[test]
fn travel_counts_lines() {
    let mut world = open_world(40, 5);
    travel(&mut world);
    travel(&mut world);
    assert_eq!(world.player.traveled, 2);
    world.player.traveled = u64::MAX;
    travel(&mut world);
    assert_eq!(world.player.traveled, u64::MAX);
}

#[test]
fn seconds_are_counted() {
    let mut world = open_world(40, 5);
    count_second(&mut world);
    assert_eq!(world.elapsed_time, 1);
    world.elapsed_time = usize::MAX;
    count_second(&mut world);
    assert_eq!(world.elapsed_time, usize::MAX);
}

#[test]
fn enemies_move_down_and_leave_at_the_bottom() {
    let mut world = open_world(40, 10);
    world.enemies.push(Enemy::new((3, 0), 1));
    world.enemies.push(Enemy::new((4, 8), 1));
    world.enemies.push(Enemy { status: EntityStatus::DeadBody, ..Enemy::new((5, 7), 2) });
    world.enemies.push(Enemy::new((6, 9), 1));
    world.enemies.push(Enemy::new((7, 65535), 1));
    move_enemies(&mut world);
    assert_eq!(
        world.enemies,
        vec![
            Enemy::new((3, 1), 1),
            Enemy::new((4, 9), 1),
            Enemy { status: EntityStatus::DeadBody, ..Enemy::new((5, 8), 2) },
        ]
    );
}

#[test]
fn fuels_move_down_and_leave_at_the_bottom() {
    let mut world = open_world(40, 10);
    world.fuels.push(Fuel::new((3, 0), EntityStatus::Alive));
    world.fuels.push(Fuel::new((4, 8), EntityStatus::Dead));
    world.fuels.push(Fuel::new((6, 9), EntityStatus::Alive));
    move_fuel(&mut world);
    assert_eq!(
        world.fuels,
        vec![Fuel::new((3, 1), EntityStatus::Alive), Fuel::new((4, 9), EntityStatus::Dead)]
    );
    let mut tall = open_world(40, 65535);
    tall.fuels.push(Fuel::new((3, 65533), EntityStatus::Alive));
    tall.fuels.push(Fuel::new((3, 65534), EntityStatus::Alive));
    move_fuel(&mut tall);
    assert_eq!(tall.fuels, vec![Fuel::new((3, 65534), EntityStatus::Alive)]);
}

#[test]
fn bullets_fly_up_tire_and_leave() {
    let mut world = open_world(40, 10);
    world.bullets.push(Bullet::new((5, 9), 3));
    world.bullets.push(Bullet::new((6, 9), 0));
    world.bullets.push(Bullet::new((7, 2), 3));
    world.bullets.push(Bullet::new((8, 3), 1));
    world.bullets.push(Bullet::new((9, 1), 3));
    move_bullets(&mut world);
    assert_eq!(world.bullets, vec![Bullet::new((5, 7), 2), Bullet::new((8, 1), 0)]);
    move_bullets(&mut world);
    assert_eq!(world.bullets, vec![Bullet::new((5, 5), 1)]);
    move_bullets(&mut world);
    assert_eq!(world.bullets, vec![Bullet::new((5, 3), 0)]);
    move_bullets(&mut world);
    assert_eq!(world.bullets, Vec::new());
}

#[test]
fn bullet_off_the_river_is_lost() {
    let mut world = World::new(40, 4);
    world.map.scroll_to(Passage { start: 0, end: 40 });
    world.map.scroll_to(Passage { start: 0, end: 40 });
    world.map.scroll_to(Passage { start: 10, end: 12 });
    world.map.scroll_to(Passage { start: 0, end: 40 });
    world.bullets.push(Bullet::new((9, 3), 5));
    world.bullets.push(Bullet::new((10, 3), 5));
    world.bullets.push(Bullet::new((11, 3), 5));
    world.bullets.push(Bullet::new((12, 3), 5));
    world.bullets.push(Bullet::new((5, 9), 5));
    move_bullets(&mut world);
    assert_eq!(world.bullets, vec![Bullet::new((10, 1), 4), Bullet::new((11, 1), 4)]);
}

#[test]
fn chance_is_won_below_the_probability() {
    assert!(!chance_hits(0, 0));
    assert!(chance_hits(0, 1));
    assert!(chance_hits(99, 100));
    assert!(!chance_hits(100, 100));
    assert!(chance_hits(999, 1000));
}

#[test]
fn chance_of_none_never_wins_and_full_chance_always() {
    let mut tries = 0;
    while tries < 200 {
        assert!(!is_the_chance(0));
        assert!(is_the_chance(1000));
        assert!(is_the_chance(65535));
        tries += 1;
    }
}

#[test]
fn chance_in_between_wins_sometimes() {
    let mut won = 0;
    let mut tries = 0;
    while tries < 2000 {
        if is_the_chance(500) {
            won += 1;
        }
        tries += 1;
    }
    assert!(won > 500 && won < 1500);
}

#[test]
fn spawned_enemy_is_alive_at_the_top() {
    let mut world = open_world(40, 10);
    world.enemies_armor = 4;
    spawn_enemy(&mut world, 12);
    assert_eq!(world.enemies, vec![Enemy::new((12, 0), 4)]);
    spawn_fuel(&mut world, 13);
    assert_eq!(world.fuels, vec![Fuel::new((13, 0), EntityStatus::Alive)]);
}

#[test]
fn nothing_is_created_at_no_chance() {
    let mut world = open_world(40, 10);
    world.enemy_spawn_probability.set(0);
    world.fuel_spawn_probability.set(0);
    let mut tries = 0;
    while tries < 300 {
        create_enemy(&mut world);
        create_fuel(&mut world);
        tries += 1;
    }
    assert_eq!(world.enemies.len(), 0);
    assert_eq!(world.fuels.len(), 0);
}

#[test]
fn nothing_is_created_on_a_closed_river() {
    let mut world = World::new(40, 3);
    world.map.scroll_to(Passage { start: 7, end: 7 });
    world.enemy_spawn_probability.set(1000);
    world.fuel_spawn_probability.set(1000);
    create_enemy(&mut world);
    create_fuel(&mut world);
    world.map.scroll_to(Passage { start: 9, end: 3 });
    create_enemy(&mut world);
    create_fuel(&mut world);
    assert_eq!(world.enemies.len(), 0);
    assert_eq!(world.fuels.len(), 0);
}

#[test]
fn created_enemies_stand_on_the_water_of_the_top_line() {
    let mut world = World::new(40, 3);
    world.map.scroll_to(Passage { start: 10, end: 14 });
    world.enemy_spawn_probability.set(1000);
    world.fuel_spawn_probability.set(1000);
    world.enemies_armor = 2;
    let mut tries = 0;
    while tries < 300 {
        create_enemy(&mut world);
        create_fuel(&mut world);
        tries += 1;
    }
    assert_eq!(world.enemies.len(), 300);
    assert_eq!(world.fuels.len(), 300);
    let mut columns = Vec::new();
    for enemy in world.enemies.iter() {
        assert!(10 <= enemy.location.c && enemy.location.c < 14);
        assert_eq!(enemy.location.l, 0);
        assert_eq!(enemy.status, EntityStatus::Alive);
        assert_eq!(enemy.armor, 2);
        if !columns.contains(&enemy.location.c) {
            columns.push(enemy.location.c);
        }
    }
    assert!(columns.len() >= 2);
    for fuel in world.fuels.iter() {
        assert!(10 <= fuel.location.c && fuel.location.c < 14);
        assert_eq!(fuel.location.l, 0);
        assert_eq!(fuel.status, EntityStatus::Alive);
    }
}

#[test]
fn created_enemy_in_a_passage_of_one_column() {
    let mut world = World::new(40, 3);
    world.map.scroll_to(Passage { start: 39, end: 40 });
    world.enemy_spawn_probability.set(1000);
    create_enemy(&mut world);
    assert_eq!(world.enemies, vec![Enemy::new((39, 0), 1)]);
}

#[test]
fn new_player_is_alive_with_a_full_tank() {
    let player = Player::new((3, 4), 77);
    assert_eq!(
        player,
        Player {
            location: Location::new(3, 4),
            status: PlayerStatus::Alive,
            fuel: 77,
            score: 0,
            traveled: 0,
        }
    );
    assert!(player.is_alive());
    assert!(!Player { status: PlayerStatus::Dead(DeathCause::Fuel), ..player }.is_alive());
    assert!(EntityStatus::Alive.is_alive());
    assert!(!EntityStatus::DeadBody.is_alive());
    assert!(EntityStatus::Dead.is_dead());
    assert!(!EntityStatus::DeadBody.is_dead());
}
