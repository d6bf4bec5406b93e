use vstd::prelude::*;

verus! {

/// A cell of the playing field: column `c`, line `l`. Lines grow downward,
/// toward the player.
#[derive(Clone, Copy, Debug, PartialEq, Eq, Structural)]
pub struct Location {
    pub c: u16,
    pub l: u16,
}

impl Location {
    pub fn new(c: u16, l: u16) -> (loc: Self)
        ensures
            loc == (Location { c, l }),
    {
        Location { c, l }
    }

    /// `other` lies in the box around `self` that reaches `left` columns to the
    /// left, `top` lines up, `right` columns to the right and `bottom` lines
    /// down.
    pub open spec fn within_margin(
        self,
        other: Location,
        left: u16,
        top: u16,
        right: u16,
        bottom: u16,
    ) -> bool {
        &&& self.c - left <= other.c <= self.c + right
        &&& self.l - top <= other.l <= self.l + bottom
    }

    /// The two locations are the same cell.
    pub open spec fn overlaps(self, other: Location) -> bool {
        self.within_margin(other, 0, 0, 0, 0)
    }

    /// Hit test with slack: see [`Location::within_margin`].
    pub fn hit_with_margin(
        &self,
        other: &Location,
        left: u16,
        top: u16,
        right: u16,
        bottom: u16,
    ) -> (hit: bool)
        ensures
            hit == self.within_margin(*other, left, top, right, bottom),
    {
        let c: u32 = self.c as u32;
        let l: u32 = self.l as u32;
        let oc: u32 = other.c as u32;
        let ol: u32 = other.l as u32;
        c <= oc + left as u32 && oc <= c + right as u32 && l <= ol + top as u32 && ol <= l
            + bottom as u32
    }

    /// Hit test without slack: both locations are the same cell.
    pub fn hit(&self, other: &Location) -> (hit: bool)
        ensures
            hit == self.overlaps(*other),
            hit == (*self == *other),
    {
        self.hit_with_margin(other, 0, 0, 0, 0)
    }
}

/// Life cycle of an enemy or a fuel pickup. It only ever moves forward:
/// `Alive`, then `DeadBody` for one tick, then `Dead`, then removal.
#[derive(Clone, Copy, Debug, PartialEq, Eq, Structural)]
pub enum EntityStatus {
    Alive,
    DeadBody,
    Dead,
}

impl EntityStatus {
    /// Position in the life cycle.
    pub open spec fn rank(self) -> nat {
        match self {
            EntityStatus::Alive => 0,
            EntityStatus::DeadBody => 1,
            EntityStatus::Dead => 2,
        }
    }

    /// The status one tick after `self` when nothing else happens: a wreck
    /// disappears, everything else stays.
    pub open spec fn aged(self) -> EntityStatus {
        match self {
            EntityStatus::DeadBody => EntityStatus::Dead,
            s => s,
        }
    }

    pub fn is_alive(&self) -> (b: bool)
        ensures
            b == (*self == EntityStatus::Alive),
    {
        match self {
            EntityStatus::Alive => true,
            _ => false,
        }
    }

    pub fn is_dead(&self) -> (b: bool)
        ensures
            b == (*self == EntityStatus::Dead),
    {
        match self {
            EntityStatus::Dead => true,
            _ => false,
        }
    }
}

/// What killed the player.
#[derive(Clone, Copy, Debug, PartialEq, Eq, Structural)]
pub enum DeathCause {
    /// Ran into an enemy.
    Enemy,
    /// Left the river.
    Ground,
    /// Ran out of fuel.
    Fuel,
}

#[derive(Clone, Copy, Debug, PartialEq, Eq, Structural)]
pub enum PlayerStatus {
    Alive,
    Dead(DeathCause),
}

/// The player's craft.
#[derive(Clone, Copy, Debug, PartialEq, Eq, Structural)]
pub struct Player {
    pub location: Location,
    pub status: PlayerStatus,
    /// What is left in the tank; the player dies at `0`.
    pub fuel: u16,
    pub score: u64,
    /// Lines flown so far.
    pub traveled: u64,
}

impl Player {
    /// A living player at `(column, line)` with a full tank of `fuel`.
    pub fn new(at: (u16, u16), fuel: u16) -> (p: Self)
        ensures
            p == (Player {
                location: Location { c: at.0, l: at.1 },
                status: PlayerStatus::Alive,
                fuel,
                score: 0,
                traveled: 0,
            }),
    {
        Player {
            location: Location { c: at.0, l: at.1 },
            status: PlayerStatus::Alive,
            fuel,
            score: 0,
            traveled: 0,
        }
    }

    pub fn is_alive(&self) -> (b: bool)
        ensures
            b == (self.status == PlayerStatus::Alive),
    {
        match self.status {
            PlayerStatus::Alive => true,
            PlayerStatus::Dead(_) => false,
        }
    }
}

#[derive(Clone, Copy, Debug, PartialEq, Eq, Structural)]
pub struct Enemy {
    pub location: Location,
    pub status: EntityStatus,
    /// Hits it can still take.
    pub armor: u16,
}

impl Enemy {
    /// A living enemy at `(column, line)`.
    pub fn new(at: (u16, u16), armor: u16) -> (e: Self)
        ensures
            e == (Enemy {
                location: Location { c: at.0, l: at.1 },
                status: EntityStatus::Alive,
                armor,
            }),
    {
        Enemy { location: Location { c: at.0, l: at.1 }, status: EntityStatus::Alive, armor }
    }
}

#[derive(Clone, Copy, Debug, PartialEq, Eq, Structural)]
pub struct Fuel {
    pub location: Location,
    pub status: EntityStatus,
}

impl Fuel {
    pub fn new(at: (u16, u16), status: EntityStatus) -> (f: Self)
        ensures
            f == (Fuel { location: Location { c: at.0, l: at.1 }, status }),
    {
        Fuel { location: Location { c: at.0, l: at.1 }, status }
    }
}

#[derive(Clone, Copy, Debug, PartialEq, Eq, Structural)]
pub struct Bullet {
    pub location: Location,
    /// Ticks it can still fly.
    pub energy: u16,
}

impl Bullet {
    pub fn new(at: (u16, u16), energy: u16) -> (b: Self)
        ensures
            b == (Bullet { location: Location { c: at.0, l: at.1 }, energy }),
    {
        Bullet { location: Location { c: at.0, l: at.1 }, energy }
    }
}

} // verus!
