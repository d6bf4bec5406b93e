use crate::entities::PlayerStatus;
use crate::world::{World, WorldView};
use vstd::prelude::*;

verus! {

/// A number that a condition can read off the world.
#[derive(Clone, Copy, Debug, PartialEq, Eq, Structural)]
pub enum Quantity {
    Score,
    Fuel,
    Traveled,
    ElapsedTime,
    ElapsedLoops,
    Enemies,
    Fuels,
    Bullets,
}

impl Quantity {
    /// The number as the world has it.
    pub open spec fn of(self, world: WorldView) -> int {
        match self {
            Quantity::Score => world.player.score as int,
            Quantity::Fuel => world.player.fuel as int,
            Quantity::Traveled => world.player.traveled as int,
            Quantity::ElapsedTime => world.elapsed_time as int,
            Quantity::ElapsedLoops => world.elapsed_loops as int,
            Quantity::Enemies => world.enemies.len() as int,
            Quantity::Fuels => world.fuels.len() as int,
            Quantity::Bullets => world.bullets.len() as int,
        }
    }

    /// Reads the number off `world`.
    pub fn read(&self, world: &World) -> (value: u64)
        ensures
            value == self.of(world@),
    {
        match self {
            Quantity::Score => world.player.score,
            Quantity::Fuel => world.player.fuel as u64,
            Quantity::Traveled => world.player.traveled,
            Quantity::ElapsedTime => world.elapsed_time as u64,
            Quantity::ElapsedLoops => world.elapsed_loops as u64,
            Quantity::Enemies => world.enemies.len() as u64,
            Quantity::Fuels => world.fuels.len() as u64,
            Quantity::Bullets => world.bullets.len() as u64,
        }
    }
}

/// A condition on the world that a handler can be made to wait for. It reads
/// the world and never changes it.
#[derive(Debug)]
pub enum WorldCondition {
    /// The quantity has reached the bound.
    AtLeast(Quantity, u64),
    /// The quantity has not passed the bound.
    AtMost(Quantity, u64),
    /// The player is alive.
    PlayerAlive,
    /// The condition inside does not hold.
    Not(Box<WorldCondition>),
    /// Both conditions hold.
    Both(Box<WorldCondition>, Box<WorldCondition>),
    /// At least one of the two holds.
    Either(Box<WorldCondition>, Box<WorldCondition>),
}

impl WorldCondition {
    /// The condition holds of `world`.
    pub open spec fn holds(self, world: WorldView) -> bool
        decreases self,
    {
        match self {
            WorldCondition::AtLeast(quantity, bound) => quantity.of(world) >= bound,
            WorldCondition::AtMost(quantity, bound) => quantity.of(world) <= bound,
            WorldCondition::PlayerAlive => world.player.status == PlayerStatus::Alive,
            WorldCondition::Not(inner) => !inner.holds(world),
            WorldCondition::Both(left, right) => left.holds(world) && right.holds(world),
            WorldCondition::Either(left, right) => left.holds(world) || right.holds(world),
        }
    }

    /// Decides the condition on `world`.
    pub fn check(&self, world: &World) -> (held: bool)
        ensures
            held == self.holds(world@),
        decreases self,
    {
        match self {
            WorldCondition::AtLeast(quantity, bound) => quantity.read(world) >= *bound,
            WorldCondition::AtMost(quantity, bound) => quantity.read(world) <= *bound,
            WorldCondition::PlayerAlive => world.player.is_alive(),
            WorldCondition::Not(inner) => !inner.check(world),
            WorldCondition::Both(left, right) => left.check(world) && right.check(world),
            WorldCondition::Either(left, right) => left.check(world) || right.check(world),
        }
    }
}

} // verus!
