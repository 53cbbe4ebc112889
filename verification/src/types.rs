use vstd::prelude::*;

verus! {

/// Status of the current game session.
#[derive(Clone, Copy, PartialEq, Eq, Debug, Structural)]
pub enum GameStatus {
    /// The game is waiting to be started.
    NotStarted,
    /// The gameplay loop is actively running.
    Playing,
    /// The player has lost (either due to player shield or planet shield depletion).
    Lost,
}

/// Category of threat spawned from the top of the grid.
#[derive(Clone, Copy, PartialEq, Eq, Debug, Structural)]
pub enum ThreatType {
    /// Heavy rocks that cause planet shield damage if they bypass the player.
    Asteroid,
    /// Fast moving scout ships that shoot back.
    Scout,
    /// Enemy projectiles fired by scout ships or the boss.
    Bullet,
}

/// How far the fire button has been charged, as read off the charge gauge.
#[derive(Clone, Copy, PartialEq, Eq, Debug, Structural)]
pub enum ChargeTier {
    /// Below one full unit of charge: a tap.
    Low,
    /// At least one unit of charge, short of the maximum.
    Medium,
    /// The gauge is at its maximum of two units.
    Full,
}

/// What the player's weapon fires when the fire button is released.
#[derive(Clone, Copy, PartialEq, Eq, Debug, Structural)]
pub enum Shot {
    /// A rapid basic laser from the ship's nose.
    Basic,
    /// A heavy charged projectile that pierces through enemies.
    Piercing,
    /// The vertical beam that disintegrates everything in its column.
    Beam,
}

/// What happened to the falling power-up during one tick.
#[derive(Clone, Copy, PartialEq, Eq, Debug, Structural)]
pub enum PowerupEvent {
    /// No power-up is on the board and none appeared.
    Idle,
    /// The power-up keeps falling.
    Falling,
    /// The power-up fell past the bottom edge and is gone.
    Missed,
    /// The player caught a shield power-up.
    ShieldRepaired,
    /// The player caught a drone power-up.
    DronesDeployed,
    /// A new power-up appeared at the top of the board.
    Spawned,
}

/// Where a threat stands relative to the player and the bottom edge,
/// after it has moved this tick.
#[derive(Clone, Copy, PartialEq, Eq, Debug, Structural)]
pub struct ThreatContact {
    /// The kind of the threat.
    pub kind: ThreatType,
    /// The threat overlaps the player's ship.
    pub at_player: bool,
    /// The threat has reached the bottom edge of the board.
    pub past_bottom: bool,
}

/// What becomes of a threat in the collision phase.
#[derive(Clone, Copy, PartialEq, Eq, Debug, Structural)]
pub enum ThreatFate {
    /// The threat keeps flying.
    Flying,
    /// The threat hit the player's ship and is destroyed.
    StrikesPlayer,
    /// A scout that reached the bottom flies down again from the top.
    Wraps,
    /// An asteroid that reached the bottom hits the planet and is destroyed.
    ImpactsPlanet,
    /// A bullet that reached the bottom leaves the board.
    Leaves,
}

impl ThreatFate {
    /// Whether the threat leaves the board.
    pub open spec fn spec_leaves_board(self) -> bool {
        match self {
            ThreatFate::Flying | ThreatFate::Wraps => false,
            _ => true,
        }
    }

    /// Whether the threat leaves the board.
    #[verifier::when_used_as_spec(spec_leaves_board)]
    pub fn leaves_board(self) -> (gone: bool)
        ensures
            gone == self.spec_leaves_board(),
    {
        match self {
            ThreatFate::Flying | ThreatFate::Wraps => false,
            _ => true,
        }
    }
}

/// The face of the fire button.
#[derive(Clone, Copy, PartialEq, Eq, Debug, Structural)]
pub enum FireButton {
    /// Idle: press to fire.
    Fire,
    /// Held, charging below one unit.
    Charging,
    /// At least one unit of charge: release to fire a charged shot.
    Release,
}

/// The face of the fire button for the current charge state.
pub fn fire_button(is_charging: bool, fully_charged: bool) -> (face: FireButton)
    ensures
        face == (if fully_charged {
            FireButton::Release
        } else if is_charging {
            FireButton::Charging
        } else {
            FireButton::Fire
        }),
{
    if fully_charged {
        FireButton::Release
    } else if is_charging {
        FireButton::Charging
    } else {
        FireButton::Fire
    }
}

} // verus!
