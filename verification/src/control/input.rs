use vstd::prelude::*;

verus! {

/// What the player's keys do.
#[derive(Clone, Copy, Debug, PartialEq, Eq, Structural)]
pub enum PlayerAction {
    MoveLeft,
    MoveRight,
    MoveUp,
    MoveDown,
    Fire,
    FireMega,
    ChangeWeapon,
    Dash,
    Focus,
}

impl PlayerAction {
    /// Label of the action in the key settings.
    pub open spec fn label(self) -> Seq<char> {
        match self {
            PlayerAction::MoveLeft => "Move left"@,
            PlayerAction::MoveRight => "Move right"@,
            PlayerAction::MoveUp => "Move up"@,
            PlayerAction::MoveDown => "Move down"@,
            PlayerAction::Fire => "Fire"@,
            PlayerAction::FireMega => "Fire alt"@,
            PlayerAction::ChangeWeapon => "Change weapon"@,
            PlayerAction::Dash => "Dash"@,
            PlayerAction::Focus => "Focus mode"@,
        }
    }

    pub fn description(self) -> (d: &'static str)
        ensures
            d@ == self.label(),
    {
        match self {
            PlayerAction::MoveLeft => "Move left",
            PlayerAction::MoveRight => "Move right",
            PlayerAction::MoveUp => "Move up",
            PlayerAction::MoveDown => "Move down",
            PlayerAction::Fire => "Fire",
            PlayerAction::FireMega => "Fire alt",
            PlayerAction::ChangeWeapon => "Change weapon",
            PlayerAction::Dash => "Dash",
            PlayerAction::Focus => "Focus mode",
        }
    }
}

} // verus!
