//! How the buttons of a front end react to the pointer.

use vstd::prelude::*;

verus! {

/// What the pointer is doing to a button.
#[derive(Debug, Clone, Copy, PartialEq, Eq, Hash, Structural)]
pub enum Interaction {
    /// The button was pressed.
    Clicked,
    /// The pointer is over the button.
    Hovered,
    /// The pointer is elsewhere.
    Idle,
}

/// The three shades that a button can have.
#[derive(Debug, Clone, Copy, PartialEq, Eq, Hash, Structural)]
pub enum ButtonShade {
    Normal,
    Hovered,
    Pressed,
}

/// The shade of a button under `interaction`.
pub open spec fn shade_for(interaction: Interaction) -> ButtonShade {
    match interaction {
        Interaction::Clicked => ButtonShade::Pressed,
        Interaction::Hovered => ButtonShade::Hovered,
        Interaction::Idle => ButtonShade::Normal,
    }
}

impl ButtonShade {
    /// The red, green and blue parts of the shade, in hundredths of full
    /// intensity.
    pub open spec fn spec_rgb_percent(self) -> (u8, u8, u8) {
        match self {
            ButtonShade::Normal => (15, 15, 15),
            ButtonShade::Hovered => (25, 25, 25),
            ButtonShade::Pressed => (35, 75, 35),
        }
    }

    /// The red, green and blue parts of the shade, in hundredths of full
    /// intensity.
    #[verifier::when_used_as_spec(spec_rgb_percent)]
    pub fn rgb_percent(self) -> (rgb: (u8, u8, u8))
        ensures
            rgb == self.spec_rgb_percent(),
    {
        match self {
            ButtonShade::Normal => (15, 15, 15),
            ButtonShade::Hovered => (25, 25, 25),
            ButtonShade::Pressed => (35, 75, 35),
        }
    }
}

/// The user interface rules of the game, as the one unit that a front end
/// installs.
#[derive(Debug, Clone, Copy, PartialEq, Eq, Default)]
pub struct CustomUiPlugin;

impl CustomUiPlugin {
    /// The shade that a button gets under `interaction`.
    pub fn shade(&self, interaction: Interaction) -> (shade: ButtonShade)
        ensures
            shade == shade_for(interaction),
    {
        match interaction {
            Interaction::Clicked => ButtonShade::Pressed,
            Interaction::Hovered => ButtonShade::Hovered,
            Interaction::Idle => ButtonShade::Normal,
        }
    }
}

/// The new shade of each button whose interaction has changed, in the order
/// of `interactions`.
pub fn button_system(interactions: &Vec<Interaction>) -> (shades: Vec<ButtonShade>)
    ensures
        shades@ == interactions@.map_values(|interaction: Interaction| shade_for(interaction)),
{
    let plugin = CustomUiPlugin;
    let mut shades: Vec<ButtonShade> = Vec::new();
    let mut i: usize = 0;
    while i < interactions.len()
        invariant
            i <= interactions@.len(),
            shades@ == interactions@.take(i as int).map_values(
                |interaction: Interaction| shade_for(interaction),
            ),
        decreases interactions@.len() - i,
    {
        shades.push(plugin.shade(interactions[i]));
        i += 1;
        assert(shades@ =~= interactions@.take(i as int).map_values(
            |interaction: Interaction| shade_for(interaction),
        ));
    }
    assert(interactions@.take(i as int) =~= interactions@);
    shades
}

/// Whether one of the buttons was clicked.
pub fn button_is_clicked(interactions: &Vec<Interaction>) -> (clicked: bool)
    ensures
        clicked == interactions@.contains(Interaction::Clicked),
{
    let mut i: usize = 0;
    while i < interactions.len()
        invariant
            i <= interactions@.len(),
            forall|k: int| 0 <= k < i ==> interactions@[k] != Interaction::Clicked,
        decreases interactions@.len() - i,
    {
        if interactions[i] == Interaction::Clicked {
            return true;
        }
        i += 1;
    }
    false
}

} // verus!
