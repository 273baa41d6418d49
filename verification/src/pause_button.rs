//! The pause control: one button that toggles the animation clock and, while
//! the pointer is over it, suppresses mouse steering of the angle.
//!
//! The decision logic is here; painting the button is the rendering layer's
//! job, which reads back the fill to use and the caption to show.

use vstd::prelude::*;
use vstd::string::*;

use crate::entity::Paused;
use crate::entity::PauseButtonHovered;

verus! {

/// One interaction event on the pause control, as the UI reports it.
#[derive(Clone, Copy, PartialEq, Eq, Structural, Debug)]
pub enum ButtonInteraction {
    /// The button was clicked this frame.
    Clicked,
    /// The pointer is over the button without a click.
    Hovered,
    /// The pointer left the button.
    Idle,
}

/// Which of the three fill tints the button shows.
#[derive(Clone, Copy, PartialEq, Eq, Structural, Debug)]
pub enum ButtonFill {
    Normal,
    Hovered,
    Pressed,
}

/// Applies one interaction event to the pause state: a click toggles the
/// clock, hovering sets the hover flag, leaving clears it. Returns the fill
/// tint for the event and the caption matching the new pause state.
pub fn pause_button_system(
    paused: &mut Paused,
    hovered: &mut PauseButtonHovered,
    interaction: ButtonInteraction,
) -> (out: (ButtonFill, String))
    ensures
        interaction == ButtonInteraction::Clicked ==> final(paused).0 == !old(paused).0
            && *final(hovered) == *old(hovered) && out.0 == ButtonFill::Pressed,
        interaction == ButtonInteraction::Hovered ==> *final(paused) == *old(paused)
            && final(hovered).0 && out.0 == ButtonFill::Hovered,
        interaction == ButtonInteraction::Idle ==> *final(paused) == *old(paused)
            && !final(hovered).0 && out.0 == ButtonFill::Normal,
        final(paused).0 ==> out.1@ == "Resume"@,
        !final(paused).0 ==> out.1@ == "Pause"@,
{
    let fill = match interaction {
        ButtonInteraction::Clicked => {
            paused.0 = !paused.0;
            ButtonFill::Pressed
        },
        ButtonInteraction::Hovered => {
            hovered.0 = true;
            ButtonFill::Hovered
        },
        ButtonInteraction::Idle => {
            hovered.0 = false;
            ButtonFill::Normal
        },
    };
    let caption = if paused.0 {
        String::from_str("Resume")
    } else {
        String::from_str("Pause")
    };
    (fill, caption)
}

} // verus!
