//! The start menu: two buttons whose label, look and action follow the
//! pointer's interaction with them.

use vstd::prelude::*;
use crate::brightness::Color;

verus! {

/// What a menu button does when clicked.
#[derive(Clone, Copy, Debug, PartialEq, Eq, Structural)]
pub enum ButtonBehavior {
    Exit,
    Play,
}

/// The pointer's relation to a button.
#[derive(Clone, Copy, Debug, PartialEq, Eq, Structural)]
pub enum ButtonInteraction {
    Clicked,
    Hovered,
    Idle,
}

/// Which of the three button materials a button shows.
#[derive(Clone, Copy, Debug, PartialEq, Eq, Structural)]
pub enum ButtonLook {
    Normal,
    Hovered,
    Pressed,
}

/// What the application is asked to do.
#[derive(Clone, Copy, Debug, PartialEq, Eq, Structural)]
pub enum MenuAction {
    /// Switch to the game.
    StartGame,
    /// Quit the application.
    Exit,
}

/// How a button changes after an interaction.
#[derive(Clone, Copy, Debug)]
pub struct ButtonUpdate {
    pub label: &'static str,
    pub look: ButtonLook,
    pub action: Option<MenuAction>,
}

pub open spec fn label_text(b: ButtonBehavior, i: ButtonInteraction) -> Seq<char> {
    match (b, i) {
        (ButtonBehavior::Play, ButtonInteraction::Clicked) => "Loading..."@,
        (ButtonBehavior::Play, ButtonInteraction::Hovered) => "Start!"@,
        (ButtonBehavior::Play, ButtonInteraction::Idle) => "Ready?"@,
        (ButtonBehavior::Exit, ButtonInteraction::Clicked) => "Exiting..."@,
        (ButtonBehavior::Exit, ButtonInteraction::Hovered) => "Exit!"@,
        (ButtonBehavior::Exit, ButtonInteraction::Idle) => "Bored?"@,
    }
}

pub open spec fn look_of(i: ButtonInteraction) -> ButtonLook {
    match i {
        ButtonInteraction::Clicked => ButtonLook::Pressed,
        ButtonInteraction::Hovered => ButtonLook::Hovered,
        ButtonInteraction::Idle => ButtonLook::Normal,
    }
}

pub open spec fn action_of(b: ButtonBehavior, i: ButtonInteraction) -> Option<MenuAction> {
    match (b, i) {
        (ButtonBehavior::Play, ButtonInteraction::Clicked) => Some(MenuAction::StartGame),
        (ButtonBehavior::Exit, ButtonInteraction::Clicked) => Some(MenuAction::Exit),
        _ => None,
    }
}

/// A button's new label, look and requested action: a click starts the
/// game or quits, hovering and leaving only change label and look.
pub fn update_menu(behavior: ButtonBehavior, interaction: ButtonInteraction) -> (r: ButtonUpdate)
    ensures
        r.label@ == label_text(behavior, interaction),
        r.look == look_of(interaction),
        r.action == action_of(behavior, interaction),
{
    let look = match interaction {
        ButtonInteraction::Clicked => ButtonLook::Pressed,
        ButtonInteraction::Hovered => ButtonLook::Hovered,
        ButtonInteraction::Idle => ButtonLook::Normal,
    };
    match behavior {
        ButtonBehavior::Play => match interaction {
            ButtonInteraction::Clicked => ButtonUpdate {
                label: "Loading...",
                look,
                action: Some(MenuAction::StartGame),
            },
            ButtonInteraction::Hovered => ButtonUpdate { label: "Start!", look, action: None },
            ButtonInteraction::Idle => ButtonUpdate { label: "Ready?", look, action: None },
        },
        ButtonBehavior::Exit => match interaction {
            ButtonInteraction::Clicked => ButtonUpdate {
                label: "Exiting...",
                look,
                action: Some(MenuAction::Exit),
            },
            ButtonInteraction::Hovered => ButtonUpdate { label: "Exit!", look, action: None },
            ButtonInteraction::Idle => ButtonUpdate { label: "Bored?", look, action: None },
        },
    }
}

/// The color of each button material (opaque).
pub fn button_color(look: ButtonLook) -> (r: Color)
    ensures
        r == match look {
            ButtonLook::Normal => Color { r: 150, g: 150, b: 150, a: 1000 },
            ButtonLook::Hovered => Color { r: 250, g: 250, b: 250, a: 1000 },
            ButtonLook::Pressed => Color { r: 350, g: 750, b: 350, a: 1000 },
        },
{
    match look {
        ButtonLook::Normal => Color { r: 150, g: 150, b: 150, a: 1000 },
        ButtonLook::Hovered => Color { r: 250, g: 250, b: 250, a: 1000 },
        ButtonLook::Pressed => Color { r: 350, g: 750, b: 350, a: 1000 },
    }
}

} // verus!
