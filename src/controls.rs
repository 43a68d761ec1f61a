use vstd::prelude::*;

use crate::image_queue::{Direction, TagFilter};
use crate::side_panel::SidePanelState;

verus! {

/// The screen on show.
#[derive(Debug, Clone, Copy, PartialEq, Eq, Structural)]
pub enum AppState {
    Menu,
    Tagging,
}

/// What keystrokes on the tagging screen do: tag and navigate, or wait while a label is typed.
#[derive(Debug, Clone, Copy, PartialEq, Eq, Structural)]
pub enum KeyboardState {
    Tagging,
    LabelInput,
}

/// The keys with a meaning of their own.
#[derive(Debug, Clone, Copy, PartialEq, Eq, Structural)]
pub enum Key {
    Escape,
    Left,
    Right,
    Delete,
    Q,
    O,
    R,
    C,
    Other,
}

/// What an input asks of the rest of the application.
#[derive(Debug, Clone, Copy, PartialEq, Eq, Structural)]
pub enum Command {
    Nothing,
    /// Move the selection of the queue.
    Navigate(Direction, TagFilter),
    /// Delete the selected image's file, and on success remove it from the queue.
    DeleteCurrent,
    /// Toggle a known tag key on the selected image.
    ToggleTag(char),
    /// Open the label field for a new tag key, and toggle that key on the selected image.
    NewTag(char),
    CycleOrganizeMode,
    RunOrganize,
    ClearLog,
    Quit,
}

/// The Unicode Alphabetic property of `c`.
pub uninterp spec fn alphabetic(c: char) -> bool;

/// Relies on char::is_alphabetic: whether `c` has the Unicode Alphabetic property.
#[verifier::external_body]
fn is_alphabetic(c: char) -> (r: bool)
    ensures
        r == alphabetic(c),
{
    c.is_alphabetic()
}

/// The screen and keyboard mode.
#[derive(Debug, Clone, Copy, PartialEq, Eq, Structural)]
pub struct Controls {
    pub app_state: AppState,
    pub keyboard_state: KeyboardState,
}

/// The controls and command after `key` is pressed.
pub open spec fn key_step(c: Controls, key: Key) -> (Controls, Command) {
    match c.app_state {
        AppState::Menu => match key {
            Key::Escape => (Controls { app_state: AppState::Tagging, ..c }, Command::Nothing),
            Key::Q => (c, Command::Quit),
            Key::O => (c, Command::CycleOrganizeMode),
            Key::R => (c, Command::RunOrganize),
            Key::C => (c, Command::ClearLog),
            _ => (c, Command::Nothing),
        },
        AppState::Tagging => match key {
            Key::Escape => (Controls { app_state: AppState::Menu, ..c }, Command::Nothing),
            _ => if c.keyboard_state == KeyboardState::LabelInput {
                (c, Command::Nothing)
            } else {
                match key {
                    Key::Left => (c, Command::Navigate(Direction::Backward, TagFilter::Any)),
                    Key::Right => (c, Command::Navigate(Direction::Forward, TagFilter::Any)),
                    Key::Delete => (c, Command::DeleteCurrent),
                    _ => (c, Command::Nothing),
                }
            },
        },
    }
}

/// The controls and command after the character `ch` is typed; `alpha` says whether it is
/// alphabetic and `known` whether it is a registered tag key.
pub open spec fn char_step(c: Controls, ch: char, alpha: bool, known: bool) -> (Controls, Command) {
    if c.app_state != AppState::Tagging || c.keyboard_state != KeyboardState::Tagging {
        (c, Command::Nothing)
    } else if alpha {
        if known {
            (c, Command::ToggleTag(ch))
        } else {
            (Controls { keyboard_state: KeyboardState::LabelInput, ..c }, Command::NewTag(ch))
        }
    } else {
        (
            c,
            match ch {
                '[' => Command::Navigate(Direction::Backward, TagFilter::Untagged),
                ']' => Command::Navigate(Direction::Forward, TagFilter::Untagged),
                '{' => Command::Navigate(Direction::Backward, TagFilter::Tagged),
                '}' => Command::Navigate(Direction::Forward, TagFilter::Tagged),
                _ => Command::Nothing,
            },
        )
    }
}

impl Controls {
    /// The menu on show, keystrokes tagging.
    pub fn new() -> (r: Controls)
        ensures
            r.app_state == AppState::Menu,
            r.keyboard_state == KeyboardState::Tagging,
    {
        Controls { app_state: AppState::Menu, keyboard_state: KeyboardState::Tagging }
    }

    /// Takes a key press: Escape switches screens; on the menu, Q, O, R and C ask to quit, cycle
    /// the organize mode, run it and clear the log; on the tagging screen, unless a label is being
    /// typed, the arrows move the selection and Delete deletes the selected image.
    pub fn key_pressed(&mut self, key: Key) -> (r: Command)
        ensures
            (*final(self), r) == key_step(*old(self), key),
    {
        match self.app_state {
            AppState::Menu => match key {
                Key::Escape => {
                    self.app_state = AppState::Tagging;
                    Command::Nothing
                },
                Key::Q => Command::Quit,
                Key::O => Command::CycleOrganizeMode,
                Key::R => Command::RunOrganize,
                Key::C => Command::ClearLog,
                _ => Command::Nothing,
            },
            AppState::Tagging => {
                if key == Key::Escape {
                    self.app_state = AppState::Menu;
                    return Command::Nothing;
                }
                if self.keyboard_state == KeyboardState::LabelInput {
                    return Command::Nothing;
                }
                match key {
                    Key::Left => Command::Navigate(Direction::Backward, TagFilter::Any),
                    Key::Right => Command::Navigate(Direction::Forward, TagFilter::Any),
                    Key::Delete => Command::DeleteCurrent,
                    _ => Command::Nothing,
                }
            },
        }
    }

    /// Takes a typed character whose alphabetic-ness and registration are given: on the tagging
    /// screen, an alphabetic character toggles its tag, first opening the label field where the
    /// key is new; the brackets jump to the nearest untagged (`[`, `]`) or tagged (`{`, `}`) image.
    pub fn character(&mut self, ch: char, alpha: bool, known: bool) -> (r: Command)
        ensures
            (*final(self), r) == char_step(*old(self), ch, alpha, known),
    {
        if self.app_state != AppState::Tagging || self.keyboard_state != KeyboardState::Tagging {
            return Command::Nothing;
        }
        if alpha {
            if known {
                Command::ToggleTag(ch)
            } else {
                self.keyboard_state = KeyboardState::LabelInput;
                Command::NewTag(ch)
            }
        } else {
            match ch {
                '[' => Command::Navigate(Direction::Backward, TagFilter::Untagged),
                ']' => Command::Navigate(Direction::Forward, TagFilter::Untagged),
                '{' => Command::Navigate(Direction::Backward, TagFilter::Tagged),
                '}' => Command::Navigate(Direction::Forward, TagFilter::Tagged),
                _ => Command::Nothing,
            }
        }
    }

    /// Takes a typed character, judging it against the registry.
    pub fn character_received(&mut self, ch: char, registry: &SidePanelState) -> (r: Command)
        ensures
            (*final(self), r) == char_step(*old(self), ch, alphabetic(ch), registry.label_of(ch) is Some),
    {
        let alpha = is_alphabetic(ch);
        let known = registry.contains(ch);
        self.character(ch, alpha, known)
    }

    /// The label field was submitted: keystrokes tag again.
    pub fn label_submitted(&mut self)
        ensures
            final(self).app_state == old(self).app_state,
            final(self).keyboard_state == KeyboardState::Tagging,
    {
        self.keyboard_state = KeyboardState::Tagging;
    }
}

} // verus!
