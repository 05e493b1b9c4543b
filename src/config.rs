use vstd::prelude::*;
use crate::keys::same_text;

verus! {

/// The pointer button that the clicker presses.
#[derive(Debug, Clone, Copy, PartialEq, Eq, Structural)]
pub enum MouseButton {
    Left,
    Right,
    Middle,
}

/// How many clicks are emitted per cycle.
#[derive(Debug, Clone, Copy, PartialEq, Eq, Structural)]
pub enum ClickType {
    Single,
    Double,
}

/// Number of clicks that one cycle emits for a pattern.
pub open spec fn clicks_per_cycle(t: ClickType) -> nat {
    match t {
        ClickType::Single => 1,
        ClickType::Double => 2,
    }
}

impl ClickType {
    pub fn click_count(&self) -> (r: u64)
        ensures
            r as nat == clicks_per_cycle(*self),
    {
        match self {
            ClickType::Single => 1,
            ClickType::Double => 2,
        }
    }
}

/// Cadence, button and pattern of the clicker.
#[derive(Debug, Clone, Copy, PartialEq, Eq, Structural)]
pub struct ClickerConfig {
    pub interval_ms: u64,
    pub button: MouseButton,
    pub click_type: ClickType,
}

/// Milliseconds between clicks before any configuration is given.
pub const DEFAULT_INTERVAL_MS: u64 = 100;

/// The button named by `name`; an unknown name stands for the left button.
pub open spec fn button_for_name(name: Seq<char>) -> MouseButton {
    if name == "Right"@ {
        MouseButton::Right
    } else if name == "Middle"@ {
        MouseButton::Middle
    } else {
        MouseButton::Left
    }
}

/// The pattern named by `name`; an unknown name stands for a single click.
pub open spec fn click_type_for_name(name: Seq<char>) -> ClickType {
    if name == "Double"@ {
        ClickType::Double
    } else {
        ClickType::Single
    }
}

/// Reads a button name as the front-end sends it.
pub fn parse_button(name: &str) -> (r: MouseButton)
    ensures
        r == button_for_name(name@),
{
    if same_text(name, "Right") {
        MouseButton::Right
    } else if same_text(name, "Middle") {
        MouseButton::Middle
    } else {
        MouseButton::Left
    }
}

/// Reads a click pattern name as the front-end sends it.
pub fn parse_click_type(name: &str) -> (r: ClickType)
    ensures
        r == click_type_for_name(name@),
{
    if same_text(name, "Double") {
        ClickType::Double
    } else {
        ClickType::Single
    }
}

/// The configuration of a fresh session: left button, single clicks.
pub open spec fn initial_config() -> ClickerConfig {
    ClickerConfig {
        interval_ms: DEFAULT_INTERVAL_MS,
        button: MouseButton::Left,
        click_type: ClickType::Single,
    }
}

impl ClickerConfig {
    /// The configuration of a fresh session.
    pub fn initial() -> (r: ClickerConfig)
        ensures
            r == initial_config(),
    {
        ClickerConfig {
            interval_ms: DEFAULT_INTERVAL_MS,
            button: MouseButton::Left,
            click_type: ClickType::Single,
        }
    }
}

} // verus!
