//! Bottom chrome: screen tabs, context-sensitive key hints, tooltip
//! messages with severity flavors, and an async spinner. What is shown is
//! decided here; drawing it is left to the terminal front end.

use vstd::prelude::*;

use crate::tui::keymap::{KeyMode, Screen};
use crate::tui::screens::mail::MailFocus;

verus! {

/// Tooltip severity (colors the message).
#[derive(Debug, Clone, Copy, PartialEq, Eq, Structural)]
pub enum Flavor {
    Info,
    Warning,
    Error,
}

#[derive(Debug, Clone)]
pub struct Tooltip {
    pub text: String,
    pub flavor: Flavor,
}

impl Tooltip {
    pub fn info(text: String) -> (r: Self)
        ensures
            r.text == text && r.flavor == Flavor::Info,
    {
        Tooltip { text, flavor: Flavor::Info }
    }

    pub fn warn(text: String) -> (r: Self)
        ensures
            r.text == text && r.flavor == Flavor::Warning,
    {
        Tooltip { text, flavor: Flavor::Warning }
    }

    pub fn error(text: String) -> (r: Self)
        ensures
            r.text == text && r.flavor == Flavor::Error,
    {
        Tooltip { text, flavor: Flavor::Error }
    }
}

/// How a key hint is highlighted.
#[derive(Debug, Clone, Copy, PartialEq, Eq, Structural)]
pub enum HintColor {
    /// Navigation.
    Yellow,
    /// Item actions.
    Cyan,
    /// Destructive or leaving.
    Red,
    /// Saving or staying.
    Green,
    /// Popup keys.
    Magenta,
}

/// One key hint: the key, what it does, its color.
#[derive(Debug, Clone, Copy, PartialEq, Eq)]
pub struct Hint {
    pub key: &'static str,
    pub label: &'static str,
    pub color: HintColor,
}

fn hint(out: &mut Vec<Hint>, key: &'static str, label: &'static str, color: HintColor)
    ensures
        final(out)@ == old(out)@.push(Hint { key, label, color }),
{
    out.push(Hint { key, label, color });
}

/// A key hint as a value.
pub open spec fn hint_of(key: &'static str, label: &'static str, color: HintColor) -> Hint {
    Hint { key, label, color }
}

/// The hints a mode shows, in display order.
pub open spec fn mode_hints(mode: KeyMode, mail_focus: MailFocus) -> Seq<Hint> {
    let y = HintColor::Yellow;
    let c = HintColor::Cyan;
    match mode {
        KeyMode::Normal(Screen::Mail) => seq![
            hint_of("j/k", "nav", y),
            hint_of("h/l", "panel", y),
            hint_of("Enter", "open", y),
            hint_of("/", "search", y),
        ] + (if mail_focus == MailFocus::List {
            seq![
                hint_of("c", "new", c),
                hint_of("r", "reply", c),
                hint_of("f", "fwd", c),
                hint_of("a", "arch", c),
                hint_of("d", "del", c),
                hint_of("s", "spam", c),
            ]
        } else {
            Seq::empty()
        }) + seq![hint_of("Tab", "screen", y), hint_of("Esc", "back", y), hint_of("q", "quit", y)],
        KeyMode::Normal(Screen::Contacts) => seq![
            hint_of("j/k", "nav", y),
            hint_of("Enter", "open", y),
            hint_of("/", "filter", y),
            hint_of("c", "add", c),
            hint_of("e", "edit", c),
            hint_of("d", "delete", c),
            hint_of("Tab", "screen", y),
            hint_of("Esc", "back", y),
        ],
        KeyMode::Normal(Screen::Calendar) => seq![
            hint_of("h/l", "day", y),
            hint_of("H/L", "month", y),
            hint_of("t", "today", y),
            hint_of("j/k", "agenda", y),
            hint_of("Enter", "open", y),
            hint_of("c", "add", c),
            hint_of("e", "edit", c),
            hint_of("d", "delete", c),
            hint_of("Esc", "back", y),
        ],
        KeyMode::Search => seq![
            hint_of("Esc", "cancel", y),
            hint_of("↑↓", "nav", y),
            hint_of("Enter", "select", y),
        ],
        KeyMode::Popup => seq![
            hint_of("Esc", "minimize", y),
            hint_of("x", "close", HintColor::Red),
            hint_of("i", "edit", y),
            hint_of("s", "send/save", HintColor::Green),
            hint_of("m", "max", y),
            hint_of("Tab", "focus", y),
        ],
        KeyMode::Editing => seq![hint_of("Tab/Enter", "next field", y), hint_of("Esc", "done", y)],
        KeyMode::Confirm => seq![hint_of("y", "confirm", HintColor::Green), hint_of("n/Esc", "cancel", HintColor::Red)],
        KeyMode::QuitDialog => seq![hint_of("Enter", "quit", HintColor::Red), hint_of("any key", "stay", HintColor::Green)],
    }
}

/// Whether the popup-keys hint is added.
pub open spec fn shows_popup_hint(mode: KeyMode, has_popups: bool) -> bool {
    has_popups && (mode is Normal || mode is Popup)
}

/// The key hints for the current mode, in display order. On the mail
/// list the item actions (new, reply, forward, archive, delete, spam) are
/// offered; the popup keys are offered when popups are open and the mode
/// reads digits.
pub fn hints(mode: KeyMode, mail_focus: MailFocus, has_popups: bool) -> (r: Vec<Hint>)
    ensures
        r@ == mode_hints(mode, mail_focus) + if shows_popup_hint(mode, has_popups) {
            seq![hint_of("1-0", "popups", HintColor::Magenta)]
        } else {
            Seq::empty()
        },
{
    let mut spans: Vec<Hint> = Vec::new();
    match mode {
        KeyMode::Normal(Screen::Mail) => {
            hint(&mut spans, "j/k", "nav", HintColor::Yellow);
            hint(&mut spans, "h/l", "panel", HintColor::Yellow);
            hint(&mut spans, "Enter", "open", HintColor::Yellow);
            hint(&mut spans, "/", "search", HintColor::Yellow);
            if mail_focus == MailFocus::List {
                hint(&mut spans, "c", "new", HintColor::Cyan);
                hint(&mut spans, "r", "reply", HintColor::Cyan);
                hint(&mut spans, "f", "fwd", HintColor::Cyan);
                hint(&mut spans, "a", "arch", HintColor::Cyan);
                hint(&mut spans, "d", "del", HintColor::Cyan);
                hint(&mut spans, "s", "spam", HintColor::Cyan);
            }
            hint(&mut spans, "Tab", "screen", HintColor::Yellow);
            hint(&mut spans, "Esc", "back", HintColor::Yellow);
            hint(&mut spans, "q", "quit", HintColor::Yellow);
        },
        KeyMode::Normal(Screen::Contacts) => {
            hint(&mut spans, "j/k", "nav", HintColor::Yellow);
            hint(&mut spans, "Enter", "open", HintColor::Yellow);
            hint(&mut spans, "/", "filter", HintColor::Yellow);
            hint(&mut spans, "c", "add", HintColor::Cyan);
            hint(&mut spans, "e", "edit", HintColor::Cyan);
            hint(&mut spans, "d", "delete", HintColor::Cyan);
            hint(&mut spans, "Tab", "screen", HintColor::Yellow);
            hint(&mut spans, "Esc", "back", HintColor::Yellow);
        },
        KeyMode::Normal(Screen::Calendar) => {
            hint(&mut spans, "h/l", "day", HintColor::Yellow);
            hint(&mut spans, "H/L", "month", HintColor::Yellow);
            hint(&mut spans, "t", "today", HintColor::Yellow);
            hint(&mut spans, "j/k", "agenda", HintColor::Yellow);
            hint(&mut spans, "Enter", "open", HintColor::Yellow);
            hint(&mut spans, "c", "add", HintColor::Cyan);
            hint(&mut spans, "e", "edit", HintColor::Cyan);
            hint(&mut spans, "d", "delete", HintColor::Cyan);
            hint(&mut spans, "Esc", "back", HintColor::Yellow);
        },
        KeyMode::Search => {
            hint(&mut spans, "Esc", "cancel", HintColor::Yellow);
            hint(&mut spans, "↑↓", "nav", HintColor::Yellow);
            hint(&mut spans, "Enter", "select", HintColor::Yellow);
        },
        KeyMode::Popup => {
            hint(&mut spans, "Esc", "minimize", HintColor::Yellow);
            hint(&mut spans, "x", "close", HintColor::Red);
            hint(&mut spans, "i", "edit", HintColor::Yellow);
            hint(&mut spans, "s", "send/save", HintColor::Green);
            hint(&mut spans, "m", "max", HintColor::Yellow);
            hint(&mut spans, "Tab", "focus", HintColor::Yellow);
        },
        KeyMode::Editing => {
            hint(&mut spans, "Tab/Enter", "next field", HintColor::Yellow);
            hint(&mut spans, "Esc", "done", HintColor::Yellow);
        },
        KeyMode::Confirm => {
            hint(&mut spans, "y", "confirm", HintColor::Green);
            hint(&mut spans, "n/Esc", "cancel", HintColor::Red);
        },
        KeyMode::QuitDialog => {
            hint(&mut spans, "Enter", "quit", HintColor::Red);
            hint(&mut spans, "any key", "stay", HintColor::Green);
        },
    }
    let reads_digits = match mode {
        KeyMode::Normal(_) | KeyMode::Popup => true,
        _ => false,
    };
    if has_popups && reads_digits {
        hint(&mut spans, "1-0", "popups", HintColor::Magenta);
    }
    spans
}

/// The busy spinner's frames.
pub open spec fn spinner_frames() -> Seq<char> {
    seq!['⠋', '⠙', '⠹', '⠸', '⠼', '⠴', '⠦', '⠧', '⠇', '⠏']
}

/// The spinner frame for an animation step.
pub fn spinner_char(step: usize) -> (r: char)
    ensures
        r == spinner_frames()[(step % 10) as int],
{
    let frames = ['⠋', '⠙', '⠹', '⠸', '⠼', '⠴', '⠦', '⠧', '⠇', '⠏'];
    assert(frames@ =~= spinner_frames());
    frames[step % 10]
}

} // verus!
