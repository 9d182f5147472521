//! Pure key → command mapping, routed by the current input mode.
//!
//! Routing priority (computed by the app): QuitDialog > Confirm > Editing >
//! Popup > Search > Normal(screen).

use vstd::prelude::*;

use crate::tui::messages::Command;

verus! {

/// The keys the interface reacts to; every other key is `Other`.
#[derive(Debug, Clone, Copy, PartialEq, Eq, Structural)]
pub enum KeyCode {
    Backspace,
    Enter,
    Left,
    Right,
    Up,
    Down,
    Tab,
    BackTab,
    Esc,
    Char(char),
    Other,
}

/// Modifier keys held with a key; `other` stands for Super, Hyper and Meta.
#[derive(Debug, Clone, Copy, PartialEq, Eq, Structural)]
pub struct KeyModifiers {
    pub shift: bool,
    pub control: bool,
    pub alt: bool,
    pub other: bool,
}

impl KeyModifiers {
    /// Control alone.
    pub open spec fn spec_control() -> KeyModifiers {
        KeyModifiers { shift: false, control: true, alt: false, other: false }
    }

    /// No modifier held.
    pub fn none() -> (r: Self)
        ensures
            !r.shift && !r.control && !r.alt && !r.other,
    {
        KeyModifiers { shift: false, control: false, alt: false, other: false }
    }

    /// Only Control held.
    pub fn control() -> (r: Self)
        ensures
            r == Self::spec_control(),
    {
        KeyModifiers { shift: false, control: true, alt: false, other: false }
    }

    /// Only Shift held.
    pub fn shift() -> (r: Self)
        ensures
            r.shift && !r.control && !r.alt && !r.other,
    {
        KeyModifiers { shift: true, control: false, alt: false, other: false }
    }
}

/// A key press.
#[derive(Debug, Clone, Copy, PartialEq, Eq, Structural)]
pub struct KeyEvent {
    pub code: KeyCode,
    pub modifiers: KeyModifiers,
}

impl KeyEvent {
    pub fn new(code: KeyCode, modifiers: KeyModifiers) -> (r: Self)
        ensures
            r == (KeyEvent { code, modifiers }),
    {
        KeyEvent { code, modifiers }
    }
}

/// The three top-level screens, cycled with Tab.
#[derive(Debug, Clone, Copy, PartialEq, Eq, Structural)]
pub enum Screen {
    Mail,
    Contacts,
    Calendar,
}

pub open spec fn spec_next_screen(s: Screen) -> Screen {
    match s {
        Screen::Mail => Screen::Contacts,
        Screen::Contacts => Screen::Calendar,
        Screen::Calendar => Screen::Mail,
    }
}

pub open spec fn spec_prev_screen(s: Screen) -> Screen {
    match s {
        Screen::Mail => Screen::Calendar,
        Screen::Contacts => Screen::Mail,
        Screen::Calendar => Screen::Contacts,
    }
}

impl Screen {
    /// The screens in Tab order.
    pub fn all() -> (r: [Screen; 3])
        ensures
            r@ == seq![Screen::Mail, Screen::Contacts, Screen::Calendar],
    {
        let r = [Screen::Mail, Screen::Contacts, Screen::Calendar];
        assert(r@ =~= seq![Screen::Mail, Screen::Contacts, Screen::Calendar]);
        r
    }

    pub fn label(self) -> (r: &'static str)
        ensures
            self == Screen::Mail ==> r@ == "Mail"@,
            self == Screen::Contacts ==> r@ == "Contacts"@,
            self == Screen::Calendar ==> r@ == "Calendar"@,
    {
        match self {
            Screen::Mail => "Mail",
            Screen::Contacts => "Contacts",
            Screen::Calendar => "Calendar",
        }
    }

    pub fn next(self) -> (r: Screen)
        ensures
            r == spec_next_screen(self),
    {
        match self {
            Screen::Mail => Screen::Contacts,
            Screen::Contacts => Screen::Calendar,
            Screen::Calendar => Screen::Mail,
        }
    }

    pub fn prev(self) -> (r: Screen)
        ensures
            r == spec_prev_screen(self),
    {
        match self {
            Screen::Mail => Screen::Calendar,
            Screen::Contacts => Screen::Mail,
            Screen::Calendar => Screen::Contacts,
        }
    }
}

/// Tab and Shift+Tab undo each other, and three Tabs come back to the
/// starting screen.
pub proof fn law_screen_cycle(s: Screen)
    ensures
        spec_prev_screen(spec_next_screen(s)) == s,
        spec_next_screen(spec_prev_screen(s)) == s,
        spec_next_screen(spec_next_screen(spec_next_screen(s))) == s,
{
}

/// Which input context receives keys.
#[derive(Debug, Clone, Copy, PartialEq, Eq, Structural)]
pub enum KeyMode {
    Normal(Screen),
    /// The search/input bar is open.
    Search,
    /// A popup is focused (not editing).
    Popup,
    /// Typing into a popup form.
    Editing,
    /// y/n confirmation for a destructive action.
    Confirm,
    /// The quit dialog: only Enter confirms.
    QuitDialog,
}

/// Digit keys name popups: `1`→0 … `9`→8, `0`→9.
pub open spec fn spec_popup_index(c: char) -> Option<usize> {
    if '1' <= c && c <= '9' {
        Some(((c as u32) - ('1' as u32)) as usize)
    } else if c == '0' {
        Some(9)
    } else {
        None
    }
}

/// No modifier but possibly Shift.
pub open spec fn plain_or_shift(m: KeyModifiers) -> bool {
    !m.control && !m.alt && !m.other
}

pub open spec fn spec_map_normal(key: KeyEvent, screen: Screen) -> Command {
    if key.modifiers.control {
        Command::NoOp
    } else if screen == Screen::Calendar && (key.code == KeyCode::Char('h') || key.code == KeyCode::Left) {
        Command::DayPrev
    } else if screen == Screen::Calendar && (key.code == KeyCode::Char('l') || key.code == KeyCode::Right) {
        Command::DayNext
    } else if screen == Screen::Calendar && key.code == KeyCode::Char('H') {
        Command::MonthPrev
    } else if screen == Screen::Calendar && key.code == KeyCode::Char('L') {
        Command::MonthNext
    } else if screen == Screen::Calendar && key.code == KeyCode::Char('t') {
        Command::Today
    } else {
        match key.code {
            KeyCode::Char('q') => Command::Quit,
            KeyCode::Esc => Command::Escape,
            KeyCode::Char('?') => Command::Help,
            KeyCode::Char('k') | KeyCode::Up => Command::SelectPrev,
            KeyCode::Char('j') | KeyCode::Down => Command::SelectNext,
            KeyCode::Char('h') | KeyCode::Left => Command::FocusLeft,
            KeyCode::Char('l') | KeyCode::Right => Command::FocusRight,
            KeyCode::Enter => Command::OpenItem,
            KeyCode::Tab => Command::ScreenNext,
            KeyCode::BackTab => Command::ScreenPrev,
            KeyCode::Char('/') | KeyCode::Char('i') => Command::EnterSearch,
            KeyCode::Char('c') => Command::CreateItem,
            KeyCode::Char('e') => Command::EditItem,
            KeyCode::Char('d') => Command::DeleteItem,
            KeyCode::Char('r') => Command::Reply,
            KeyCode::Char('f') => Command::Forward,
            KeyCode::Char('a') => Command::Archive,
            KeyCode::Char('s') => Command::Spam,
            KeyCode::Char(c) => match spec_popup_index(c) {
                Some(i) => Command::TogglePopup(i),
                None => Command::NoOp,
            },
            _ => Command::NoOp,
        }
    }
}

pub open spec fn spec_map_search(key: KeyEvent) -> Command {
    match key.code {
        KeyCode::Esc => Command::CancelSearch,
        KeyCode::Enter => Command::SubmitInput,
        KeyCode::Up => Command::SelectPrev,
        KeyCode::Down => Command::SelectNext,
        KeyCode::Backspace => Command::Backspace,
        KeyCode::Char(c) => if c == 'u' && key.modifiers.control {
            Command::ClearInput
        } else if plain_or_shift(key.modifiers) {
            Command::InsertChar(c)
        } else {
            Command::NoOp
        },
        _ => Command::NoOp,
    }
}

pub open spec fn spec_map_popup(key: KeyEvent) -> Command {
    if key.modifiers.control {
        Command::NoOp
    } else {
        match key.code {
            KeyCode::Esc | KeyCode::Char('n') => Command::MinimizePopup,
            KeyCode::Char('x') | KeyCode::Char('q') => Command::ClosePopup,
            KeyCode::Char('s') => Command::Submit,
            KeyCode::Char('i') | KeyCode::Char('e') | KeyCode::Enter => Command::EditPopup,
            KeyCode::Char('r') => Command::Reply,
            KeyCode::Char('f') => Command::Forward,
            KeyCode::Char('a') => Command::Archive,
            KeyCode::Char('d') => Command::DeleteItem,
            KeyCode::Char('m') => Command::ToggleMaximize,
            KeyCode::Tab => Command::FocusNextPopup,
            KeyCode::Char(c) => match spec_popup_index(c) {
                Some(i) => Command::TogglePopup(i),
                None => Command::NoOp,
            },
            _ => Command::NoOp,
        }
    }
}

pub open spec fn spec_map_editing(key: KeyEvent) -> Command {
    match key.code {
        KeyCode::Esc => Command::EditorEscape,
        KeyCode::Enter => Command::EditorEnter,
        KeyCode::Tab => Command::EditorNextField,
        KeyCode::Backspace => Command::EditorBackspace,
        KeyCode::Char(c) => if plain_or_shift(key.modifiers) {
            Command::EditorChar(c)
        } else {
            Command::NoOp
        },
        _ => Command::NoOp,
    }
}

pub open spec fn spec_map_confirm(key: KeyEvent) -> Command {
    match key.code {
        KeyCode::Char('y') | KeyCode::Char('Y') => Command::ConfirmYes,
        KeyCode::Char('n') | KeyCode::Char('N') | KeyCode::Esc => Command::ConfirmNo,
        _ => Command::NoOp,
    }
}

/// The command a key gives in a mode: Ctrl+C quits everywhere, the quit
/// dialog confirms only on Enter, otherwise each mode has its own table.
pub open spec fn spec_map_key(key: KeyEvent, mode: KeyMode) -> Command {
    if key.code == KeyCode::Char('c') && key.modifiers.control {
        Command::Quit
    } else {
        match mode {
            KeyMode::Normal(screen) => spec_map_normal(key, screen),
            KeyMode::Search => spec_map_search(key),
            KeyMode::Popup => spec_map_popup(key),
            KeyMode::Editing => spec_map_editing(key),
            KeyMode::Confirm => spec_map_confirm(key),
            KeyMode::QuitDialog => if key.code == KeyCode::Enter {
                Command::ConfirmYes
            } else {
                Command::ConfirmNo
            },
        }
    }
}

/// Map a digit to a popup index (`1`→0 … `9`→8, `0`→9).
fn popup_index(c: char) -> (r: Option<usize>)
    ensures
        r == spec_popup_index(c),
{
    if '1' <= c && c <= '9' {
        Some(((c as u32) - ('1' as u32)) as usize)
    } else if c == '0' {
        Some(9)
    } else {
        None
    }
}

fn digit_or_noop(c: char) -> (r: Command)
    ensures
        r == match spec_popup_index(c) {
            Some(i) => Command::TogglePopup(i),
            None => Command::NoOp,
        },
{
    match popup_index(c) {
        Some(i) => Command::TogglePopup(i),
        None => Command::NoOp,
    }
}

pub fn map_key(key: KeyEvent, mode: KeyMode) -> (r: Command)
    ensures
        r == spec_map_key(key, mode),
{
    if key.code == KeyCode::Char('c') && key.modifiers.control {
        return Command::Quit;
    }
    match mode {
        KeyMode::Normal(screen) => map_normal(key, screen),
        KeyMode::Search => map_search(key),
        KeyMode::Popup => map_popup(key),
        KeyMode::Editing => map_editing(key),
        KeyMode::Confirm => map_confirm(key),
        KeyMode::QuitDialog => if key.code == KeyCode::Enter {
            Command::ConfirmYes
        } else {
            Command::ConfirmNo
        },
    }
}

fn map_normal(key: KeyEvent, screen: Screen) -> (r: Command)
    ensures
        r == spec_map_normal(key, screen),
{
    if key.modifiers.control {
        return Command::NoOp;
    }
    if screen == Screen::Calendar {
        match key.code {
            KeyCode::Char('h') | KeyCode::Left => return Command::DayPrev,
            KeyCode::Char('l') | KeyCode::Right => return Command::DayNext,
            KeyCode::Char('H') => return Command::MonthPrev,
            KeyCode::Char('L') => return Command::MonthNext,
            KeyCode::Char('t') => return Command::Today,
            _ => {},
        }
    }
    match key.code {
        KeyCode::Char('q') => Command::Quit,
        KeyCode::Esc => Command::Escape,
        KeyCode::Char('?') => Command::Help,
        KeyCode::Char('k') | KeyCode::Up => Command::SelectPrev,
        KeyCode::Char('j') | KeyCode::Down => Command::SelectNext,
        KeyCode::Char('h') | KeyCode::Left => Command::FocusLeft,
        KeyCode::Char('l') | KeyCode::Right => Command::FocusRight,
        KeyCode::Enter => Command::OpenItem,
        KeyCode::Tab => Command::ScreenNext,
        KeyCode::BackTab => Command::ScreenPrev,
        KeyCode::Char('/') | KeyCode::Char('i') => Command::EnterSearch,
        KeyCode::Char('c') => Command::CreateItem,
        KeyCode::Char('e') => Command::EditItem,
        KeyCode::Char('d') => Command::DeleteItem,
        KeyCode::Char('r') => Command::Reply,
        KeyCode::Char('f') => Command::Forward,
        KeyCode::Char('a') => Command::Archive,
        KeyCode::Char('s') => Command::Spam,
        KeyCode::Char(c) => digit_or_noop(c),
        _ => Command::NoOp,
    }
}

fn map_search(key: KeyEvent) -> (r: Command)
    ensures
        r == spec_map_search(key),
{
    match key.code {
        KeyCode::Esc => Command::CancelSearch,
        KeyCode::Enter => Command::SubmitInput,
        KeyCode::Up => Command::SelectPrev,
        KeyCode::Down => Command::SelectNext,
        KeyCode::Backspace => Command::Backspace,
        KeyCode::Char(c) => if c == 'u' && key.modifiers.control {
            Command::ClearInput
        } else if !key.modifiers.control && !key.modifiers.alt && !key.modifiers.other {
            Command::InsertChar(c)
        } else {
            Command::NoOp
        },
        _ => Command::NoOp,
    }
}

fn map_popup(key: KeyEvent) -> (r: Command)
    ensures
        r == spec_map_popup(key),
{
    if key.modifiers.control {
        return Command::NoOp;
    }
    match key.code {
        KeyCode::Esc | KeyCode::Char('n') => Command::MinimizePopup,
        KeyCode::Char('x') | KeyCode::Char('q') => Command::ClosePopup,
        KeyCode::Char('s') => Command::Submit,
        KeyCode::Char('i') | KeyCode::Char('e') | KeyCode::Enter => Command::EditPopup,
        KeyCode::Char('r') => Command::Reply,
        KeyCode::Char('f') => Command::Forward,
        KeyCode::Char('a') => Command::Archive,
        KeyCode::Char('d') => Command::DeleteItem,
        KeyCode::Char('m') => Command::ToggleMaximize,
        KeyCode::Tab => Command::FocusNextPopup,
        KeyCode::Char(c) => digit_or_noop(c),
        _ => Command::NoOp,
    }
}

fn map_editing(key: KeyEvent) -> (r: Command)
    ensures
        r == spec_map_editing(key),
{
    match key.code {
        KeyCode::Esc => Command::EditorEscape,
        KeyCode::Enter => Command::EditorEnter,
        KeyCode::Tab => Command::EditorNextField,
        KeyCode::Backspace => Command::EditorBackspace,
        KeyCode::Char(c) => if !key.modifiers.control && !key.modifiers.alt && !key.modifiers.other {
            Command::EditorChar(c)
        } else {
            Command::NoOp
        },
        _ => Command::NoOp,
    }
}

fn map_confirm(key: KeyEvent) -> (r: Command)
    ensures
        r == spec_map_confirm(key),
{
    match key.code {
        KeyCode::Char('y') | KeyCode::Char('Y') => Command::ConfirmYes,
        KeyCode::Char('n') | KeyCode::Char('N') | KeyCode::Esc => Command::ConfirmNo,
        _ => Command::NoOp,
    }
}

/// Ctrl+C quits from every mode.
pub proof fn law_ctrl_c_quits(mode: KeyMode, m: KeyModifiers)
    requires
        m.control,
    ensures
        spec_map_key(KeyEvent { code: KeyCode::Char('c'), modifiers: m }, mode) == Command::Quit,
{
}

/// In the quit dialog only Enter confirms; every other key declines.
pub proof fn law_quit_dialog_only_enter(key: KeyEvent)
    requires
        !(key.code == KeyCode::Char('c') && key.modifiers.control),
    ensures
        spec_map_key(key, KeyMode::QuitDialog) == if key.code == KeyCode::Enter {
            Command::ConfirmYes
        } else {
            Command::ConfirmNo
        },
{
}

/// In the search bar and the editor, a plain character is typed, never
/// taken as a command.
pub proof fn law_plain_chars_are_typed(c: char, m: KeyModifiers)
    requires
        plain_or_shift(m),
        !(c == 'c' && m.control),
    ensures
        spec_map_key(KeyEvent { code: KeyCode::Char(c), modifiers: m }, KeyMode::Search)
            == Command::InsertChar(c),
        spec_map_key(KeyEvent { code: KeyCode::Char(c), modifiers: m }, KeyMode::Editing)
            == Command::EditorChar(c),
{
}

} // verus!
