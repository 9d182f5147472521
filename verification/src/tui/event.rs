//! Vi-style key handling with Normal, Insert, EmailOpen, Editing and
//! Confirm modes.
//!
//! - Normal: j/k navigate, h/l drill, Enter opens, / or i enters Insert, q quits
//! - Insert: type to search (slash commands), Esc returns to Normal
//! - EmailOpen: an email is open — r reply, f forward, a archive, d delete, Esc closes

use vstd::prelude::*;

use crate::tui::keymap::{KeyCode, KeyEvent, KeyModifiers};

verus! {

/// A destructive mail action awaiting user confirmation.
#[derive(Debug, Clone, PartialEq, Eq)]
pub enum ConfirmAction {
    /// Delete an email (move to Trash). Contains the email JMAP id.
    Delete(String),
    /// Archive an email. Contains the email JMAP id.
    Archive(String),
    /// Mark an email as spam. Contains the email JMAP id.
    Spam(String),
}

impl ConfirmAction {
    /// Human-readable prompt for this action.
    pub fn prompt(&self) -> (r: &'static str)
        ensures
            self is Delete ==> r@ == "Delete this email? [y/n]"@,
            self is Archive ==> r@ == "Archive this email? [y/n]"@,
            self is Spam ==> r@ == "Mark as spam? [y/n]"@,
    {
        match self {
            ConfirmAction::Delete(_) => "Delete this email? [y/n]",
            ConfirmAction::Archive(_) => "Archive this email? [y/n]",
            ConfirmAction::Spam(_) => "Mark as spam? [y/n]",
        }
    }

    /// The target folder name (used to resolve the JMAP action).
    pub fn target_name(&self) -> (r: &'static str)
        ensures
            self is Delete ==> r@ == "delete"@,
            self is Archive ==> r@ == "archive"@,
            self is Spam ==> r@ == "spam"@,
    {
        match self {
            ConfirmAction::Delete(_) => "delete",
            ConfirmAction::Archive(_) => "archive",
            ConfirmAction::Spam(_) => "spam",
        }
    }

    /// The email id associated with this action.
    pub fn email_id(&self) -> (r: &str)
        ensures
            match self {
                ConfirmAction::Delete(id) | ConfirmAction::Archive(id) | ConfirmAction::Spam(id) => r@
                    == id@,
            },
    {
        match self {
            ConfirmAction::Delete(id) => id.as_str(),
            ConfirmAction::Archive(id) => id.as_str(),
            ConfirmAction::Spam(id) => id.as_str(),
        }
    }
}

/// Vi-style input mode.
#[derive(Debug, Clone, PartialEq, Eq)]
pub enum InputMode {
    /// Normal mode: navigation and structural commands.
    Normal,
    /// Insert mode: typing into search / slash commands.
    Insert,
    /// An email is open/selected — single-key actions available.
    EmailOpen,
    /// Editing a draft/reply/forward in a popout.
    Editing,
    /// Awaiting confirmation for a destructive action.
    Confirm(ConfirmAction),
}

/// Actions that can result from a key press.
#[derive(Debug, Clone, Copy, PartialEq, Eq, Structural)]
pub enum Action {
    Quit,
    SelectPrev,
    SelectNext,
    NavigateRight,
    NavigateLeft,
    SwitchModeNext,
    SwitchModePrev,
    EnterInsert,
    ExitToNormal,
    OpenItem,
    InsertChar(char),
    Backspace,
    ClearInput,
    ExecuteCommand,
    Reply,
    Forward,
    Archive,
    Delete,
    Send,
    Compose,
    Spam,
    EditTo,
    EditSubject,
    EditCc,
    EditBcc,
    PopoutClose,
    PopoutToggleMax,
    PopoutMinimize,
    PopoutSwitchFocus,
    EditorChar(char),
    EditorBackspace,
    EditorNewline,
    EditorEscape,
    Nothing,
    ConfirmYes,
    ConfirmNo,
}

/// No modifier held.
pub open spec fn bare(m: KeyModifiers) -> bool {
    !m.shift && !m.control && !m.alt && !m.other
}

/// Only Shift held, or nothing.
pub open spec fn bare_or_shift(m: KeyModifiers) -> bool {
    !m.control && !m.alt && !m.other
}

/// A character key pressed without modifiers.
pub open spec fn plain(key: KeyEvent, c: char) -> bool {
    key.code == KeyCode::Char(c) && bare(key.modifiers)
}

pub open spec fn spec_map_normal(key: KeyEvent) -> Action {
    if plain(key, 'q') || key.code == KeyCode::Esc {
        Action::Quit
    } else if plain(key, 'k') || key.code == KeyCode::Up {
        Action::SelectPrev
    } else if plain(key, 'j') || key.code == KeyCode::Down {
        Action::SelectNext
    } else if plain(key, 'h') || key.code == KeyCode::Left {
        Action::NavigateLeft
    } else if plain(key, 'l') || key.code == KeyCode::Right {
        Action::NavigateRight
    } else if key.code == KeyCode::Enter {
        Action::OpenItem
    } else if key.code == KeyCode::Tab {
        Action::SwitchModeNext
    } else if key.code == KeyCode::BackTab {
        Action::SwitchModePrev
    } else if plain(key, '/') || plain(key, 'i') {
        Action::EnterInsert
    } else if plain(key, 'r') {
        Action::Reply
    } else if plain(key, 'f') {
        Action::Forward
    } else if plain(key, 'a') {
        Action::Archive
    } else if plain(key, 'd') {
        Action::Delete
    } else if plain(key, 's') {
        Action::Spam
    } else if plain(key, 'c') {
        Action::Compose
    } else {
        Action::Nothing
    }
}

pub open spec fn spec_map_insert(key: KeyEvent) -> Action {
    match key.code {
        KeyCode::Esc => Action::ExitToNormal,
        KeyCode::Up => Action::SelectPrev,
        KeyCode::Down => Action::SelectNext,
        KeyCode::Enter => Action::ExecuteCommand,
        KeyCode::Backspace => Action::Backspace,
        KeyCode::Char(c) => if c == 'u' && key.modifiers == KeyModifiers::spec_control() {
            Action::ClearInput
        } else if bare_or_shift(key.modifiers) {
            Action::InsertChar(c)
        } else {
            Action::Nothing
        },
        _ => Action::Nothing,
    }
}

pub open spec fn spec_map_email_open(key: KeyEvent) -> Action {
    if key.code == KeyCode::Esc || plain(key, 'q') {
        Action::PopoutClose
    } else if plain(key, 'r') {
        Action::Reply
    } else if plain(key, 'f') {
        Action::Forward
    } else if plain(key, 'a') {
        Action::Archive
    } else if plain(key, 'd') {
        Action::Delete
    } else if plain(key, 's') {
        Action::Send
    } else if plain(key, 't') {
        Action::EditTo
    } else if plain(key, 'u') {
        Action::EditSubject
    } else if plain(key, 'c') {
        Action::EditCc
    } else if plain(key, 'b') {
        Action::EditBcc
    } else if plain(key, 'm') {
        Action::PopoutToggleMax
    } else if plain(key, 'n') {
        Action::PopoutMinimize
    } else if key.code == KeyCode::Tab {
        Action::PopoutSwitchFocus
    } else if plain(key, 'i') || plain(key, 'e') {
        Action::EnterInsert
    } else if plain(key, 'j') || key.code == KeyCode::Down {
        Action::SelectNext
    } else if plain(key, 'k') || key.code == KeyCode::Up {
        Action::SelectPrev
    } else {
        Action::Nothing
    }
}

pub open spec fn spec_map_editing(key: KeyEvent) -> Action {
    match key.code {
        KeyCode::Esc => Action::EditorEscape,
        KeyCode::Enter => Action::EditorNewline,
        KeyCode::Backspace => Action::EditorBackspace,
        KeyCode::Char(c) => if bare_or_shift(key.modifiers) {
            Action::EditorChar(c)
        } else {
            Action::Nothing
        },
        _ => Action::Nothing,
    }
}

pub open spec fn spec_map_confirm(key: KeyEvent) -> Action {
    match key.code {
        KeyCode::Char('y') | KeyCode::Char('Y') => Action::ConfirmYes,
        KeyCode::Char('n') | KeyCode::Char('N') | KeyCode::Esc => Action::ConfirmNo,
        _ => Action::Nothing,
    }
}

/// The action a key gives in a mode; Ctrl+C (Control alone) quits in
/// every mode.
pub open spec fn spec_map_key(key: KeyEvent, mode: InputMode) -> Action {
    if key.code == KeyCode::Char('c') && key.modifiers == KeyModifiers::spec_control() {
        Action::Quit
    } else {
        match mode {
            InputMode::Normal => spec_map_normal(key),
            InputMode::Insert => spec_map_insert(key),
            InputMode::EmailOpen => spec_map_email_open(key),
            InputMode::Editing => spec_map_editing(key),
            InputMode::Confirm(_) => spec_map_confirm(key),
        }
    }
}

fn is_bare(m: KeyModifiers) -> (r: bool)
    ensures
        r == bare(m),
{
    !m.shift && !m.control && !m.alt && !m.other
}

fn is_plain(key: KeyEvent, c: char) -> (r: bool)
    ensures
        r == plain(key, c),
{
    key.code == KeyCode::Char(c) && is_bare(key.modifiers)
}

fn is_control_only(m: KeyModifiers) -> (r: bool)
    ensures
        r == (m == KeyModifiers::spec_control()),
{
    !m.shift && m.control && !m.alt && !m.other
}

/// Map a key event to an action based on the current input mode.
pub fn map_key(key: KeyEvent, mode: &InputMode) -> (r: Action)
    ensures
        r == spec_map_key(key, *mode),
{
    if key.code == KeyCode::Char('c') && is_control_only(key.modifiers) {
        return Action::Quit;
    }
    match mode {
        InputMode::Normal => map_normal(key),
        InputMode::Insert => map_insert(key),
        InputMode::EmailOpen => map_email_open(key),
        InputMode::Editing => map_editing(key),
        InputMode::Confirm(_) => map_confirm(key),
    }
}

fn map_normal(key: KeyEvent) -> (r: Action)
    ensures
        r == spec_map_normal(key),
{
    if is_plain(key, 'q') || key.code == KeyCode::Esc {
        Action::Quit
    } else if is_plain(key, 'k') || key.code == KeyCode::Up {
        Action::SelectPrev
    } else if is_plain(key, 'j') || key.code == KeyCode::Down {
        Action::SelectNext
    } else if is_plain(key, 'h') || key.code == KeyCode::Left {
        Action::NavigateLeft
    } else if is_plain(key, 'l') || key.code == KeyCode::Right {
        Action::NavigateRight
    } else if key.code == KeyCode::Enter {
        Action::OpenItem
    } else if key.code == KeyCode::Tab {
        Action::SwitchModeNext
    } else if key.code == KeyCode::BackTab {
        Action::SwitchModePrev
    } else if is_plain(key, '/') || is_plain(key, 'i') {
        Action::EnterInsert
    } else if is_plain(key, 'r') {
        Action::Reply
    } else if is_plain(key, 'f') {
        Action::Forward
    } else if is_plain(key, 'a') {
        Action::Archive
    } else if is_plain(key, 'd') {
        Action::Delete
    } else if is_plain(key, 's') {
        Action::Spam
    } else if is_plain(key, 'c') {
        Action::Compose
    } else {
        Action::Nothing
    }
}

fn map_insert(key: KeyEvent) -> (r: Action)
    ensures
        r == spec_map_insert(key),
{
    match key.code {
        KeyCode::Esc => Action::ExitToNormal,
        KeyCode::Up => Action::SelectPrev,
        KeyCode::Down => Action::SelectNext,
        KeyCode::Enter => Action::ExecuteCommand,
        KeyCode::Backspace => Action::Backspace,
        KeyCode::Char(c) => if c == 'u' && is_control_only(key.modifiers) {
            Action::ClearInput
        } else if !key.modifiers.control && !key.modifiers.alt && !key.modifiers.other {
            Action::InsertChar(c)
        } else {
            Action::Nothing
        },
        _ => Action::Nothing,
    }
}

fn map_email_open(key: KeyEvent) -> (r: Action)
    ensures
        r == spec_map_email_open(key),
{
    if key.code == KeyCode::Esc || is_plain(key, 'q') {
        Action::PopoutClose
    } else if is_plain(key, 'r') {
        Action::Reply
    } else if is_plain(key, 'f') {
        Action::Forward
    } else if is_plain(key, 'a') {
        Action::Archive
    } else if is_plain(key, 'd') {
        Action::Delete
    } else if is_plain(key, 's') {
        Action::Send
    } else if is_plain(key, 't') {
        Action::EditTo
    } else if is_plain(key, 'u') {
        Action::EditSubject
    } else if is_plain(key, 'c') {
        Action::EditCc
    } else if is_plain(key, 'b') {
        Action::EditBcc
    } else if is_plain(key, 'm') {
        Action::PopoutToggleMax
    } else if is_plain(key, 'n') {
        Action::PopoutMinimize
    } else if key.code == KeyCode::Tab {
        Action::PopoutSwitchFocus
    } else if is_plain(key, 'i') || is_plain(key, 'e') {
        Action::EnterInsert
    } else if is_plain(key, 'j') || key.code == KeyCode::Down {
        Action::SelectNext
    } else if is_plain(key, 'k') || key.code == KeyCode::Up {
        Action::SelectPrev
    } else {
        Action::Nothing
    }
}

fn map_editing(key: KeyEvent) -> (r: Action)
    ensures
        r == spec_map_editing(key),
{
    match key.code {
        KeyCode::Esc => Action::EditorEscape,
        KeyCode::Enter => Action::EditorNewline,
        KeyCode::Backspace => Action::EditorBackspace,
        KeyCode::Char(c) => if !key.modifiers.control && !key.modifiers.alt && !key.modifiers.other {
            Action::EditorChar(c)
        } else {
            Action::Nothing
        },
        _ => Action::Nothing,
    }
}

fn map_confirm(key: KeyEvent) -> (r: Action)
    ensures
        r == spec_map_confirm(key),
{
    match key.code {
        KeyCode::Char('y') | KeyCode::Char('Y') => Action::ConfirmYes,
        KeyCode::Char('n') | KeyCode::Char('N') | KeyCode::Esc => Action::ConfirmNo,
        _ => Action::Nothing,
    }
}

/// While a destructive action waits for confirmation, only `y`/`Y`
/// confirms and only `n`/`N`/Esc cancels; every other key (but Ctrl+C)
/// does nothing.
pub proof fn law_confirm_needs_explicit_answer(key: KeyEvent, a: ConfirmAction)
    requires
        !(key.code == KeyCode::Char('c') && key.modifiers == KeyModifiers::spec_control()),
    ensures
        spec_map_key(key, InputMode::Confirm(a)) == Action::ConfirmYes <==> (key.code == KeyCode::Char('y')
            || key.code == KeyCode::Char('Y')),
        spec_map_key(key, InputMode::Confirm(a)) == Action::ConfirmNo <==> (key.code == KeyCode::Char('n')
            || key.code == KeyCode::Char('N') || key.code == KeyCode::Esc),
{
}

/// The Normal-mode key table: each unmodified letter names its action, so
/// `a` archives, `d` deletes, `s` marks as spam, `r` replies, `f`
/// forwards, `c` composes, `q` quits, `j`/`k` move down and up, `h`/`l`
/// move left and right, and `/` or `i` start typing.
pub proof fn law_normal_key_table(m: KeyModifiers)
    requires
        !m.shift && !m.control && !m.alt && !m.other,
    ensures
        spec_map_key((KeyEvent { code: KeyCode::Char('a'), modifiers: m }), InputMode::Normal) == Action::Archive,
        spec_map_key((KeyEvent { code: KeyCode::Char('d'), modifiers: m }), InputMode::Normal) == Action::Delete,
        spec_map_key((KeyEvent { code: KeyCode::Char('s'), modifiers: m }), InputMode::Normal) == Action::Spam,
        spec_map_key((KeyEvent { code: KeyCode::Char('r'), modifiers: m }), InputMode::Normal) == Action::Reply,
        spec_map_key((KeyEvent { code: KeyCode::Char('f'), modifiers: m }), InputMode::Normal) == Action::Forward,
        spec_map_key((KeyEvent { code: KeyCode::Char('c'), modifiers: m }), InputMode::Normal) == Action::Compose,
        spec_map_key((KeyEvent { code: KeyCode::Char('q'), modifiers: m }), InputMode::Normal) == Action::Quit,
        spec_map_key((KeyEvent { code: KeyCode::Char('j'), modifiers: m }), InputMode::Normal) == Action::SelectNext,
        spec_map_key((KeyEvent { code: KeyCode::Char('k'), modifiers: m }), InputMode::Normal) == Action::SelectPrev,
        spec_map_key((KeyEvent { code: KeyCode::Char('h'), modifiers: m }), InputMode::Normal) == Action::NavigateLeft,
        spec_map_key((KeyEvent { code: KeyCode::Char('l'), modifiers: m }), InputMode::Normal) == Action::NavigateRight,
        spec_map_key((KeyEvent { code: KeyCode::Char('/'), modifiers: m }), InputMode::Normal) == Action::EnterInsert,
        spec_map_key((KeyEvent { code: KeyCode::Char('i'), modifiers: m }), InputMode::Normal) == Action::EnterInsert,
{
}

/// With an email open, unmodified `a` archives, `d` deletes, `s` sends,
/// `r` replies and `f` forwards, and `q` or Esc closes the popout.
pub proof fn law_email_open_key_table(m: KeyModifiers)
    requires
        !m.shift && !m.control && !m.alt && !m.other,
    ensures
        spec_map_key((KeyEvent { code: KeyCode::Char('a'), modifiers: m }), InputMode::EmailOpen) == Action::Archive,
        spec_map_key((KeyEvent { code: KeyCode::Char('d'), modifiers: m }), InputMode::EmailOpen) == Action::Delete,
        spec_map_key((KeyEvent { code: KeyCode::Char('s'), modifiers: m }), InputMode::EmailOpen) == Action::Send,
        spec_map_key((KeyEvent { code: KeyCode::Char('r'), modifiers: m }), InputMode::EmailOpen) == Action::Reply,
        spec_map_key((KeyEvent { code: KeyCode::Char('f'), modifiers: m }), InputMode::EmailOpen) == Action::Forward,
        spec_map_key((KeyEvent { code: KeyCode::Char('q'), modifiers: m }), InputMode::EmailOpen) == Action::PopoutClose,
        spec_map_key((KeyEvent { code: KeyCode::Esc, modifiers: m }), InputMode::EmailOpen) == Action::PopoutClose,
{
}

} // verus!
