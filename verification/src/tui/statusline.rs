//! The status line of the list view: the mode tabs, the keys of the
//! current input mode, the message and the loading note, each piece with
//! the tone it is drawn in.

use vstd::prelude::*;

use crate::strings::{push_str, to_owned};
use crate::tui::app::App;
use crate::tui::event::{ConfirmAction, InputMode};
use crate::tui::state::{Mode, Panel};

verus! {

/// How a piece of the status line is drawn.
#[derive(Debug, Clone, Copy, PartialEq, Eq, Structural)]
pub enum Tone {
    /// Unstyled text.
    Plain,
    /// A mode tab that is not active.
    Tab,
    /// The active mode tab.
    ActiveTab,
    /// A key name.
    Key,
    /// A key of the view's own actions.
    ActionKey,
    /// A slash-command marker.
    Command,
    /// A key that sends or confirms.
    Confirm,
    /// A key that discards or cancels.
    Cancel,
    /// The confirmation question.
    Alert,
    /// The app's message.
    Message,
    /// The loading note.
    Busy,
}

/// A piece of the status line.
pub struct StatusItem {
    pub text: String,
    pub tone: Tone,
}

pub open spec fn items_view(v: Seq<StatusItem>) -> Seq<(Seq<char>, Tone)> {
    v.map_values(|i: StatusItem| (i.text@, i.tone))
}

pub open spec fn mode_label(m: Mode) -> Seq<char> {
    match m {
        Mode::Mail => "Mail"@,
        Mode::Contacts => "Contacts"@,
        Mode::Calendar => "Calendar"@,
    }
}

/// The tab of mode `m` while `current` is active.
pub open spec fn tab(m: Mode, current: Mode) -> (Seq<char>, Tone) {
    (" "@ + mode_label(m) + " "@, if m == current { Tone::ActiveTab } else { Tone::Tab })
}

pub open spec fn confirm_prompt(ca: ConfirmAction) -> Seq<char> {
    match ca {
        ConfirmAction::Delete(_) => "Delete this email? [y/n]"@,
        ConfirmAction::Archive(_) => "Archive this email? [y/n]"@,
        ConfirmAction::Spam(_) => "Mark as spam? [y/n]"@,
    }
}

/// The keys shown for an input mode.
pub open spec fn mode_items(mode: InputMode, panel: Panel) -> Seq<(Seq<char>, Tone)> {
    match mode {
        InputMode::Normal => seq![
            ("q"@, Tone::Key),
            (" quit  "@, Tone::Plain),
            ("j/k"@, Tone::Key),
            (" nav  "@, Tone::Plain),
            ("h/l"@, Tone::Key),
            (" drill  "@, Tone::Plain),
            ("Enter"@, Tone::Key),
            (" open  "@, Tone::Plain),
            ("/"@, Tone::Key),
            (" cmd  "@, Tone::Plain),
        ] + if panel == Panel::Mails {
            seq![
                ("c"@, Tone::ActionKey),
                (" new  "@, Tone::Plain),
                ("r"@, Tone::ActionKey),
                (" reply  "@, Tone::Plain),
                ("f"@, Tone::ActionKey),
                (" fwd  "@, Tone::Plain),
                ("a"@, Tone::ActionKey),
                (" arch  "@, Tone::Plain),
                ("d"@, Tone::ActionKey),
                (" del  "@, Tone::Plain),
                ("s"@, Tone::ActionKey),
                (" spam"@, Tone::Plain),
            ]
        } else {
            Seq::empty()
        },
        InputMode::Insert => seq![
            ("Esc"@, Tone::Key),
            (" back  "@, Tone::Plain),
            ("↑↓"@, Tone::Key),
            (" nav  "@, Tone::Plain),
            ("  "@, Tone::Plain),
            ("/"@, Tone::Command),
            ("reply "@, Tone::Plain),
            ("/"@, Tone::Command),
            ("archive "@, Tone::Plain),
            ("/"@, Tone::Command),
            ("delete "@, Tone::Plain),
            ("/"@, Tone::Command),
            ("compose "@, Tone::Plain),
            ("/"@, Tone::Command),
            ("mark-folder-read"@, Tone::Plain),
        ],
        InputMode::EmailOpen => seq![
            ("Esc"@, Tone::Key),
            (" close  "@, Tone::Plain),
            ("s"@, Tone::Confirm),
            (" send  "@, Tone::Plain),
            ("d"@, Tone::Cancel),
            (" discard  "@, Tone::Plain),
            ("i"@, Tone::Key),
            (" edit  "@, Tone::Plain),
            ("r"@, Tone::ActionKey),
            (" reply  "@, Tone::Plain),
            ("f"@, Tone::ActionKey),
            (" fwd  "@, Tone::Plain),
            ("a"@, Tone::ActionKey),
            (" archive  "@, Tone::Plain),
            ("m"@, Tone::Key),
            (" max  "@, Tone::Plain),
            ("Tab"@, Tone::Key),
            (" switch"@, Tone::Plain),
        ],
        InputMode::Editing => seq![
            ("Esc"@, Tone::Key),
            (" save draft & close  "@, Tone::Plain),
            ("Type to compose..."@, Tone::Plain),
        ],
        InputMode::Confirm(ca) => seq![
            (" ⚠ "@ + confirm_prompt(ca) + " "@, Tone::Alert),
            ("  "@, Tone::Plain),
            ("y"@, Tone::Confirm),
            (" confirm  "@, Tone::Plain),
            ("n/Esc"@, Tone::Cancel),
            (" cancel"@, Tone::Plain),
        ],
    }
}

/// The whole status line of an app.
pub open spec fn spec_status_items(a: App) -> Seq<(Seq<char>, Tone)> {
    seq![(" "@, Tone::Plain), tab(Mode::Mail, a.mode), tab(Mode::Contacts, a.mode), tab(Mode::Calendar, a.mode), ("  "@, Tone::Plain)]
        + mode_items(a.input_mode, a.panel) + match a.error_message {
        Some(m) => seq![("  ⚠ "@ + m@, Tone::Message)],
        None => Seq::empty(),
    } + if a.loading {
        seq![("  ⏳ loading..."@, Tone::Busy)]
    } else {
        Seq::empty()
    }
}

fn item(text: &str, tone: Tone) -> (r: StatusItem)
    ensures
        r.text@ == text@ && r.tone == tone,
{
    StatusItem { text: to_owned(text), tone }
}

/// Appends pieces, keeping track of the view.
fn push_item(out: &mut Vec<StatusItem>, text: &str, tone: Tone)
    ensures
        items_view(final(out)@) == items_view(old(out)@).push((text@, tone)),
{
    out.push(item(text, tone));
    assert(items_view(final(out)@) =~= items_view(old(out)@).push((text@, tone)));
}

fn add_tab(out: &mut Vec<StatusItem>, m: Mode, current: Mode)
    ensures
        items_view(final(out)@) == items_view(old(out)@).push(tab(m, current)),
{
    let label = m.label();
    let mut text = to_owned(" ");
    push_str(&mut text, label);
    push_str(&mut text, " ");
    let tone = if m == current {
        Tone::ActiveTab
    } else {
        Tone::Tab
    };
    out.push(StatusItem { text, tone });
    assert(items_view(final(out)@) =~= items_view(old(out)@).push(tab(m, current)));
}

impl App {
    /// The status line: mode tabs, the keys of the input mode, the
    /// message and the loading note.
    pub fn status_items(&self) -> (r: Vec<StatusItem>)
        ensures
            items_view(r@) == spec_status_items(*self),
    {
        let mut out: Vec<StatusItem> = Vec::new();
        push_item(&mut out, " ", Tone::Plain);
        add_tab(&mut out, Mode::Mail, self.mode);
        add_tab(&mut out, Mode::Contacts, self.mode);
        add_tab(&mut out, Mode::Calendar, self.mode);
        push_item(&mut out, "  ", Tone::Plain);
        let ghost head = items_view(out@);
        match &self.input_mode {
            InputMode::Normal => {
                push_item(&mut out, "q", Tone::Key);
                push_item(&mut out, " quit  ", Tone::Plain);
                push_item(&mut out, "j/k", Tone::Key);
                push_item(&mut out, " nav  ", Tone::Plain);
                push_item(&mut out, "h/l", Tone::Key);
                push_item(&mut out, " drill  ", Tone::Plain);
                push_item(&mut out, "Enter", Tone::Key);
                push_item(&mut out, " open  ", Tone::Plain);
                push_item(&mut out, "/", Tone::Key);
                push_item(&mut out, " cmd  ", Tone::Plain);
                if self.panel == Panel::Mails {
                    push_item(&mut out, "c", Tone::ActionKey);
                    push_item(&mut out, " new  ", Tone::Plain);
                    push_item(&mut out, "r", Tone::ActionKey);
                    push_item(&mut out, " reply  ", Tone::Plain);
                    push_item(&mut out, "f", Tone::ActionKey);
                    push_item(&mut out, " fwd  ", Tone::Plain);
                    push_item(&mut out, "a", Tone::ActionKey);
                    push_item(&mut out, " arch  ", Tone::Plain);
                    push_item(&mut out, "d", Tone::ActionKey);
                    push_item(&mut out, " del  ", Tone::Plain);
                    push_item(&mut out, "s", Tone::ActionKey);
                    push_item(&mut out, " spam", Tone::Plain);
                }
            },
            InputMode::Insert => {
                push_item(&mut out, "Esc", Tone::Key);
                push_item(&mut out, " back  ", Tone::Plain);
                push_item(&mut out, "↑↓", Tone::Key);
                push_item(&mut out, " nav  ", Tone::Plain);
                push_item(&mut out, "  ", Tone::Plain);
                push_item(&mut out, "/", Tone::Command);
                push_item(&mut out, "reply ", Tone::Plain);
                push_item(&mut out, "/", Tone::Command);
                push_item(&mut out, "archive ", Tone::Plain);
                push_item(&mut out, "/", Tone::Command);
                push_item(&mut out, "delete ", Tone::Plain);
                push_item(&mut out, "/", Tone::Command);
                push_item(&mut out, "compose ", Tone::Plain);
                push_item(&mut out, "/", Tone::Command);
                push_item(&mut out, "mark-folder-read", Tone::Plain);
            },
            InputMode::EmailOpen => {
                push_item(&mut out, "Esc", Tone::Key);
                push_item(&mut out, " close  ", Tone::Plain);
                push_item(&mut out, "s", Tone::Confirm);
                push_item(&mut out, " send  ", Tone::Plain);
                push_item(&mut out, "d", Tone::Cancel);
                push_item(&mut out, " discard  ", Tone::Plain);
                push_item(&mut out, "i", Tone::Key);
                push_item(&mut out, " edit  ", Tone::Plain);
                push_item(&mut out, "r", Tone::ActionKey);
                push_item(&mut out, " reply  ", Tone::Plain);
                push_item(&mut out, "f", Tone::ActionKey);
                push_item(&mut out, " fwd  ", Tone::Plain);
                push_item(&mut out, "a", Tone::ActionKey);
                push_item(&mut out, " archive  ", Tone::Plain);
                push_item(&mut out, "m", Tone::Key);
                push_item(&mut out, " max  ", Tone::Plain);
                push_item(&mut out, "Tab", Tone::Key);
                push_item(&mut out, " switch", Tone::Plain);
            },
            InputMode::Editing => {
                push_item(&mut out, "Esc", Tone::Key);
                push_item(&mut out, " save draft & close  ", Tone::Plain);
                push_item(&mut out, "Type to compose...", Tone::Plain);
            },
            InputMode::Confirm(ca) => {
                let mut prompt = to_owned(" ⚠ ");
                push_str(&mut prompt, ca.prompt());
                push_str(&mut prompt, " ");
                let ghost before = items_view(out@);
                out.push(StatusItem { text: prompt, tone: Tone::Alert });
                assert(items_view(out@) =~= before.push((" ⚠ "@ + confirm_prompt(*ca) + " "@, Tone::Alert)));
                push_item(&mut out, "  ", Tone::Plain);
                push_item(&mut out, "y", Tone::Confirm);
                push_item(&mut out, " confirm  ", Tone::Plain);
                push_item(&mut out, "n/Esc", Tone::Cancel);
                push_item(&mut out, " cancel", Tone::Plain);
            },
        }
        assert(items_view(out@) =~= head + mode_items(self.input_mode, self.panel));
        let ghost mid = items_view(out@);
        match &self.error_message {
            Some(m) => {
                let mut text = to_owned("  ⚠ ");
                push_str(&mut text, m.as_str());
                out.push(StatusItem { text, tone: Tone::Message });
                assert(items_view(out@) =~= mid.push(("  ⚠ "@ + m@, Tone::Message)));
            },
            None => {},
        }
        let ghost mid2 = items_view(out@);
        if self.loading {
            push_item(&mut out, "  ⏳ loading...", Tone::Busy);
        }
        assert(items_view(out@) =~= spec_status_items(*self));
        out
    }
}

} // verus!
