//! List-view state: the top-level modes, the panels of the hierarchy, and
//! the server operations that actions queue.

use vstd::prelude::*;

verus! {

/// Top-level mode — switch between Mail, Contacts, Calendar with Tab.
#[derive(Debug, Clone, Copy, PartialEq, Eq, Structural)]
pub enum Mode {
    Mail,
    Contacts,
    Calendar,
}

pub open spec fn spec_next_mode(m: Mode) -> Mode {
    match m {
        Mode::Mail => Mode::Contacts,
        Mode::Contacts => Mode::Calendar,
        Mode::Calendar => Mode::Mail,
    }
}

pub open spec fn spec_prev_mode(m: Mode) -> Mode {
    match m {
        Mode::Mail => Mode::Calendar,
        Mode::Contacts => Mode::Mail,
        Mode::Calendar => Mode::Contacts,
    }
}

impl Mode {
    /// The modes in Tab order.
    pub fn all() -> (r: [Mode; 3])
        ensures
            r@ == seq![Mode::Mail, Mode::Contacts, Mode::Calendar],
    {
        let r = [Mode::Mail, Mode::Contacts, Mode::Calendar];
        assert(r@ =~= seq![Mode::Mail, Mode::Contacts, Mode::Calendar]);
        r
    }

    pub fn label(self) -> (r: &'static str)
        ensures
            self == Mode::Mail ==> r@ == "Mail"@,
            self == Mode::Contacts ==> r@ == "Contacts"@,
            self == Mode::Calendar ==> r@ == "Calendar"@,
    {
        match self {
            Mode::Mail => "Mail",
            Mode::Contacts => "Contacts",
            Mode::Calendar => "Calendar",
        }
    }

    pub fn next(self) -> (r: Mode)
        ensures
            r == spec_next_mode(self),
    {
        match self {
            Mode::Mail => Mode::Contacts,
            Mode::Contacts => Mode::Calendar,
            Mode::Calendar => Mode::Mail,
        }
    }

    pub fn prev(self) -> (r: Mode)
        ensures
            r == spec_prev_mode(self),
    {
        match self {
            Mode::Mail => Mode::Calendar,
            Mode::Contacts => Mode::Mail,
            Mode::Calendar => Mode::Contacts,
        }
    }
}

/// Switching forward then back (or back then forward) returns to the same
/// mode, and three steps forward come round again.
pub proof fn law_mode_cycle(m: Mode)
    ensures
        spec_prev_mode(spec_next_mode(m)) == m,
        spec_next_mode(spec_prev_mode(m)) == m,
        spec_next_mode(spec_next_mode(spec_next_mode(m))) == m,
{
}

/// Which level of the hierarchy is currently shown.
#[derive(Debug, Clone, Copy, PartialEq, Eq, Structural)]
pub enum Panel {
    Profiles,
    Folders,
    Mails,
    Contacts,
    Calendar,
}

impl Panel {
    /// The panel's name as the results list shows it.
    pub fn title(self) -> (r: &'static str)
        ensures
            self == Panel::Profiles ==> r@ == "Profiles"@,
            self == Panel::Folders ==> r@ == "Folders"@,
            self == Panel::Mails ==> r@ == "Inbox"@,
            self == Panel::Contacts ==> r@ == "Contacts"@,
            self == Panel::Calendar ==> r@ == "Calendar"@,
    {
        match self {
            Panel::Profiles => "Profiles",
            Panel::Folders => "Folders",
            Panel::Mails => "Inbox",
            Panel::Contacts => "Contacts",
            Panel::Calendar => "Calendar",
        }
    }

    /// Title for the results list; the mail panel shows the folder name,
    /// or "All Mail" for a search across folders.
    pub fn results_title<'a>(self, active_folder_name: &'a str, search_all_folders: bool) -> (r: &'a str)
        ensures
            self == Panel::Profiles ==> r@ == "Profiles"@,
            self == Panel::Folders ==> r@ == "Folders"@,
            self == Panel::Mails ==> r@ == if search_all_folders {
                "All Mail"@
            } else {
                active_folder_name@
            },
            self == Panel::Contacts ==> r@ == "Contacts"@,
            self == Panel::Calendar ==> r@ == "Calendar"@,
    {
        match self {
            Panel::Profiles => "Profiles",
            Panel::Folders => "Folders",
            Panel::Mails => if search_all_folders {
                "All Mail"
            } else {
                active_folder_name
            },
            Panel::Contacts => "Contacts",
            Panel::Calendar => "Calendar",
        }
    }
}

/// A server-side operation queued by an action, executed by the event loop.
#[derive(Debug, Clone)]
pub enum PendingAction {
    /// Move an email to another mailbox (archive/delete/spam).
    Move { email_id: String, source_mailbox_id: String, target_mailbox_id: String, action_name: String },
    /// Send an email composed in a popout.
    SendMail { to: String, cc: String, bcc: String, subject: String, body: String },
    CreateContact { name: String, email: String, phone: String },
    DeleteContact(String),
    CreateEvent { title: String, start: String, duration: String },
    DeleteEvent(String),
}

/// The kind of work a queued operation is, as messages name it.
pub fn action_label(action: &PendingAction) -> (r: &'static str)
    ensures
        action is Move ==> r@ == "move"@,
        action is SendMail ==> r@ == "send"@,
        (action is CreateContact || action is DeleteContact) ==> r@ == "contact"@,
        (action is CreateEvent || action is DeleteEvent) ==> r@ == "event"@,
{
    match action {
        PendingAction::Move { .. } => "move",
        PendingAction::SendMail { .. } => "send",
        PendingAction::CreateContact { .. } => "contact",
        PendingAction::DeleteContact(_) => "contact",
        PendingAction::CreateEvent { .. } => "event",
        PendingAction::DeleteEvent(_) => "event",
    }
}

} // verus!
