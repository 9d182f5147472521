//! Every user intent is a [`Command`]: the interface's own commands, and
//! the data operations that a background worker carries out.

use vstd::prelude::*;

verus! {

/// User intents and data operations.
#[derive(Debug, Clone, PartialEq)]
pub enum Command {
    // application
    Quit,
    Help,
    NoOp,
    // navigation
    SelectNext,
    SelectPrev,
    FocusLeft,
    FocusRight,
    ScreenNext,
    ScreenPrev,
    OpenItem,
    /// Esc in Normal mode — steps back towards the inbox.
    Escape,
    // search / input bar
    EnterSearch,
    InsertChar(char),
    Backspace,
    ClearInput,
    /// Enter in the input bar: commit the search.
    SubmitInput,
    /// Esc in the input bar: drop the filter, restore the previous view.
    CancelSearch,
    // context actions
    CreateItem,
    EditItem,
    DeleteItem,
    Reply,
    Forward,
    Archive,
    Spam,
    /// `s` on a focused editor popup: send mail / save contact / save event.
    Submit,
    // popups
    TogglePopup(usize),
    MinimizePopup,
    ClosePopup,
    ToggleMaximize,
    FocusNextPopup,
    EditPopup,
    // editor (typing into a popup form)
    EditorChar(char),
    EditorBackspace,
    EditorEnter,
    EditorNextField,
    EditorEscape,
    // confirmation
    ConfirmYes,
    ConfirmNo,
    // calendar navigation
    DayPrev,
    DayNext,
    MonthPrev,
    MonthNext,
    Today,
    // data operations (handled by the worker, all non-blocking)
    Connect,
    LoadFolders,
    LoadMailPage { folder_id: Option<String>, position: usize },
    LoadMailBody(String),
    LoadContacts,
    LoadEvents,
    SendMail {
        to: String,
        cc: String,
        bcc: String,
        subject: String,
        body: String,
        sent_mailbox_id: Option<String>,
    },
    MoveMail {
        email_id: String,
        source_mailbox_id: String,
        target_mailbox_id: String,
        action: String,
    },
    /// Fire-and-forget `$seen` keyword update; not tracked as busy and does
    /// not reload on completion (the optimistic local update suffices).
    MarkMailRead(String),
    CreateContact { name: String, email: String, phone: String },
    UpdateContact { id: String, name: String, email: String, phone: String },
    DeleteContact(String),
    CreateEvent { title: String, start: String, duration: String },
    UpdateEvent { id: String, title: String, start: String, duration: String },
    DeleteEvent(String),
}

/// The commands that a worker carries out against the server (the read
/// marker excepted, which is not tracked).
pub open spec fn spec_is_data(c: Command) -> bool {
    match c {
        Command::Connect | Command::LoadFolders | Command::LoadMailPage { .. }
        | Command::LoadMailBody(_) | Command::LoadContacts | Command::LoadEvents
        | Command::SendMail { .. } | Command::MoveMail { .. } | Command::CreateContact { .. }
        | Command::UpdateContact { .. } | Command::DeleteContact(_) | Command::CreateEvent { .. }
        | Command::UpdateEvent { .. } | Command::DeleteEvent(_) => true,
        _ => false,
    }
}

impl Command {
    /// Data commands are executed by the worker (and tracked as busy by the
    /// app); everything else is UI-local.
    pub fn is_data(&self) -> (r: bool)
        ensures
            r == spec_is_data(*self),
    {
        match self {
            Command::Connect | Command::LoadFolders | Command::LoadMailPage { .. }
            | Command::LoadMailBody(_) | Command::LoadContacts | Command::LoadEvents
            | Command::SendMail { .. } | Command::MoveMail { .. } | Command::CreateContact { .. }
            | Command::UpdateContact { .. } | Command::DeleteContact(_) | Command::CreateEvent { .. }
            | Command::UpdateEvent { .. } | Command::DeleteEvent(_) => true,
            _ => false,
        }
    }
}

} // verus!
