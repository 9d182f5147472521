//! Action handling: each keyboard action as a change of the app state,
//! with what it asks of the event loop.
//!
//! Every step is stated as a relation between the state before and after
//! (the `rel_*` functions), and `handle_action` is stated as the relation
//! its action selects.

use vstd::prelude::*;

use crate::config::Profile;
use crate::seqs::first_match;
use crate::strings::{lowercase, push_str, str_eq, str_trim, to_lowercase, to_owned, trim_ws};
use crate::tui::app::{
    app_wf, folder_named, folder_position, folder_with_id, same_data, same_list, same_queue,
    same_ui, same_where, sel_or_first, spec_preview, spec_selected_id, spec_target_mail, App,
    Effects, PendingMove,
};
use crate::tui::event::{Action, ConfirmAction, InputMode};
use crate::tui::app::{mail_lines, mail_text_lines, spec_list_mail};
use crate::tui::editor::{backspace, enter, insert_char, rel_backspace, rel_enter, rel_insert_char};
use crate::tui::popout::{
    id_differs, law_close_keeps_manager_wf, spec_closed_focused, lines_view, manager_wf, quote_lines, signature_block,
    spec_lines, spec_minimized_focused, spec_switched_focus, spec_toggled_maximize, HeaderField,
    Popout, PopoutKind, PopoutManager, PopoutState, MAX_POPOUTS,
};
use crate::tui::state::{spec_next_mode, spec_prev_mode};
use crate::tui::state::{Mode, Panel};

verus! {

/// No request to the event loop.
pub open spec fn no_effects() -> Effects {
    Effects { reset_matcher: false, refind: false, drop_client: false }
}

/// The list was reset for a new panel: no input, first row selected, no
/// results and no preview.
pub open spec fn list_reset(n: App) -> bool {
    &&& n.input@.len() == 0
    &&& n.selected == Some(0usize)
    &&& n.results@.len() == 0
    &&& n.preview_content is None
}

/// The panel a mode shows.
pub open spec fn panel_of(m: Mode) -> Panel {
    match m {
        Mode::Mail => Panel::Mails,
        Mode::Contacts => Panel::Contacts,
        Mode::Calendar => Panel::Calendar,
    }
}

/// Besides the list and the place, nothing changed.
pub open spec fn same_rest(o: App, n: App) -> bool {
    &&& same_data(o, n)
    &&& same_ui(o, n)
    &&& same_queue(o, n)
    &&& n.popouts == o.popouts
}

/// The app moved to `panel` with a fresh list, asking for an empty
/// matcher.
pub open spec fn moved_to(o: App, n: App, e: Effects, panel: Panel) -> bool {
    &&& n.panel == panel
    &&& list_reset(n)
    &&& same_rest(o, n)
    &&& n.mode == o.mode
    &&& e.reset_matcher && !e.refind
}

/// Selecting the previous row (and previewing it).
pub open spec fn rel_select_prev(o: App, n: App) -> bool {
    let s = sel_or_first(o);
    if s > 0 {
        &&& n.selected == Some((s - 1) as usize)
        &&& crate::tui::app::preview_view(n.preview_content) == spec_preview(n)
        &&& same_rest(o, n)
        &&& n.input == o.input && n.results == o.results
        &&& crate::tui::app::same_where(o, n)
    } else {
        n == o
    }
}

/// Selecting the next row, when there is one (and previewing it).
pub open spec fn rel_select_next(o: App, n: App) -> bool {
    let s = sel_or_first(o);
    if s < o.results@.len() - 1 {
        &&& n.selected == Some((s + 1) as usize)
        &&& crate::tui::app::preview_view(n.preview_content) == spec_preview(n)
        &&& same_rest(o, n)
        &&& n.input == o.input && n.results == o.results
        &&& crate::tui::app::same_where(o, n)
    } else {
        n == o
    }
}

/// Going deeper: from a profile to its folders, from a folder to its
/// mails.
pub open spec fn rel_navigate_right(o: App, n: App, e: Effects) -> bool {
    match o.panel {
        Panel::Profiles => match spec_selected_id(o) {
            Some(id) => {
                &&& moved_to(o, n, e, Panel::Folders)
                &&& e.drop_client
                &&& n.active_profile_name@ == id
                &&& n.active_folder_id == o.active_folder_id
                &&& n.active_folder_name == o.active_folder_name
            },
            None => n == o && e == no_effects(),
        },
        Panel::Folders => match spec_selected_id(o) {
            Some(id) => match first_match(o.folders@, folder_with_id(id)) {
                Some(k) => {
                    &&& moved_to(o, n, e, Panel::Mails)
                    &&& !e.drop_client
                    &&& n.active_profile_name == o.active_profile_name
                    &&& n.active_folder_id == Some(o.folders@[k].id)
                    &&& n.active_folder_name == o.folders@[k].name
                },
                None => n == o && e == no_effects(),
            },
            None => n == o && e == no_effects(),
        },
        _ => n == o && e == no_effects(),
    }
}

/// Going back up: mails to folders, anything else to the profiles.
pub open spec fn rel_navigate_left(o: App, n: App, e: Effects) -> bool {
    match o.panel {
        Panel::Profiles => n == o && e == no_effects(),
        _ => {
            &&& moved_to(
                o,
                n,
                e,
                if o.panel == Panel::Mails {
                    Panel::Folders
                } else {
                    Panel::Profiles
                },
            )
            &&& !e.drop_client
            &&& n.active_profile_name == o.active_profile_name
            &&& n.active_folder_id == o.active_folder_id
            &&& n.active_folder_name == o.active_folder_name
        },
    }
}

/// Switching the top-level mode shows that mode's panel afresh.
pub open spec fn rel_switch_mode(o: App, n: App, e: Effects, m: Mode) -> bool {
    if m == o.mode {
        n == o && e == no_effects()
    } else {
        &&& n.mode == m
        &&& n.panel == panel_of(m)
        &&& list_reset(n)
        &&& same_rest(o, n)
        &&& e == (Effects { reset_matcher: true, refind: false, drop_client: false })
        &&& n.active_profile_name == o.active_profile_name
        &&& n.active_folder_id == o.active_folder_id
        &&& n.active_folder_name == o.active_folder_name
    }
}

impl App {
    /// Resets the list for a new panel.
    fn reset_for_panel(&mut self) -> (e: Effects)
        ensures
            list_reset(*final(self)),
            same_rest(*old(self), *final(self)),
            final(self).mode == old(self).mode && final(self).panel == old(self).panel,
            final(self).active_profile_name == old(self).active_profile_name,
            final(self).active_folder_id == old(self).active_folder_id,
            final(self).active_folder_name == old(self).active_folder_name,
            e == (Effects { reset_matcher: true, refind: false, drop_client: false }),
    {
        self.input = String::new();
        self.selected = Some(0);
        self.results = Vec::new();
        self.preview_content = None;
        Effects { reset_matcher: true, refind: false, drop_client: false }
    }

    /// Moves the selection up one row.
    pub fn select_prev(&mut self)
        ensures
            rel_select_prev(*old(self), *final(self)),
    {
        let sel = match self.selected {
            Some(s) => s,
            None => 0,
        };
        if sel > 0 {
            self.selected = Some(sel - 1);
            self.update_preview();
        }
    }

    /// Moves the selection down one row.
    pub fn select_next(&mut self)
        ensures
            rel_select_next(*old(self), *final(self)),
    {
        let sel = match self.selected {
            Some(s) => s,
            None => 0,
        };
        let max = if self.results.len() >= 1 {
            self.results.len() - 1
        } else {
            0
        };
        if sel < max {
            self.selected = Some(sel + 1);
            self.update_preview();
        }
    }

    /// Navigates deeper into the hierarchy.
    pub fn navigate_right(&mut self) -> (e: Effects)
        ensures
            rel_navigate_right(*old(self), *final(self), e),
    {
        match self.panel {
            Panel::Profiles => {
                let name = match self.selected_id() {
                    Some(id) => Some(to_string(id)),
                    None => None,
                };
                match name {
                    Some(n) => {
                        self.active_profile_name = n;
                        self.panel = Panel::Folders;
                        let e = self.reset_for_panel();
                        Effects { drop_client: true, ..e }
                    },
                    None => Effects { reset_matcher: false, refind: false, drop_client: false },
                }
            },
            Panel::Folders => {
                let found = match self.selected_id() {
                    Some(id) => match folder_position(&self.folders, id, false) {
                        Some(k) => Some((self.folders[k].id.clone(), self.folders[k].name.clone())),
                        None => None,
                    },
                    None => None,
                };
                match found {
                    Some((id, name)) => {
                        self.active_folder_id = Some(id);
                        self.active_folder_name = name;
                        self.panel = Panel::Mails;
                        self.reset_for_panel()
                    },
                    None => Effects { reset_matcher: false, refind: false, drop_client: false },
                }
            },
            _ => Effects { reset_matcher: false, refind: false, drop_client: false },
        }
    }

    /// Navigates back up the hierarchy.
    pub fn navigate_left(&mut self) -> (e: Effects)
        ensures
            rel_navigate_left(*old(self), *final(self), e),
    {
        match self.panel {
            Panel::Mails => {
                self.panel = Panel::Folders;
                self.reset_for_panel()
            },
            Panel::Profiles => Effects { reset_matcher: false, refind: false, drop_client: false },
            _ => {
                self.panel = Panel::Profiles;
                self.reset_for_panel()
            },
        }
    }

    /// Switches the top-level mode.
    pub fn switch_mode(&mut self, new_mode: Mode) -> (e: Effects)
        ensures
            rel_switch_mode(*old(self), *final(self), e, new_mode),
    {
        if new_mode == self.mode {
            return Effects { reset_matcher: false, refind: false, drop_client: false };
        }
        self.mode = new_mode;
        self.panel = match new_mode {
            Mode::Mail => Panel::Mails,
            Mode::Contacts => Panel::Contacts,
            Mode::Calendar => Panel::Calendar,
        };
        self.reset_for_panel()
    }
}

/// The app's message is `msg`.
pub open spec fn error_is(n: App, msg: Seq<char>) -> bool {
    n.error_message matches Some(m) && m@ == msg
}

/// Only the message changed, to `msg`.
pub open spec fn errored(o: App, n: App, msg: Seq<char>) -> bool {
    &&& error_is(n, msg)
    &&& same_data(o, n) && same_queue(o, n) && n.popouts == o.popouts
    &&& same_list(o, n) && same_where(o, n)
    &&& n.input_mode == o.input_mode && n.selected_mail == o.selected_mail
    &&& n.show_quit_confirm == o.show_quit_confirm && n.pre_confirm_mode == o.pre_confirm_mode
    &&& n.should_quit == o.should_quit
}

/// The settings of the active profile, when it is configured.
pub open spec fn active_profile(a: App) -> Option<Profile> {
    if a.config.profiles@.contains_key(a.active_profile_name@) {
        Some(a.config.profiles@[a.active_profile_name@])
    } else {
        None
    }
}

/// The active profile's signature.
pub open spec fn spec_signature(a: App) -> Option<Seq<char>> {
    match active_profile(a) {
        Some(p) => match p.signature {
            Some(s) => Some(s@),
            None => None,
        },
        None => None,
    }
}

/// A configured name, else the default.
pub open spec fn configured_or(o: Option<String>, d: Seq<char>) -> Seq<char> {
    match o {
        Some(s) => s@,
        None => d,
    }
}

/// The folder a mail action moves to: from the profile's folder
/// mappings, else "Archive", "Junk" or "Trash"; `None` for an unknown
/// action.
pub open spec fn spec_target_folder_name(a: App, target: Seq<char>) -> Option<Seq<char>> {
    let p = active_profile(a);
    if target == "archive"@ {
        Some(
            match p {
                Some(p) => configured_or(p.folders.archive, "Archive"@),
                None => "Archive"@,
            },
        )
    } else if target == "spam"@ {
        Some(
            match p {
                Some(p) => configured_or(p.folders.spam, "Junk"@),
                None => "Junk"@,
            },
        )
    } else if target == "delete"@ || target == "trash"@ {
        Some(
            match p {
                Some(p) => configured_or(p.folders.trash, "Trash"@),
                None => "Trash"@,
            },
        )
    } else {
        None
    }
}

pub open spec fn move_view(m: PendingMove) -> (Seq<char>, Seq<char>, Seq<char>, Seq<char>) {
    (m.email_id@, m.target_mailbox_id@, m.source_mailbox_id@, m.action_name@)
}

/// The move (email, target folder, source folder, action) a mail action
/// queues, or the message that stops it.
pub open spec fn spec_move(a: App, target: Seq<char>, email_id: Seq<char>) -> Result<
    (Seq<char>, Seq<char>, Seq<char>, Seq<char>),
    Seq<char>,
> {
    match spec_target_folder_name(a, target) {
        None => Err("Unknown target: "@ + target),
        Some(name) => match first_match(a.folders@, folder_named(name)) {
            None => Err("Folder not found: "@ + name),
            Some(k) => Ok(
                (email_id, a.folders@[k].id@, configured_or(a.active_folder_id, Seq::empty()), target),
            ),
        },
    }
}

/// The move `mv` was queued and the open mail closed; nothing else but
/// the input mode (when `to_normal`) changed.
pub open spec fn queued_move(
    o: App,
    n: App,
    mv: (Seq<char>, Seq<char>, Seq<char>, Seq<char>),
    to_normal: bool,
) -> bool {
    &&& n.pending_move matches Some(p) && move_view(p) == mv
    &&& n.needs_reload
    &&& n.selected_mail is None
    &&& n.input_mode == (if to_normal {
        InputMode::Normal
    } else {
        o.input_mode
    })
    &&& n.pending_compose == o.pending_compose
    &&& n.pending_contact_create == o.pending_contact_create
    &&& n.pending_contact_delete == o.pending_contact_delete
    &&& n.pending_event_create == o.pending_event_create
    &&& n.pending_event_delete == o.pending_event_delete
    &&& same_data(o, n) && n.popouts == o.popouts && same_list(o, n) && same_where(o, n)
    &&& n.error_message == o.error_message && n.show_quit_confirm == o.show_quit_confirm
    &&& n.pre_confirm_mode == o.pre_confirm_mode && n.should_quit == o.should_quit
}

/// Running a confirmed mail action: the move is queued, or the message
/// says why not.
pub open spec fn rel_execute_confirmed(o: App, n: App, target: Seq<char>, email_id: Seq<char>) -> bool {
    match spec_move(o, target, email_id) {
        Err(msg) => errored(o, n, msg),
        Ok(mv) => queued_move(o, n, mv, false),
    }
}

/// A mail action from a slash command: only in the mail view, on the
/// open or selected mail, queued at once.
pub open spec fn rel_slash_action(o: App, n: App, target: Seq<char>) -> bool {
    if o.panel != Panel::Mails {
        errored(o, n, "Mail actions only available in Mail view"@)
    } else {
        match spec_target_mail(o) {
            None => errored(o, n, "No email selected"@),
            Some(m) => match spec_move(o, target, m.id@) {
                Err(msg) => errored(o, n, msg),
                Ok(mv) => queued_move(o, n, mv, true),
            },
        }
    }
}

/// The confirmation a mail action asks for.
pub open spec fn confirm_for(target: Seq<char>, id: String) -> Option<ConfirmAction> {
    if target == "delete"@ {
        Some(ConfirmAction::Delete(id))
    } else if target == "archive"@ {
        Some(ConfirmAction::Archive(id))
    } else if target == "spam"@ {
        Some(ConfirmAction::Spam(id))
    } else {
        None
    }
}

/// A destructive mail action from a key: only in the mail view, on the
/// open or selected mail, it first asks for confirmation, remembering the
/// mode to return to.
pub open spec fn rel_request_confirm(o: App, n: App, target: Seq<char>) -> bool {
    if o.panel != Panel::Mails {
        errored(o, n, "Mail actions only available in Mail view"@)
    } else {
        match spec_target_mail(o) {
            None => errored(o, n, "No email selected"@),
            Some(m) => match confirm_for(target, m.id) {
                None => errored(o, n, "Unknown target: "@ + target),
                Some(ca) => {
                    &&& n.input_mode == InputMode::Confirm(ca)
                    &&& n.pre_confirm_mode == Some(o.input_mode)
                    &&& same_data(o, n) && same_queue(o, n) && n.popouts == o.popouts
                    &&& same_list(o, n) && same_where(o, n)
                    &&& n.error_message == o.error_message && n.selected_mail == o.selected_mail
                    &&& n.show_quit_confirm == o.show_quit_confirm && n.should_quit == o.should_quit
                },
            },
        }
    }
}

/// A copy of an input mode.
pub fn copy_mode(m: &InputMode) -> (r: InputMode)
    ensures
        r == *m,
{
    match m {
        InputMode::Normal => InputMode::Normal,
        InputMode::Insert => InputMode::Insert,
        InputMode::EmailOpen => InputMode::EmailOpen,
        InputMode::Editing => InputMode::Editing,
        InputMode::Confirm(ca) => InputMode::Confirm(
            match ca {
                ConfirmAction::Delete(id) => ConfirmAction::Delete(id.clone()),
                ConfirmAction::Archive(id) => ConfirmAction::Archive(id.clone()),
                ConfirmAction::Spam(id) => ConfirmAction::Spam(id.clone()),
            },
        ),
    }
}

/// `label` followed by `text`.
fn joined(label: &str, text: &str) -> (r: String)
    ensures
        r@ == label@ + text@,
{
    let mut s = to_owned(label);
    push_str(&mut s, text);
    s
}

impl App {
    /// The active profile's settings.
    fn profile(&self) -> (r: Option<&Profile>)
        ensures
            match active_profile(*self) {
                Some(p) => r matches Some(q) && *q == p,
                None => r is None,
            },
    {
        match self.config.profiles.get_key_value(self.active_profile_name.as_str()) {
            Some((_, p)) => Some(p),
            None => None,
        }
    }

    /// The active profile's signature.
    pub fn get_signature(&self) -> (r: Option<String>)
        ensures
            match spec_signature(*self) {
                Some(s) => r matches Some(t) && t@ == s,
                None => r is None,
            },
    {
        match self.profile() {
            Some(p) => match &p.signature {
                Some(s) => Some(s.clone()),
                None => None,
            },
            None => None,
        }
    }

    /// The folder name a mail action moves to.
    fn target_folder_name(&self, target: &str) -> (r: Option<String>)
        ensures
            match spec_target_folder_name(*self, target@) {
                Some(name) => r matches Some(s) && s@ == name,
                None => r is None,
            },
    {
        let prof = self.profile();
        let (configured, fallback): (Option<&String>, &str) = if str_eq(target, "archive") {
            (
                match prof {
                    Some(p) => p.folders.archive.as_ref(),
                    None => None,
                },
                "Archive",
            )
        } else if str_eq(target, "spam") {
            (
                match prof {
                    Some(p) => p.folders.spam.as_ref(),
                    None => None,
                },
                "Junk",
            )
        } else if str_eq(target, "delete") || str_eq(target, "trash") {
            (
                match prof {
                    Some(p) => p.folders.trash.as_ref(),
                    None => None,
                },
                "Trash",
            )
        } else {
            return None;
        };
        match configured {
            Some(s) => Some(s.clone()),
            None => Some(to_owned(fallback)),
        }
    }

    /// The move a mail action queues, or the message that stops it.
    fn move_for(&self, target: &str, email_id: &str) -> (r: Result<PendingMove, String>)
        ensures
            match spec_move(*self, target@, email_id@) {
                Ok(mv) => r matches Ok(p) && move_view(p) == mv,
                Err(msg) => r matches Err(m) && m@ == msg,
            },
    {
        let name = match self.target_folder_name(target) {
            Some(n) => n,
            None => {
                return Err(joined("Unknown target: ", target));
            },
        };
        match folder_position(&self.folders, name.as_str(), true) {
            Some(k) => {
                let source = match &self.active_folder_id {
                    Some(id) => id.clone(),
                    None => String::new(),
                };
                Ok(
                    PendingMove {
                        email_id: to_owned(email_id),
                        target_mailbox_id: self.folders[k].id.clone(),
                        source_mailbox_id: source,
                        action_name: to_owned(target),
                    },
                )
            },
            None => Err(joined("Folder not found: ", name.as_str())),
        }
    }

    /// Runs a confirmed mail action.
    pub fn execute_confirmed_action(&mut self, target: &str, email_id: &str)
        ensures
            rel_execute_confirmed(*old(self), *final(self), target@, email_id@),
    {
        match self.move_for(target, email_id) {
            Ok(mv) => {
                self.pending_move = Some(mv);
                self.selected_mail = None;
                self.needs_reload = true;
            },
            Err(msg) => {
                self.error_message = Some(msg);
            },
        }
    }

    /// The id of the open mail, else of the selected one.
    fn target_mail_id(&self) -> (r: Option<String>)
        ensures
            match spec_target_mail(*self) {
                Some(m) => r matches Some(id) && id == m.id,
                None => r is None,
            },
    {
        match &self.selected_mail {
            Some(m) => Some(m.id.clone()),
            None => match self.list_mail() {
                Some(m) => Some(m.id.clone()),
                None => None,
            },
        }
    }

    /// A mail action from a slash command: queued without confirmation.
    pub fn slash_action(&mut self, target: &str)
        ensures
            rel_slash_action(*old(self), *final(self), target@),
    {
        if self.panel != Panel::Mails {
            self.error_message = Some(to_owned("Mail actions only available in Mail view"));
            return;
        }
        let id = match self.target_mail_id() {
            Some(id) => id,
            None => {
                self.error_message = Some(to_owned("No email selected"));
                return;
            },
        };
        match self.move_for(target, id.as_str()) {
            Ok(mv) => {
                self.pending_move = Some(mv);
                self.selected_mail = None;
                self.input_mode = InputMode::Normal;
                self.needs_reload = true;
            },
            Err(msg) => {
                self.error_message = Some(msg);
            },
        }
    }

    /// A destructive mail action from a key: asks for confirmation first.
    pub fn request_confirm_action(&mut self, target: &str)
        ensures
            rel_request_confirm(*old(self), *final(self), target@),
    {
        if self.panel != Panel::Mails {
            self.error_message = Some(to_owned("Mail actions only available in Mail view"));
            return;
        }
        let id = match self.target_mail_id() {
            Some(id) => id,
            None => {
                self.error_message = Some(to_owned("No email selected"));
                return;
            },
        };
        let ca = if str_eq(target, "delete") {
            ConfirmAction::Delete(id)
        } else if str_eq(target, "archive") {
            ConfirmAction::Archive(id)
        } else if str_eq(target, "spam") {
            ConfirmAction::Spam(id)
        } else {
            self.error_message = Some(joined("Unknown target: ", target));
            return;
        };
        self.pre_confirm_mode = Some(copy_mode(&self.input_mode));
        self.input_mode = InputMode::Confirm(ca);
    }
}

/// Index of the focused popout, when it is one of the open popouts.
pub open spec fn focused_index(a: App) -> Option<int> {
    match a.popouts.focused {
        Some(i) => if i < a.popouts.popouts@.len() {
            Some(i as int)
        } else {
            None
        },
        None => None,
    }
}

/// The focused popout is a draft (not an email view).
pub open spec fn focused_is_editor(a: App) -> bool {
    focused_index(a) matches Some(i) && !(a.popouts.popouts@[i].kind is EmailView)
}

/// The list, the place, the data and the queue are unchanged.
pub open spec fn same_view_and_queue(o: App, n: App) -> bool {
    &&& same_data(o, n) && same_queue(o, n) && same_list(o, n) && same_where(o, n)
    &&& n.show_quit_confirm == o.show_quit_confirm && n.pre_confirm_mode == o.pre_confirm_mode
    &&& n.should_quit == o.should_quit
}

/// Closing the focused popout, leaving the message `msg` (or the old one);
/// with no popout left the app returns to the list.
pub open spec fn rel_close(o: App, n: App, msg: Option<Seq<char>>) -> bool {
    &&& spec_closed_focused(o.popouts, n.popouts)
    &&& if n.popouts.popouts@.len() == 0 {
        n.input_mode == InputMode::Normal && n.selected_mail is None
    } else {
        n.input_mode == o.input_mode && n.selected_mail == o.selected_mail
    }
    &&& match msg {
        Some(m) => error_is(n, m),
        None => n.error_message == o.error_message,
    }
    &&& same_view_and_queue(o, n)
}

/// A new popout was opened: it gets the next id, the oldest one gives way
/// when two are open, and the new one has the focus.
pub open spec fn opened(o: PopoutManager, n: PopoutManager) -> bool {
    &&& n.next_id == o.next_id + 1
    &&& n.popouts@.len() > 0
    &&& n.popouts@ == (if o.popouts@.len() >= MAX_POPOUTS {
        o.popouts@.drop_first()
    } else {
        o.popouts@
    }).push(n.popouts@.last())
    &&& n.popouts@.last().id == o.next_id
    &&& n.focused == Some((n.popouts@.len() - 1) as usize)
}

/// A fresh draft of `kind` with these headers and body text.
pub open spec fn is_draft(
    p: Popout,
    kind: PopoutKind,
    title: Seq<char>,
    to: Seq<char>,
    subject: Seq<char>,
    buffer: Seq<char>,
) -> bool {
    &&& p.kind == kind && p.title@ == title && p.state == PopoutState::Normal
    &&& p.to@ == to && p.subject@ == subject && p.cc@.len() == 0 && p.bcc@.len() == 0
    &&& p.editor_buffer@ == buffer && p.editor_cursor == 0 && p.editing_field is None
}

/// A popout was opened, the app went to `mode`, and nothing else but the
/// open mail (when `open` is given) changed.
pub open spec fn opened_in(o: App, n: App, mode: InputMode, open: Option<crate::tui::entries::MailEntry>) -> bool {
    &&& opened(o.popouts, n.popouts)
    &&& n.input_mode == mode
    &&& n.selected_mail == match open {
        Some(m) => Some(m),
        None => o.selected_mail,
    }
    &&& n.error_message == o.error_message
    &&& same_view_and_queue(o, n)
}

/// Composing a new draft, led by the profile's signature.
pub open spec fn rel_compose(o: App, n: App) -> bool {
    &&& opened_in(o, n, InputMode::Editing, None)
    &&& is_draft(
        n.popouts.popouts@.last(),
        PopoutKind::Compose,
        "New Draft"@,
        Seq::empty(),
        Seq::empty(),
        signature_block(spec_signature(o)),
    )
}

/// Replying to the open or selected mail.
pub open spec fn rel_slash_reply(o: App, n: App) -> bool {
    match spec_target_mail(o) {
        None => errored(o, n, "No email selected"@),
        Some(m) => {
            &&& opened_in(o, n, InputMode::Editing, None)
            &&& is_draft(
                n.popouts.popouts@.last(),
                PopoutKind::Reply { original_id: m.id },
                "Reply: "@ + m.subject@,
                m.from@,
                "Re: "@ + m.subject@,
                signature_block(spec_signature(o)) + "\n\n"@ + quote_lines(spec_lines(m.preview@)),
            )
        },
    }
}

/// Forwarding the open or selected mail.
pub open spec fn rel_slash_forward(o: App, n: App) -> bool {
    match spec_target_mail(o) {
        None => errored(o, n, "No email selected"@),
        Some(m) => {
            &&& opened_in(o, n, InputMode::Editing, None)
            &&& is_draft(
                n.popouts.popouts@.last(),
                PopoutKind::Forward { original_id: m.id },
                "Fwd: "@ + m.subject@,
                Seq::empty(),
                "Fwd: "@ + m.subject@,
                signature_block(spec_signature(o)) + "\n\n--- Forwarded message ---\n\n"@ + m.preview@,
            )
        },
    }
}

/// Opening the selection: a mail opens in a popout, a profile or folder
/// is entered.
pub open spec fn rel_open_item(o: App, n: App, e: Effects) -> bool {
    match o.panel {
        Panel::Mails => match spec_list_mail(o) {
            Some(m) => {
                &&& opened_in(o, n, InputMode::EmailOpen, Some(m))
                &&& e == no_effects()
                &&& n.popouts.popouts@.last().kind == (PopoutKind::EmailView { email_id: m.id })
                &&& n.popouts.popouts@.last().title == m.subject
                &&& n.popouts.popouts@.last().state == PopoutState::Normal
                &&& lines_view(n.popouts.popouts@.last().body@) == mail_text_lines(m, false, true)
            },
            None => n == o && e == no_effects(),
        },
        Panel::Folders | Panel::Profiles => rel_navigate_right(o, n, e),
        _ => n == o && e == no_effects(),
    }
}

/// Only the focused popout changed, as `step` relates it; nothing else.
pub open spec fn focused_edited(o: App, n: App, step: spec_fn(Popout, Popout) -> bool) -> bool {
    match focused_index(o) {
        Some(i) => {
            &&& n.popouts.popouts@.len() == o.popouts.popouts@.len()
            &&& step(o.popouts.popouts@[i], n.popouts.popouts@[i])
            &&& forall|j: int|
                0 <= j < o.popouts.popouts@.len() && j != i ==> #[trigger] n.popouts.popouts@[j]
                    == o.popouts.popouts@[j]
            &&& n.popouts.focused == o.popouts.focused && n.popouts.next_id == o.popouts.next_id
            &&& same_view_and_queue(o, n) && same_ui(o, n)
        },
        None => n == o,
    }
}

/// Starting to edit header field `f` of the focused draft.
pub open spec fn rel_edit_field(o: App, n: App, f: HeaderField) -> bool {
    if focused_is_editor(o) {
        let i = focused_index(o)->0;
        &&& n.popouts.popouts@ == o.popouts.popouts@.update(
            i,
            Popout { editing_field: Some(f), ..o.popouts.popouts@[i] },
        )
        &&& n.popouts.focused == o.popouts.focused && n.popouts.next_id == o.popouts.next_id
        &&& n.input_mode == InputMode::Editing
        &&& n.error_message == o.error_message && n.selected_mail == o.selected_mail
        &&& same_view_and_queue(o, n)
    } else {
        n == o
    }
}

impl App {
    /// Index of the focused popout.
    fn focused_idx(&self) -> (r: Option<usize>)
        ensures
            match focused_index(*self) {
                Some(i) => r == Some(i as usize),
                None => r is None,
            },
    {
        match self.popouts.focused {
            Some(i) => if i < self.popouts.popouts.len() {
                Some(i)
            } else {
                None
            },
            None => None,
        }
    }

    /// Whether the focused popout is a draft.
    pub fn focused_is_editor(&self) -> (r: bool)
        ensures
            r == focused_is_editor(*self),
    {
        match self.focused_idx() {
            Some(i) => self.popouts.popouts[i].is_editor(),
            None => false,
        }
    }

    /// Closes the focused popout, leaving `msg` as the message; with none
    /// left, back to the list.
    fn close_focused_popout(&mut self, msg: Option<&str>)
        requires
            app_wf(*old(self)),
        ensures
            rel_close(
                *old(self),
                *final(self),
                match msg {
                    Some(m) => Some(m@),
                    None => None,
                },
            ),
            app_wf(*final(self)),
    {
        self.popouts.close_focused();
        match msg {
            Some(m) => {
                self.error_message = Some(to_owned(m));
            },
            None => {},
        }
        if self.popouts.popouts.len() == 0 {
            self.input_mode = InputMode::Normal;
            self.selected_mail = None;
        }
    }

    /// Opens a new draft.
    pub fn compose(&mut self)
        requires
            old(self).popouts.next_id < u32::MAX,
            app_wf(*old(self)),
        ensures
            rel_compose(*old(self), *final(self)),
            app_wf(*final(self)),
    {
        let sig = self.get_signature();
        let popout = Popout::compose(0, match &sig {
            Some(s) => Some(s.as_str()),
            None => None,
        });
        self.popouts.open(popout);
        self.input_mode = InputMode::Editing;
        assert(self.popouts.popouts@.last().to@ =~= Seq::<char>::empty());
        assert(self.popouts.popouts@.last().subject@ =~= Seq::<char>::empty());
    }

    /// Replies to the open or selected mail in a new draft.
    pub fn slash_reply(&mut self)
        requires
            old(self).popouts.next_id < u32::MAX,
            app_wf(*old(self)),
        ensures
            rel_slash_reply(*old(self), *final(self)),
            app_wf(*final(self)),
    {
        let mail = match &self.selected_mail {
            Some(m) => Some(crate::tui::app::copy_mail(m)),
            None => match self.list_mail() {
                Some(m) => Some(crate::tui::app::copy_mail(m)),
                None => None,
            },
        };
        match mail {
            Some(m) => {
                let sig = self.get_signature();
                let popout = Popout::reply(
                    0,
                    m.id.clone(),
                    m.from.as_str(),
                    m.subject.as_str(),
                    m.preview.as_str(),
                    match &sig {
                        Some(s) => Some(s.as_str()),
                        None => None,
                    },
                );
                self.popouts.open(popout);
                self.input_mode = InputMode::Editing;
            },
            None => {
                self.error_message = Some(to_owned("No email selected"));
            },
        }
    }

    /// Forwards the open or selected mail in a new draft.
    pub fn slash_forward(&mut self)
        requires
            old(self).popouts.next_id < u32::MAX,
            app_wf(*old(self)),
        ensures
            rel_slash_forward(*old(self), *final(self)),
            app_wf(*final(self)),
    {
        let mail = match &self.selected_mail {
            Some(m) => Some(crate::tui::app::copy_mail(m)),
            None => match self.list_mail() {
                Some(m) => Some(crate::tui::app::copy_mail(m)),
                None => None,
            },
        };
        match mail {
            Some(m) => {
                let sig = self.get_signature();
                let popout = Popout::forward(
                    0,
                    m.id.clone(),
                    m.subject.as_str(),
                    m.preview.as_str(),
                    match &sig {
                        Some(s) => Some(s.as_str()),
                        None => None,
                    },
                );
                self.popouts.open(popout);
                self.input_mode = InputMode::Editing;
                assert(self.popouts.popouts@.last().to@ =~= Seq::<char>::empty());
            },
            None => {
                self.error_message = Some(to_owned("No email selected"));
            },
        }
    }

    /// Opens the selection: a mail in a popout, a profile or folder by
    /// entering it.
    pub fn open_item(&mut self) -> (e: Effects)
        requires
            old(self).popouts.next_id < u32::MAX,
            app_wf(*old(self)),
        ensures
            rel_open_item(*old(self), *final(self), e),
            app_wf(*final(self)),
    {
        match self.panel {
            Panel::Mails => {
                let mail = match self.list_mail() {
                    Some(m) => Some(crate::tui::app::copy_mail(m)),
                    None => None,
                };
                match mail {
                    Some(m) => {
                        let body = mail_lines(&m, false, true);
                        let popout = Popout::email_view(0, m.subject.clone(), body, m.id.clone());
                        self.selected_mail = Some(m);
                        self.popouts.open(popout);
                        self.input_mode = InputMode::EmailOpen;
                    },
                    None => {},
                }
                Effects { reset_matcher: false, refind: false, drop_client: false }
            },
            Panel::Folders | Panel::Profiles => self.navigate_right(),
            _ => Effects { reset_matcher: false, refind: false, drop_client: false },
        }
    }

    /// Starts editing header field `f` of the focused draft.
    pub fn edit_field(&mut self, f: HeaderField)
        requires
            app_wf(*old(self)),
        ensures
            rel_edit_field(*old(self), *final(self), f),
            app_wf(*final(self)),
    {
        if self.focused_is_editor() {
            match self.focused_idx() {
                Some(i) => {
                    let mut p = self.popouts.popouts.remove(i);
                    p.editing_field = Some(f);
                    self.popouts.popouts.insert(i, p);
                    self.input_mode = InputMode::Editing;
                    assert(self.popouts.popouts@ =~= old(self).popouts.popouts@.update(
                        i as int,
                        Popout { editing_field: Some(f), ..old(self).popouts.popouts@[i as int] },
                    ));
                },
                None => {},
            }
        }
    }

    /// Types `c` in the focused popout.
    pub fn editor_char(&mut self, c: char)
        requires
            app_wf(*old(self)),
        ensures
            focused_edited(*old(self), *final(self), |p: Popout, q: Popout| rel_insert_char(p, q, c)),
            app_wf(*final(self)),
    {
        match self.focused_idx() {
            Some(i) => {
                let mut p = self.popouts.popouts.remove(i);
                insert_char(&mut p, c);
                self.popouts.popouts.insert(i, p);
                assert forall|j: int|
                    0 <= j < old(self).popouts.popouts@.len() && j != i implies #[trigger] self.popouts.popouts@[j]
                    == old(self).popouts.popouts@[j] by {}
            },
            None => {},
        }
    }

    /// Deletes in the focused popout.
    pub fn editor_backspace(&mut self)
        requires
            app_wf(*old(self)),
        ensures
            focused_edited(*old(self), *final(self), |p: Popout, q: Popout| rel_backspace(p, q)),
            app_wf(*final(self)),
    {
        match self.focused_idx() {
            Some(i) => {
                let mut p = self.popouts.popouts.remove(i);
                backspace(&mut p);
                self.popouts.popouts.insert(i, p);
                assert forall|j: int|
                    0 <= j < old(self).popouts.popouts@.len() && j != i implies #[trigger] self.popouts.popouts@[j]
                    == old(self).popouts.popouts@[j] by {}
            },
            None => {},
        }
    }

    /// Enter in the focused popout.
    pub fn editor_newline(&mut self)
        requires
            app_wf(*old(self)),
        ensures
            focused_edited(*old(self), *final(self), |p: Popout, q: Popout| rel_enter(p, q)),
            app_wf(*final(self)),
    {
        match self.focused_idx() {
            Some(i) => {
                let mut p = self.popouts.popouts.remove(i);
                enter(&mut p);
                self.popouts.popouts.insert(i, p);
                assert forall|j: int|
                    0 <= j < old(self).popouts.popouts@.len() && j != i implies #[trigger] self.popouts.popouts@[j]
                    == old(self).popouts.popouts@[j] by {}
            },
            None => {},
        }
    }
}

/// A server operation a slash command queues.
#[derive(Debug, Clone, Copy, PartialEq, Eq, Structural)]
pub enum QueueFlag {
    ContactCreate,
    ContactDelete,
    EventCreate,
    EventDelete,
}

/// The operation `f` was queued and a reload asked for; nothing else
/// changed.
pub open spec fn flagged(o: App, n: App, f: QueueFlag) -> bool {
    &&& n.needs_reload
    &&& n.pending_contact_create == (o.pending_contact_create || f == QueueFlag::ContactCreate)
    &&& n.pending_contact_delete == (o.pending_contact_delete || f == QueueFlag::ContactDelete)
    &&& n.pending_event_create == (o.pending_event_create || f == QueueFlag::EventCreate)
    &&& n.pending_event_delete == (o.pending_event_delete || f == QueueFlag::EventDelete)
    &&& n.pending_move == o.pending_move && n.pending_compose == o.pending_compose
    &&& same_data(o, n) && same_list(o, n) && same_where(o, n) && same_ui(o, n)
    &&& n.popouts == o.popouts
}

/// A slash command, by its (lowercased, trimmed) name.
pub open spec fn rel_slash_command(o: App, n: App, cmd: Seq<char>) -> bool {
    if cmd == "reply"@ || cmd == "r"@ {
        rel_slash_reply(o, n)
    } else if cmd == "forward"@ || cmd == "f"@ {
        rel_slash_forward(o, n)
    } else if cmd == "archive"@ || cmd == "a"@ {
        rel_slash_action(o, n, "archive"@)
    } else if cmd == "delete"@ || cmd == "del"@ || cmd == "d"@ {
        rel_slash_action(o, n, "delete"@)
    } else if cmd == "spam"@ || cmd == "s"@ {
        rel_slash_action(o, n, "spam"@)
    } else if cmd == "compose"@ || cmd == "new"@ || cmd == "c"@ {
        rel_compose(o, n)
    } else if cmd == "mark-read"@ || cmd == "mark-unread"@ {
        errored(o, n, "mark-read: not yet implemented"@)
    } else if cmd == "mark-folder-read"@ {
        if o.panel != Panel::Mails {
            errored(o, n, "Only available in Mail view"@)
        } else {
            errored(o, n, "Marking all in '"@ + o.active_folder_name@ + "' as read (not yet implemented)"@)
        }
    } else if cmd == "mark-spam-read"@ {
        errored(o, n, "Marking all spam as read (not yet implemented)"@)
    } else if cmd == "add-contact"@ || cmd == "new-contact"@ {
        flagged(o, n, QueueFlag::ContactCreate)
    } else if cmd == "edit-contact"@ {
        errored(o, n, "edit-contact: select a contact first, then /edit-contact (not yet implemented)"@)
    } else if cmd == "delete-contact"@ {
        flagged(o, n, QueueFlag::ContactDelete)
    } else if cmd == "add-event"@ || cmd == "new-event"@ {
        flagged(o, n, QueueFlag::EventCreate)
    } else if cmd == "edit-event"@ {
        errored(o, n, "edit-event: select an event first, then /edit-event (not yet implemented)"@)
    } else if cmd == "delete-event"@ {
        flagged(o, n, QueueFlag::EventDelete)
    } else {
        errored(o, n, "Unknown command: /"@ + cmd)
    }
}

/// The text without its leading slashes.
pub open spec fn strip_slashes(s: Seq<char>) -> Seq<char>
    decreases s.len(),
{
    if s.len() > 0 && s[0] == '/' {
        strip_slashes(s.drop_first())
    } else {
        s
    }
}

/// The command an input line names: without its leading slashes,
/// lowercased and trimmed.
pub open spec fn spec_command_text(input: Seq<char>) -> Seq<char> {
    trim_ws(lowercase(strip_slashes(input)))
}

/// `n` is `mid` with the input line in `mode`: `Normal`, and the input
/// cleared when `clear`.
pub open spec fn then_normal(mid: App, n: App, clear: bool) -> bool {
    &&& n.input_mode == InputMode::Normal
    &&& if clear {
        n.input@.len() == 0
    } else {
        n.input == mid.input
    }
    &&& n.selected == mid.selected && n.results == mid.results
    &&& n.preview_content == mid.preview_content
    &&& same_data(mid, n) && same_queue(mid, n) && same_where(mid, n)
    &&& n.popouts == mid.popouts && n.error_message == mid.error_message
    &&& n.selected_mail == mid.selected_mail && n.show_quit_confirm == mid.show_quit_confirm
    &&& n.pre_confirm_mode == mid.pre_confirm_mode && n.should_quit == mid.should_quit
}

/// Enter on the input line: a slash command runs and the line is
/// cleared; otherwise the selection opens. Either way the input line is
/// left.
pub open spec fn rel_execute_input(o: App, n: App, e: Effects) -> bool {
    if o.input@.len() > 0 && o.input@[0] == '/' {
        &&& e == (Effects { reset_matcher: false, refind: true, drop_client: false })
        &&& exists|mid: App|
            rel_slash_command(o, mid, spec_command_text(o.input@)) && #[trigger] then_normal(mid, n, true)
    } else {
        exists|mid: App| rel_open_item(o, mid, e) && #[trigger] then_normal(mid, n, false)
    }
}

/// The mode a confirmation returns to.
pub open spec fn restored(pre: Option<InputMode>) -> InputMode {
    match pre {
        Some(m) => m,
        None => InputMode::Normal,
    }
}

/// The action name of a confirmation.
pub open spec fn confirm_target(ca: ConfirmAction) -> Seq<char> {
    match ca {
        ConfirmAction::Delete(_) => "delete"@,
        ConfirmAction::Archive(_) => "archive"@,
        ConfirmAction::Spam(_) => "spam"@,
    }
}

/// The mail a confirmation is about.
pub open spec fn confirm_email(ca: ConfirmAction) -> Seq<char> {
    match ca {
        ConfirmAction::Delete(id) | ConfirmAction::Archive(id) | ConfirmAction::Spam(id) => id@,
    }
}

/// Only the popout manager changed, as `step` relates it.
pub open spec fn popouts_stepped(o: App, n: App, step: spec_fn(PopoutManager, PopoutManager) -> bool) -> bool {
    &&& step(o.popouts, n.popouts)
    &&& same_view_and_queue(o, n) && same_ui(o, n)
}

/// The input line changed to `input`, and the matcher is to search it.
pub open spec fn typed(o: App, n: App, e: Effects, input: Seq<char>) -> bool {
    &&& n.input@ == input
    &&& e == (Effects { reset_matcher: false, refind: true, drop_client: false })
    &&& n.selected == o.selected && n.results == o.results && n.preview_content == o.preview_content
    &&& same_data(o, n) && same_queue(o, n) && same_where(o, n) && same_ui(o, n)
    &&& n.popouts == o.popouts
}

/// What handling `action` does, from the state `o` to `n`, asking `e` of
/// the event loop.
pub open spec fn rel_handle(o: App, n: App, action: Action, e: Effects) -> bool {
    if o.show_quit_confirm {
        &&& e == no_effects()
        &&& if action == Action::NavigateRight || action == Action::OpenItem {
            n == App { should_quit: true, ..o }
        } else {
            n == App { show_quit_confirm: false, ..o }
        }
    } else if o.input_mode is Confirm {
        let ca = o.input_mode->Confirm_0;
        &&& e == no_effects()
        &&& if action == Action::ConfirmYes {
            rel_execute_confirmed(
                App { input_mode: restored(o.pre_confirm_mode), pre_confirm_mode: None, ..o },
                n,
                confirm_target(ca),
                confirm_email(ca),
            )
        } else if action == Action::ConfirmNo {
            errored(
                App { input_mode: restored(o.pre_confirm_mode), pre_confirm_mode: None, ..o },
                n,
                "Cancelled"@,
            )
        } else {
            n == o
        }
    } else {
        match action {
            Action::Quit => n == App { show_quit_confirm: true, ..o } && e == no_effects(),
            Action::SelectPrev => rel_select_prev(o, n) && e == no_effects(),
            Action::SelectNext => rel_select_next(o, n) && e == no_effects(),
            Action::NavigateRight => rel_navigate_right(o, n, e),
            Action::NavigateLeft => rel_navigate_left(o, n, e),
            Action::SwitchModeNext => rel_switch_mode(o, n, e, spec_next_mode(o.mode)),
            Action::SwitchModePrev => rel_switch_mode(o, n, e, spec_prev_mode(o.mode)),
            Action::EnterInsert => e == no_effects() && if o.input_mode == InputMode::EmailOpen
                && focused_is_editor(o) {
                n == App { input_mode: InputMode::Editing, ..o }
            } else {
                n == App { input_mode: InputMode::Insert, ..o }
            },
            Action::ExitToNormal => e == no_effects() && n == App {
                input_mode: InputMode::Normal,
                selected_mail: None,
                ..o
            },
            Action::OpenItem => rel_open_item(o, n, e),
            Action::InsertChar(c) => typed(o, n, e, o.input@.push(c)),
            Action::Backspace => typed(
                o,
                n,
                e,
                if o.input@.len() > 0 {
                    o.input@.drop_last()
                } else {
                    o.input@
                },
            ),
            Action::ClearInput => typed(o, n, e, Seq::empty()),
            Action::ExecuteCommand => rel_execute_input(o, n, e),
            Action::Reply => e == no_effects() && if focused_is_editor(o) {
                errored(o, n, "Already composing"@)
            } else {
                rel_slash_reply(o, n)
            },
            Action::Forward => e == no_effects() && if focused_is_editor(o) {
                errored(o, n, "Already composing"@)
            } else {
                rel_slash_forward(o, n)
            },
            Action::Archive => e == no_effects() && rel_request_confirm(o, n, "archive"@),
            Action::Delete => e == no_effects() && if focused_is_editor(o) {
                rel_close(o, n, Some("Draft discarded"@))
            } else {
                rel_request_confirm(o, n, "delete"@)
            },
            Action::Spam => e == no_effects() && rel_request_confirm(o, n, "spam"@),
            Action::Compose => e == no_effects() && rel_compose(o, n),
            Action::Send => e == no_effects() && rel_close(o, n, Some("✓ Sending..."@)),
            Action::EditTo => e == no_effects() && rel_edit_field(o, n, HeaderField::To),
            Action::EditSubject => e == no_effects() && rel_edit_field(o, n, HeaderField::Subject),
            Action::EditCc => e == no_effects() && rel_edit_field(o, n, HeaderField::Cc),
            Action::EditBcc => e == no_effects() && rel_edit_field(o, n, HeaderField::Bcc),
            Action::PopoutClose => e == no_effects() && rel_close(o, n, None),
            Action::PopoutToggleMax => e == no_effects() && popouts_stepped(
                o,
                n,
                |a: PopoutManager, b: PopoutManager| spec_toggled_maximize(a, b),
            ),
            Action::PopoutMinimize => e == no_effects() && popouts_stepped(
                o,
                n,
                |a: PopoutManager, b: PopoutManager| spec_minimized_focused(a, b),
            ),
            Action::PopoutSwitchFocus => e == no_effects() && popouts_stepped(
                o,
                n,
                |a: PopoutManager, b: PopoutManager| spec_switched_focus(a, b),
            ),
            Action::EditorChar(c) => e == no_effects() && focused_edited(
                o,
                n,
                |p: Popout, q: Popout| rel_insert_char(p, q, c),
            ),
            Action::EditorBackspace => e == no_effects() && focused_edited(
                o,
                n,
                |p: Popout, q: Popout| rel_backspace(p, q),
            ),
            Action::EditorNewline => e == no_effects() && focused_edited(
                o,
                n,
                |p: Popout, q: Popout| rel_enter(p, q),
            ),
            Action::EditorEscape => {
                &&& e == no_effects()
                &&& n.input_mode == InputMode::EmailOpen
                &&& error_is(n, "Draft saved. 's' to send, Esc to close"@)
                &&& same_view_and_queue(o, n)
                &&& n.popouts == o.popouts && n.selected_mail == o.selected_mail
            },
            Action::ConfirmYes | Action::ConfirmNo | Action::Nothing => n == o && e == no_effects(),
        }
    }
}

impl App {
    /// Marks a queued operation and asks for a reload.
    fn queue(&mut self, f: QueueFlag)
        ensures
            flagged(*old(self), *final(self), f),
    {
        match f {
            QueueFlag::ContactCreate => self.pending_contact_create = true,
            QueueFlag::ContactDelete => self.pending_contact_delete = true,
            QueueFlag::EventCreate => self.pending_event_create = true,
            QueueFlag::EventDelete => self.pending_event_delete = true,
        }
        self.needs_reload = true;
    }

    /// Runs a slash command by its name.
    pub fn execute_slash_command(&mut self, cmd: &str)
        requires
            old(self).popouts.next_id < u32::MAX,
            app_wf(*old(self)),
        ensures
            rel_slash_command(*old(self), *final(self), cmd@),
            app_wf(*final(self)),
    {
        if str_eq(cmd, "reply") || str_eq(cmd, "r") {
            self.slash_reply();
        } else if str_eq(cmd, "forward") || str_eq(cmd, "f") {
            self.slash_forward();
        } else if str_eq(cmd, "archive") || str_eq(cmd, "a") {
            self.slash_action("archive");
        } else if str_eq(cmd, "delete") || str_eq(cmd, "del") || str_eq(cmd, "d") {
            self.slash_action("delete");
        } else if str_eq(cmd, "spam") || str_eq(cmd, "s") {
            self.slash_action("spam");
        } else if str_eq(cmd, "compose") || str_eq(cmd, "new") || str_eq(cmd, "c") {
            self.compose();
        } else if str_eq(cmd, "mark-read") || str_eq(cmd, "mark-unread") {
            self.error_message = Some(to_owned("mark-read: not yet implemented"));
        } else if str_eq(cmd, "mark-folder-read") {
            if self.panel != Panel::Mails {
                self.error_message = Some(to_owned("Only available in Mail view"));
            } else {
                let mut msg = joined("Marking all in '", self.active_folder_name.as_str());
                push_str(&mut msg, "' as read (not yet implemented)");
                self.error_message = Some(msg);
            }
        } else if str_eq(cmd, "mark-spam-read") {
            self.error_message = Some(to_owned("Marking all spam as read (not yet implemented)"));
        } else if str_eq(cmd, "add-contact") || str_eq(cmd, "new-contact") {
            self.queue(QueueFlag::ContactCreate);
        } else if str_eq(cmd, "edit-contact") {
            self.error_message = Some(
                to_owned("edit-contact: select a contact first, then /edit-contact (not yet implemented)"),
            );
        } else if str_eq(cmd, "delete-contact") {
            self.queue(QueueFlag::ContactDelete);
        } else if str_eq(cmd, "add-event") || str_eq(cmd, "new-event") {
            self.queue(QueueFlag::EventCreate);
        } else if str_eq(cmd, "edit-event") {
            self.error_message = Some(
                to_owned("edit-event: select an event first, then /edit-event (not yet implemented)"),
            );
        } else if str_eq(cmd, "delete-event") {
            self.queue(QueueFlag::EventDelete);
        } else {
            self.error_message = Some(joined("Unknown command: /", cmd));
        }
    }
}

/// The command an input line names.
pub fn command_text(input: &str) -> (r: String)
    ensures
        r@ == spec_command_text(input@),
{
    let n = input.unicode_len();
    let mut i: usize = 0;
    assert(input@.skip(0) =~= input@);
    while i < n && input.get_char(i) == '/'
        invariant
            n == input@.len(),
            i <= n,
            strip_slashes(input@) == strip_slashes(input@.skip(i as int)),
        decreases n - i,
    {
        assert(input@.skip(i as int).drop_first() =~= input@.skip(i as int + 1));
        i = i + 1;
    }
    let rest = input.substring_char(i, n);
    assert(rest@ =~= input@.skip(i as int));
    assert(input@.skip(0) =~= input@);
    let lower = to_lowercase(rest);
    to_owned(str_trim(lower.as_str()))
}

impl App {
    /// Enter on the input line.
    pub fn execute_input_command(&mut self) -> (e: Effects)
        requires
            old(self).popouts.next_id < u32::MAX,
            app_wf(*old(self)),
        ensures
            rel_execute_input(*old(self), *final(self), e),
            app_wf(*final(self)),
    {
        let n = self.input.as_str().unicode_len();
        if n > 0 && self.input.as_str().get_char(0) == '/' {
            let cmd = command_text(self.input.as_str());
            self.execute_slash_command(cmd.as_str());
            let ghost mid = *self;
            self.input = String::new();
            self.input_mode = InputMode::Normal;
            assert(then_normal(mid, *self, true));
            Effects { reset_matcher: false, refind: true, drop_client: false }
        } else {
            let e = self.open_item();
            let ghost mid = *self;
            self.input_mode = InputMode::Normal;
            assert(then_normal(mid, *self, false));
            e
        }
    }

    /// Processes one user action.
    pub fn handle_action(&mut self, action: Action) -> (e: Effects)
        requires
            old(self).popouts.next_id < u32::MAX,
            app_wf(*old(self)),
        ensures
            rel_handle(*old(self), *final(self), action, e),
            app_wf(*final(self)),
    {
        if self.show_quit_confirm {
            match action {
                Action::NavigateRight | Action::OpenItem => {
                    self.should_quit = true;
                },
                _ => {
                    self.show_quit_confirm = false;
                },
            }
            return Effects { reset_matcher: false, refind: false, drop_client: false };
        }
        let pending = match &self.input_mode {
            InputMode::Confirm(ca) => Some(
                (to_owned(ca.target_name()), to_owned(ca.email_id())),
            ),
            _ => None,
        };
        match pending {
            Some((target, email_id)) => {
                match action {
                    Action::ConfirmYes => {
                        self.input_mode = match self.pre_confirm_mode.take() {
                            Some(m) => m,
                            None => InputMode::Normal,
                        };
                        self.execute_confirmed_action(target.as_str(), email_id.as_str());
                    },
                    Action::ConfirmNo => {
                        self.input_mode = match self.pre_confirm_mode.take() {
                            Some(m) => m,
                            None => InputMode::Normal,
                        };
                        self.error_message = Some(to_owned("Cancelled"));
                    },
                    _ => {},
                }
                return Effects { reset_matcher: false, refind: false, drop_client: false };
            },
            None => {},
        }
        self.dispatch(action)
    }

    /// Processes an action outside the quit dialog and confirmations.
    fn dispatch(&mut self, action: Action) -> (e: Effects)
        requires
            old(self).popouts.next_id < u32::MAX,
            app_wf(*old(self)),
            !old(self).show_quit_confirm,
            !(old(self).input_mode is Confirm),
        ensures
            rel_handle(*old(self), *final(self), action, e),
            app_wf(*final(self)),
    {
        match action {
            Action::Reply | Action::Forward | Action::Archive | Action::Delete | Action::Spam
            | Action::Compose | Action::Send => self.dispatch_mail(action),
            Action::EditTo | Action::EditSubject | Action::EditCc | Action::EditBcc
            | Action::PopoutClose | Action::PopoutToggleMax | Action::PopoutMinimize
            | Action::PopoutSwitchFocus | Action::EditorChar(_) | Action::EditorBackspace
            | Action::EditorNewline | Action::EditorEscape => self.dispatch_popout(action),
            Action::ConfirmYes | Action::ConfirmNo | Action::Nothing => Effects {
                reset_matcher: false,
                refind: false,
                drop_client: false,
            },
            Action::Quit | Action::SelectPrev | Action::SelectNext | Action::NavigateRight
            | Action::NavigateLeft | Action::SwitchModeNext | Action::SwitchModePrev => self.dispatch_move(action),
            Action::ExecuteCommand => self.dispatch_command(action),
            _ => self.dispatch_input(action),
        }
    }

    /// Processes an action of moving through the lists.
    #[verifier::spinoff_prover]
    fn dispatch_move(&mut self, action: Action) -> (e: Effects)
        requires
            old(self).popouts.next_id < u32::MAX,
            app_wf(*old(self)),
            !old(self).show_quit_confirm,
            !(old(self).input_mode is Confirm),
            action is Quit || action is SelectPrev || action is SelectNext || action is NavigateRight || action is NavigateLeft || action is SwitchModeNext || action is SwitchModePrev,
        ensures
            rel_handle(*old(self), *final(self), action, e),
            app_wf(*final(self)),
    {
        let none = Effects { reset_matcher: false, refind: false, drop_client: false };
        match action {
            Action::Quit => {
                self.show_quit_confirm = true;
                none
            },
            Action::SelectPrev => {
                self.select_prev();
                none
            },
            Action::SelectNext => {
                self.select_next();
                none
            },
            Action::NavigateRight => self.navigate_right(),
            Action::NavigateLeft => self.navigate_left(),
            Action::SwitchModeNext => {
                let m = self.mode.next();
                self.switch_mode(m)
            },
            Action::SwitchModePrev => {
                let m = self.mode.prev();
                self.switch_mode(m)
            },
            _ => none,
        }
    }

    /// Processes an action of the input line.
    #[verifier::spinoff_prover]
    fn dispatch_input(&mut self, action: Action) -> (e: Effects)
        requires
            old(self).popouts.next_id < u32::MAX,
            app_wf(*old(self)),
            !old(self).show_quit_confirm,
            !(old(self).input_mode is Confirm),
            action is EnterInsert || action is ExitToNormal || action is OpenItem || action is InsertChar || action is Backspace || action is ClearInput,
        ensures
            rel_handle(*old(self), *final(self), action, e),
            app_wf(*final(self)),
    {
        let none = Effects { reset_matcher: false, refind: false, drop_client: false };
        let refind = Effects { reset_matcher: false, refind: true, drop_client: false };
        match action {
            Action::EnterInsert => {
                if matches!(self.input_mode, InputMode::EmailOpen) && self.focused_is_editor() {
                    self.input_mode = InputMode::Editing;
                } else {
                    self.input_mode = InputMode::Insert;
                }
                none
            },
            Action::ExitToNormal => {
                self.input_mode = InputMode::Normal;
                self.selected_mail = None;
                none
            },
            Action::OpenItem => self.open_item(),
            Action::InsertChar(c) => {
                crate::strings::push_char(&mut self.input, c);
                refind
            },
            Action::Backspace => {
                crate::strings::pop_char(&mut self.input);
                refind
            },
            Action::ClearInput => {
                self.input = String::new();
                refind
            },
            _ => none,
        }
    }

    /// Processes an action of running the input line.
    #[verifier::spinoff_prover]
    fn dispatch_command(&mut self, action: Action) -> (e: Effects)
        requires
            old(self).popouts.next_id < u32::MAX,
            app_wf(*old(self)),
            !old(self).show_quit_confirm,
            !(old(self).input_mode is Confirm),
            action is ExecuteCommand,
        ensures
            rel_handle(*old(self), *final(self), action, e),
            app_wf(*final(self)),
    {
        let none = Effects { reset_matcher: false, refind: false, drop_client: false };
        match action {
            Action::ExecuteCommand => self.execute_input_command(),
            _ => none,
        }
    }

    /// Processes an action of mail actions.
    #[verifier::spinoff_prover]
    fn dispatch_mail(&mut self, action: Action) -> (e: Effects)
        requires
            old(self).popouts.next_id < u32::MAX,
            app_wf(*old(self)),
            !old(self).show_quit_confirm,
            !(old(self).input_mode is Confirm),
            action is Reply || action is Forward || action is Archive || action is Delete || action is Spam || action is Compose || action is Send,
        ensures
            rel_handle(*old(self), *final(self), action, e),
            app_wf(*final(self)),
    {
        let none = Effects { reset_matcher: false, refind: false, drop_client: false };
        match action {
            Action::Reply => {
                if self.focused_is_editor() {
                    self.error_message = Some(to_owned("Already composing"));
                } else {
                    self.slash_reply();
                }
                none
            },
            Action::Forward => {
                if self.focused_is_editor() {
                    self.error_message = Some(to_owned("Already composing"));
                } else {
                    self.slash_forward();
                }
                none
            },
            Action::Archive => {
                self.request_confirm_action("archive");
                none
            },
            Action::Delete => {
                if self.focused_is_editor() {
                    self.close_focused_popout(Some("Draft discarded"));
                } else {
                    self.request_confirm_action("delete");
                }
                none
            },
            Action::Spam => {
                self.request_confirm_action("spam");
                none
            },
            Action::Compose => {
                self.compose();
                none
            },
            Action::Send => {
                self.close_focused_popout(Some("✓ Sending..."));
                none
            },
            _ => none,
        }
    }

    /// Processes an action of popouts and the draft editor.
    #[verifier::spinoff_prover]
    fn dispatch_popout(&mut self, action: Action) -> (e: Effects)
        requires
            old(self).popouts.next_id < u32::MAX,
            app_wf(*old(self)),
            !old(self).show_quit_confirm,
            !(old(self).input_mode is Confirm),
            action is EditTo || action is EditSubject || action is EditCc || action is EditBcc || action is PopoutClose || action is PopoutToggleMax || action is PopoutMinimize || action is PopoutSwitchFocus || action is EditorChar || action is EditorBackspace || action is EditorNewline || action is EditorEscape,
        ensures
            rel_handle(*old(self), *final(self), action, e),
            app_wf(*final(self)),
    {
        let none = Effects { reset_matcher: false, refind: false, drop_client: false };
        match action {
            Action::EditTo => {
                self.edit_field(HeaderField::To);
                none
            },
            Action::EditSubject => {
                self.edit_field(HeaderField::Subject);
                none
            },
            Action::EditCc => {
                self.edit_field(HeaderField::Cc);
                none
            },
            Action::EditBcc => {
                self.edit_field(HeaderField::Bcc);
                none
            },
            Action::PopoutClose => {
                self.close_focused_popout(None);
                none
            },
            Action::PopoutToggleMax => {
                self.popouts.toggle_maximize();
                none
            },
            Action::PopoutMinimize => {
                self.popouts.minimize_focused();
                none
            },
            Action::PopoutSwitchFocus => {
                self.popouts.switch_focus();
                none
            },
            Action::EditorChar(c) => {
                self.editor_char(c);
                none
            },
            Action::EditorBackspace => {
                self.editor_backspace();
                none
            },
            Action::EditorNewline => {
                self.editor_newline();
                none
            },
            Action::EditorEscape => {
                self.input_mode = InputMode::EmailOpen;
                self.error_message = Some(to_owned("Draft saved. 's' to send, Esc to close"));
                none
            },
            _ => none,
        }
    }
}

/// Asking to archive the selected mail and then answering "no" leaves
/// the app in the mode it was in, with nothing queued.
pub proof fn law_cancel_restores_mode(o: App, m: App, n: App, e1: Effects, e2: Effects)
    requires
        !o.show_quit_confirm,
        !(o.input_mode is Confirm),
        o.panel == Panel::Mails,
        spec_target_mail(o) is Some,
        rel_handle(o, m, Action::Archive, e1),
        rel_handle(m, n, Action::ConfirmNo, e2),
    ensures
        n.input_mode == o.input_mode,
        n.pending_move == o.pending_move,
        !n.needs_reload || o.needs_reload,
        n.pre_confirm_mode is None,
{
}

/// Asking to archive the selected mail and then answering "yes" queues
/// the move to the archive folder, when the folder exists, and returns to
/// the mode the app was in.
pub proof fn law_confirm_queues_move(o: App, m: App, n: App, e1: Effects, e2: Effects)
    requires
        !o.show_quit_confirm,
        !(o.input_mode is Confirm),
        o.panel == Panel::Mails,
        spec_target_mail(o) is Some,
        spec_move(o, "archive"@, spec_target_mail(o)->0.id@) is Ok,
        rel_handle(o, m, Action::Archive, e1),
        rel_handle(m, n, Action::ConfirmYes, e2),
    ensures
        n.input_mode == o.input_mode,
        n.pending_move matches Some(p) && move_view(p) == spec_move(
            o,
            "archive"@,
            spec_target_mail(o)->0.id@,
        )->Ok_0,
        n.needs_reload,
{
    let mail = spec_target_mail(o)->0;
    let mid = App { input_mode: restored(m.pre_confirm_mode), pre_confirm_mode: None, ..m };
    assert(spec_move(mid, "archive"@, mail.id@) == spec_move(o, "archive"@, mail.id@));
}

/// An owned copy of a string slice.
fn to_string(s: &str) -> (r: String)
    ensures
        r@ == s@,
{
    crate::strings::to_owned(s)
}

} // verus!
