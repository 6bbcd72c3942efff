//! The decisions of the polling loop: what a key press asks for, what a
//! tick changes, and what becomes of the network list after a scan.
//!
//! The loop itself, with its clock, its terminal and its calls to the
//! network tool, belongs to the program. It hands each event to this
//! module together with the time on its clock, in whole seconds, and
//! carries out the request that comes back.

use crate::command::{join, outcome_message, outcome_text, WifiError};
use crate::ui::WifiUI;
use crate::text::text_view;
use crate::wifi_connection::{ConnectStep, WifiConnection};
use crate::wifi_scanner::WifiNetwork;
use vstd::prelude::*;

verus! {

/// Seconds between two scans.
pub const SCAN_INTERVAL_SECS: u64 = 5;

/// Seconds for which a status message is shown.
pub const STATUS_LIFETIME_SECS: u64 = 3;

/// The last row of the list that can be selected.
pub const LAST_VISIBLE_ROW: usize = 9;

/// A key of the keyboard, as far as the loop tells keys apart.
#[derive(Debug, Clone, Copy, PartialEq, Eq)]
pub enum Key {
    Up,
    Down,
    Left,
    Right,
    Enter,
    Backspace,
    Esc,
    Char(char),
    Other,
}

/// What the loop is woken by.
#[derive(Debug, Clone, Copy, PartialEq, Eq)]
pub enum InputEvent {
    /// A key was pressed.
    Input(Key),
    /// The polling interval is over.
    Tick,
}

/// What the loop owns: the radio state, the current list of networks, the
/// interface state, the network that waits for a password, and the times
/// of the last scan and of the last status message.
#[derive(Debug, Clone)]
pub struct LoopState {
    pub wifi_enabled: bool,
    pub networks: Vec<WifiNetwork>,
    pub ui: WifiUI,
    pub running: bool,
    /// The network for which the password dialog was opened.
    pub pending: Option<String>,
    pub last_scan: u64,
    pub last_status_clear: u64,
}

/// What a key press asks the program to do.
#[derive(Debug, Clone)]
pub enum Request {
    /// Nothing outside the loop's own state.
    Nothing,
    /// Start connecting to the network of this name, with this password
    /// where the user has typed one.
    Connect(String, Option<String>),
    /// Drop the active association.
    Disconnect,
    /// Delete the stored profile of the network of this name.
    Forget(String),
    /// Switch the radio on.
    EnableRadio,
    /// Switch the radio off.
    DisableRadio,
}

/// A `Request` with its name as characters.
pub enum RequestView {
    Nothing,
    Connect(Seq<char>, Option<Seq<char>>),
    Disconnect,
    Forget(Seq<char>),
    EnableRadio,
    DisableRadio,
}

impl View for Request {
    type V = RequestView;

    open spec fn view(&self) -> RequestView {
        match self {
            Request::Nothing => RequestView::Nothing,
            Request::Connect(name, password) => RequestView::Connect(name@, text_view(*password)),
            Request::Disconnect => RequestView::Disconnect,
            Request::Forget(name) => RequestView::Forget(name@),
            Request::EnableRadio => RequestView::EnableRadio,
            Request::DisableRadio => RequestView::DisableRadio,
        }
    }
}

/// Whether `c` can be typed into the password: an ASCII character that
/// is no control character.
pub open spec fn is_password_char(c: char) -> bool {
    0x20 <= c as u32 <= 0x7e
}

impl LoopState {
    /// Whether the selected row holds a network that can be acted on.
    pub open spec fn has_selection(&self) -> bool {
        self.wifi_enabled && self.ui.selected < self.networks.len()
    }

    /// The row that is selected after `key`.
    pub open spec fn selection_after(&self, key: Key) -> usize {
        if key == Key::Up && self.wifi_enabled && self.ui.selected > 0 {
            (self.ui.selected - 1) as usize
        } else if key == Key::Down && self.wifi_enabled && self.ui.selected + 1
            < self.networks.len() && self.ui.selected < LAST_VISIBLE_ROW {
            (self.ui.selected + 1) as usize
        } else {
            self.ui.selected
        }
    }

    /// What `key` asks for.
    pub open spec fn request_for(&self, key: Key) -> RequestView {
        if key == Key::Enter && self.has_selection() {
            RequestView::Connect(self.networks[self.ui.selected as int].ssid@, None)
        } else if key == Key::Char('f') && self.has_selection() {
            RequestView::Forget(self.networks[self.ui.selected as int].ssid@)
        } else if key == Key::Char('d') {
            RequestView::Disconnect
        } else if key == Key::Char('p') {
            RequestView::EnableRadio
        } else if key == Key::Char('o') {
            RequestView::DisableRadio
        } else {
            RequestView::Nothing
        }
    }

    /// What `key` asks for while the password dialog is open: Enter asks
    /// to connect to the waiting network with what was typed.
    pub open spec fn password_request_for(&self, key: Key) -> RequestView {
        if key == Key::Enter && self.pending is Some {
            RequestView::Connect(self.pending->0@, Some(self.ui.password_input@))
        } else {
            RequestView::Nothing
        }
    }

    /// The password after `key` was pressed in the dialog.
    pub open spec fn password_after(&self, key: Key) -> Seq<char> {
        let typed = self.ui.password_input@;
        let cursor = self.ui.password_cursor as int;
        match key {
            Key::Char(c) => if is_password_char(c) {
                typed.insert(cursor, c)
            } else {
                typed
            },
            Key::Backspace => if cursor > 0 {
                typed.remove(cursor - 1)
            } else {
                typed
            },
            Key::Enter | Key::Esc => Seq::empty(),
            _ => typed,
        }
    }

    /// The place of the cursor after `key` was pressed in the dialog.
    pub open spec fn cursor_after(&self, key: Key) -> int {
        let cursor = self.ui.password_cursor as int;
        match key {
            Key::Char(c) => if is_password_char(c) {
                cursor + 1
            } else {
                cursor
            },
            Key::Backspace | Key::Left => if cursor > 0 {
                cursor - 1
            } else {
                cursor
            },
            Key::Right => if cursor < self.ui.password_input.len() {
                cursor + 1
            } else {
                cursor
            },
            Key::Enter | Key::Esc => 0,
            _ => cursor,
        }
    }

    /// Whether `after` and `request` are what a press of `key` at `now`
    /// makes of this state while the list is shown.
    pub open spec fn main_input_handled(
        &self,
        key: Key,
        now: u64,
        after: LoopState,
        request: Request,
    ) -> bool {
        let refresh = key == Key::Char('r') && self.wifi_enabled;
        &&& request@ == self.request_for(key)
        &&& after.ui.selected == self.selection_after(key)
        &&& after.running == (self.running && key != Key::Esc && key != Key::Char('q'))
        &&& refresh ==> after.ui.status_msg@ == "Manual refresh..."@ && after.last_status_clear
            == now
        &&& !refresh ==> after.ui.status_msg == self.ui.status_msg && after.last_status_clear
            == self.last_status_clear
        &&& after.wifi_enabled == self.wifi_enabled
        &&& after.networks == self.networks
        &&& after.pending == self.pending
        &&& after.last_scan == self.last_scan
        &&& after.ui.show_password_prompt == self.ui.show_password_prompt
        &&& after.ui.password_input == self.ui.password_input
        &&& after.ui.password_cursor == self.ui.password_cursor
    }

    /// Whether `after` and `request` are what a press of `key` makes of
    /// this state while the password dialog is open.
    pub open spec fn password_input_handled(
        &self,
        key: Key,
        after: LoopState,
        request: Request,
    ) -> bool {
        let closing = key == Key::Enter || key == Key::Esc;
        &&& request@ == self.password_request_for(key)
        &&& after.ui.password_input@ == self.password_after(key)
        &&& after.ui.password_cursor == self.cursor_after(key)
        &&& after.ui.show_password_prompt == (self.ui.show_password_prompt && !closing)
        &&& after.running == (self.running && key != Key::Esc)
        &&& closing ==> after.pending is None
        &&& !closing ==> after.pending == self.pending
        &&& after.ui.selected == self.ui.selected
        &&& after.ui.status_msg == self.ui.status_msg
        &&& after.wifi_enabled == self.wifi_enabled
        &&& after.networks == self.networks
        &&& after.last_scan == self.last_scan
        &&& after.last_status_clear == self.last_status_clear
    }

    /// Whether a scan is due: the radio is on, and the last scan is a
    /// scan interval old or the radio has just changed.
    pub open spec fn scan_due(&self, radio_changed: bool, now: u64) -> bool {
        self.wifi_enabled && (radio_changed || now - self.last_scan >= SCAN_INTERVAL_SECS)
    }

    /// The state at the start of the loop.
    pub fn new(wifi_enabled: bool, networks: Vec<WifiNetwork>, now: u64) -> (state: Self)
        ensures
            state.wifi_enabled == wifi_enabled,
            state.networks == networks,
            state.ui.wf(),
            state.ui.selected == 0,
            state.ui.status_msg@.len() == 0,
            !state.ui.show_password_prompt,
            state.running,
            state.pending is None,
            state.last_scan == now,
            state.last_status_clear == now,
    {
        LoopState {
            wifi_enabled,
            networks,
            ui: WifiUI::new(),
            running: true,
            pending: None,
            last_scan: now,
            last_status_clear: now,
        }
    }

    /// A key press while the list is shown. The arrow keys move the
    /// selection inside the visible list, `r` announces a refresh, Escape
    /// and `q` end the loop. The keys that need the network tool change
    /// nothing here: what they ask for is handed back.
    pub fn handle_main_input(&mut self, key: Key, now: u64) -> (request: Request)
        ensures
            old(self).main_input_handled(key, now, *final(self), request),
    {
        match key {
            Key::Up => {
                if self.wifi_enabled && self.ui.selected > 0 {
                    self.ui.selected = self.ui.selected - 1;
                }
                Request::Nothing
            },
            Key::Down => {
                if self.wifi_enabled && self.ui.selected < LAST_VISIBLE_ROW && self.ui.selected + 1
                    < self.networks.len() {
                    self.ui.selected = self.ui.selected + 1;
                }
                Request::Nothing
            },
            Key::Enter => {
                if self.wifi_enabled && self.ui.selected < self.networks.len() {
                    Request::Connect(self.networks[self.ui.selected].ssid.clone(), None)
                } else {
                    Request::Nothing
                }
            },
            Key::Char(c) => {
                if c == 'p' {
                    Request::EnableRadio
                } else if c == 'o' {
                    Request::DisableRadio
                } else if c == 'r' {
                    if self.wifi_enabled {
                        self.ui.status_msg = "Manual refresh...".to_owned();
                        self.last_status_clear = now;
                    }
                    Request::Nothing
                } else if c == 'd' {
                    Request::Disconnect
                } else if c == 'f' {
                    if self.wifi_enabled && self.ui.selected < self.networks.len() {
                        Request::Forget(self.networks[self.ui.selected].ssid.clone())
                    } else {
                        Request::Nothing
                    }
                } else if c == 'q' {
                    self.running = false;
                    Request::Nothing
                } else {
                    Request::Nothing
                }
            },
            Key::Esc => {
                self.running = false;
                Request::Nothing
            },
            _ => Request::Nothing,
        }
    }

    /// A key press while the password dialog is open. A printable ASCII
    /// character goes into the password; Backspace takes one out; the
    /// arrows move the cursor; Enter closes the dialog and asks to connect
    /// to the waiting network with the password; Escape closes the dialog
    /// and ends the loop.
    pub fn handle_password_input(&mut self, key: Key) -> (request: Request)
        requires
            old(self).ui.wf(),
        ensures
            final(self).ui.wf(),
            old(self).password_input_handled(key, *final(self), request),
    {
        match key {
            Key::Char(c) => {
                let code: u32 = c as u32;
                if 0x20 <= code && code <= 0x7e {
                    self.ui.add_password_char(c);
                }
                Request::Nothing
            },
            Key::Backspace => {
                self.ui.remove_password_char();
                Request::Nothing
            },
            Key::Left => {
                self.ui.move_password_cursor(-1);
                Request::Nothing
            },
            Key::Right => {
                self.ui.move_password_cursor(1);
                Request::Nothing
            },
            Key::Enter => {
                let password = self.ui.get_password();
                self.ui.hide_password_dialog();
                assert(self.ui.password_input@ =~= Seq::<char>::empty());
                match self.pending.take() {
                    Some(name) => Request::Connect(name, Some(password)),
                    None => Request::Nothing,
                }
            },
            Key::Esc => {
                self.ui.hide_password_dialog();
                assert(self.ui.password_input@ =~= Seq::<char>::empty());
                self.pending = None;
                self.running = false;
                Request::Nothing
            },
            _ => Request::Nothing,
        }
    }

    /// A key press: it goes to the password dialog while that is open,
    /// and to the list otherwise.
    pub fn handle_input(&mut self, key: Key, now: u64) -> (request: Request)
        requires
            old(self).ui.wf(),
        ensures
            final(self).ui.wf(),
            if old(self).ui.show_password_prompt {
                old(self).password_input_handled(key, *final(self), request)
            } else {
                old(self).main_input_handled(key, now, *final(self), request)
            },
    {
        if self.ui.show_password_prompt {
            self.handle_password_input(key)
        } else {
            self.handle_main_input(key, now)
        }
    }

    /// The radio state was polled. Where it has changed, the selection
    /// goes back to the first row and the change is announced; where the
    /// radio went off, the list is emptied. Hands back whether a scan is
    /// due.
    pub fn radio_polled(&mut self, enabled: bool, now: u64) -> (scan: bool)
        ensures
            final(self).wifi_enabled == enabled,
            scan == final(self).scan_due(enabled != old(self).wifi_enabled, now),
            enabled == old(self).wifi_enabled ==> *final(self) == *old(self),
            enabled != old(self).wifi_enabled ==> final(self).ui.selected == 0
                && final(self).last_status_clear == now,
            enabled && !old(self).wifi_enabled ==> final(self).ui.status_msg@
                == "WiFi enabled, scanning..."@ && final(self).networks == old(self).networks,
            !enabled && old(self).wifi_enabled ==> final(self).ui.status_msg@ == "WiFi disabled"@
                && final(self).networks@.len() == 0,
            final(self).running == old(self).running,
            final(self).pending == old(self).pending,
            final(self).last_scan == old(self).last_scan,
            final(self).ui.show_password_prompt == old(self).ui.show_password_prompt,
            final(self).ui.password_input == old(self).ui.password_input,
            final(self).ui.password_cursor == old(self).ui.password_cursor,
    {
        let changed = enabled != self.wifi_enabled;
        if changed {
            self.wifi_enabled = enabled;
            self.ui.selected = 0;
            if enabled {
                self.ui.status_msg = "WiFi enabled, scanning...".to_owned();
            } else {
                self.ui.status_msg = "WiFi disabled".to_owned();
                self.networks = Vec::new();
            }
            self.last_status_clear = now;
        }
        self.wifi_enabled && (changed || (now >= self.last_scan && now - self.last_scan
            >= SCAN_INTERVAL_SECS))
    }

    /// A scan is over. Its list replaces the current one. After a failed
    /// scan the current list stays as it is, and the failure is shown.
    pub fn scan_finished(&mut self, result: Result<Vec<WifiNetwork>, WifiError>, now: u64)
        ensures
            match result {
                Ok(list) => {
                    &&& final(self).networks == list
                    &&& final(self).last_scan == now
                    &&& final(self).ui.status_msg == old(self).ui.status_msg
                    &&& final(self).last_status_clear == old(self).last_status_clear
                },
                Err(err) => {
                    &&& final(self).networks == old(self).networks
                    &&& final(self).last_scan == old(self).last_scan
                    &&& final(self).ui.status_msg@ == scan_failure_text(err)
                    &&& final(self).last_status_clear == now
                },
            },
            final(self).wifi_enabled == old(self).wifi_enabled,
            final(self).running == old(self).running,
            final(self).pending == old(self).pending,
            final(self).ui.selected == old(self).ui.selected,
            final(self).ui.show_password_prompt == old(self).ui.show_password_prompt,
            final(self).ui.password_input == old(self).ui.password_input,
            final(self).ui.password_cursor == old(self).ui.password_cursor,
    {
        match result {
            Ok(list) => {
                self.networks = list;
                self.last_scan = now;
            },
            Err(err) => {
                let reason = err.message();
                self.ui.status_msg = join("Scan failed: ", reason.as_str());
                self.last_status_clear = now;
            },
        }
    }

    /// Takes the status message away once it has been shown for its
    /// lifetime.
    pub fn expire_status(&mut self, now: u64)
        ensures
            now - old(self).last_status_clear >= STATUS_LIFETIME_SECS
                ==> final(self).ui.status_msg@.len() == 0,
            now - old(self).last_status_clear < STATUS_LIFETIME_SECS ==> final(self).ui.status_msg
                == old(self).ui.status_msg,
            final(self).wifi_enabled == old(self).wifi_enabled,
            final(self).networks == old(self).networks,
            final(self).running == old(self).running,
            final(self).pending == old(self).pending,
            final(self).last_scan == old(self).last_scan,
            final(self).last_status_clear == old(self).last_status_clear,
            final(self).ui.selected == old(self).ui.selected,
            final(self).ui.show_password_prompt == old(self).ui.show_password_prompt,
            final(self).ui.password_input == old(self).ui.password_input,
            final(self).ui.password_cursor == old(self).ui.password_cursor,
    {
        if now >= self.last_status_clear && now - self.last_status_clear >= STATUS_LIFETIME_SECS {
            self.ui.status_msg = String::new();
        }
    }

    /// Shows `text` as the status message, from `now` on.
    pub fn show_status(&mut self, text: String, now: u64)
        ensures
            final(self).ui.status_msg == text,
            final(self).last_status_clear == now,
            final(self).wifi_enabled == old(self).wifi_enabled,
            final(self).networks == old(self).networks,
            final(self).running == old(self).running,
            final(self).pending == old(self).pending,
            final(self).last_scan == old(self).last_scan,
            final(self).ui.selected == old(self).ui.selected,
            final(self).ui.show_password_prompt == old(self).ui.show_password_prompt,
            final(self).ui.password_input == old(self).ui.password_input,
            final(self).ui.password_cursor == old(self).ui.password_cursor,
    {
        self.ui.status_msg = text;
        self.last_status_clear = now;
    }

    /// Takes in a step of the request to connect that `connection` makes
    /// and that ends it: a report is shown; a missing password opens the
    /// dialog, and the network waits for it. The steps that ask the
    /// program for more change nothing.
    pub fn connect_step_taken(&mut self, connection: &WifiConnection, step: ConnectStep, now: u64)
        ensures
            match step {
                ConnectStep::Report(text) => {
                    &&& final(self).ui.status_msg == text
                    &&& final(self).last_status_clear == now
                    &&& final(self).ui.show_password_prompt == old(self).ui.show_password_prompt
                    &&& final(self).ui.password_input == old(self).ui.password_input
                    &&& final(self).ui.password_cursor == old(self).ui.password_cursor
                    &&& final(self).pending == old(self).pending
                },
                ConnectStep::CollectCredential => {
                    &&& final(self).ui.show_password_prompt
                    &&& final(self).ui.password_input@.len() == 0
                    &&& final(self).ui.password_cursor == 0
                    &&& final(self).ui.status_msg == old(self).ui.status_msg
                    &&& final(self).last_status_clear == old(self).last_status_clear
                    &&& text_view(final(self).pending) == Some(connection.ssid@)
                },
                _ => {
                    &&& final(self).ui == old(self).ui
                    &&& final(self).last_status_clear == old(self).last_status_clear
                    &&& final(self).pending == old(self).pending
                },
            },
            final(self).ui.selected == old(self).ui.selected,
            final(self).wifi_enabled == old(self).wifi_enabled,
            final(self).networks == old(self).networks,
            final(self).running == old(self).running,
            final(self).last_scan == old(self).last_scan,
    {
        match step {
            ConnectStep::Report(text) => {
                self.ui.status_msg = text;
                self.last_status_clear = now;
            },
            ConnectStep::CollectCredential => {
                self.ui.show_password_prompt = true;
                self.ui.password_input = Vec::new();
                self.ui.password_cursor = 0;
                self.pending = Some(connection.ssid.clone());
            },
            _ => {},
        }
    }
}

/// What is shown after a scan failed.
pub open spec fn scan_failure_text(err: WifiError) -> Seq<char> {
    "Scan failed: "@ + err.message_text()
}

/// What is shown after the radio switch ran: that the radio is being
/// switched, or else the text of the failure as it is.
pub open spec fn radio_outcome_text(on: bool, result: Result<(), WifiError>) -> Seq<char> {
    if on {
        outcome_text("Enabling WiFi..."@, result)
    } else {
        outcome_text("Disabling WiFi..."@, result)
    }
}

/// What is shown after the radio switch ran.
pub fn after_toggle(on: bool, result: &Result<(), WifiError>) -> (text: String)
    ensures
        text@ == radio_outcome_text(on, *result),
{
    if on {
        outcome_message("Enabling WiFi...".to_owned(), result)
    } else {
        outcome_message("Disabling WiFi...".to_owned(), result)
    }
}

} // verus!
