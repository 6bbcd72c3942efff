//! What the interface remembers between two events: the selected row, the
//! status line and the password dialog.

use crate::text::string_from;
use vstd::prelude::*;

verus! {

/// The state of the interface.
#[derive(Debug, Clone)]
pub struct WifiUI {
    /// The selected row of the network list.
    pub selected: usize,
    /// The status line; empty where there is nothing to show.
    pub status_msg: String,
    /// Whether the password dialog is open.
    pub show_password_prompt: bool,
    /// The characters typed into the password dialog.
    pub password_input: Vec<char>,
    /// The place in the password where the next character goes.
    pub password_cursor: usize,
}

/// `count` dots.
pub open spec fn dots(count: nat) -> Seq<char> {
    Seq::new(count, |i: int| '.')
}

impl WifiUI {
    /// The cursor stands inside the password or at its end.
    pub open spec fn wf(&self) -> bool {
        self.password_cursor <= self.password_input.len()
    }

    /// The state at the start: the first row selected, nothing to show
    /// and no dialog.
    pub fn new() -> (ui: Self)
        ensures
            ui.wf(),
            ui.selected == 0,
            ui.status_msg@.len() == 0,
            !ui.show_password_prompt,
            ui.password_input@.len() == 0,
            ui.password_cursor == 0,
    {
        WifiUI {
            selected: 0,
            status_msg: String::new(),
            show_password_prompt: false,
            password_input: Vec::new(),
            password_cursor: 0,
        }
    }

    /// Selects a row.
    pub fn update_selection(&mut self, selected: usize)
        ensures
            *final(self) == (WifiUI { selected, ..*old(self) }),
    {
        self.selected = selected;
    }

    /// Shows `msg` on the status line.
    pub fn set_status(&mut self, msg: String)
        ensures
            *final(self) == (WifiUI { status_msg: msg, ..*old(self) }),
    {
        self.status_msg = msg;
    }

    /// Empties the status line.
    pub fn clear_status(&mut self)
        ensures
            final(self).status_msg@.len() == 0,
            final(self).selected == old(self).selected,
            final(self).show_password_prompt == old(self).show_password_prompt,
            final(self).password_input == old(self).password_input,
            final(self).password_cursor == old(self).password_cursor,
    {
        self.status_msg = String::new();
    }

    /// Opens the password dialog, empty.
    pub fn show_password_dialog(&mut self)
        ensures
            final(self).wf(),
            final(self).show_password_prompt,
            final(self).password_input@.len() == 0,
            final(self).password_cursor == 0,
            final(self).selected == old(self).selected,
            final(self).status_msg == old(self).status_msg,
    {
        self.show_password_prompt = true;
        self.password_input = Vec::new();
        self.password_cursor = 0;
    }

    /// Closes the password dialog and forgets what was typed.
    pub fn hide_password_dialog(&mut self)
        ensures
            final(self).wf(),
            !final(self).show_password_prompt,
            final(self).password_input@.len() == 0,
            final(self).password_cursor == 0,
            final(self).selected == old(self).selected,
            final(self).status_msg == old(self).status_msg,
    {
        self.show_password_prompt = false;
        self.password_input = Vec::new();
        self.password_cursor = 0;
    }

    /// Puts `c` into the password at the cursor and moves the cursor
    /// behind it.
    pub fn add_password_char(&mut self, c: char)
        requires
            old(self).wf(),
        ensures
            final(self).wf(),
            final(self).password_input@ == old(self).password_input@.insert(
                old(self).password_cursor as int,
                c,
            ),
            final(self).password_cursor == old(self).password_cursor + 1,
            final(self).selected == old(self).selected,
            final(self).status_msg == old(self).status_msg,
            final(self).show_password_prompt == old(self).show_password_prompt,
    {
        if self.password_cursor < self.password_input.len() {
            self.password_input.insert(self.password_cursor, c);
        } else {
            self.password_input.push(c);
            assert(self.password_input@ =~= old(self).password_input@.insert(
                old(self).password_cursor as int,
                c,
            ));
        }
        assert(self.password_input@.len() == old(self).password_input@.len() + 1);
        assert(self.password_cursor < self.password_input.len());
        self.password_cursor += 1;
    }

    /// Takes the character before the cursor out of the password and
    /// moves the cursor back; nothing where the cursor is at the start.
    pub fn remove_password_char(&mut self)
        requires
            old(self).wf(),
        ensures
            final(self).wf(),
            old(self).password_cursor > 0 ==> final(self).password_input@
                == old(self).password_input@.remove(old(self).password_cursor - 1)
                && final(self).password_cursor == old(self).password_cursor - 1,
            old(self).password_cursor == 0 ==> final(self).password_input@
                == old(self).password_input@ && final(self).password_cursor == 0,
            final(self).selected == old(self).selected,
            final(self).status_msg == old(self).status_msg,
            final(self).show_password_prompt == old(self).show_password_prompt,
    {
        if self.password_cursor > 0 {
            self.password_input.remove(self.password_cursor - 1);
            self.password_cursor -= 1;
        }
    }

    /// Moves the cursor by `direction` places where that leaves it inside
    /// the password or at its end; nothing otherwise.
    pub fn move_password_cursor(&mut self, direction: i32)
        requires
            old(self).wf(),
        ensures
            final(self).wf(),
            final(self).password_cursor == if 0 <= old(self).password_cursor + direction
                <= old(self).password_input.len() {
                old(self).password_cursor + direction
            } else {
                old(self).password_cursor as int
            },
            final(self).password_input == old(self).password_input,
            final(self).selected == old(self).selected,
            final(self).status_msg == old(self).status_msg,
            final(self).show_password_prompt == old(self).show_password_prompt,
    {
        let new_pos: i128 = self.password_cursor as i128 + direction as i128;
        if new_pos >= 0 && new_pos <= self.password_input.len() as i128 {
            self.password_cursor = new_pos as usize;
        }
    }

    /// The password typed so far.
    pub fn get_password(&self) -> (password: String)
        ensures
            password@ == self.password_input@,
    {
        string_from(&self.password_input)
    }

    /// The dots behind the scanning notice: none, one, two or three, one
    /// more every half second.
    pub fn get_loading_dots(&self, elapsed_millis: u128) -> (text: String)
        ensures
            text@ == dots(((elapsed_millis / 500) % 4) as nat),
    {
        let count: u128 = (elapsed_millis / 500) % 4;
        let mut text = String::new();
        let mut i: u128 = 0;
        while i < count
            invariant
                i <= count,
                text@ == dots(i as nat),
            decreases count - i,
        {
            text.push('.');
            i += 1;
            assert(text@ =~= dots(i as nat));
        }
        text
    }
}

} // verus!
