//! The search prompt: the query being typed, the selected result, and what each key
//! does to them.

use vstd::prelude::*;
use crate::search::{EricRow, SearchTask};
use crate::searcher::{FuzzySearcher, search_step};

verus! {

/// Relies on `String::push`: the character is appended.
pub assume_specification[ String::push ](s: &mut String, ch: char)
    ensures
        final(s)@ == old(s)@.push(ch),
;

/// Relies on `String::pop`: the last character is removed and returned; an empty
/// string stays empty and gives `None`.
pub assume_specification[ String::pop ](s: &mut String) -> (r: Option<char>)
    ensures
        old(s)@.len() == 0 ==> r is None && final(s)@ == old(s)@,
        old(s)@.len() > 0 ==> r == Some(old(s)@.last()) && final(s)@ == old(s)@.drop_last(),
;

/// A key, as the prompt tells keys apart.
#[derive(Clone, Copy, Debug, PartialEq, Eq)]
pub enum PromptKey {
    Escape,
    Enter,
    UpArrow,
    DownArrow,
    Backspace,
    Char(char),
    Other,
}

/// The modifiers held with a key, as the prompt tells them apart.
#[derive(Clone, Copy, Debug, PartialEq, Eq)]
pub enum PromptMods {
    Plain,
    Ctrl,
    Shift,
    Other,
}

/// What a key asks of the prompt.
#[derive(Clone, Copy, Debug)]
pub enum PromptCommand {
    Cancel,
    Accept,
    Up,
    Down,
    DeleteChar,
    InsertChar(char),
    Unhandled,
}

/// What the host is to do after a key.
#[derive(Debug)]
pub enum PromptAction {
    /// The key was not for the prompt.
    Ignored,
    /// Close the prompt.
    Close,
    /// Close the prompt and seat a cursor on `row_index` at `column`.
    Accept { row_index: usize, column: usize },
    /// The selection moved; redraw.
    Moved,
    /// The query changed and was submitted; run the task, if any, and redraw.
    Searched(Option<SearchTask>),
}

/// The command of each key: Escape or Ctrl-G cancels, Enter accepts, Up or Ctrl-P
/// and Down or Ctrl-N move, Backspace deletes, and a character typed plain or with
/// Shift is inserted.
pub open spec fn command_of(key: PromptKey, mods: PromptMods) -> PromptCommand {
    match (key, mods) {
        (PromptKey::Escape, PromptMods::Plain) => PromptCommand::Cancel,
        (PromptKey::Char('g'), PromptMods::Ctrl) => PromptCommand::Cancel,
        (PromptKey::Enter, PromptMods::Plain) => PromptCommand::Accept,
        (PromptKey::UpArrow, PromptMods::Plain) => PromptCommand::Up,
        (PromptKey::Char('p'), PromptMods::Ctrl) => PromptCommand::Up,
        (PromptKey::DownArrow, PromptMods::Plain) => PromptCommand::Down,
        (PromptKey::Char('n'), PromptMods::Ctrl) => PromptCommand::Down,
        (PromptKey::Backspace, PromptMods::Plain) => PromptCommand::DeleteChar,
        (PromptKey::Char(c), PromptMods::Plain) => PromptCommand::InsertChar(c),
        (PromptKey::Char(c), PromptMods::Shift) => PromptCommand::InsertChar(c),
        _ => PromptCommand::Unhandled,
    }
}

/// The selected index after moving up from `row` in a list of `len` results: one up,
/// kept inside the list.
pub open spec fn row_after_up(row: usize, len: nat) -> usize {
    if len == 0 || row == 0 {
        0
    } else if row - 1 < len {
        (row - 1) as usize
    } else {
        (len - 1) as usize
    }
}

/// A row below `row` exists in a list of `len` results, so moving down moves.
pub open spec fn can_move_down(row: usize, len: nat) -> bool {
    row + 1 < len
}

/// `post` is `pre` after moving down in `results`: when a row below exists, the next
/// row is selected and pointed at; otherwise the selection and the line pointed at
/// stay as they were.
pub open spec fn moved_down(pre: EricWindow, post: EricWindow, results: Seq<EricRow>) -> bool {
    &&& post.selection_view() == pre.selection_view()
    &&& if can_move_down(pre.selected_row_view(), results.len()) {
        &&& post.selected_row_view() == pre.selected_row_view() + 1
        &&& post.top_row_view() == results[post.selected_row_view() as int].row_index
    } else {
        &&& post.selected_row_view() == pre.selected_row_view()
        &&& post.top_row_view() == pre.top_row_view()
    }
}

/// After a move, `post` points at the line of its selected result, or, with no
/// results, where `pre` pointed.
pub open spec fn points_at_selected(pre: EricWindow, post: EricWindow, results: Seq<EricRow>) -> bool {
    if results.len() > 0 {
        post.top_row_view() == results[post.selected_row_view() as int].row_index
    } else {
        post.top_row_view() == pre.top_row_view()
    }
}

/// The prompt's state: the query typed so far, the selected result, and the line
/// that the selected result points at.
pub struct EricWindow {
    selection: String,
    selected_row: usize,
    top_row: usize,
}

impl EricWindow {
    /// The query typed so far.
    pub closed spec fn selection_view(self) -> Seq<char> {
        self.selection@
    }

    /// The index of the selected result.
    pub closed spec fn selected_row_view(self) -> usize {
        self.selected_row
    }

    /// The line index of the selected result; 0 before any move.
    pub closed spec fn top_row_view(self) -> usize {
        self.top_row
    }

    /// An empty prompt with the first result selected.
    pub fn new() -> (r: EricWindow)
        ensures
            r.selection_view() == Seq::<char>::empty(),
            r.selected_row_view() == 0,
            r.top_row_view() == 0,
    {
        EricWindow { selection: String::new(), selected_row: 0, top_row: 0 }
    }

    /// The query typed so far.
    pub fn selection(&self) -> (r: &str)
        ensures
            r@ == self.selection_view(),
    {
        self.selection.as_str()
    }

    /// The index of the selected result.
    pub fn selected_row(&self) -> (r: usize)
        ensures
            r == self.selected_row_view(),
    {
        self.selected_row
    }

    /// The line index of the selected result.
    pub fn top_row(&self) -> (r: usize)
        ensures
            r == self.top_row_view(),
    {
        self.top_row
    }

    /// Goes back to the first result, as after every change of the query.
    pub fn updated_input(&mut self)
        ensures
            final(self).selection_view() == old(self).selection_view(),
            final(self).selected_row_view() == 0,
            final(self).top_row_view() == 0,
    {
        self.selected_row = 0;
        self.top_row = 0;
    }

    /// Selects the result above, staying inside `results`, and points at its line.
    pub fn move_up(&mut self, results: &Vec<EricRow>)
        ensures
            final(self).selection_view() == old(self).selection_view(),
            final(self).selected_row_view() == row_after_up(old(self).selected_row_view(), results@.len()),
            points_at_selected(*old(self), *final(self), results@),
    {
        let len = results.len();
        if len > 0 {
            let row = if self.selected_row == 0 {
                0
            } else if self.selected_row - 1 < len {
                self.selected_row - 1
            } else {
                len - 1
            };
            self.selected_row = row;
            self.top_row = results[row].row_index;
        } else {
            self.selected_row = 0;
        }
    }

    /// Selects the result below and points at its line, if there is one; otherwise
    /// changes nothing.
    pub fn move_down(&mut self, results: &Vec<EricRow>)
        ensures
            moved_down(*old(self), *final(self), results@),
    {
        if self.selected_row < results.len() && results.len() - self.selected_row > 1 {
            let row = self.selected_row + 1;
            self.selected_row = row;
            self.top_row = results[row].row_index;
        }
    }

    /// Submits the query typed so far to `searcher`.
    pub fn start_fuzzy_search(&self, searcher: &mut FuzzySearcher) -> (task: Option<SearchTask>)
        ensures
            search_step(*old(searcher), *final(searcher), self.selection_view(), task),
    {
        searcher.search(self.selection.as_str())
    }

    /// The prompt line as shown: `> `, the query, and a `_` for the cursor.
    pub fn prompt_text(&self) -> (r: String)
        ensures
            r@ == seq!['>', ' '] + self.selection_view() + seq!['_'],
    {
        let head = "> ".to_string();
        let with_query = head.concat(self.selection.as_str());
        let r = with_query.concat("_");
        proof {
            reveal_strlit("> ");
            reveal_strlit("_");
            assert(r@ =~= seq!['>', ' '] + self.selection_view() + seq!['_']);
        }
        r
    }

    /// Handles one key: cancels, accepts the selected result, moves the selection,
    /// or edits the query and submits it to `searcher`, which also holds the results
    /// that the selection points into.
    pub fn key_down(&mut self, key: PromptKey, mods: PromptMods, searcher: &mut FuzzySearcher) -> (r: PromptAction)
        ensures
            match command_of(key, mods) {
                PromptCommand::Cancel => r is Close,
                PromptCommand::Accept => {
                    let results = old(searcher).results_view();
                    let row = old(self).selected_row_view();
                    if row < results.len() {
                        r == (PromptAction::Accept { row_index: results[row as int].row_index, column: results[row as int].first_y })
                    } else {
                        r is Close
                    }
                },
                PromptCommand::Up => r is Moved,
                PromptCommand::Down => r is Moved,
                PromptCommand::DeleteChar => r matches PromptAction::Searched(t) && search_step(*old(searcher), *final(searcher), final(self).selection_view(), t),
                PromptCommand::InsertChar(_) => r matches PromptAction::Searched(t) && search_step(*old(searcher), *final(searcher), final(self).selection_view(), t),
                PromptCommand::Unhandled => r is Ignored,
            },
            match command_of(key, mods) {
                PromptCommand::Up => {
                    &&& final(self).selected_row_view() == row_after_up(old(self).selected_row_view(), old(searcher).results_view().len())
                    &&& final(self).selection_view() == old(self).selection_view()
                    &&& points_at_selected(*old(self), *final(self), old(searcher).results_view())
                },
                PromptCommand::Down => moved_down(*old(self), *final(self), old(searcher).results_view()),
                PromptCommand::DeleteChar => {
                    &&& final(self).selection_view() == (if old(self).selection_view().len() == 0 { old(self).selection_view() } else { old(self).selection_view().drop_last() })
                    &&& final(self).selected_row_view() == 0
                    &&& final(self).top_row_view() == 0
                },
                PromptCommand::InsertChar(c) => {
                    &&& final(self).selection_view() == old(self).selection_view().push(c)
                    &&& final(self).selected_row_view() == 0
                    &&& final(self).top_row_view() == 0
                },
                _ => {
                    &&& final(self).selection_view() == old(self).selection_view()
                    &&& final(self).selected_row_view() == old(self).selected_row_view()
                    &&& final(self).top_row_view() == old(self).top_row_view()
                },
            },
            !(command_of(key, mods) is DeleteChar || command_of(key, mods) is InsertChar) ==> *final(searcher) == *old(searcher),
    {
        let command = match (key, mods) {
            (PromptKey::Escape, PromptMods::Plain) => PromptCommand::Cancel,
            (PromptKey::Char('g'), PromptMods::Ctrl) => PromptCommand::Cancel,
            (PromptKey::Enter, PromptMods::Plain) => PromptCommand::Accept,
            (PromptKey::UpArrow, PromptMods::Plain) => PromptCommand::Up,
            (PromptKey::Char('p'), PromptMods::Ctrl) => PromptCommand::Up,
            (PromptKey::DownArrow, PromptMods::Plain) => PromptCommand::Down,
            (PromptKey::Char('n'), PromptMods::Ctrl) => PromptCommand::Down,
            (PromptKey::Backspace, PromptMods::Plain) => PromptCommand::DeleteChar,
            (PromptKey::Char(c), PromptMods::Plain) => PromptCommand::InsertChar(c),
            (PromptKey::Char(c), PromptMods::Shift) => PromptCommand::InsertChar(c),
            _ => PromptCommand::Unhandled,
        };
        match command {
            PromptCommand::Cancel => PromptAction::Close,
            PromptCommand::Accept => {
                let results = searcher.current_results();
                if self.selected_row < results.len() {
                    let row = &results[self.selected_row];
                    PromptAction::Accept { row_index: row.row_index, column: row.first_y }
                } else {
                    PromptAction::Close
                }
            },
            PromptCommand::Up => {
                self.move_up(searcher.current_results());
                PromptAction::Moved
            },
            PromptCommand::Down => {
                self.move_down(searcher.current_results());
                PromptAction::Moved
            },
            PromptCommand::DeleteChar => {
                self.selection.pop();
                self.updated_input();
                PromptAction::Searched(self.start_fuzzy_search(searcher))
            },
            PromptCommand::InsertChar(c) => {
                self.selection.push(c);
                self.updated_input();
                PromptAction::Searched(self.start_fuzzy_search(searcher))
            },
            PromptCommand::Unhandled => PromptAction::Ignored,
        }
    }
}

} // verus!
