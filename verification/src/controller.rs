//! The interactive controller: snapshot store, list navigator, search
//! editor, and the two-state mode machine that routes keys between them.

use vstd::prelude::*;

use crate::record::ProcessRecord;
use crate::record::distinct_pids;
use crate::record::filter_matching;
use crate::record::sorted_by_pid;

verus! {

/// The input mode: `ProcessMode` navigates the list and acts on processes,
/// `SearchMode` edits the search buffer in a modal overlay.
#[derive(Clone, Copy, PartialEq, Eq, Structural, Debug)]
pub enum AppState {
    ProcessMode,
    SearchMode,
}

/// A row height used for the derived scroll offset: every row occupies this
/// many terminal cells.
pub const ITEM_HEIGHT: usize = 4;

/// The controller. All state of the program that outlives one key press
/// lives here; there is exactly one instance per run.
pub struct App {
    /// The displayed snapshot: possibly filtered, sorted by identifier.
    pub items: Vec<ProcessRecord>,
    /// Index of the highlighted row, or `None` while the list is empty.
    pub selection: Option<usize>,
    /// Which handler set receives keys.
    pub mode: AppState,
    /// Whether the search overlay is drawn; always equal to being in
    /// `SearchMode`.
    pub show_popup: bool,
    /// The search buffer, one entry per character.
    pub input: Vec<char>,
    /// The caret, measured in characters, in `[0, input.len()]`.
    pub character_index: usize,
    /// Every search string ever submitted, oldest first.
    pub messages: Vec<Vec<char>>,
}

/// A selection is valid for a list length exactly when it is `None` for an
/// empty list and an in-range index otherwise.
pub open spec fn valid_selection(sel: Option<usize>, len: nat) -> bool {
    match sel {
        Some(i) => len > 0 && i < len,
        None => len == 0,
    }
}

/// Where the selection lands after the list length changes: clamped into
/// range, `None` for an empty list, and the first row when a list appears
/// under a previously empty selection.
pub open spec fn clamp_selection(sel: Option<usize>, len: nat) -> Option<usize> {
    if len == 0 {
        None
    } else {
        match sel {
            Some(i) => if i < len {
                Some(i)
            } else {
                Some((len - 1) as usize)
            },
            None => Some(0usize),
        }
    }
}

/// The selection after one step forward, wrapping to the first row past the
/// last; a no-op `None` on an empty list.
pub open spec fn spec_next_sel(sel: Option<usize>, len: nat) -> Option<usize> {
    if len == 0 {
        None
    } else {
        match sel {
            Some(i) => if i + 1 >= len {
                Some(0usize)
            } else {
                Some((i + 1) as usize)
            },
            None => Some(0usize),
        }
    }
}

/// The selection after one step backward, wrapping to the last row from the
/// first; a no-op `None` on an empty list.
pub open spec fn spec_prev_sel(sel: Option<usize>, len: nat) -> Option<usize> {
    if len == 0 {
        None
    } else {
        match sel {
            Some(i) => if i == 0 {
                Some((len - 1) as usize)
            } else {
                Some((i - 1) as usize)
            },
            None => Some(0usize),
        }
    }
}

/// One decoded key press, already freed of the terminal backend's encoding:
/// the logical inputs the controller reacts to.
#[derive(Clone, Copy, PartialEq, Eq, Structural, Debug)]
pub enum Key {
    Char(char),
    Enter,
    Backspace,
    Left,
    Right,
    Other,
}

/// What a refresh leaves behind: a snapshot whose contents the OS decided,
/// sorted by identifier, the selection clamped against the new length, and
/// the mode, overlay and search state untouched.
pub open spec fn refreshed(pre: App, post: App) -> bool {
    &&& sorted_by_pid(post.items@)
    &&& distinct_pids(post.items@)
    &&& post.selection == clamp_selection(pre.selection, post.items@.len())
    &&& post.mode == pre.mode
    &&& post.show_popup == pre.show_popup
    &&& post.input == pre.input
    &&& post.character_index == pre.character_index
    &&& post.messages == pre.messages
}

/// A pure selection move: only the selection changed, to `sel`.
pub open spec fn navigated(pre: App, post: App, sel: Option<usize>) -> bool {
    &&& post.selection == sel
    &&& post.items == pre.items
    &&& post.mode == pre.mode
    &&& post.show_popup == pre.show_popup
    &&& post.input == pre.input
    &&& post.character_index == pre.character_index
    &&& post.messages == pre.messages
}

/// A pure buffer edit: list, selection, mode and history untouched.
pub open spec fn edited(pre: App, post: App) -> bool {
    &&& post.items == pre.items
    &&& post.selection == pre.selection
    &&& post.mode == pre.mode
    &&& post.show_popup == pre.show_popup
    &&& post.messages == pre.messages
}

/// A submitted search: the displayed list becomes the filtered snapshot and
/// the selection is clamped to it; the buffer is recorded in the history and
/// reset; editing is over, so the controller is browsing again.
pub open spec fn submitted(pre: App, post: App) -> bool {
    &&& post.items@ == filter_matching(pre.items@, pre.input@)
    &&& post.selection == clamp_selection(pre.selection, post.items@.len())
    &&& post.input@ == Seq::<char>::empty()
    &&& post.character_index == 0
    &&& post.messages@ == pre.messages@.push(pre.input)
    &&& post.mode == AppState::ProcessMode
    &&& !post.show_popup
}

/// Entering search mode: overlay shown and, by this controller's documented
/// policy, any leftover buffer cleared so a new search starts empty.
pub open spec fn entered_search(pre: App, post: App) -> bool {
    &&& post.mode == AppState::SearchMode
    &&& post.show_popup
    &&& post.input@ == Seq::<char>::empty()
    &&& post.character_index == 0
    &&& post.items == pre.items
    &&& post.selection == pre.selection
    &&& post.messages == pre.messages
}

/// Cancelling a search: back to browsing with the overlay hidden; the
/// buffer is left as it stands, neither submitted nor cleared.
pub open spec fn cancelled_search(pre: App, post: App) -> bool {
    &&& post.mode == AppState::ProcessMode
    &&& !post.show_popup
    &&& post.items == pre.items
    &&& post.selection == pre.selection
    &&& post.input == pre.input
    &&& post.character_index == pre.character_index
    &&& post.messages == pre.messages
}

impl App {
    /// The controller's invariant: the selection is valid for the displayed
    /// list, the caret sits inside the buffer, and the overlay is shown
    /// exactly in `SearchMode`.
    pub open spec fn wf(self) -> bool {
        &&& valid_selection(self.selection, self.items@.len())
        &&& self.character_index <= self.input@.len()
        &&& (self.show_popup <==> self.mode is SearchMode)
    }

    /// A fresh controller: empty snapshot, no selection, browsing, overlay
    /// hidden, empty search buffer.
    pub fn new() -> (r: App)
        ensures
            r.wf(),
            r.items@ =~= Seq::<ProcessRecord>::empty(),
            r.selection is None,
            r.mode == AppState::ProcessMode,
            !r.show_popup,
            r.input@ =~= Seq::<char>::empty(),
            r.character_index == 0,
            r.messages@ =~= Seq::<Vec<char>>::empty(),
    {
        App {
            items: Vec::new(),
            selection: None,
            mode: AppState::ProcessMode,
            show_popup: false,
            input: Vec::new(),
            character_index: 0,
            messages: Vec::new(),
        }
    }

    /// Discards the snapshot; the selection becomes `None` with it, never a
    /// dangling index.
    pub fn clean(&mut self)
        requires
            old(self).wf(),
        ensures
            final(self).wf(),
            final(self).items@ =~= Seq::<ProcessRecord>::empty(),
            final(self).selection is None,
            final(self).mode == old(self).mode,
            final(self).show_popup == old(self).show_popup,
            final(self).input == old(self).input,
            final(self).character_index == old(self).character_index,
            final(self).messages == old(self).messages,
    {
        self.items = Vec::new();
        self.selection = None;
    }

    /// Advances the selection by one row, wrapping to the top; a guarded
    /// no-op on an empty list.
    pub fn next(&mut self)
        requires
            old(self).wf(),
        ensures
            final(self).wf(),
            final(self).selection == spec_next_sel(old(self).selection, old(self).items@.len()),
            final(self).items == old(self).items,
            final(self).mode == old(self).mode,
            final(self).show_popup == old(self).show_popup,
            final(self).input == old(self).input,
            final(self).character_index == old(self).character_index,
            final(self).messages == old(self).messages,
    {
        if self.items.len() == 0 {
            return;
        }
        let i = match self.selection {
            Some(i) => {
                if i >= self.items.len() - 1 {
                    0
                } else {
                    i + 1
                }
            },
            None => 0,
        };
        self.selection = Some(i);
    }

    /// Moves the selection back one row, wrapping to the bottom; a guarded
    /// no-op on an empty list.
    pub fn previous(&mut self)
        requires
            old(self).wf(),
        ensures
            final(self).wf(),
            final(self).selection == spec_prev_sel(old(self).selection, old(self).items@.len()),
            final(self).items == old(self).items,
            final(self).mode == old(self).mode,
            final(self).show_popup == old(self).show_popup,
            final(self).input == old(self).input,
            final(self).character_index == old(self).character_index,
            final(self).messages == old(self).messages,
    {
        if self.items.len() == 0 {
            return;
        }
        let i = match self.selection {
            Some(i) => {
                if i == 0 {
                    self.items.len() - 1
                } else {
                    i - 1
                }
            },
            None => 0,
        };
        self.selection = Some(i);
    }

    /// Clamps a caret position into `[0, buffer length]`.
    pub fn clamp_cursor(&self, new_cursor_pos: usize) -> (r: usize)
        ensures
            r == if new_cursor_pos <= self.input@.len() {
                new_cursor_pos as int
            } else {
                self.input@.len() as int
            },
    {
        if new_cursor_pos <= self.input.len() {
            new_cursor_pos
        } else {
            self.input.len()
        }
    }

    /// Moves the caret one character left, stopping at the start.
    pub fn move_cursor_left(&mut self)
        requires
            old(self).wf(),
        ensures
            final(self).wf(),
            final(self).character_index == if old(self).character_index > 0 {
                old(self).character_index - 1
            } else {
                0int
            },
            *final(self) == (App {
                character_index: final(self).character_index,
                ..*old(self)
            }),
    {
        let moved = if self.character_index > 0 {
            self.character_index - 1
        } else {
            0
        };
        self.character_index = self.clamp_cursor(moved);
    }

    /// Moves the caret one character right, stopping at the end of the
    /// buffer.
    pub fn move_cursor_right(&mut self)
        requires
            old(self).wf(),
        ensures
            final(self).wf(),
            final(self).character_index == if old(self).character_index + 1 <= old(
                self,
            ).input@.len() {
                old(self).character_index + 1
            } else {
                old(self).input@.len() as int
            },
            *final(self) == (App {
                character_index: final(self).character_index,
                ..*old(self)
            }),
    {
        let moved = if self.character_index < self.input.len() {
            self.character_index + 1
        } else {
            self.input.len()
        };
        self.character_index = self.clamp_cursor(moved);
    }

    /// Empties the search buffer and resets the caret to the start.
    pub fn clear(&mut self)
        ensures
            final(self).input@ == Seq::<char>::empty(),
            final(self).character_index == 0,
            *final(self) == (App {
                input: final(self).input,
                character_index: 0,
                ..*old(self)
            }),
    {
        self.input.clear();
        self.character_index = 0;
    }

    /// Resets the caret to the start of the buffer.
    pub fn reset_cursor(&mut self)
        ensures
            final(self).character_index == 0,
            *final(self) == (App { character_index: 0, ..*old(self) }),
    {
        self.character_index = 0;
    }

    /// Inserts a character at the caret's character position and advances
    /// the caret past it.
    pub fn enter_char(&mut self, new_char: char)
        requires
            old(self).wf(),
        ensures
            final(self).wf(),
            final(self).input@ == old(self).input@.insert(
                old(self).character_index as int,
                new_char,
            ),
            final(self).character_index == old(self).character_index + 1,
            *final(self) == (App {
                input: final(self).input,
                character_index: final(self).character_index,
                ..*old(self)
            }),
    {
        let at = self.character_index;
        self.input.insert(at, new_char);
        self.move_cursor_right();
    }

    /// Removes the character just before the caret and moves the caret onto
    /// its place; a no-op with the caret at the start.
    pub fn delete_char(&mut self)
        requires
            old(self).wf(),
        ensures
            final(self).wf(),
            old(self).character_index == 0 ==> *final(self) == *old(self),
            old(self).character_index > 0 ==> {
                &&& final(self).input@ == old(self).input@.remove(
                    old(self).character_index - 1,
                )
                &&& final(self).character_index == old(self).character_index - 1
                &&& *final(self) == (App {
                    input: final(self).input,
                    character_index: final(self).character_index,
                    ..*old(self)
                })
            },
    {
        if self.character_index != 0 {
            let at = self.character_index - 1;
            self.input.remove(at);
            self.character_index = at;
        }
    }

    /// Re-clamps the selection after the displayed list changed length.
    fn clamp_selection_into_range(&mut self)
        ensures
            final(self).selection == clamp_selection(
                old(self).selection,
                old(self).items@.len(),
            ),
            valid_selection(final(self).selection, final(self).items@.len()),
            *final(self) == (App { selection: final(self).selection, ..*old(self) }),
    {
        let len = self.items.len();
        self.selection = if len == 0 {
            None
        } else {
            match self.selection {
                Some(i) => if i < len {
                    Some(i)
                } else {
                    Some(len - 1)
                },
                None => Some(0),
            }
        };
    }

    /// Applies the search buffer as a filter: the displayed list becomes
    /// exactly the records whose name contains the buffer, in order, and
    /// the selection is clamped to the shorter list. Submission is one-shot;
    /// only a refresh restores the full snapshot.
    pub fn search(&mut self)
        requires
            old(self).wf(),
        ensures
            final(self).wf(),
            final(self).items@ == filter_matching(old(self).items@, old(self).input@),
            final(self).selection == clamp_selection(
                old(self).selection,
                final(self).items@.len(),
            ),
            final(self).mode == old(self).mode,
            final(self).show_popup == old(self).show_popup,
            final(self).input == old(self).input,
            final(self).character_index == old(self).character_index,
            final(self).messages == old(self).messages,
    {
        let mut taken: Vec<ProcessRecord> = Vec::new();
        core::mem::swap(&mut taken, &mut self.items);
        self.items = crate::record::filter_by_name(taken, &self.input);
        self.clamp_selection_into_range();
    }

    /// Submits the search: records the buffer in the history, filters the
    /// displayed list by it, then clears the buffer and resets the caret.
    pub fn submit_message(&mut self)
        requires
            old(self).wf(),
        ensures
            final(self).wf(),
            final(self).items@ == filter_matching(old(self).items@, old(self).input@),
            final(self).selection == clamp_selection(
                old(self).selection,
                final(self).items@.len(),
            ),
            final(self).input@ == Seq::<char>::empty(),
            final(self).character_index == 0,
            final(self).messages@ == old(self).messages@.push(old(self).input),
            final(self).mode == old(self).mode,
            final(self).show_popup == old(self).show_popup,
    {
        self.search();
        let mut buf: Vec<char> = Vec::new();
        core::mem::swap(&mut buf, &mut self.input);
        self.messages.push(buf);
        self.reset_cursor();
    }

    /// Replaces the displayed list with a snapshot, re-sorted by identifier
    /// ascending, and clamps the selection to the new length.
    pub fn load_snapshot(&mut self, procs: Vec<ProcessRecord>)
        requires
            old(self).wf(),
        ensures
            final(self).wf(),
            sorted_by_pid(final(self).items@),
            distinct_pids(procs@) ==> distinct_pids(final(self).items@),
            final(self).items@.to_multiset() == procs@.to_multiset(),
            final(self).items@.len() == procs@.len(),
            final(self).selection == clamp_selection(
                old(self).selection,
                final(self).items@.len(),
            ),
            final(self).mode == old(self).mode,
            final(self).show_popup == old(self).show_popup,
            final(self).input == old(self).input,
            final(self).character_index == old(self).character_index,
            final(self).messages == old(self).messages,
    {
        self.items = procs;
        crate::record::sort_by_pid(&mut self.items);
        self.clamp_selection_into_range();
    }

    /// Queries the OS for the live process set and displays it, sorted by
    /// identifier; the selection carries over, clamped to the new length.
    pub fn get_proc(&mut self)
        requires
            old(self).wf(),
        ensures
            final(self).wf(),
            refreshed(*old(self), *final(self)),
    {
        let procs = crate::source::fetch_processes();
        self.load_snapshot(procs);
    }

    /// Discards the snapshot and re-queries the OS: a full, wholesale
    /// replacement. The OS query blocks until it completes; nothing else
    /// runs meanwhile.
    pub fn refresh(&mut self)
        requires
            old(self).wf(),
        ensures
            final(self).wf(),
            refreshed(*old(self), *final(self)),
    {
        self.get_proc();
    }

    /// Asks the OS to terminate the selected process, then refreshes; the
    /// row is never removed optimistically, because termination may fail or
    /// lag. A guarded no-op on an empty list: no crash, nothing changes.
    pub fn delete_proc(&mut self)
        requires
            old(self).wf(),
        ensures
            final(self).wf(),
            old(self).selection is None ==> *final(self) == *old(self),
            old(self).selection is Some ==> refreshed(*old(self), *final(self)),
    {
        match self.selection {
            Some(i) => {
                let pid = self.items[i].pid;
                let _ = crate::source::terminate_process(pid);
                self.refresh();
            },
            None => {},
        }
    }

    /// Byte offset of the caret in the UTF-8 encoding of the buffer: each
    /// character counts its encoded width, never one byte per character.
    pub fn byte_index(&self) -> (r: usize)
        requires
            self.wf(),
            4 * self.input@.len() <= usize::MAX,
        ensures
            r == crate::text::utf8_prefix_len(self.input@, self.character_index as int),
    {
        crate::text::utf8_byte_index(&self.input, self.character_index)
    }

    /// The scroll offset, always derived from the selection: row index
    /// times row height, zero with nothing selected. Never stored, so it
    /// cannot drift from the selection.
    pub fn scroll_position(&self) -> (r: usize)
        requires
            self.wf(),
            self.items@.len() * ITEM_HEIGHT <= usize::MAX,
        ensures
            r == spec_scroll_position(self.selection),
    {
        match self.selection {
            Some(i) => i * ITEM_HEIGHT,
            None => 0,
        }
    }

    /// The maximum scrollable extent for the current list length: rows past
    /// the first, times row height.
    pub fn scroll_extent(&self) -> (r: usize)
        requires
            self.items@.len() * ITEM_HEIGHT <= usize::MAX,
        ensures
            r == spec_scroll_extent(self.items@.len() as int),
    {
        let len = self.items.len();
        if len == 0 {
            0
        } else {
            (len - 1) * ITEM_HEIGHT
        }
    }

    /// Enters search mode: the overlay is shown and, by this controller's
    /// documented policy, any leftover buffer is cleared so a new search
    /// starts empty.
    pub fn open_search(&mut self)
        requires
            old(self).wf(),
        ensures
            final(self).wf(),
            entered_search(*old(self), *final(self)),
    {
        self.mode = AppState::SearchMode;
        self.show_popup = true;
        self.clear();
    }

    /// Returns to browsing with the overlay hidden; the buffer is left as
    /// it stands.
    pub fn close_search(&mut self)
        requires
            old(self).wf(),
        ensures
            final(self).wf(),
            final(self).mode == AppState::ProcessMode,
            !final(self).show_popup,
            final(self).items == old(self).items,
            final(self).selection == old(self).selection,
            final(self).input == old(self).input,
            final(self).character_index == old(self).character_index,
            final(self).messages == old(self).messages,
    {
        self.mode = AppState::ProcessMode;
        self.show_popup = false;
    }

    /// Routes one key press to the active mode's handler; no key ever
    /// reaches both modes. Returns whether the program should quit, which
    /// only the browse-mode quit key requests. Browse mode reacts to every
    /// event kind; search mode only to presses.
    pub fn handle_key(&mut self, key: Key, press: bool) -> (quit: bool)
        requires
            old(self).wf(),
        ensures
            final(self).wf(),
            quit == (old(self).mode == AppState::ProcessMode && key == Key::Char('q')),
            old(self).mode == AppState::ProcessMode ==> match key {
                Key::Char(c) => {
                    if c == 'q' {
                        *final(self) == *old(self)
                    } else if c == 'r' {
                        refreshed(*old(self), *final(self))
                    } else if c == 'k' {
                        navigated(
                            *old(self),
                            *final(self),
                            spec_prev_sel(old(self).selection, old(self).items@.len()),
                        )
                    } else if c == 'j' {
                        navigated(
                            *old(self),
                            *final(self),
                            spec_next_sel(old(self).selection, old(self).items@.len()),
                        )
                    } else if c == 'd' {
                        &&& old(self).selection is None ==> *final(self) == *old(self)
                        &&& old(self).selection is Some ==> refreshed(*old(self), *final(self))
                    } else if c == '/' {
                        entered_search(*old(self), *final(self))
                    } else {
                        *final(self) == *old(self)
                    }
                },
                _ => *final(self) == *old(self),
            },
            old(self).mode == AppState::SearchMode && !press ==> *final(self) == *old(self),
            old(self).mode == AppState::SearchMode && press ==> match key {
                Key::Char(c) => {
                    if c == '/' {
                        cancelled_search(*old(self), *final(self))
                    } else {
                        &&& edited(*old(self), *final(self))
                        &&& final(self).input@ == old(self).input@.insert(
                            old(self).character_index as int,
                            c,
                        )
                        &&& final(self).character_index == old(self).character_index + 1
                    }
                },
                Key::Enter => submitted(*old(self), *final(self)),
                Key::Backspace => {
                    &&& edited(*old(self), *final(self))
                    &&& old(self).character_index == 0 ==> *final(self) == *old(self)
                    &&& old(self).character_index > 0 ==> {
                        &&& final(self).input@ == old(self).input@.remove(
                            old(self).character_index - 1,
                        )
                        &&& final(self).character_index == old(self).character_index - 1
                    }
                },
                Key::Left => {
                    &&& edited(*old(self), *final(self))
                    &&& final(self).input == old(self).input
                    &&& final(self).character_index == if old(self).character_index > 0 {
                        old(self).character_index - 1
                    } else {
                        0int
                    }
                },
                Key::Right => {
                    &&& edited(*old(self), *final(self))
                    &&& final(self).input == old(self).input
                    &&& final(self).character_index == if old(self).character_index + 1 <= old(
                        self,
                    ).input@.len() {
                        old(self).character_index + 1
                    } else {
                        old(self).input@.len() as int
                    }
                },
                Key::Other => *final(self) == *old(self),
            },
    {
        let mut quit = false;
        match self.mode {
            AppState::ProcessMode => {
                match key {
                    Key::Char(c) => {
                        if c == 'q' {
                            quit = true;
                        } else if c == 'r' {
                            self.refresh();
                        } else if c == 'k' {
                            self.previous();
                        } else if c == 'j' {
                            self.next();
                        } else if c == 'd' {
                            self.delete_proc();
                        } else if c == '/' {
                            self.open_search();
                        }
                    },
                    _ => {},
                }
            },
            AppState::SearchMode => {
                if press {
                    match key {
                        Key::Char(c) => {
                            if c == '/' {
                                self.close_search();
                            } else {
                                self.enter_char(c);
                            }
                        },
                        Key::Enter => {
                            self.submit_message();
                            self.close_search();
                        },
                        Key::Backspace => {
                            self.delete_char();
                        },
                        Key::Left => {
                            self.move_cursor_left();
                        },
                        Key::Right => {
                            self.move_cursor_right();
                        },
                        Key::Other => {},
                    }
                }
            },
        }
        quit
    }
}

/// The scroll offset that a selection dictates: row index times row height.
pub open spec fn spec_scroll_position(sel: Option<usize>) -> int {
    match sel {
        Some(i) => i * (ITEM_HEIGHT as int),
        None => 0,
    }
}

/// The maximum scrollable extent for a list length: rows past the first,
/// times row height.
pub open spec fn spec_scroll_extent(len: int) -> int {
    if len <= 0 {
        0
    } else {
        (len - 1) * (ITEM_HEIGHT as int)
    }
}

/// Selection navigation never leaves the valid range: stepping a valid
/// selection forward or backward yields a valid selection again, so any
/// sequence of such steps stays within `[0, length)` on a non-empty list and
/// stays `None` on an empty one.
pub proof fn lemma_navigation_preserves_validity(sel: Option<usize>, len: nat)
    requires
        valid_selection(sel, len),
    ensures
        valid_selection(spec_next_sel(sel, len), len),
        valid_selection(spec_prev_sel(sel, len), len),
{
}

/// Stepping forward then backward (or backward then forward) from any valid
/// selection of a non-empty list returns to the original selection.
pub proof fn lemma_next_previous_roundtrip(i: usize, len: nat)
    requires
        len >= 1,
        len <= usize::MAX,
        i < len,
    ensures
        spec_prev_sel(spec_next_sel(Some(i), len), len) == Some(i),
        spec_next_sel(spec_prev_sel(Some(i), len), len) == Some(i),
{
}

/// Inserting a character at the caret and then deleting before the caret
/// restores the original buffer, for any caret position and any character.
pub proof fn lemma_insert_then_delete(s: Seq<char>, at: int, c: char)
    requires
        0 <= at <= s.len(),
    ensures
        s.insert(at, c).remove(at) == s,
{
    assert(s.insert(at, c).remove(at) =~= s);
}

} // verus!
