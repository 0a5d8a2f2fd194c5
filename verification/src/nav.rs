use vstd::prelude::*;
use crate::input::Command;
use crate::listing::{Entry, ListError, list_dir};
use crate::paths::{joined, join_path, canonical_form_of, parent_of, parent_path_of};

verus! {

/// The whole navigation state of the browser: where it is, what that place
/// lists, which row is selected and which row sits at the top of the viewport.
#[derive(Clone, Debug, PartialEq, Eq)]
pub struct NavigationState {
    pub current_path: String,
    pub entries: Vec<Entry>,
    pub selected_index: usize,
    pub scroll_offset: usize,
    pub viewport_height: usize,
    pub wrap_selection: bool,
}

/// The selection one step down: past the last row it wraps to the first in the
/// wraparound policy and stays on the last in the clamped policy.
pub open spec fn down_index(sel: int, len: int, wrap: bool) -> int {
    if wrap {
        if sel + 1 == len {
            0
        } else {
            sel + 1
        }
    } else {
        if sel + 1 < len {
            sel + 1
        } else {
            len - 1
        }
    }
}

/// The selection one step up: before the first row it wraps to the last in the
/// wraparound policy and stays on the first in the clamped policy.
pub open spec fn up_index(sel: int, len: int, wrap: bool) -> int {
    if wrap {
        if sel == 0 {
            len - 1
        } else {
            sel - 1
        }
    } else {
        if sel == 0 {
            0
        } else {
            sel - 1
        }
    }
}

/// The scroll offset dragged along so that row `sel` stays inside the window
/// of `vh` rows that starts at `scroll`.
pub open spec fn scroll_after(sel: int, scroll: int, vh: int) -> int {
    if sel < scroll {
        sel
    } else if sel >= scroll + vh {
        sel - vh + 1
    } else {
        scroll
    }
}

impl NavigationState {
    /// Well-formedness: the viewport has at least one row; on an empty list the
    /// selection and the scroll sit at zero; otherwise the selection is a valid
    /// index and lies inside the scroll window.
    pub open spec fn wf(self) -> bool {
        &&& self.entries@.len() <= usize::MAX
        &&& self.viewport_height >= 1
        &&& if self.entries@.len() == 0 {
            self.selected_index == 0 && self.scroll_offset == 0
        } else {
            &&& self.selected_index < self.entries@.len()
            &&& self.scroll_offset <= self.selected_index
            &&& (self.selected_index as int) < self.scroll_offset + self.viewport_height
        }
    }

    /// The state after MoveDown: a no-op on an empty list, else the selection
    /// steps down under the configured policy and the scroll window follows.
    pub open spec fn moved_down(self) -> Self {
        if self.entries@.len() == 0 {
            self
        } else {
            let sel = down_index(
                self.selected_index as int,
                self.entries@.len() as int,
                self.wrap_selection,
            );
            let sc = scroll_after(sel, self.scroll_offset as int, self.viewport_height as int);
            NavigationState { selected_index: sel as usize, scroll_offset: sc as usize, ..self }
        }
    }

    /// The state after MoveUp, symmetric to `moved_down`.
    pub open spec fn moved_up(self) -> Self {
        if self.entries@.len() == 0 {
            self
        } else {
            let sel = up_index(
                self.selected_index as int,
                self.entries@.len() as int,
                self.wrap_selection,
            );
            let sc = scroll_after(sel, self.scroll_offset as int, self.viewport_height as int);
            NavigationState { selected_index: sel as usize, scroll_offset: sc as usize, ..self }
        }
    }

    /// A fresh state at `path` listing `entries`, with the selection and the
    /// scroll at the top.
    pub fn new(path: String, entries: Vec<Entry>, viewport_height: usize, wrap_selection: bool) -> (s: Self)
        requires
            viewport_height >= 1,
        ensures
            s.current_path == path,
            s.entries == entries,
            s.selected_index == 0,
            s.scroll_offset == 0,
            s.viewport_height == viewport_height,
            s.wrap_selection == wrap_selection,
            s.wf(),
    {
        let _n: usize = entries.len();
        NavigationState {
            current_path: path,
            entries,
            selected_index: 0,
            scroll_offset: 0,
            viewport_height,
            wrap_selection,
        }
    }

    /// Keeps the selection visible after it moved.
    fn fix_scroll(&mut self)
        requires
            old(self).viewport_height >= 1,
        ensures
            final(self).scroll_offset as int == scroll_after(
                old(self).selected_index as int,
                old(self).scroll_offset as int,
                old(self).viewport_height as int,
            ),
            *final(self) == (NavigationState { scroll_offset: final(self).scroll_offset, ..*old(self) }),
    {
        if self.selected_index < self.scroll_offset {
            self.scroll_offset = self.selected_index;
        } else if self.selected_index - self.scroll_offset >= self.viewport_height {
            self.scroll_offset = self.selected_index - self.viewport_height + 1;
        }
    }

    /// MoveDown: steps the selection one row down under the configured policy
    /// and drags the scroll window along; a no-op when the list is empty.
    pub fn move_down(&mut self)
        requires
            old(self).wf(),
        ensures
            *final(self) == old(self).moved_down(),
            final(self).wf(),
    {
        let len = self.entries.len();
        if len == 0 {
            return;
        }
        let sel0 = self.selected_index;
        let next: usize = if self.wrap_selection {
            if sel0 + 1 == len {
                0
            } else {
                sel0 + 1
            }
        } else {
            if sel0 + 1 < len {
                sel0 + 1
            } else {
                len - 1
            }
        };
        self.selected_index = next;
        self.fix_scroll();
    }

    /// MoveUp: steps the selection one row up under the configured policy and
    /// drags the scroll window along; a no-op when the list is empty.
    pub fn move_up(&mut self)
        requires
            old(self).wf(),
        ensures
            *final(self) == old(self).moved_up(),
            final(self).wf(),
    {
        let len = self.entries.len();
        if len == 0 {
            return;
        }
        let sel0 = self.selected_index;
        let next: usize = if self.wrap_selection {
            if sel0 == 0 {
                len - 1
            } else {
                sel0 - 1
            }
        } else {
            if sel0 == 0 {
                0
            } else {
                sel0 - 1
            }
        };
        self.selected_index = next;
        self.fix_scroll();
    }

    /// Replaces the listing wholesale after a directory change: the new path
    /// and entries come in, the selection and the scroll reset to the top.
    pub fn apply_listing(&mut self, path: String, entries: Vec<Entry>)
        requires
            old(self).wf(),
        ensures
            final(self).current_path == path,
            final(self).entries == entries,
            final(self).selected_index == 0,
            final(self).scroll_offset == 0,
            final(self).viewport_height == old(self).viewport_height,
            final(self).wrap_selection == old(self).wrap_selection,
            final(self).wf(),
    {
        let _n: usize = entries.len();
        self.current_path = path;
        self.entries = entries;
        self.selected_index = 0;
        self.scroll_offset = 0;
    }

    /// A directory entry is selected, so Enter has somewhere to descend.
    pub open spec fn selection_is_dir(self) -> bool {
        self.entries@.len() > 0 && self.entries@[self.selected_index as int].is_dir
    }

    /// Enter: descends into the selected directory. On a file or an empty list
    /// it does nothing and returns Ok(false). Otherwise it joins the child's
    /// name onto the current path and relists there: on success the state moves
    /// wholesale to the new directory with the selection reset to the top and
    /// Ok(true) comes back; on failure the state is untouched and the error is
    /// returned for display.
    pub fn enter(&mut self) -> (r: Result<bool, ListError>)
        requires
            old(self).wf(),
        ensures
            final(self).wf(),
            final(self).viewport_height == old(self).viewport_height,
            final(self).wrap_selection == old(self).wrap_selection,
            r == Ok::<bool, ListError>(false) <==> !old(self).selection_is_dir(),
            r == Ok::<bool, ListError>(false) ==> *final(self) == *old(self),
            r is Err ==> *final(self) == *old(self),
            r == Ok::<bool, ListError>(true) ==> {
                &&& final(self).current_path@ == joined(
                    old(self).current_path@,
                    old(self).entries@[old(self).selected_index as int].name@,
                )
                &&& final(self).selected_index == 0
                &&& final(self).scroll_offset == 0
            },
    {
        if self.entries.len() == 0 {
            return Ok(false);
        }
        let is_dir = self.entries[self.selected_index].is_dir;
        if !is_dir {
            return Ok(false);
        }
        let name = self.entries[self.selected_index].name.clone();
        let new_path = join_path(self.current_path.as_str(), name.as_str());
        match list_dir(new_path.as_str()) {
            Ok(children) => {
                self.apply_listing(new_path, children);
                Ok(true)
            },
            Err(e) => Err(e),
        }
    }

    /// The part of Ascend that follows canonicalizing: moves to the parent of
    /// `canon`. Ok(false), with the state untouched, comes back exactly when
    /// `canon` has no parent (it is a filesystem root): Ascend at a root is a
    /// no-op, with no relist and no reset. When relisting the parent fails the
    /// state is untouched and the error is returned; on success the state
    /// moves to that parent with the selection reset to the top.
    pub fn ascend_from(&mut self, canon: &str) -> (r: Result<bool, ListError>)
        requires
            old(self).wf(),
        ensures
            final(self).wf(),
            final(self).viewport_height == old(self).viewport_height,
            final(self).wrap_selection == old(self).wrap_selection,
            r == Ok::<bool, ListError>(false) <==> parent_path_of(canon@) is None,
            r == Ok::<bool, ListError>(false) ==> *final(self) == *old(self),
            r is Err ==> *final(self) == *old(self),
            r == Ok::<bool, ListError>(true) ==> {
                &&& parent_path_of(canon@) == Some(final(self).current_path@)
                &&& final(self).selected_index == 0
                &&& final(self).scroll_offset == 0
            },
    {
        let parent = match parent_of(canon) {
            Some(p) => p,
            None => {
                return Ok(false);
            },
        };
        match list_dir(parent.as_str()) {
            Ok(children) => {
                self.apply_listing(parent, children);
                Ok(true)
            },
            Err(e) => Err(e),
        }
    }

    /// Ascend: canonicalizes the current path and hands the canonical form to
    /// `ascend_from`, whose contract says exactly when the no-op occurs and
    /// where the state lands. What the canonical form is depends on the
    /// filesystem, so this level only adds: when canonicalizing fails the
    /// state is untouched and the error is returned.
    pub fn ascend(&mut self) -> (r: Result<bool, ListError>)
        requires
            old(self).wf(),
        ensures
            final(self).wf(),
            final(self).viewport_height == old(self).viewport_height,
            final(self).wrap_selection == old(self).wrap_selection,
            r == Ok::<bool, ListError>(false) ==> *final(self) == *old(self),
            r is Err ==> *final(self) == *old(self),
            r == Ok::<bool, ListError>(true) ==> {
                &&& final(self).selected_index == 0
                &&& final(self).scroll_offset == 0
            },
    {
        let canon = match canonical_form_of(self.current_path.as_str()) {
            Some(c) => c,
            None => {
                return Err(ListError::CannotOpen);
            },
        };
        self.ascend_from(canon.as_str())
    }

    /// The half-open range of entry indices the viewport shows: it starts at
    /// the scroll offset and ends a full window later or at the end of the
    /// list, whichever comes first.
    pub fn visible_range(&self) -> (r: (usize, usize))
        requires
            self.wf(),
        ensures
            r.0 == self.scroll_offset,
            r.1 as int == vstd::math::min(
                self.scroll_offset + self.viewport_height,
                self.entries@.len() as int,
            ),
            r.0 <= r.1 <= self.entries@.len(),
    {
        let len = self.entries.len();
        let end: usize = if self.viewport_height < len - self.scroll_offset {
            self.scroll_offset + self.viewport_height
        } else {
            len
        };
        (self.scroll_offset, end)
    }
}

/// What one application of a command asks the loop to do next: keep going,
/// stop, or keep going after showing a listing failure for one frame.
#[derive(Clone, Copy, PartialEq, Eq, Structural, Debug)]
pub enum DispatchOutcome {
    Continue,
    Quit,
    Failed(ListError),
}

impl NavigationState {
    /// Applies one command to the state: the movement commands follow their
    /// policy, Enter and Ascend relist and keep the old state on failure,
    /// Quit touches nothing and tells the loop to stop, Noop touches nothing.
    pub fn dispatch(&mut self, cmd: Command) -> (r: DispatchOutcome)
        requires
            old(self).wf(),
        ensures
            final(self).wf(),
            final(self).viewport_height == old(self).viewport_height,
            final(self).wrap_selection == old(self).wrap_selection,
            cmd == Command::MoveDown ==> *final(self) == old(self).moved_down() && r
                == DispatchOutcome::Continue,
            cmd == Command::MoveUp ==> *final(self) == old(self).moved_up() && r
                == DispatchOutcome::Continue,
            cmd == Command::Quit ==> *final(self) == *old(self) && r == DispatchOutcome::Quit,
            cmd == Command::Noop ==> *final(self) == *old(self) && r == DispatchOutcome::Continue,
            cmd == Command::EnterDir && !old(self).selection_is_dir() ==> *final(self) == *old(
                self,
            ) && r == DispatchOutcome::Continue,
            cmd == Command::EnterDir || cmd == Command::Ascend ==> {
                &&& (r matches DispatchOutcome::Failed(_) ==> *final(self) == *old(self))
                &&& r != DispatchOutcome::Quit
            },
            cmd == Command::EnterDir && old(self).selection_is_dir() && r
                == DispatchOutcome::Continue ==> {
                &&& final(self).current_path@ == joined(
                    old(self).current_path@,
                    old(self).entries@[old(self).selected_index as int].name@,
                )
                &&& final(self).selected_index == 0
                &&& final(self).scroll_offset == 0
            },
            cmd == Command::Ascend && r == DispatchOutcome::Continue ==> (*final(self) == *old(
                self,
            ) || (final(self).selected_index == 0 && final(self).scroll_offset == 0)),
    {
        match cmd {
            Command::MoveDown => {
                self.move_down();
                DispatchOutcome::Continue
            },
            Command::MoveUp => {
                self.move_up();
                DispatchOutcome::Continue
            },
            Command::EnterDir => {
                let entered = self.enter();
                match entered {
                    Ok(moved) => {
                        proof {
                            if old(self).selection_is_dir() {
                                assert(entered != Ok::<bool, ListError>(false));
                                assert(moved);
                            }
                        }
                        DispatchOutcome::Continue
                    },
                    Err(e) => DispatchOutcome::Failed(e),
                }
            },
            Command::Ascend => {
                let ascended = self.ascend();
                match ascended {
                    Ok(moved) => {
                        proof {
                            if moved {
                                assert(self.selected_index == 0);
                            } else {
                                assert(ascended == Ok::<bool, ListError>(false));
                            }
                        }
                        DispatchOutcome::Continue
                    },
                    Err(e) => DispatchOutcome::Failed(e),
                }
            },
            Command::Quit => DispatchOutcome::Quit,
            Command::Noop => DispatchOutcome::Continue,
        }
    }
}

/// MoveDown preserves well-formedness and touches nothing but the selection
/// and the scroll offset.
pub proof fn lemma_moved_down_wf(s: NavigationState)
    requires
        s.wf(),
    ensures
        s.moved_down().wf(),
        s.moved_down().current_path == s.current_path,
        s.moved_down().entries == s.entries,
        s.moved_down().viewport_height == s.viewport_height,
        s.moved_down().wrap_selection == s.wrap_selection,
{
}

/// MoveUp preserves well-formedness and touches nothing but the selection and
/// the scroll offset.
pub proof fn lemma_moved_up_wf(s: NavigationState)
    requires
        s.wf(),
    ensures
        s.moved_up().wf(),
        s.moved_up().current_path == s.current_path,
        s.moved_up().entries == s.entries,
        s.moved_up().viewport_height == s.viewport_height,
        s.moved_up().wrap_selection == s.wrap_selection,
{
}

/// Law: one MoveDown then one MoveUp, from a non-empty list with the selection
/// away from both boundaries, puts the selection back where it started, under
/// either policy.
pub proof fn lemma_down_then_up_restores_selection(s: NavigationState)
    requires
        s.wf(),
        s.entries@.len() > 0,
        0 < s.selected_index,
        s.selected_index + 1 < s.entries@.len(),
    ensures
        s.moved_down().moved_up().selected_index == s.selected_index,
{
}

/// The state after `n` applications of MoveDown.
pub open spec fn moved_down_times(s: NavigationState, n: nat) -> NavigationState
    decreases n,
{
    if n == 0 {
        s
    } else {
        moved_down_times(s, (n - 1) as nat).moved_down()
    }
}

/// Under the wraparound policy, `n` MoveDowns put the selection `n` rows
/// further, modulo the length of the list, as long as `n` stays within one
/// full cycle.
proof fn lemma_wrap_down_advances(s: NavigationState, n: nat)
    requires
        s.wf(),
        s.wrap_selection,
        s.entries@.len() > 0,
        n <= s.entries@.len(),
    ensures
        moved_down_times(s, n).wf(),
        moved_down_times(s, n).entries == s.entries,
        moved_down_times(s, n).wrap_selection,
        moved_down_times(s, n).selected_index as int == (if s.selected_index + n
            < s.entries@.len() {
            s.selected_index + n
        } else {
            s.selected_index + n - s.entries@.len()
        }),
    decreases n,
{
    if n > 0 {
        lemma_wrap_down_advances(s, (n - 1) as nat);
        lemma_moved_down_wf(moved_down_times(s, (n - 1) as nat));
    }
}

/// Law (wraparound policy): MoveDown applied once per entry walks the whole
/// list and returns the selection to where it started.
pub proof fn lemma_wrap_down_full_cycle(s: NavigationState)
    requires
        s.wf(),
        s.wrap_selection,
        s.entries@.len() > 0,
    ensures
        moved_down_times(s, s.entries@.len()).selected_index == s.selected_index,
{
    lemma_wrap_down_advances(s, s.entries@.len());
}

/// Law (clamped policy): with the last row selected, MoveDown changes nothing
/// however often it is applied; in particular the selection stays on the last
/// row.
pub proof fn lemma_clamped_down_at_bottom(s: NavigationState, n: nat)
    requires
        s.wf(),
        !s.wrap_selection,
        s.entries@.len() > 0,
        s.selected_index + 1 == s.entries@.len(),
    ensures
        moved_down_times(s, n) == s,
        moved_down_times(s, n).selected_index + 1 == s.entries@.len(),
    decreases n,
{
    if n > 0 {
        lemma_clamped_down_at_bottom(s, (n - 1) as nat);
    }
}

/// Builds the state the browser starts in: `path` listed once, the selection
/// at the top. On a listing failure no state exists and the error is returned.
pub fn init_state(path: String, viewport_height: usize, wrap_selection: bool) -> (r: Result<
    NavigationState,
    ListError,
>)
    requires
        viewport_height >= 1,
    ensures
        (match r {
            Ok(s) => {
                &&& s.wf()
                &&& s.current_path == path
                &&& s.selected_index == 0
                &&& s.scroll_offset == 0
                &&& s.viewport_height == viewport_height
                &&& s.wrap_selection == wrap_selection
            },
            Err(_) => true,
        }),
{
    match list_dir(path.as_str()) {
        Ok(entries) => Ok(NavigationState::new(path, entries, viewport_height, wrap_selection)),
        Err(e) => Err(e),
    }
}

} // verus!
