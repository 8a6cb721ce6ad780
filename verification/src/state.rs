//! The navigation state machine of the browser.
//!
//! `BrowserState` owns the current directory (as absolute path components),
//! the listing of that directory, the pagination and selection indices, and
//! the last error. Its transitions are total: moving past a boundary is a
//! no-op, and every failure is recorded in `last_error` without touching the
//! rest of the state.

use vstd::prelude::*;

verus! {

use crate::listing::{build_listing, listing_wf, sorted_strings};

/// The kind of a recoverable failure.
#[derive(Clone, Copy, Debug, PartialEq, Eq, Structural)]
pub enum ErrorKind {
    /// A directory could not be read.
    Listing,
    /// A target vanished or was not accessible during a descend.
    Navigation,
    /// The external editor could not be launched.
    EditorLaunch,
}

/// A recoverable failure: a kind plus a human-readable detail.
#[derive(Debug)]
pub struct BrowserError {
    pub kind: ErrorKind,
    pub detail: String,
}

/// One logical key from the input collaborator.
#[derive(Clone, Copy, Debug, PartialEq, Eq, Structural)]
pub enum LogicalKey {
    Quit,
    MoveUp,
    MoveDown,
    PrevPage,
    NextPage,
    Activate,
    Other,
}

/// What the host loop must do after a key was handled.
#[derive(Clone, Copy, Debug, PartialEq, Eq, Structural)]
pub enum HostCommand {
    Idle,
    Quit,
    Activate,
}

/// The outcome of the host's attempt to act on the selected entry.
pub enum ActivationEvent {
    /// The entry was a directory; the working context moved into it and its
    /// raw child names were read.
    EnteredDirectory { children: Vec<String> },
    /// The entry's metadata could not be read, or the working context could
    /// not be moved.
    NavigationFailed { detail: String },
    /// The target directory's contents could not be read.
    ListingFailed { detail: String },
    /// The entry was not a directory; the editor ran and exited (with any
    /// status).
    EditorExited,
    /// The entry was not a directory and the editor could not be launched.
    EditorLaunchFailed { detail: String },
}

/// The directory after entering the entry `name`: the parent marker pops the
/// last component (a no-op at the filesystem root), any other name is pushed.
pub open spec fn dir_after_enter(dir: Seq<String>, name: String) -> Seq<String> {
    if name@ == ".."@ {
        if dir.len() == 0 {
            dir
        } else {
            dir.drop_last()
        }
    } else {
        dir.push(name)
    }
}

pub struct BrowserState {
    /// Components of the absolute current directory path; empty at the root.
    pub current_dir: Vec<String>,
    /// The listing of `current_dir`: `".."` first, children sorted.
    pub listing: Vec<String>,
    /// Zero-based page index into `listing`.
    pub page: usize,
    /// Zero-based index into the current page's visible entries.
    pub selection: usize,
    /// How many entries one page holds; at least one.
    pub page_height: usize,
    /// The failure of the last transition, consumed by the next render.
    pub last_error: Option<BrowserError>,
}

impl BrowserState {
    /// Total number of pages: `ceil(listing.len() / page_height)`.
    pub open spec fn total_pages(&self) -> int {
        (self.listing@.len() + self.page_height - 1) / (self.page_height as int)
    }

    /// First absolute index of the current page.
    pub open spec fn page_base(&self) -> int {
        (self.page as int) * (self.page_height as int)
    }

    /// How many entries the current page shows.
    pub open spec fn visible_count(&self) -> int {
        let rest = self.listing@.len() - self.page_base();
        if rest < self.page_height as int {
            rest
        } else {
            self.page_height as int
        }
    }

    /// Absolute index into `listing` addressed by `(page, selection)`.
    pub open spec fn abs_index(&self) -> int {
        self.page_base() + self.selection as int
    }

    /// Well-formedness: the page height is positive, the listing starts with
    /// the parent marker and is sorted, the current page is non-empty, and
    /// the selection lies on it.
    pub open spec fn wf(&self) -> bool {
        &&& self.page_height >= 1
        &&& listing_wf(self.listing@)
        &&& self.page_base() < self.listing@.len()
        &&& (self.selection as int) < self.visible_count()
    }
}

/// The pair `(page, selection)` always addresses a real entry.
pub proof fn lemma_abs_index_in_bounds(s: BrowserState)
    requires
        s.wf(),
    ensures
        0 <= s.abs_index() < s.listing@.len(),
{
}

/// A well-formed state is on a real page, and that page shows at least one
/// entry.
pub proof fn lemma_page_in_bounds(s: BrowserState)
    requires
        s.wf(),
    ensures
        s.page < s.total_pages(),
        s.visible_count() >= 1,
{
    lemma_ceil_div_gt(s.listing@.len() as int, s.page_height as int, s.page as int);
}

/// For `h >= 1`: `ceil(len / h) > k` exactly when `len > k * h`.
proof fn lemma_ceil_div_gt(len: int, h: int, k: int)
    requires
        h >= 1,
        k >= 0,
        len >= 0,
    ensures
        ((len + h - 1) / h > k) <==> (len > k * h),
{
    let m = len + h - 1;
    let d = m / h;
    vstd::arithmetic::div_mod::lemma_fundamental_div_mod(m, h);
    let r = m % h;
    vstd::arithmetic::div_mod::lemma_mod_bound(m, h);
    if len > k * h {
        assert(h * d + r >= (k + 1) * h) by (nonlinear_arith)
            requires
                h * d + r == m,
                m == len + h - 1,
                len > k * h,
                r >= 0,
                h >= 1,
        ;
        assert(d > k) by (nonlinear_arith)
            requires
                h * d + r >= (k + 1) * h,
                r < h,
                h >= 1,
        ;
    }
    if d > k {
        assert(len > k * h) by (nonlinear_arith)
            requires
                h * d + r == m,
                m == len + h - 1,
                d >= k + 1,
                r >= 0,
                h >= 1,
        ;
    }
}

/// How `move_selection` relates the state before to the state after: the
/// selection moves by one within `[0, visible_count - 1]`, a move past
/// either boundary is a no-op, and nothing else changes.
pub open spec fn moves_selection(pre: BrowserState, post: BrowserState, delta: int) -> bool {
    &&& post.current_dir == pre.current_dir
    &&& post.listing == pre.listing
    &&& post.page == pre.page
    &&& post.page_height == pre.page_height
    &&& post.last_error == pre.last_error
    &&& if delta == 1 && pre.selection + 1 < pre.visible_count() {
        post.selection == pre.selection + 1
    } else if delta == -1 && pre.selection > 0 {
        post.selection == pre.selection - 1
    } else {
        post.selection == pre.selection
    }
}

/// How `change_page` relates the state before to the state after: moving
/// forward on the last page or backward on page zero is a no-op; any
/// successful page change resets the selection to zero; nothing else
/// changes.
pub open spec fn changes_page(pre: BrowserState, post: BrowserState, delta: int) -> bool {
    &&& post.current_dir == pre.current_dir
    &&& post.listing == pre.listing
    &&& post.page_height == pre.page_height
    &&& post.last_error == pre.last_error
    &&& if delta == 1 && pre.page + 1 < pre.total_pages() {
        post.page == pre.page + 1 && post.selection == 0
    } else if delta == -1 && pre.page > 0 {
        post.page == pre.page - 1 && post.selection == 0
    } else {
        post.page == pre.page && post.selection == pre.selection
    }
}

/// How a successful descend relates the state before to the state after:
/// the current directory follows the selected entry, the listing is rebuilt
/// from the new directory's children, and page and selection reset to zero.
pub open spec fn enters_directory(
    pre: BrowserState,
    post: BrowserState,
    children: Vec<String>,
) -> bool {
    &&& post.current_dir@ == dir_after_enter(pre.current_dir@, pre.listing@[pre.abs_index()])
    &&& post.listing@.len() == children@.len() + 1
    &&& post.listing@[0]@ == ".."@
    &&& sorted_strings(post.listing@.skip(1))
    &&& post.listing@.skip(1).to_multiset() == children@.to_multiset()
    &&& post.page == 0
    &&& post.selection == 0
    &&& post.page_height == pre.page_height
    &&& post.last_error == pre.last_error
}

/// How a failed transition relates the state before to the state after: the
/// error is recorded and nothing else changes.
pub open spec fn fails_with(
    pre: BrowserState,
    post: BrowserState,
    kind: ErrorKind,
    detail: String,
) -> bool {
    &&& post.current_dir == pre.current_dir
    &&& post.listing == pre.listing
    &&& post.page == pre.page
    &&& post.selection == pre.selection
    &&& post.page_height == pre.page_height
    &&& post.last_error == Some(BrowserError { kind, detail })
}

impl BrowserState {
    /// A fresh state for `current_dir`, whose raw child names are
    /// `children`: page and selection start at zero, no error is pending.
    pub fn new(current_dir: Vec<String>, children: Vec<String>, page_height: usize) -> (s:
        BrowserState)
        requires
            page_height >= 1,
        ensures
            s.wf(),
            s.current_dir == current_dir,
            s.listing@.len() == children@.len() + 1,
            s.listing@[0]@ == ".."@,
            sorted_strings(s.listing@.skip(1)),
            s.listing@.skip(1).to_multiset() == children@.to_multiset(),
            s.page == 0,
            s.selection == 0,
            s.page_height == page_height,
            s.last_error is None,
    {
        BrowserState {
            current_dir,
            listing: build_listing(children),
            page: 0,
            selection: 0,
            page_height,
            last_error: None,
        }
    }

    /// How many entries the current page shows.
    pub fn visible_len(&self) -> (n: usize)
        requires
            self.wf(),
        ensures
            n == self.visible_count(),
    {
        let rest = self.listing.len() - self.page * self.page_height;
        if rest < self.page_height {
            rest
        } else {
            self.page_height
        }
    }

    /// Total number of pages.
    pub fn total_page_count(&self) -> (n: usize)
        requires
            self.wf(),
        ensures
            n == self.total_pages(),
    {
        let len = self.listing.len();
        let n = (len - 1) / self.page_height + 1;
        proof {
            lemma_page_count_form(len as int, self.page_height as int);
        }
        n
    }

    /// The name of the selected entry.
    pub fn selected_name(&self) -> (r: String)
        requires
            self.wf(),
        ensures
            r == self.listing@[self.abs_index()],
    {
        proof {
            broadcast use vstd::std_specs::vec::axiom_spec_len;

            assert(self.listing@.len() == vstd::std_specs::vec::spec_vec_len(&self.listing));
            lemma_abs_index_in_bounds(*self);
        }
        let idx = self.page * self.page_height + self.selection;
        self.listing[idx].clone()
    }

    /// Moves the selection up (`delta == -1`) or down (`delta == 1`) by one
    /// row, clamped to the current page's visible entries.
    pub fn move_selection(&mut self, delta: i32)
        requires
            old(self).wf(),
            delta == 1 || delta == -1,
        ensures
            final(self).wf(),
            moves_selection(*old(self), *final(self), delta as int),
    {
        let vc = self.visible_len();
        if delta == 1 {
            if self.selection + 1 < vc {
                self.selection = self.selection + 1;
            }
        } else {
            if self.selection > 0 {
                self.selection = self.selection - 1;
            }
        }
    }

    /// Moves one page forward (`delta == 1`) or backward (`delta == -1`).
    /// Forward on the last page and backward on page zero are no-ops; a
    /// successful change resets the selection to zero.
    pub fn change_page(&mut self, delta: i32)
        requires
            old(self).wf(),
            delta == 1 || delta == -1,
        ensures
            final(self).wf(),
            changes_page(*old(self), *final(self), delta as int),
    {
        let len = self.listing.len();
        let used = self.page * self.page_height;
        let remaining = len - used;
        proof {
            lemma_ceil_div_gt(len as int, self.page_height as int, self.page as int + 1);
            assert((self.page as int + 1) * (self.page_height as int) == self.page_base()
                + self.page_height) by (nonlinear_arith);
        }
        if delta == 1 {
            if remaining > self.page_height {
                proof {
                    assert(self.page as int <= self.page_base()) by (nonlinear_arith)
                        requires
                            self.page_height >= 1,
                            self.page >= 0,
                    ;
                }
                self.page = self.page + 1;
                self.selection = 0;
            }
        } else {
            if self.page > 0 {
                proof {
                    assert((self.page as int - 1) * (self.page_height as int) == self.page_base()
                        - self.page_height) by (nonlinear_arith);
                }
                self.page = self.page - 1;
                self.selection = 0;
            }
        }
    }

    /// Applies the outcome of acting on the selected entry. A successful
    /// descend replaces the directory and listing and resets page and
    /// selection; every failure only records its error; an editor that ran
    /// changes nothing.
    pub fn apply_activation(&mut self, event: ActivationEvent)
        requires
            old(self).wf(),
        ensures
            final(self).wf(),
            match event {
                ActivationEvent::EnteredDirectory { children } => enters_directory(
                    *old(self),
                    *final(self),
                    children,
                ),
                ActivationEvent::NavigationFailed { detail } => fails_with(
                    *old(self),
                    *final(self),
                    ErrorKind::Navigation,
                    detail,
                ),
                ActivationEvent::ListingFailed { detail } => fails_with(
                    *old(self),
                    *final(self),
                    ErrorKind::Listing,
                    detail,
                ),
                ActivationEvent::EditorExited => *final(self) == *old(self),
                ActivationEvent::EditorLaunchFailed { detail } => fails_with(
                    *old(self),
                    *final(self),
                    ErrorKind::EditorLaunch,
                    detail,
                ),
            },
    {
        match event {
            ActivationEvent::EnteredDirectory { children } => {
                let name = self.selected_name();
                let new_listing = build_listing(children);
                let parent = String::from_str("..");
                if name == parent {
                    if self.current_dir.len() > 0 {
                        self.current_dir.pop();
                    }
                } else {
                    self.current_dir.push(name);
                }
                self.listing = new_listing;
                self.page = 0;
                self.selection = 0;
            },
            ActivationEvent::NavigationFailed { detail } => {
                self.last_error = Some(BrowserError { kind: ErrorKind::Navigation, detail });
            },
            ActivationEvent::ListingFailed { detail } => {
                self.last_error = Some(BrowserError { kind: ErrorKind::Listing, detail });
            },
            ActivationEvent::EditorExited => {
            },
            ActivationEvent::EditorLaunchFailed { detail } => {
                self.last_error = Some(BrowserError { kind: ErrorKind::EditorLaunch, detail });
            },
        }
    }

    /// Handles one logical key: movement keys are applied to the state;
    /// quitting and activating are handed back to the host loop.
    pub fn handle_key(&mut self, key: LogicalKey) -> (cmd: HostCommand)
        requires
            old(self).wf(),
        ensures
            final(self).wf(),
            match key {
                LogicalKey::MoveDown => moves_selection(*old(self), *final(self), 1) && cmd
                    == HostCommand::Idle,
                LogicalKey::MoveUp => moves_selection(*old(self), *final(self), -1) && cmd
                    == HostCommand::Idle,
                LogicalKey::NextPage => changes_page(*old(self), *final(self), 1) && cmd
                    == HostCommand::Idle,
                LogicalKey::PrevPage => changes_page(*old(self), *final(self), -1) && cmd
                    == HostCommand::Idle,
                LogicalKey::Quit => *final(self) == *old(self) && cmd == HostCommand::Quit,
                LogicalKey::Activate => *final(self) == *old(self) && cmd == HostCommand::Activate,
                LogicalKey::Other => *final(self) == *old(self) && cmd == HostCommand::Idle,
            },
    {
        match key {
            LogicalKey::MoveDown => {
                self.move_selection(1);
                HostCommand::Idle
            },
            LogicalKey::MoveUp => {
                self.move_selection(-1);
                HostCommand::Idle
            },
            LogicalKey::NextPage => {
                self.change_page(1);
                HostCommand::Idle
            },
            LogicalKey::PrevPage => {
                self.change_page(-1);
                HostCommand::Idle
            },
            LogicalKey::Quit => HostCommand::Quit,
            LogicalKey::Activate => HostCommand::Activate,
            LogicalKey::Other => HostCommand::Idle,
        }
    }
}

/// Every well-formed state's listing starts with the parent marker and is
/// sorted ascending by name after it.
pub proof fn lemma_listing_shape(s: BrowserState)
    requires
        s.wf(),
    ensures
        s.listing@.len() >= 1,
        s.listing@[0]@ == ".."@,
        sorted_strings(s.listing@.skip(1)),
{
}

/// A forward move at the last visible row changes nothing, however often it
/// is repeated.
pub proof fn lemma_move_at_bottom_is_noop(pre: BrowserState, post: BrowserState)
    requires
        pre.selection + 1 >= pre.visible_count(),
        moves_selection(pre, post, 1),
    ensures
        post == pre,
{
}

/// A backward move at the first row changes nothing.
pub proof fn lemma_move_at_top_is_noop(pre: BrowserState, post: BrowserState)
    requires
        pre.selection == 0,
        moves_selection(pre, post, -1),
    ensures
        post == pre,
{
}

/// A forward page change on the last page changes nothing.
pub proof fn lemma_next_page_at_last_is_noop(pre: BrowserState, post: BrowserState)
    requires
        pre.page + 1 >= pre.total_pages(),
        changes_page(pre, post, 1),
    ensures
        post == pre,
{
}

/// A backward page change on page zero changes nothing.
pub proof fn lemma_prev_page_at_first_is_noop(pre: BrowserState, post: BrowserState)
    requires
        pre.page == 0,
        changes_page(pre, post, -1),
    ensures
        post == pre,
{
}

/// Any page change that moved resets the selection to zero.
pub proof fn lemma_page_change_resets_selection(
    pre: BrowserState,
    post: BrowserState,
    delta: int,
)
    requires
        changes_page(pre, post, delta),
        post.page != pre.page,
    ensures
        post.selection == 0,
{
}

/// Round trip: descending into a subdirectory and then activating the
/// `".."` entry returns the current directory to the original path, with
/// page and selection at zero.
pub proof fn lemma_parent_round_trip(
    s0: BrowserState,
    s1: BrowserState,
    s2: BrowserState,
    ch1: Vec<String>,
    ch2: Vec<String>,
)
    requires
        s0.wf(),
        s0.listing@[s0.abs_index()]@ != ".."@,
        enters_directory(s0, s1, ch1),
        enters_directory(s1, s2, ch2),
    ensures
        s2.current_dir@ == s0.current_dir@,
        s2.page == 0,
        s2.selection == 0,
{
    let name = s0.listing@[s0.abs_index()];
    assert(s1.current_dir@ == s0.current_dir@.push(name));
    assert(s1.abs_index() == 0);
    assert(s1.listing@[0]@ == ".."@);
    assert(s2.current_dir@ =~= s0.current_dir@);
}

/// For `len >= 1`, `h >= 1`: `(len - 1) / h + 1 == ceil(len / h)`.
proof fn lemma_page_count_form(len: int, h: int)
    requires
        len >= 1,
        h >= 1,
    ensures
        (len - 1) / h + 1 == (len + h - 1) / h,
{
    let x = len - 1;
    let q = x / h;
    let r = x % h;
    vstd::arithmetic::div_mod::lemma_fundamental_div_mod(x, h);
    vstd::arithmetic::div_mod::lemma_mod_bound(x, h);
    assert(x + h == (q + 1) * h + r) by (nonlinear_arith)
        requires
            x == h * q + r,
    ;
    vstd::arithmetic::div_mod::lemma_fundamental_div_mod_converse_div(x + h, h, q + 1, r);
}

} // verus!
