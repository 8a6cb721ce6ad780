//! The render-model projection: what one frame shows.
//!
//! `render_model` is a pure projection of the state — the header data
//! (current path, item and page counts, pending error text) and the visible
//! slice of the listing with the selected row highlighted — except that it
//! consumes the pending error: the error is shown for exactly one frame.

use vstd::prelude::*;

verus! {

use crate::state::{BrowserState, BrowserError};

/// The characters of the absolute path joined from `dir`'s components:
/// empty for no components, else `/c0/c1/.../cn`.
pub open spec fn joined_path(dir: Seq<String>) -> Seq<char>
    decreases dir.len(),
{
    if dir.len() == 0 {
        Seq::empty()
    } else {
        joined_path(dir.drop_last()) + seq!['/'] + dir.last()@
    }
}

/// The characters of the absolute path for `dir`: `/` at the root, else
/// the components each preceded by `/`.
pub open spec fn path_chars(dir: Seq<String>) -> Seq<char> {
    if dir.len() == 0 {
        seq!['/']
    } else {
        joined_path(dir)
    }
}

/// The text a listing row shows: the entry's name, with a trailing `/`
/// marking a directory.
pub open spec fn row_chars(name: Seq<char>, is_dir: bool) -> Seq<char> {
    if is_dir {
        name + seq!['/']
    } else {
        name
    }
}

/// The characters shown for a pending error: its detail, or nothing.
pub open spec fn error_chars(e: Option<BrowserError>) -> Seq<char> {
    match e {
        Option::None => Seq::empty(),
        Option::Some(b) => b.detail@,
    }
}

/// One row of the visible listing slice.
pub struct Row {
    pub text: String,
    pub highlighted: bool,
}

/// Everything one frame draws, as plain data for the render collaborator.
pub struct RenderModel {
    /// The absolute current directory path.
    pub path: String,
    /// How many entries the listing holds.
    pub item_count: usize,
    /// The current page, one-based for display.
    pub page_number: usize,
    /// Total number of pages.
    pub page_count: usize,
    /// The pending error's detail, or empty.
    pub error_text: String,
    /// The visible slice of the listing, top to bottom.
    pub rows: Vec<Row>,
}

/// Builds the absolute path string for `dir`'s components.
pub fn path_string(dir: &Vec<String>) -> (p: String)
    ensures
        p@ == path_chars(dir@),
{
    proof {
        reveal_strlit("/");
        reveal_strlit("");
    }
    if dir.len() == 0 {
        return String::from_str("/");
    }
    let mut p = String::from_str("");
    let mut i: usize = 0;
    proof {
        assert(dir@.take(0) =~= Seq::<String>::empty());
        assert(p@ =~= joined_path(dir@.take(0)));
    }
    while i < dir.len()
        invariant
            i <= dir@.len(),
            p@ == joined_path(dir@.take(i as int)),
        decreases dir@.len() - i,
    {
        proof {
            reveal_strlit("/");
            assert(dir@.take(i as int + 1).drop_last() =~= dir@.take(i as int));
        }
        p.append("/");
        p.append(dir[i].as_str());
        proof {
            assert(p@ =~= joined_path(dir@.take(i as int + 1)));
        }
        i = i + 1;
    }
    proof {
        assert(dir@.take(dir@.len() as int) =~= dir@);
    }
    p
}

impl BrowserState {
    /// Projects the state into what this frame draws. `dir_flags[i]` says
    /// whether the `i`-th visible entry is a directory (the host re-checks
    /// this each frame). Consumes the pending error: it is shown this frame
    /// only. Nothing else of the state changes.
    pub fn render_model(&mut self, dir_flags: &Vec<bool>) -> (m: RenderModel)
        requires
            old(self).wf(),
            dir_flags@.len() == old(self).visible_count(),
        ensures
            final(self).wf(),
            final(self).current_dir == old(self).current_dir,
            final(self).listing == old(self).listing,
            final(self).page == old(self).page,
            final(self).selection == old(self).selection,
            final(self).page_height == old(self).page_height,
            final(self).last_error is None,
            m.path@ == path_chars(old(self).current_dir@),
            m.item_count == old(self).listing@.len(),
            m.page_number == old(self).page + 1,
            m.page_count == old(self).total_pages(),
            m.error_text@ == error_chars(old(self).last_error),
            m.rows@.len() == old(self).visible_count(),
            forall|i: int|
                0 <= i < m.rows@.len() ==> #[trigger] m.rows@[i].text@ == row_chars(
                    old(self).listing@[old(self).page_base() + i]@,
                    dir_flags@[i],
                ),
            forall|i: int|
                0 <= i < m.rows@.len() ==> (#[trigger] m.rows@[i].highlighted <==> i == old(
                    self,
                ).selection),
    {
        proof {
            reveal_strlit("/");
        }
        let path = path_string(&self.current_dir);
        let item_count = self.listing.len();
        proof {
            assert(self.page as int <= self.page_base()) by (nonlinear_arith)
                requires
                    self.page_height >= 1,
                    self.page >= 0,
            ;
        }
        let page_number = self.page + 1;
        let page_count = self.total_page_count();
        let error_text = match &self.last_error {
            Option::None => String::new(),
            Option::Some(e) => e.detail.clone(),
        };
        self.last_error = None;
        let vc = self.visible_len();
        let base = self.page * self.page_height;
        let mut rows: Vec<Row> = Vec::new();
        let mut i: usize = 0;
        while i < vc
            invariant
                i <= vc,
                vc == self.visible_count(),
                self.wf(),
                dir_flags@.len() == self.visible_count(),
                base == self.page_base(),
                self.listing@.len() <= usize::MAX,
                rows@.len() == i,
                forall|q: int|
                    0 <= q < i ==> #[trigger] rows@[q].text@ == row_chars(
                        self.listing@[self.page_base() + q]@,
                        dir_flags@[q],
                    ),
                forall|q: int|
                    0 <= q < i ==> (#[trigger] rows@[q].highlighted <==> q == self.selection),
            decreases vc - i,
        {
            proof {
                reveal_strlit("/");
            }
            let name = self.listing[base + i].clone();
            let text = if dir_flags[i] {
                name.concat("/")
            } else {
                name
            };
            let highlighted = i == self.selection;
            rows.push(Row { text, highlighted });
            i = i + 1;
        }
        RenderModel { path, item_count, page_number, page_count, error_text, rows }
    }
}

} // verus!
