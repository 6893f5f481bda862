//! The shapes of the requests the service accepts.

use vstd::prelude::*;

verus! {

/// The view of an optional text.
pub open spec fn opt_text_view(text: Option<String>) -> Option<Seq<char>> {
    match text {
        Some(s) => Some(s@),
        None => None,
    }
}

/// Paging of the list of notes. An absent page is the first one, an absent
/// limit is ten.
#[derive(Debug, Clone, PartialEq, Eq)]
pub struct FilterOptions {
    pub page: Option<usize>,
    pub limit: Option<usize>,
}

/// The rows a list query asks for: at most `limit` of them, after skipping
/// `offset`.
#[derive(Debug, Clone, Copy, PartialEq, Eq)]
pub struct Window {
    pub limit: i32,
    pub offset: i32,
}

impl Default for FilterOptions {
    fn default() -> (options: FilterOptions)
        ensures
            options.page is None,
            options.limit is None,
    {
        FilterOptions { page: None, limit: None }
    }
}

impl FilterOptions {
    /// The page asked for, counted from one.
    pub open spec fn page_number(self) -> int {
        match self.page {
            Some(p) => p as int,
            None => 1,
        }
    }

    /// The number of notes on a page.
    pub open spec fn page_size(self) -> int {
        match self.limit {
            Some(l) => l as int,
            None => 10,
        }
    }

    /// The number of notes that stand before the page asked for.
    pub open spec fn skipped(self) -> int {
        (self.page_number() - 1) * self.page_size()
    }

    /// Page and limit are positive, and the limit and the number of skipped
    /// notes fit the 32-bit parameters of the query.
    pub open spec fn valid(self) -> bool {
        &&& self.page_number() >= 1
        &&& 1 <= self.page_size() <= i32::MAX
        &&& self.skipped() <= i32::MAX
    }

    /// Whether page and limit can be turned into a query.
    pub fn is_valid(&self) -> (ok: bool)
        ensures
            ok == self.valid(),
    {
        self.window().is_some()
    }

    /// The limit and offset of the query for these options, or `None` where
    /// the options are not valid.
    pub fn window(&self) -> (window: Option<Window>)
        ensures
            self.valid() ==> window == Some(
                (Window { limit: self.page_size() as i32, offset: self.skipped() as i32 }),
            ),
            !self.valid() ==> window is None,
    {
        let page: usize = match self.page {
            Some(p) => p,
            None => 1,
        };
        let limit: usize = match self.limit {
            Some(l) => l,
            None => 10,
        };
        if page < 1 || limit < 1 || limit > 0x7fff_ffff {
            return None;
        }
        let before: usize = page - 1;
        if before > 0x7fff_ffff {
            assert(self.skipped() > i32::MAX) by (nonlinear_arith)
                requires
                    self.skipped() == before * limit,
                    before > 0x7fff_ffff,
                    limit >= 1,
            ;
            return None;
        }
        assert(before * limit <= 0x7fff_ffff * 0x7fff_ffff) by (nonlinear_arith)
            requires
                0 <= before <= 0x7fff_ffff,
                0 <= limit <= 0x7fff_ffff,
        ;
        let skipped: u64 = (before as u64) * (limit as u64);
        if skipped > 0x7fff_ffff {
            return None;
        }
        Some(Window { limit: limit as i32, offset: skipped as i32 })
    }
}

/// The path parameter that names one note.
#[derive(Debug, Clone, PartialEq, Eq)]
pub struct ParamOptions {
    pub id: String,
}

/// The body of a request that creates a note.
#[derive(Debug, Clone, PartialEq, Eq)]
pub struct CreateNoteSchema {
    pub title: String,
    pub content: String,
    pub category: Option<String>,
    pub published: Option<bool>,
}

/// Mathematical value of a [`CreateNoteSchema`].
pub struct CreateNoteView {
    pub title: Seq<char>,
    pub content: Seq<char>,
    pub category: Option<Seq<char>>,
    pub published: Option<bool>,
}

impl View for CreateNoteSchema {
    type V = CreateNoteView;

    open spec fn view(&self) -> CreateNoteView {
        CreateNoteView {
            title: self.title@,
            content: self.content@,
            category: opt_text_view(self.category),
            published: self.published,
        }
    }
}

/// The body of a request that updates a note. An absent field keeps the
/// note's value. The published flag travels as text.
#[derive(Debug, Clone, PartialEq, Eq)]
pub struct UpdateNoteSchema {
    pub title: Option<String>,
    pub content: Option<String>,
    pub category: Option<String>,
    pub published: Option<String>,
}

/// Mathematical value of an [`UpdateNoteSchema`].
pub struct UpdateNoteView {
    pub title: Option<Seq<char>>,
    pub content: Option<Seq<char>>,
    pub category: Option<Seq<char>>,
    pub published: Option<Seq<char>>,
}

impl View for UpdateNoteSchema {
    type V = UpdateNoteView;

    open spec fn view(&self) -> UpdateNoteView {
        UpdateNoteView {
            title: opt_text_view(self.title),
            content: opt_text_view(self.content),
            category: opt_text_view(self.category),
            published: opt_text_view(self.published),
        }
    }
}

} // verus!
