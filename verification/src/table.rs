//! A model of the notes table: what a database that is up answers to each
//! statement, and what the statement leaves behind. The model exists in
//! proofs only; the service keeps no notes of its own.

use vstd::prelude::*;

use crate::handler::{flag_text, is_unique_violation};
use crate::model::{DbErrorView, NoteView};
use crate::statement::StatementView;

verus! {

/// The rows of the notes table, in the order of their identifiers.
pub struct Table {
    pub rows: Seq<NoteView>,
}

impl Table {
    /// The row at position `i` has the identifier `id`.
    pub open spec fn holds_at(self, i: int, id: u128) -> bool {
        0 <= i < self.rows.len() && self.rows[i].id == id
    }

    /// The row at position `i` has the title `title`.
    pub open spec fn titled_at(self, i: int, title: Seq<char>) -> bool {
        0 <= i < self.rows.len() && self.rows[i].title == title
    }

    /// Some row has the identifier `id`.
    pub open spec fn has_id(self, id: u128) -> bool {
        exists|i: int| self.holds_at(i, id)
    }

    /// Some row has the title `title`.
    pub open spec fn has_title(self, title: Seq<char>) -> bool {
        exists|i: int| self.titled_at(i, title)
    }

    /// A row other than the one with identifier `id` has the title `title`.
    pub open spec fn title_held_by_other(self, id: u128, title: Seq<char>) -> bool {
        exists|i: int| self.titled_at(i, title) && self.rows[i].id != id
    }

    /// The position of the row with identifier `id`.
    pub open spec fn position(self, id: u128) -> int {
        choose|i: int| self.holds_at(i, id)
    }

    /// The row with identifier `id`.
    pub open spec fn row(self, id: u128) -> NoteView {
        self.rows[self.position(id)]
    }

    /// The rows stand in strictly rising order of their identifiers, so no
    /// identifier occurs twice.
    pub open spec fn ordered(self) -> bool {
        forall|i: int, j: int|
            0 <= i < j < self.rows.len() ==> self.rows[i].id < self.rows[j].id
    }

    /// No title occurs twice.
    pub open spec fn titles_unique(self) -> bool {
        forall|i: int, j: int|
            0 <= i < j < self.rows.len() ==> self.rows[i].title != self.rows[j].title
    }

    /// No row was updated before it was created.
    pub open spec fn times_ordered(self) -> bool {
        forall|i: int| 0 <= i < self.rows.len() ==> self.rows[i].created_at <= self.rows[i].updated_at
    }

    /// The invariants of the table.
    pub open spec fn wf(self) -> bool {
        &&& self.ordered()
        &&& self.titles_unique()
        &&& self.times_ordered()
    }

    /// The rows a list query returns: at most `limit` of them, after the
    /// first `offset`.
    pub open spec fn page(self, limit: int, offset: int) -> Seq<NoteView> {
        let len = self.rows.len() as int;
        let from = if offset < len {
            offset
        } else {
            len
        };
        let to = if offset + limit < len {
            offset + limit
        } else {
            len
        };
        self.rows.subrange(from, to)
    }
}

/// `post` is `pre` with `row` added at its place in the order.
pub open spec fn inserted(pre: Table, row: NoteView, post: Table) -> bool {
    exists|k: int|
        0 <= k <= pre.rows.len() && post.rows == #[trigger] pre.rows.insert(k, row)
            && post.ordered()
}

/// The text is one of the two forms of a flag.
pub open spec fn is_flag_text(text: Seq<char>) -> bool {
    text == flag_text(true) || text == flag_text(false)
}

/// The flag that the database may store for `text`: the flag that the text
/// is a form of. Of other texts the model says nothing.
pub open spec fn flag_accepts(text: Seq<char>, flag: bool) -> bool {
    &&& text == flag_text(true) ==> flag
    &&& text == flag_text(false) ==> !flag
}

/// An insert: refused where the title is taken, else a new row with a
/// fresh identifier, created and updated at the same time.
pub open spec fn insert_result(
    pre: Table,
    title: Seq<char>,
    content: Seq<char>,
    category: Seq<char>,
    published: Option<bool>,
    outcome: Result<NoteView, DbErrorView>,
    post: Table,
) -> bool {
    if pre.has_title(title) {
        &&& outcome matches Err(error)
        &&& is_unique_violation(error)
        &&& post == pre
    } else {
        &&& outcome matches Ok(row)
        &&& !pre.has_id(row.id)
        &&& row.title == title
        &&& row.content == content
        &&& row.category == category
        &&& row.published == match published {
            Some(flag) => flag,
            None => false,
        }
        &&& row.created_at == row.updated_at
        &&& inserted(pre, row, post)
    }
}

/// A select by identifier: the row, or a failure where there is none.
pub open spec fn select_result(pre: Table, id: u128, outcome: Result<NoteView, DbErrorView>) -> bool {
    if pre.has_id(id) {
        outcome == Ok::<NoteView, DbErrorView>(pre.row(id))
    } else {
        outcome is Err
    }
}

/// An update: a failure where the row is missing, refused where another
/// row holds the title, else the row with its editable fields and its
/// update time replaced. A text that is no form of a flag may be refused.
pub open spec fn update_result(
    pre: Table,
    title: Seq<char>,
    content: Seq<char>,
    category: Seq<char>,
    published: Seq<char>,
    updated_at: int,
    id: u128,
    outcome: Result<NoteView, DbErrorView>,
    post: Table,
) -> bool {
    if !pre.has_id(id) {
        outcome is Err && post == pre
    } else if pre.title_held_by_other(id, title) {
        &&& outcome matches Err(error)
        &&& is_unique_violation(error)
        &&& post == pre
    } else {
        ||| {
            &&& outcome matches Ok(row)
            &&& row == (NoteView {
                id,
                title,
                content,
                category,
                published: row.published,
                created_at: pre.row(id).created_at,
                updated_at,
            })
            &&& flag_accepts(published, row.published)
            &&& post.rows == pre.rows.update(pre.position(id), row)
        }
        ||| {
            &&& !is_flag_text(published)
            &&& outcome is Err
            &&& post == pre
        }
    }
}

/// A delete: the removed row, or a failure where there is none.
pub open spec fn delete_result(
    pre: Table,
    id: u128,
    outcome: Result<NoteView, DbErrorView>,
    post: Table,
) -> bool {
    if pre.has_id(id) {
        &&& outcome == Ok::<NoteView, DbErrorView>(pre.row(id))
        &&& post.rows == pre.rows.remove(pre.position(id))
    } else {
        outcome is Err && post == pre
    }
}

/// `outcome` and `post` are what the table `pre` gives for a statement
/// that returns one row.
pub open spec fn executes(
    pre: Table,
    statement: StatementView,
    outcome: Result<NoteView, DbErrorView>,
    post: Table,
) -> bool {
    match statement {
        StatementView::Insert { title, content, category, published } => insert_result(
            pre,
            title,
            content,
            category,
            published,
            outcome,
            post,
        ),
        StatementView::SelectById { id } => select_result(pre, id, outcome) && post == pre,
        StatementView::SelectPage { .. } => false,
        StatementView::Update {
            title,
            content,
            category,
            published,
            updated_at,
            id,
        } => update_result(pre, title, content, category, published, updated_at, id, outcome, post),
        StatementView::DeleteById { id } => delete_result(pre, id, outcome, post),
    }
}

/// `outcome` is what the table `pre` gives for a statement that returns a
/// list of rows.
pub open spec fn lists(
    pre: Table,
    statement: StatementView,
    outcome: Result<Seq<NoteView>, DbErrorView>,
) -> bool {
    statement matches StatementView::SelectPage { limit, offset } && outcome == Ok::<
        Seq<NoteView>,
        DbErrorView,
    >(pre.page(limit, offset))
}

/// In an ordered table the row at position `k` is the row with its
/// identifier.
pub proof fn lemma_position(table: Table, k: int)
    requires
        table.ordered(),
        0 <= k < table.rows.len(),
    ensures
        table.has_id(table.rows[k].id),
        table.position(table.rows[k].id) == k,
        table.row(table.rows[k].id) == table.rows[k],
{
    let id = table.rows[k].id;
    assert(table.holds_at(k, id));
    let p = table.position(id);
    assert(table.holds_at(p, id));
    if p < k {
        assert(table.rows[p].id < table.rows[k].id);
    } else if k < p {
        assert(table.rows[k].id < table.rows[p].id);
    }
}

/// The place of a fresh identifier in an ordered table: every row before
/// it has a smaller identifier, every row from it on a greater one.
pub proof fn lemma_slot(table: Table, id: u128) -> (k: int)
    requires
        table.ordered(),
        !table.has_id(id),
    ensures
        0 <= k <= table.rows.len(),
        forall|i: int| 0 <= i < k ==> table.rows[i].id < id,
        forall|i: int| k <= i < table.rows.len() ==> id < table.rows[i].id,
    decreases table.rows.len(),
{
    if table.rows.len() == 0 {
        0
    } else {
        let n = table.rows.len() as int;
        assert(!table.holds_at(n - 1, id));
        if table.rows[n - 1].id < id {
            assert forall|i: int| 0 <= i < n implies table.rows[i].id < id by {
                if i < n - 1 {
                    assert(table.rows[i].id < table.rows[n - 1].id);
                }
            }
            n
        } else {
            let shorter = Table { rows: table.rows.drop_last() };
            assert forall|i: int, j: int| 0 <= i < j < shorter.rows.len() implies shorter.rows[i].id
                < shorter.rows[j].id by {
                assert(shorter.rows[i] == table.rows[i]);
                assert(shorter.rows[j] == table.rows[j]);
            }
            if shorter.has_id(id) {
                let i = choose|i: int| shorter.holds_at(i, id);
                assert(table.holds_at(i, id));
            }
            let k = lemma_slot(shorter, id);
            assert forall|i: int| 0 <= i < k implies table.rows[i].id < id by {
                assert(shorter.rows[i] == table.rows[i]);
            }
            assert forall|i: int| k <= i < n implies id < table.rows[i].id by {
                if i < n - 1 {
                    assert(shorter.rows[i] == table.rows[i]);
                }
            }
            k
        }
    }
}

/// Adding a row with a fresh identifier keeps the order; the new table
/// holds the row once and every old row still. Titles stay unique where
/// the new title is fresh, and times stay ordered where the row's are.
pub proof fn lemma_inserted(pre: Table, row: NoteView, post: Table)
    requires
        pre.ordered(),
        inserted(pre, row, post),
    ensures
        post.ordered(),
        post.has_id(row.id),
        post.row(row.id) == row,
        post.rows.len() == pre.rows.len() + 1,
        forall|id: u128| id != row.id ==> (post.has_id(id) <==> pre.has_id(id)),
        forall|id: u128| id != row.id && pre.has_id(id) ==> post.row(id) == pre.row(id),
        pre.titles_unique() && !pre.has_title(row.title) ==> post.titles_unique(),
        pre.times_ordered() && row.created_at <= row.updated_at ==> post.times_ordered(),
        !pre.has_id(row.id) ==> post.rows.remove(post.position(row.id)) == pre.rows,
{
    let k = choose|k: int|
        0 <= k <= pre.rows.len() && post.rows == #[trigger] pre.rows.insert(k, row)
            && post.ordered();
    assert(post.rows[k] == row);
    lemma_position(post, k);
    assert(post.rows.remove(k) =~= pre.rows);
    if pre.titles_unique() && !pre.has_title(row.title) {
        assert forall|i: int, j: int| 0 <= i < j < post.rows.len() implies post.rows[i].title
            != post.rows[j].title by {
            let a = if i < k { i } else { i - 1 };
            let b = if j < k { j } else { j - 1 };
            if i == k {
                assert(post.rows[j] == pre.rows[b]);
                assert(pre.titled_at(b, post.rows[j].title));
            } else if j == k {
                assert(post.rows[i] == pre.rows[a]);
                assert(pre.titled_at(a, post.rows[i].title));
            } else {
                assert(post.rows[i] == pre.rows[a]);
                assert(post.rows[j] == pre.rows[b]);
            }
        }
    }
    if pre.times_ordered() && row.created_at <= row.updated_at {
        assert forall|i: int| 0 <= i < post.rows.len() implies post.rows[i].created_at
            <= post.rows[i].updated_at by {
            if i != k {
                let a = if i < k { i } else { i - 1 };
                assert(post.rows[i] == pre.rows[a]);
            }
        }
    }
    assert forall|id: u128| id != row.id implies (post.has_id(id) <==> pre.has_id(id)) && (
    pre.has_id(id) ==> post.row(id) == pre.row(id)) by {
        if pre.has_id(id) {
            let a = pre.position(id);
            assert(pre.holds_at(a, id));
            let i = if a < k { a } else { a + 1 };
            assert(post.rows[i] == pre.rows[a]);
            assert(post.holds_at(i, id));
            lemma_position(post, i);
            lemma_position(pre, a);
        }
        if post.has_id(id) {
            let i = post.position(id);
            assert(post.holds_at(i, id));
            let a = if i < k { i } else { i - 1 };
            assert(post.rows[i] == pre.rows[a]);
            assert(pre.holds_at(a, id));
        }
    }
}

/// Replacing a row by one with the same identifier keeps the order and the
/// identifiers; every other row stays. Titles stay unique where no other
/// row holds the new title, and times stay ordered where the row's are.
pub proof fn lemma_replaced(pre: Table, id: u128, row: NoteView, post: Table)
    requires
        pre.ordered(),
        pre.has_id(id),
        row.id == id,
        post.rows == pre.rows.update(pre.position(id), row),
    ensures
        post.ordered(),
        post.rows.len() == pre.rows.len(),
        post.position(id) == pre.position(id),
        post.row(id) == row,
        forall|other: u128| post.has_id(other) <==> pre.has_id(other),
        forall|other: u128| other != id && pre.has_id(other) ==> post.row(other) == pre.row(other),
        pre.titles_unique() && !pre.title_held_by_other(id, row.title) ==> post.titles_unique(),
        pre.times_ordered() && row.created_at <= row.updated_at ==> post.times_ordered(),
{
    let k = pre.position(id);
    assert(pre.holds_at(k, id));
    assert forall|i: int, j: int| 0 <= i < j < post.rows.len() implies post.rows[i].id
        < post.rows[j].id by {
        assert(post.rows[i].id == pre.rows[i].id);
        assert(post.rows[j].id == pre.rows[j].id);
    }
    lemma_position(post, k);
    assert forall|other: u128| (post.has_id(other) <==> pre.has_id(other)) && (other != id
        && pre.has_id(other) ==> post.row(other) == pre.row(other)) by {
        if pre.has_id(other) {
            let a = pre.position(other);
            assert(pre.holds_at(a, other));
            assert(post.rows[a].id == pre.rows[a].id);
            assert(post.holds_at(a, other));
            lemma_position(post, a);
        }
        if post.has_id(other) {
            let a = post.position(other);
            assert(post.holds_at(a, other));
            assert(post.rows[a].id == pre.rows[a].id);
            assert(pre.holds_at(a, other));
        }
    }
    if pre.titles_unique() && !pre.title_held_by_other(id, row.title) {
        assert forall|i: int, j: int| 0 <= i < j < post.rows.len() implies post.rows[i].title
            != post.rows[j].title by {
            if i == k {
                assert(post.rows[j] == pre.rows[j]);
                assert(pre.rows[j].id != id);
                assert(!(pre.titled_at(j, row.title) && pre.rows[j].id != id));
            } else if j == k {
                assert(post.rows[i] == pre.rows[i]);
                assert(pre.rows[i].id != id);
                assert(!(pre.titled_at(i, row.title) && pre.rows[i].id != id));
            } else {
                assert(post.rows[i] == pre.rows[i]);
                assert(post.rows[j] == pre.rows[j]);
            }
        }
    }
    if pre.times_ordered() && row.created_at <= row.updated_at {
        assert forall|i: int| 0 <= i < post.rows.len() implies post.rows[i].created_at
            <= post.rows[i].updated_at by {
            if i != k {
                assert(post.rows[i] == pre.rows[i]);
            }
        }
    }
}

/// Removing the row with an identifier keeps the order, the unique titles
/// and the ordered times; the identifier is gone and every other row stays.
pub proof fn lemma_removed(pre: Table, id: u128, post: Table)
    requires
        pre.ordered(),
        pre.has_id(id),
        post.rows == pre.rows.remove(pre.position(id)),
    ensures
        post.ordered(),
        post.rows.len() == pre.rows.len() - 1,
        !post.has_id(id),
        forall|other: u128| other != id ==> (post.has_id(other) <==> pre.has_id(other)),
        forall|other: u128| other != id && pre.has_id(other) ==> post.row(other) == pre.row(other),
        pre.titles_unique() ==> post.titles_unique(),
        pre.times_ordered() ==> post.times_ordered(),
{
    let k = pre.position(id);
    assert(pre.holds_at(k, id));
    assert forall|i: int, j: int| 0 <= i < j < post.rows.len() implies post.rows[i].id
        < post.rows[j].id by {
        let a = if i < k { i } else { i + 1 };
        let b = if j < k { j } else { j + 1 };
        assert(post.rows[i] == pre.rows[a]);
        assert(post.rows[j] == pre.rows[b]);
    }
    if post.has_id(id) {
        let i = post.position(id);
        assert(post.holds_at(i, id));
        let a = if i < k { i } else { i + 1 };
        assert(post.rows[i] == pre.rows[a]);
        if a < k {
            assert(pre.rows[a].id < pre.rows[k].id);
        } else {
            assert(pre.rows[k].id < pre.rows[a].id);
        }
    }
    assert forall|other: u128| other != id implies (post.has_id(other) <==> pre.has_id(other))
        && (pre.has_id(other) ==> post.row(other) == pre.row(other)) by {
        if pre.has_id(other) {
            let a = pre.position(other);
            assert(pre.holds_at(a, other));
            let i = if a < k { a } else { a - 1 };
            assert(post.rows[i] == pre.rows[a]);
            assert(post.holds_at(i, other));
            lemma_position(post, i);
        }
        if post.has_id(other) {
            let i = post.position(other);
            assert(post.holds_at(i, other));
            let a = if i < k { i } else { i + 1 };
            assert(post.rows[i] == pre.rows[a]);
            assert(pre.holds_at(a, other));
        }
    }
    if pre.titles_unique() {
        assert forall|i: int, j: int| 0 <= i < j < post.rows.len() implies post.rows[i].title
            != post.rows[j].title by {
            let a = if i < k { i } else { i + 1 };
            let b = if j < k { j } else { j + 1 };
            assert(post.rows[i] == pre.rows[a]);
            assert(post.rows[j] == pre.rows[b]);
        }
    }
    if pre.times_ordered() {
        assert forall|i: int| 0 <= i < post.rows.len() implies post.rows[i].created_at
            <= post.rows[i].updated_at by {
            let a = if i < k { i } else { i + 1 };
            assert(post.rows[i] == pre.rows[a]);
        }
    }
}

} // verus!
