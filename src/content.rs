//! Content items and comments: the rows that submission writes, and the
//! orders in which they are shown.
use vstd::prelude::*;
use vstd::multiset::lemma_multiset_empty_len;
use vstd::seq_lib::{to_multiset_build, to_multiset_contains, to_multiset_insert, to_multiset_len};
use crate::clock::clock_now;
use crate::ids::{is_content_id, mint_content_id};

verus! {

/// The form that submits a new content item.
pub struct PostForm {
    pub title: String,
    pub content: String,
}

/// The form that submits a comment.
pub struct CommentForm {
    pub content: String,
}

/// A stored content item (a thread). Timestamps are nanoseconds since the
/// Unix epoch.
pub struct ContentRow {
    pub id: String,
    pub user_id: String,
    pub created: i64,
    pub last_updated: i64,
    pub title: String,
    pub content: String,
}

/// A stored comment on the content item `parent_id`.
pub struct CommentRow {
    pub user_id: String,
    pub parent_id: String,
    pub content: String,
    pub created: i64,
}

/// The second write of a comment submission: move the parent's
/// `last_updated` forward to the comment's time.
pub struct FreshnessBump {
    pub content_id: String,
    pub last_updated: i64,
}

/// The writes a comment submission needs, in order. The two are separate
/// statements: if the bump fails after the comment went in, the comment
/// stays and the thread keeps its old place in the listing.
pub struct CommentPlan {
    pub comment: CommentRow,
    pub bump: Option<FreshnessBump>,
}

/// The row a new content item is stored as: both timestamps are `now`.
pub fn new_content(user_id: String, form: PostForm, id: String, now: i64) -> (r: ContentRow)
    ensures
        r.id == id,
        r.user_id == user_id,
        r.created == now,
        r.last_updated == now,
        r.title == form.title,
        r.content == form.content,
{
    ContentRow { id, user_id, created: now, last_updated: now, title: form.title, content: form.content }
}

/// Submits a new content item under a fresh random id, stamped with the
/// current time. `None` when the clock reads outside the representable range.
pub fn submit_content(user_id: String, form: PostForm) -> (r: Option<ContentRow>)
    ensures
        r is Some ==> {
            let row = r->Some_0;
            &&& is_content_id(row.id@)
            &&& row.user_id == user_id
            &&& row.title == form.title
            &&& row.content == form.content
            &&& row.created == row.last_updated
        },
{
    let id = mint_content_id();
    match clock_now() {
        Some(now) => Some(new_content(user_id, form, id, now)),
        None => None,
    }
}

/// The writes for a comment made at `now`. With `bump_freshness` (the
/// thread schema) the parent's `last_updated` moves to the same instant.
pub fn new_comment(
    user_id: String,
    parent_id: String,
    form: CommentForm,
    now: i64,
    bump_freshness: bool,
) -> (r: CommentPlan)
    ensures
        r.comment.user_id == user_id,
        r.comment.parent_id == parent_id,
        r.comment.content == form.content,
        r.comment.created == now,
        bump_freshness ==> r.bump is Some && r.bump->Some_0.content_id@ == parent_id@
            && r.bump->Some_0.last_updated == now,
        !bump_freshness ==> r.bump is None,
{
    let bump = if bump_freshness {
        Some(FreshnessBump { content_id: parent_id.clone(), last_updated: now })
    } else {
        None
    };
    CommentPlan { comment: CommentRow { user_id, parent_id, content: form.content, created: now }, bump }
}

/// Submits a comment stamped with the current time. `None` when the clock
/// reads outside the representable range.
pub fn submit_comment(user_id: String, parent_id: String, form: CommentForm, bump_freshness: bool) -> (r:
    Option<CommentPlan>)
    ensures
        r is Some ==> {
            let plan = r->Some_0;
            &&& plan.comment.user_id == user_id
            &&& plan.comment.parent_id == parent_id
            &&& plan.comment.content == form.content
            &&& bump_freshness ==> plan.bump is Some && plan.bump->Some_0.content_id@ == parent_id@
                && plan.bump->Some_0.last_updated == plan.comment.created
            &&& !bump_freshness ==> plan.bump is None
        },
{
    match clock_now() {
        Some(now) => Some(new_comment(user_id, parent_id, form, now, bump_freshness)),
        None => None,
    }
}

/// Rows ordered for the listing: most recently updated first.
pub open spec fn newest_first(s: Seq<ContentRow>) -> bool {
    forall|i: int, j: int| 0 <= i < j < s.len() ==> s[i].last_updated >= s[j].last_updated
}

/// Comments ordered for a detail view: oldest first.
pub open spec fn oldest_first(s: Seq<CommentRow>) -> bool {
    forall|i: int, j: int| 0 <= i < j < s.len() ==> s[i].created <= s[j].created
}

/// The rows of a listing: the same rows, most recently updated first.
pub fn order_for_listing(rows: Vec<ContentRow>) -> (r: Vec<ContentRow>)
    ensures
        r@.to_multiset() == rows@.to_multiset(),
        newest_first(r@),
{
    let ghost all = rows@;
    let mut rest = rows;
    let mut out: Vec<ContentRow> = Vec::new();
    proof {
        to_multiset_len(out@);
        lemma_multiset_empty_len(out@.to_multiset());
        assert(out@.to_multiset().add(rest@.to_multiset()) =~= all.to_multiset());
    }
    while rest.len() > 0
        invariant
            newest_first(out@),
            out@.to_multiset().add(rest@.to_multiset()) == all.to_multiset(),
        decreases rest.len(),
    {
        let ghost before = rest@;
        let x = rest.pop().unwrap();
        proof {
            assert(before == rest@.push(x));
            to_multiset_build(rest@, x);
        }
        let mut j: usize = 0;
        while j < out.len() && out[j].last_updated >= x.last_updated
            invariant
                j <= out.len(),
                forall|k: int| 0 <= k < j ==> out@[k].last_updated >= x.last_updated,
            decreases out.len() - j,
        {
            j = j + 1;
        }
        let ghost old_out = out@;
        out.insert(j, x);
        proof {
            to_multiset_insert(old_out, j as int, x);
            assert forall|a: int, b: int| 0 <= a < b < out@.len() implies out@[a].last_updated
                >= out@[b].last_updated by {
                if b == j {
                } else if a == j {
                    assert(old_out[b - 1].last_updated <= old_out[j as int].last_updated);
                } else if a > j {
                    assert(out@[a] == old_out[a - 1]);
                } else if b > j {
                    assert(out@[b] == old_out[b - 1]);
                }
            }
            assert(out@.to_multiset().add(rest@.to_multiset()) =~= all.to_multiset());
        }
    }
    proof {
        to_multiset_len(rest@);
        lemma_multiset_empty_len(rest@.to_multiset());
        assert(out@.to_multiset() =~= all.to_multiset());
    }
    out
}

/// The comments of a detail view: the same comments, oldest first.
pub fn order_for_detail(comments: Vec<CommentRow>) -> (r: Vec<CommentRow>)
    ensures
        r@.to_multiset() == comments@.to_multiset(),
        oldest_first(r@),
{
    let ghost all = comments@;
    let mut rest = comments;
    let mut out: Vec<CommentRow> = Vec::new();
    proof {
        to_multiset_len(out@);
        lemma_multiset_empty_len(out@.to_multiset());
        assert(out@.to_multiset().add(rest@.to_multiset()) =~= all.to_multiset());
    }
    while rest.len() > 0
        invariant
            oldest_first(out@),
            out@.to_multiset().add(rest@.to_multiset()) == all.to_multiset(),
        decreases rest.len(),
    {
        let ghost before = rest@;
        let x = rest.pop().unwrap();
        proof {
            assert(before == rest@.push(x));
            to_multiset_build(rest@, x);
        }
        let mut j: usize = 0;
        while j < out.len() && out[j].created <= x.created
            invariant
                j <= out.len(),
                forall|k: int| 0 <= k < j ==> out@[k].created <= x.created,
            decreases out.len() - j,
        {
            j = j + 1;
        }
        let ghost old_out = out@;
        out.insert(j, x);
        proof {
            to_multiset_insert(old_out, j as int, x);
            assert forall|a: int, b: int| 0 <= a < b < out@.len() implies out@[a].created
                <= out@[b].created by {
                if b == j {
                } else if a == j {
                    assert(old_out[b - 1].created >= old_out[j as int].created);
                } else if a > j {
                    assert(out@[a] == old_out[a - 1]);
                } else if b > j {
                    assert(out@[b] == old_out[b - 1]);
                }
            }
            assert(out@.to_multiset().add(rest@.to_multiset()) =~= all.to_multiset());
        }
    }
    proof {
        to_multiset_len(rest@);
        lemma_multiset_empty_len(rest@.to_multiset());
        assert(out@.to_multiset() =~= all.to_multiset());
    }
    out
}

/// `row` with its `last_updated` moved to `at`.
pub open spec fn bumped_row(row: ContentRow, at: i64) -> ContentRow {
    ContentRow {
        id: row.id,
        user_id: row.user_id,
        created: row.created,
        last_updated: at,
        title: row.title,
        content: row.content,
    }
}

/// The content table after the freshness bump of `content_id` to `at`.
pub open spec fn apply_bump(rows: Seq<ContentRow>, content_id: Seq<char>, at: i64) -> Seq<
    ContentRow,
> {
    rows.map_values(
        |row: ContentRow|
            if row.id@ == content_id {
                bumped_row(row, at)
            } else {
                row
            },
    )
}

/// Every row of the table after a bump that carries the bumped id was last
/// updated at the bump's instant.
proof fn lemma_bumped_rows_carry_instant(
    rows: Seq<ContentRow>,
    content_id: Seq<char>,
    at: i64,
    row: ContentRow,
)
    requires
        apply_bump(rows, content_id, at).contains(row),
        row.id@ == content_id,
    ensures
        row.last_updated == at,
{
    let k = choose|k: int|
        0 <= k < apply_bump(rows, content_id, at).len() && apply_bump(rows, content_id, at)[k]
            == row;
    if rows[k].id@ != content_id {
        assert(apply_bump(rows, content_id, at)[k] == rows[k]);
    }
}

/// A comment on thread `content_id` made at `at` moves the thread's
/// `last_updated` to `at`, which is at or after the comment's own time; any
/// listing of the table that follows places the thread ahead of every thread
/// last updated before `at`, and the thread is in that listing whenever it
/// was in the table.
pub proof fn lemma_comment_bumps_thread(
    rows: Seq<ContentRow>,
    content_id: Seq<char>,
    at: i64,
    listing: Seq<ContentRow>,
)
    requires
        listing.to_multiset() == apply_bump(rows, content_id, at).to_multiset(),
        newest_first(listing),
    ensures
        forall|i: int|
            0 <= i < rows.len() && rows[i].id@ == content_id ==> #[trigger] apply_bump(
                rows,
                content_id,
                at,
            )[i].last_updated == at,
        forall|i: int, j: int|
            0 <= i < listing.len() && 0 <= j < listing.len() && listing[i].id@ == content_id
                && listing[j].last_updated < at ==> i < j,
        (exists|k: int| 0 <= k < rows.len() && rows[k].id@ == content_id) ==> exists|i: int|
            0 <= i < listing.len() && listing[i].id@ == content_id && listing[i].last_updated
                == at,
{
    let bumped = apply_bump(rows, content_id, at);
    assert forall|i: int| 0 <= i < listing.len() && listing[i].id@ == content_id implies #[trigger] listing[i].last_updated == at by {
        to_multiset_contains(listing, listing[i]);
        assert(listing.contains(listing[i]));
        to_multiset_contains(bumped, listing[i]);
        lemma_bumped_rows_carry_instant(rows, content_id, at, listing[i]);
    }
    assert forall|i: int, j: int|
        0 <= i < listing.len() && 0 <= j < listing.len() && listing[i].id@ == content_id
            && listing[j].last_updated < at implies i < j by {
        assert(listing[i].last_updated == at);
        if j < i {
            assert(listing[j].last_updated >= listing[i].last_updated);
        }
    }
    if exists|k: int| 0 <= k < rows.len() && rows[k].id@ == content_id {
        let k = choose|k: int| 0 <= k < rows.len() && rows[k].id@ == content_id;
        assert(bumped[k] == bumped_row(rows[k], at));
        assert(bumped.contains(bumped[k]));
        to_multiset_contains(bumped, bumped[k]);
        to_multiset_contains(listing, bumped[k]);
        let i = choose|i: int| 0 <= i < listing.len() && listing[i] == bumped[k];
        assert(listing[i].id@ == content_id && listing[i].last_updated == at);
    }
}

} // verus!
