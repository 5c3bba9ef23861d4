//! Display records: what the listing, detail and compose pages show.
use vstd::prelude::*;
use vstd::string::*;
use crate::clock::{display_time, time_text};
use crate::content::{
    newest_first, oldest_first, order_for_detail, order_for_listing, CommentRow, ContentRow,
};
use crate::text::{
    clipped, overflows, project_content, project_title, CONTENT_CHAR_LIMIT, TITLE_CHAR_LIMIT,
};

verus! {

/// A content item as displayed.
pub struct Post {
    pub id: String,
    pub user_id: String,
    pub created: String,
    pub last_updated: String,
    pub title: String,
    pub content: String,
    /// Whether the body was cut short.
    pub overflow: bool,
}

/// A comment as displayed.
pub struct CommentView {
    pub user_id: String,
    pub parent_id: String,
    pub created: String,
    pub content: String,
}

/// The listing page.
pub struct IndexPageState {
    pub user_id: String,
    pub num_threads: usize,
    pub posts: Vec<Post>,
}

/// The detail page of one content item.
pub struct PostPageState {
    pub user_id: String,
    pub post: Post,
    pub num_comments: usize,
    pub comments: Vec<CommentView>,
}

/// The compose page.
pub struct PageState {
    pub user_id: String,
}

/// Why a page could not be built.
#[derive(Clone, Copy, Debug, PartialEq, Eq, Structural)]
pub enum ViewError {
    /// No content item has the requested id.
    NotFound,
}

/// `p` shows `row` as a listing entry: title and body clipped, timestamps
/// in the display format.
pub open spec fn lists(p: Post, row: ContentRow) -> bool {
    &&& p.id@ == row.id@
    &&& p.user_id@ == row.user_id@
    &&& p.created@ == time_text(row.created as int)
    &&& p.last_updated@ == time_text(row.last_updated as int)
    &&& p.title@ == clipped(row.title@, TITLE_CHAR_LIMIT as nat)
    &&& p.content@ == clipped(row.content@, CONTENT_CHAR_LIMIT as nat)
    &&& p.overflow == overflows(row.content@, CONTENT_CHAR_LIMIT as nat)
}

/// `p` shows `row` in full, as a detail view does.
pub open spec fn shows_in_full(p: Post, row: ContentRow) -> bool {
    &&& p.id@ == row.id@
    &&& p.user_id@ == row.user_id@
    &&& p.created@ == time_text(row.created as int)
    &&& p.last_updated@ == time_text(row.last_updated as int)
    &&& p.title@ == row.title@
    &&& p.content@ == row.content@
    &&& !p.overflow
}

/// `v` shows the comment `c`.
pub open spec fn shows_comment(v: CommentView, c: CommentRow) -> bool {
    &&& v.user_id@ == c.user_id@
    &&& v.parent_id@ == c.parent_id@
    &&& v.created@ == time_text(c.created as int)
    &&& v.content@ == c.content@
}

/// A row as a listing entry.
pub fn list_entry(row: ContentRow) -> (r: Post)
    ensures
        lists(r, row),
{
    let created = display_time(row.created);
    let last_updated = display_time(row.last_updated);
    let title = project_title(row.title);
    let (content, overflow) = project_content(row.content);
    Post { id: row.id, user_id: row.user_id, created, last_updated, title, content, overflow }
}

/// A row shown in full.
pub fn full_entry(row: ContentRow) -> (r: Post)
    ensures
        shows_in_full(r, row),
{
    let created = display_time(row.created);
    let last_updated = display_time(row.last_updated);
    Post {
        id: row.id,
        user_id: row.user_id,
        created,
        last_updated,
        title: row.title,
        content: row.content,
        overflow: false,
    }
}

/// A comment as displayed.
pub fn comment_entry(c: CommentRow) -> (r: CommentView)
    ensures
        shows_comment(r, c),
{
    let created = display_time(c.created);
    CommentView { user_id: c.user_id, parent_id: c.parent_id, created, content: c.content }
}

/// Listing entries for `rows`, in the same order.
pub fn list_entries(rows: Vec<ContentRow>) -> (r: Vec<Post>)
    ensures
        r@.len() == rows@.len(),
        forall|i: int| 0 <= i < rows@.len() ==> lists(#[trigger] r@[i], rows@[i]),
{
    let ghost all = rows@;
    let mut rest = rows;
    let mut out: Vec<Post> = Vec::new();
    while rest.len() > 0
        invariant
            out@.len() + rest@.len() == all.len(),
            rest@ == all.skip(out@.len() as int),
            forall|k: int| 0 <= k < out@.len() ==> lists(#[trigger] out@[k], all[k]),
        decreases rest.len(),
    {
        let ghost i = out@.len() as int;
        let row = rest.remove(0);
        assert(row == all[i]);
        assert(rest@ =~= all.skip(i + 1));
        out.push(list_entry(row));
    }
    out
}

/// Comment views for `comments`, in the same order.
pub fn comment_entries(comments: Vec<CommentRow>) -> (r: Vec<CommentView>)
    ensures
        r@.len() == comments@.len(),
        forall|i: int| 0 <= i < comments@.len() ==> shows_comment(#[trigger] r@[i], comments@[i]),
{
    let ghost all = comments@;
    let mut rest = comments;
    let mut out: Vec<CommentView> = Vec::new();
    while rest.len() > 0
        invariant
            out@.len() + rest@.len() == all.len(),
            rest@ == all.skip(out@.len() as int),
            forall|k: int| 0 <= k < out@.len() ==> shows_comment(#[trigger] out@[k], all[k]),
        decreases rest.len(),
    {
        let ghost i = out@.len() as int;
        let c = rest.remove(0);
        assert(c == all[i]);
        assert(rest@ =~= all.skip(i + 1));
        out.push(comment_entry(c));
    }
    out
}

/// The listing page: every row, most recently updated first, each clipped
/// for display.
pub fn listing_page(user_id: String, rows: Vec<ContentRow>) -> (r: IndexPageState)
    ensures
        r.user_id == user_id,
        r.num_threads == rows@.len(),
        r.posts@.len() == rows@.len(),
        exists|ordered: Seq<ContentRow>|
            {
                &&& ordered.to_multiset() == rows@.to_multiset()
                &&& newest_first(ordered)
                &&& ordered.len() == rows@.len()
                &&& forall|i: int| 0 <= i < ordered.len() ==> lists(#[trigger] r.posts@[i], ordered[i])
            },
{
    let ghost given = rows@;
    let ordered = order_for_listing(rows);
    proof {
        vstd::seq_lib::to_multiset_len(ordered@);
        vstd::seq_lib::to_multiset_len(given);
    }
    let posts = list_entries(ordered);
    let num_threads = posts.len();
    IndexPageState { user_id, num_threads, posts }
}

/// The detail page of `row`, with its comments oldest first; `NotFound`
/// exactly when there is no such row.
pub fn detail_page(user_id: String, row: Option<ContentRow>, comments: Vec<CommentRow>) -> (r:
    Result<PostPageState, ViewError>)
    ensures
        row is None <==> r == Err::<PostPageState, ViewError>(ViewError::NotFound),
        row is Some ==> r is Ok && {
            let page = r->Ok_0;
            &&& page.user_id == user_id
            &&& shows_in_full(page.post, row->Some_0)
            &&& page.num_comments == comments@.len()
            &&& page.comments@.len() == comments@.len()
            &&& exists|ordered: Seq<CommentRow>|
                {
                    &&& ordered.to_multiset() == comments@.to_multiset()
                    &&& oldest_first(ordered)
                    &&& ordered.len() == comments@.len()
                    &&& forall|i: int|
                        0 <= i < ordered.len() ==> shows_comment(#[trigger] page.comments@[i], ordered[i])
                }
        },
{
    match row {
        None => Err(ViewError::NotFound),
        Some(row) => {
            let ghost given = comments@;
            let ordered = order_for_detail(comments);
            proof {
                vstd::seq_lib::to_multiset_len(ordered@);
                vstd::seq_lib::to_multiset_len(given);
            }
            let views = comment_entries(ordered);
            let num_comments = views.len();
            Ok(PostPageState { user_id, post: full_entry(row), num_comments, comments: views })
        },
    }
}

/// Where a content item's detail page lives: `/thread/<id>`.
pub fn thread_location(id: &str) -> (r: String)
    ensures
        r@ == "/thread/"@ + id@,
{
    let base = String::from_str("/thread/");
    base.concat(id)
}

} // verus!
