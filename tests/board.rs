use std::collections::HashMap;

use eaglechan::clock::display_time;
use eaglechan::content::{
    new_comment, new_content, order_for_detail, order_for_listing, submit_comment,
    submit_content, CommentForm, CommentRow, ContentRow, PostForm,
};
use eaglechan::identity::{
    after_insert, after_lookup, begin_resolve, continue_after_lookup, cookie_value,
    start_resolve, IdentityError, ResolveStep, StoreFailure,
};
use eaglechan::ids::{mint_content_id, mint_token, mint_user_id};
use eaglechan::pages::{detail_page, listing_page, thread_location, ViewError};
use eaglechan::rate_limit::{
    board_policy, check_request, FixedWindow, WindowCounter, MAX_REQUESTS, RATE_LIMIT_MESSAGE,
    WINDOW_MILLIS,
};
use eaglechan::text::{
    clip, project_content, project_title, truncate_by_chars, CONTENT_CHAR_LIMIT,
    TITLE_CHAR_LIMIT,
};

/// A user table kept in memory, answering as the record store does:
/// tokens and user ids are unique.
struct Users {
    rows: HashMap<String, String>,
}

impl Users {
    fn new() -> Self {
        Users { rows: HashMap::new() }
    }

    fn insert(&mut self, token: &str, user_id: &str) -> Result<(), StoreFailure> {
        if self.rows.contains_key(token) || self.rows.values().any(|u| u == user_id) {
            return Err(StoreFailure::Conflict);
        }
        self.rows.insert(token.to_string(), user_id.to_string());
        Ok(())
    }

    /// Drives one resolution to its end; counts the statements run.
    fn resolve(&mut self, cookie: Option<String>) -> (Result<(String, Option<String>), IdentityError>, usize, usize) {
        let mut reads = 0;
        let mut writes = 0;
        let mut step = start_resolve(cookie);
        loop {
            step = match step {
                ResolveStep::Lookup(token) => {
                    reads += 1;
                    let found = self.rows.get(&token).cloned();
                    continue_after_lookup(token, Ok(found))
                }
                ResolveStep::Insert(pending) => {
                    writes += 1;
                    let outcome = self.insert(&pending.user_token, &pending.user_id);
                    after_insert(pending, outcome)
                }
                ResolveStep::Done(id) => return (Ok((id.user_id, id.token_to_persist)), reads, writes),
                ResolveStep::Failed(e) => return (Err(e), reads, writes),
            };
        }
    }
}

fn row(id: &str, last_updated: i64, title: &str, content: &str) -> ContentRow {
    ContentRow {
        id: id.to_string(),
        user_id: "u1".to_string(),
        created: 0,
        last_updated,
        title: title.to_string(),
        content: content.to_string(),
    }
}

fn comment(user: &str, created: i64, content: &str) -> CommentRow {
    CommentRow {
        user_id: user.to_string(),
        parent_id: "T1".to_string(),
        content: content.to_string(),
        created,
    }
}

#[test]
fn truncate_counts_characters_not_bytes() {
    assert_eq!(truncate_by_chars("héllo wörld".to_string(), 4), "héll");
    assert_eq!(truncate_by_chars("日本語テキスト".to_string(), 3), "日本語");
    assert_eq!(truncate_by_chars("short".to_string(), 10), "short");
    assert_eq!(truncate_by_chars("".to_string(), 0), "");
}

#[test]
fn clip_marks_cut_fields() {
    assert_eq!(clip("abcdef".to_string(), 3), ("abc...".to_string(), true));
    assert_eq!(clip("abc".to_string(), 3), ("abc".to_string(), false));
}

#[test]
fn long_content_overflows_at_exactly_the_limit() {
    let body: String = "é".repeat(CONTENT_CHAR_LIMIT + 1);
    let (shown, overflow) = project_content(body);
    assert!(overflow);
    assert_eq!(shown.chars().count(), CONTENT_CHAR_LIMIT + 3);
    assert_eq!(shown, format!("{}...", "é".repeat(CONTENT_CHAR_LIMIT)));
}

#[test]
fn content_at_or_under_the_limit_is_unchanged() {
    let body: String = "ü".repeat(CONTENT_CHAR_LIMIT);
    assert_eq!(project_content(body.clone()), (body, false));
    assert_eq!(project_content("World".to_string()), ("World".to_string(), false));
    assert_eq!(project_content(String::new()), (String::new(), false));
}

#[test]
fn long_titles_are_cut_with_ellipsis() {
    let title = "t".repeat(TITLE_CHAR_LIMIT + 5);
    assert_eq!(project_title(title), format!("{}...", "t".repeat(TITLE_CHAR_LIMIT)));
    let exact = "t".repeat(TITLE_CHAR_LIMIT);
    assert_eq!(project_title(exact.clone()), exact);
}

#[test]
fn minted_values_have_their_shapes() {
    for _ in 0..100 {
        let t = mint_token();
        assert_eq!(t.chars().count(), 10);
        assert!(t.chars().all(|c| c.is_ascii_alphanumeric()));
        let u = mint_user_id();
        assert_eq!(u.chars().count(), 6);
        assert!(u.chars().all(|c| c.is_ascii_lowercase() || c.is_ascii_digit()));
        let c = mint_content_id();
        assert_eq!(c.chars().count(), 6);
        assert!(c.chars().all(|c| c.is_ascii_uppercase() || c.is_ascii_digit()));
    }
}

#[test]
fn case_normalisation_is_applied() {
    let mut seen_letter = false;
    for _ in 0..200 {
        seen_letter |= mint_user_id().chars().any(|c| c.is_ascii_lowercase());
        assert!(!mint_user_id().chars().any(|c| c.is_ascii_uppercase()));
        assert!(!mint_content_id().chars().any(|c| c.is_ascii_lowercase()));
    }
    assert!(seen_letter);
}

#[test]
fn begin_without_token_issues_one() {
    match begin_resolve(None, "tok0000001".to_string(), "abc123".to_string()) {
        ResolveStep::Insert(n) => {
            assert_eq!(n.user_token, "tok0000001");
            assert_eq!(n.user_id, "abc123");
            assert!(n.issue_cookie);
        }
        _ => panic!("expected an insert"),
    }
    match begin_resolve(Some("known".to_string()), "t".to_string(), "u".to_string()) {
        ResolveStep::Lookup(t) => assert_eq!(t, "known"),
        _ => panic!("expected a lookup"),
    }
}

#[test]
fn lookup_outcomes() {
    match after_lookup("tok".to_string(), Ok(Some("abc123".to_string())), "zzz999".to_string()) {
        ResolveStep::Done(id) => {
            assert_eq!(id.user_id, "abc123");
            assert!(id.token_to_persist.is_none());
        }
        _ => panic!("expected done"),
    }
    match after_lookup("stale".to_string(), Ok(None), "zzz999".to_string()) {
        ResolveStep::Insert(n) => {
            assert_eq!(n.user_token, "stale");
            assert_eq!(n.user_id, "zzz999");
            assert!(!n.issue_cookie);
        }
        _ => panic!("expected an insert"),
    }
    match after_lookup("tok".to_string(), Err(StoreFailure::Unavailable), "z".to_string()) {
        ResolveStep::Failed(e) => assert_eq!(e, IdentityError::StoreUnavailable),
        _ => panic!("expected failure"),
    }
}

#[test]
fn insert_outcomes() {
    let pending = |issue| eaglechan::identity::NewUser {
        user_token: "tok".to_string(),
        user_id: "abc123".to_string(),
        issue_cookie: issue,
    };
    match after_insert(pending(true), Ok(())) {
        ResolveStep::Done(id) => {
            assert_eq!(id.user_id, "abc123");
            assert_eq!(id.token_to_persist.as_deref(), Some("tok"));
        }
        _ => panic!("expected done"),
    }
    match after_insert(pending(false), Ok(())) {
        ResolveStep::Done(id) => assert!(id.token_to_persist.is_none()),
        _ => panic!("expected done"),
    }
    match after_insert(pending(true), Err(StoreFailure::Conflict)) {
        ResolveStep::Failed(e) => assert_eq!(e, IdentityError::MintCollision),
        _ => panic!("expected failure"),
    }
    match after_insert(pending(true), Err(StoreFailure::Unavailable)) {
        ResolveStep::Failed(e) => assert_eq!(e, IdentityError::StoreUnavailable),
        _ => panic!("expected failure"),
    }
}

#[test]
fn known_token_resolves_the_same_every_time() {
    let mut users = Users::new();
    users.insert("tokentoken", "abc123").unwrap();
    for _ in 0..5 {
        let (r, reads, writes) = users.resolve(Some("tokentoken".to_string()));
        assert_eq!(r, Ok(("abc123".to_string(), None)));
        assert_eq!((reads, writes), (1, 0));
    }
    assert_eq!(users.rows.len(), 1);
}

#[test]
fn unknown_token_is_healed_in_place() {
    let mut users = Users::new();
    let (r, reads, writes) = users.resolve(Some("forgedtok1".to_string()));
    let (user_id, cookie) = r.unwrap();
    assert!(cookie.is_none());
    assert_eq!((reads, writes), (1, 1));
    assert_eq!(users.rows.get("forgedtok1"), Some(&user_id));
    let (again, _, writes) = users.resolve(Some("forgedtok1".to_string()));
    assert_eq!(again, Ok((user_id, None)));
    assert_eq!(writes, 0);
}

#[test]
fn fresh_identities_are_distinct() {
    let mut users = Users::new();
    let (a, reads, writes) = users.resolve(None);
    assert_eq!((reads, writes), (0, 1));
    let (b, _, _) = users.resolve(None);
    let (ua, ta) = a.unwrap();
    let (ub, tb) = b.unwrap();
    let (ta, tb) = (ta.unwrap(), tb.unwrap());
    assert_ne!(ua, ub);
    assert_ne!(ta, tb);
    assert_eq!(users.rows.get(&ta), Some(&ua));
    assert_eq!(users.rows.get(&tb), Some(&ub));
}

#[test]
fn many_fresh_identities_do_not_collide() {
    let mut users = Users::new();
    for _ in 0..200 {
        let (r, _, _) = users.resolve(None);
        assert!(r.is_ok());
    }
    assert_eq!(users.rows.len(), 200);
}

#[test]
fn colliding_mint_is_an_error() {
    let mut users = Users::new();
    users.insert("tokentoken", "abc123").unwrap();
    let step = begin_resolve(None, "tokentoken".to_string(), "xyz789".to_string());
    match step {
        ResolveStep::Insert(n) => {
            let outcome = users.insert(&n.user_token, &n.user_id);
            match after_insert(n, outcome) {
                ResolveStep::Failed(e) => assert_eq!(e, IdentityError::MintCollision),
                _ => panic!("expected a collision"),
            }
        }
        _ => panic!("expected an insert"),
    }
}

#[test]
fn cookie_value_has_far_future_expiry() {
    assert_eq!(
        cookie_value("Ab3dE5gH9k"),
        "userToken=Ab3dE5gH9k; Expires=Thu, 31 Oct 2040 00:00:00 GMT;"
    );
}

#[test]
fn timestamps_use_one_format() {
    assert_eq!(display_time(0), "1970/01/01 00:00");
    assert_eq!(display_time(1_662_921_288_000_000_000), "2022/09/11 18:34");
}

#[test]
fn thread_location_points_at_detail_page() {
    assert_eq!(thread_location("X1Y2Z3"), "/thread/X1Y2Z3");
}

#[test]
fn new_content_stamps_both_times() {
    let form = PostForm { title: "Hello".to_string(), content: "World".to_string() };
    let r = new_content("abc123".to_string(), form, "ABC123".to_string(), 42);
    assert_eq!(r.id, "ABC123");
    assert_eq!(r.user_id, "abc123");
    assert_eq!((r.created, r.last_updated), (42, 42));
    assert_eq!((r.title.as_str(), r.content.as_str()), ("Hello", "World"));
}

#[test]
fn submitted_content_gets_a_fresh_id() {
    let form = PostForm { title: "Hello".to_string(), content: "World".to_string() };
    let r = submit_content("abc123".to_string(), form).unwrap();
    assert_eq!(r.id.chars().count(), 6);
    assert_eq!(r.created, r.last_updated);
    assert!(r.created > 0);
}

#[test]
fn comment_plans() {
    let form = CommentForm { content: "hi".to_string() };
    let plan = new_comment("u".to_string(), "T1".to_string(), form, 7, true);
    assert_eq!(plan.comment.created, 7);
    assert_eq!(plan.comment.content, "hi");
    let bump = plan.bump.unwrap();
    assert_eq!((bump.content_id.as_str(), bump.last_updated), ("T1", 7));
    let plain = new_comment("u".to_string(), "P1".to_string(), CommentForm { content: "x".to_string() }, 7, false);
    assert!(plain.bump.is_none());
    let live = submit_comment("u".to_string(), "T1".to_string(), CommentForm { content: "y".to_string() }, true).unwrap();
    assert_eq!(live.bump.unwrap().last_updated, live.comment.created);
}

#[test]
fn listing_is_newest_first() {
    let rows = vec![row("A", 10, "a", "a"), row("B", 30, "b", "b"), row("C", 20, "c", "c"), row("D", 30, "d", "d")];
    let ordered = order_for_listing(rows);
    let stamps: Vec<i64> = ordered.iter().map(|r| r.last_updated).collect();
    assert_eq!(stamps, vec![30, 30, 20, 10]);
    let mut ids: Vec<&str> = ordered.iter().map(|r| r.id.as_str()).collect();
    ids.sort();
    assert_eq!(ids, vec!["A", "B", "C", "D"]);
    assert!(order_for_listing(Vec::new()).is_empty());
}

#[test]
fn comments_are_oldest_first() {
    let comments = vec![comment("a", 30, "third"), comment("b", 10, "first"), comment("c", 20, "second")];
    let ordered = order_for_detail(comments);
    let texts: Vec<&str> = ordered.iter().map(|c| c.content.as_str()).collect();
    assert_eq!(texts, vec!["first", "second", "third"]);
}

#[test]
fn commented_thread_moves_to_the_top() {
    let mut table = vec![row("OLD", 10, "old", "x"), row("MID", 20, "mid", "y"), row("NEW", 30, "new", "z")];
    let plan = new_comment("u".to_string(), "OLD".to_string(), CommentForm { content: "bump".to_string() }, 40, true);
    let bump = plan.bump.unwrap();
    for r in table.iter_mut() {
        if r.id == bump.content_id {
            r.last_updated = bump.last_updated;
        }
    }
    let old = table.iter().find(|r| r.id == "OLD").unwrap();
    assert!(old.last_updated >= plan.comment.created);
    let page = listing_page("me".to_string(), table);
    let ids: Vec<&str> = page.posts.iter().map(|p| p.id.as_str()).collect();
    assert_eq!(ids, vec!["OLD", "NEW", "MID"]);
}

#[test]
fn listing_page_clips_for_display() {
    let long = "x".repeat(CONTENT_CHAR_LIMIT + 1);
    let page = listing_page("me".to_string(), vec![row("A", 0, "t", &long), row("B", 60_000_000_000, "s", "short")]);
    assert_eq!(page.user_id, "me");
    assert_eq!(page.num_threads, 2);
    assert_eq!(page.posts[0].id, "B");
    assert!(!page.posts[0].overflow);
    assert_eq!(page.posts[0].last_updated, "1970/01/01 00:01");
    assert!(page.posts[1].overflow);
    assert_eq!(page.posts[1].content.chars().count(), CONTENT_CHAR_LIMIT + 3);
}

#[test]
fn detail_of_missing_item_is_not_found() {
    assert!(matches!(detail_page("me".to_string(), None, Vec::new()), Err(ViewError::NotFound)));
}

#[test]
fn detail_page_keeps_full_text() {
    let long = "y".repeat(CONTENT_CHAR_LIMIT + 50);
    let comments = vec![comment("b", 20, "later"), comment("a", 10, "earlier")];
    let page = detail_page("me".to_string(), Some(row("T1", 5, "title", &long)), comments).unwrap();
    assert_eq!(page.post.content, long);
    assert!(!page.post.overflow);
    assert_eq!(page.num_comments, 2);
    assert_eq!(page.comments[0].content, "earlier");
    assert_eq!(page.comments[1].content, "later");
}

#[test]
fn rate_limit_single_check() {
    let policy = FixedWindow { interval: 1000, max_requests: 2 };
    let d = check_request(policy, None, 5);
    assert!(d.allowed);
    assert_eq!(d.counter, WindowCounter { window_start: 5, count: 1 });
    assert_eq!((d.remaining, d.reset_at), (1, 1005));
    let d = check_request(policy, Some(d.counter), 900);
    assert_eq!(d.counter, WindowCounter { window_start: 5, count: 2 });
    assert!(d.allowed);
    let d = check_request(policy, Some(d.counter), 1004);
    assert!(!d.allowed);
    assert_eq!(d.remaining, 0);
    let d = check_request(policy, Some(d.counter), 1005);
    assert!(d.allowed);
    assert_eq!(d.counter, WindowCounter { window_start: 1005, count: 1 });
}

#[test]
fn request_over_budget_is_refused_until_the_window_rolls_over() {
    let policy = board_policy();
    assert_eq!((policy.interval, policy.max_requests), (WINDOW_MILLIS, MAX_REQUESTS));
    let start = 1_000_000;
    let mut counter = None;
    for i in 0..400u64 {
        let d = check_request(policy, counter, start + i * 100);
        assert!(d.allowed, "request {} should be admitted", i + 1);
        counter = Some(d.counter);
    }
    let d = check_request(policy, counter, start + 59_999);
    assert!(!d.allowed);
    assert_eq!(RATE_LIMIT_MESSAGE, "400 req per min rate limit being imposed");
    let d = check_request(policy, Some(d.counter), start + 60_000);
    assert!(d.allowed);
    assert_eq!(d.counter.count, 1);
}

#[test]
fn upload_then_view_round_trip() {
    let mut users = Users::new();
    let (identity, _, _) = users.resolve(None);
    let (user_id, token) = identity.unwrap();
    let token = token.expect("a fresh visitor gets a cookie");
    assert!(cookie_value(&token).starts_with("userToken="));

    let form = PostForm { title: "Hello".to_string(), content: "World".to_string() };
    let stored = submit_content(user_id.clone(), form).unwrap();
    let id = stored.id.clone();
    assert_eq!(thread_location(&id), format!("/thread/{}", id));

    let (again, _, _) = users.resolve(Some(token));
    assert_eq!(again, Ok((user_id.clone(), None)));

    let page = detail_page(user_id, Some(stored), Vec::new()).unwrap();
    assert_eq!(page.num_comments, 0);
    assert!(page.comments.is_empty());
    assert_eq!(page.post.id, id);
    assert_eq!(page.post.title, "Hello");
    assert_eq!(page.post.content, "World");
}
