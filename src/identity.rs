//! The identity resolver: turns the token a client presents (if any) into a
//! user id, and says whether a freshly issued token must be set as a cookie.
//!
//! The resolver never touches the record store itself. It is a small state
//! machine: each step names the one statement the caller must run next
//! (`Lookup` or `Insert`) and the caller feeds the store's answer back in,
//! until it reaches `Done` or `Failed`. That keeps every decision here, and
//! at most one read and one write per resolution.
use vstd::prelude::*;
use vstd::string::*;
use crate::ids::{is_token, is_user_id, mint_token, mint_user_id};

verus! {

/// How the record store reports a statement that did not go through.
#[derive(Clone, Copy, Debug, PartialEq, Eq, Structural)]
pub enum StoreFailure {
    /// A uniqueness constraint refused the row.
    Conflict,
    /// The store could not be reached or failed for infrastructural reasons.
    Unavailable,
}

/// Why a resolution failed.
#[derive(Clone, Copy, Debug, PartialEq, Eq, Structural)]
pub enum IdentityError {
    /// A freshly minted token or user id was already taken.
    MintCollision,
    /// The store failed.
    StoreUnavailable,
}

/// A resolved identity.
pub struct Identity {
    /// The pseudonym to show beside the requester's content.
    pub user_id: String,
    /// A newly issued token that must be set as the `userToken` cookie.
    pub token_to_persist: Option<String>,
}

/// A user row to be written.
pub struct NewUser {
    pub user_token: String,
    pub user_id: String,
    /// Whether the token is new to the client and must be set as a cookie.
    pub issue_cookie: bool,
}

/// Where a resolution stands.
pub enum ResolveStep {
    /// Read the user id stored for this token, then call `after_lookup`.
    Lookup(String),
    /// Write this row, then call `after_insert`.
    Insert(NewUser),
    /// Resolved.
    Done(Identity),
    /// Failed; nothing more is to be run.
    Failed(IdentityError),
}

/// The model of a `ResolveStep`, with its strings as character sequences.
pub enum StepModel {
    Lookup(Seq<char>),
    Insert { token: Seq<char>, user_id: Seq<char>, issue_cookie: bool },
    Done { user_id: Seq<char>, token_to_persist: Option<Seq<char>> },
    Failed(IdentityError),
}

pub open spec fn opt_view(o: Option<String>) -> Option<Seq<char>> {
    match o {
        Some(s) => Some(s@),
        None => None,
    }
}

pub open spec fn found_view(found: Result<Option<String>, StoreFailure>) -> Result<
    Option<Seq<char>>,
    StoreFailure,
> {
    match found {
        Ok(o) => Ok(opt_view(o)),
        Err(e) => Err(e),
    }
}

impl View for ResolveStep {
    type V = StepModel;

    open spec fn view(&self) -> StepModel {
        match self {
            ResolveStep::Lookup(t) => StepModel::Lookup(t@),
            ResolveStep::Insert(n) => StepModel::Insert {
                token: n.user_token@,
                user_id: n.user_id@,
                issue_cookie: n.issue_cookie,
            },
            ResolveStep::Done(id) => StepModel::Done {
                user_id: id.user_id@,
                token_to_persist: opt_view(id.token_to_persist),
            },
            ResolveStep::Failed(e) => StepModel::Failed(*e),
        }
    }
}

/// First step: with no token, issue `fresh_token` under `fresh_user_id` and
/// ask for the cookie; with a token, look it up.
pub open spec fn begin_model(
    cookie: Option<Seq<char>>,
    fresh_token: Seq<char>,
    fresh_user_id: Seq<char>,
) -> StepModel {
    match cookie {
        None => StepModel::Insert { token: fresh_token, user_id: fresh_user_id, issue_cookie: true },
        Some(t) => StepModel::Lookup(t),
    }
}

/// After the lookup of `token`: a stored user id resolves it with no cookie
/// to set; an unknown token is healed in place under `fresh_user_id`; a
/// failed read fails the resolution.
pub open spec fn lookup_model(
    token: Seq<char>,
    found: Result<Option<Seq<char>>, StoreFailure>,
    fresh_user_id: Seq<char>,
) -> StepModel {
    match found {
        Ok(Some(u)) => StepModel::Done { user_id: u, token_to_persist: None },
        Ok(None) => StepModel::Insert { token, user_id: fresh_user_id, issue_cookie: false },
        Err(_) => StepModel::Failed(IdentityError::StoreUnavailable),
    }
}

/// After the write of a user row: success resolves to its user id, with the
/// token as cookie when it was newly issued; a refused row is a collision.
pub open spec fn insert_model(
    token: Seq<char>,
    user_id: Seq<char>,
    issue_cookie: bool,
    outcome: Result<(), StoreFailure>,
) -> StepModel {
    match outcome {
        Ok(()) => StepModel::Done {
            user_id,
            token_to_persist: if issue_cookie {
                Some(token)
            } else {
                None
            },
        },
        Err(StoreFailure::Conflict) => StepModel::Failed(IdentityError::MintCollision),
        Err(StoreFailure::Unavailable) => StepModel::Failed(IdentityError::StoreUnavailable),
    }
}

/// The first step of a resolution, given the values to mint with.
pub fn begin_resolve(cookie: Option<String>, fresh_token: String, fresh_user_id: String) -> (r:
    ResolveStep)
    ensures
        r@ == begin_model(opt_view(cookie), fresh_token@, fresh_user_id@),
{
    match cookie {
        None => ResolveStep::Insert(
            NewUser { user_token: fresh_token, user_id: fresh_user_id, issue_cookie: true },
        ),
        Some(t) => ResolveStep::Lookup(t),
    }
}

/// The step after looking up `token`, given the user id to mint with.
pub fn after_lookup(
    token: String,
    found: Result<Option<String>, StoreFailure>,
    fresh_user_id: String,
) -> (r: ResolveStep)
    ensures
        r@ == lookup_model(token@, found_view(found), fresh_user_id@),
{
    match found {
        Ok(Some(user_id)) => ResolveStep::Done(Identity { user_id, token_to_persist: None }),
        Ok(None) => ResolveStep::Insert(
            NewUser { user_token: token, user_id: fresh_user_id, issue_cookie: false },
        ),
        Err(_) => ResolveStep::Failed(IdentityError::StoreUnavailable),
    }
}

/// The step after writing `pending`.
pub fn after_insert(pending: NewUser, outcome: Result<(), StoreFailure>) -> (r: ResolveStep)
    ensures
        r@ == insert_model(pending.user_token@, pending.user_id@, pending.issue_cookie, outcome),
{
    match outcome {
        Ok(()) => {
            let token_to_persist = if pending.issue_cookie {
                Some(pending.user_token)
            } else {
                None
            };
            ResolveStep::Done(Identity { user_id: pending.user_id, token_to_persist })
        },
        Err(StoreFailure::Conflict) => ResolveStep::Failed(IdentityError::MintCollision),
        Err(StoreFailure::Unavailable) => ResolveStep::Failed(IdentityError::StoreUnavailable),
    }
}

/// Starts a resolution, minting a token and a user id when the client
/// presented no token.
pub fn start_resolve(cookie: Option<String>) -> (r: ResolveStep)
    ensures
        cookie is Some ==> r@ == StepModel::Lookup(cookie->Some_0@),
        cookie is None ==> exists|t: Seq<char>, u: Seq<char>|
            is_token(t) && is_user_id(u) && r@ == begin_model(None, t, u),
{
    match cookie {
        None => {
            let t = mint_token();
            let u = mint_user_id();
            begin_resolve(None, t, u)
        },
        Some(t) => ResolveStep::Lookup(t),
    }
}

/// Continues after looking up `token`, minting a user id only when the
/// token was unknown.
pub fn continue_after_lookup(token: String, found: Result<Option<String>, StoreFailure>) -> (r:
    ResolveStep)
    ensures
        found is Ok && found->Ok_0 is None ==> exists|u: Seq<char>|
            is_user_id(u) && r@ == lookup_model(token@, found_view(found), u),
        !(found is Ok && found->Ok_0 is None) ==> r@ == lookup_model(
            token@,
            found_view(found),
            Seq::empty(),
        ),
{
    let unknown = match &found {
        Ok(None) => true,
        _ => false,
    };
    let fresh = if unknown {
        mint_user_id()
    } else {
        String::new()
    };
    after_lookup(token, found, fresh)
}

/// The `Set-Cookie` value that hands a newly issued token to the client,
/// with a far-future expiry.
pub fn cookie_value(token: &str) -> (r: String)
    ensures
        r@ == "userToken="@ + token@ + "; Expires=Thu, 31 Oct 2040 00:00:00 GMT;"@,
{
    let head = String::from_str("userToken=");
    let with_token = head.concat(token);
    with_token.concat("; Expires=Thu, 31 Oct 2040 00:00:00 GMT;")
}

/// The user table as the store holds it: each token to its user id.
pub type UserTable = Map<Seq<char>, Seq<char>>;

/// Whether `user_id` is already the user id of some token.
pub open spec fn user_id_taken(users: UserTable, user_id: Seq<char>) -> bool {
    exists|t: Seq<char>| #[trigger] users.contains_key(t) && users[t] == user_id
}

/// What an available store answers to a lookup of `token`.
pub open spec fn lookup_answer(users: UserTable, token: Seq<char>) -> Result<
    Option<Seq<char>>,
    StoreFailure,
> {
    Ok(
        if users.contains_key(token) {
            Some(users[token])
        } else {
            None
        },
    )
}

/// What an available store answers to writing the row `(token, user_id)`:
/// tokens and user ids are both unique, so a taken one is refused.
pub open spec fn insert_answer(users: UserTable, token: Seq<char>, user_id: Seq<char>) -> Result<
    (),
    StoreFailure,
> {
    if users.contains_key(token) || user_id_taken(users, user_id) {
        Err(StoreFailure::Conflict)
    } else {
        Ok(())
    }
}

/// One whole resolution run against an available store holding `users`,
/// minting with `fresh_token` and `fresh_user_id`: the table afterwards and
/// the final step.
pub open spec fn resolve_against(
    users: UserTable,
    cookie: Option<Seq<char>>,
    fresh_token: Seq<char>,
    fresh_user_id: Seq<char>,
) -> (UserTable, StepModel) {
    let first = begin_model(cookie, fresh_token, fresh_user_id);
    let second = match first {
        StepModel::Lookup(t) => lookup_model(t, lookup_answer(users, t), fresh_user_id),
        _ => first,
    };
    match second {
        StepModel::Insert { token, user_id, issue_cookie } => {
            let outcome = insert_answer(users, token, user_id);
            let table = if outcome is Ok {
                users.insert(token, user_id)
            } else {
                users
            };
            (table, insert_model(token, user_id, issue_cookie, outcome))
        },
        _ => (users, second),
    }
}

/// Resolving a token that the table holds gives that token's user id, asks
/// for no cookie and writes nothing; so resolving it again, whatever is
/// minted for either run, gives the same answer.
pub proof fn lemma_known_token_is_stable(
    users: UserTable,
    token: Seq<char>,
    fresh_token1: Seq<char>,
    fresh_user_id1: Seq<char>,
    fresh_token2: Seq<char>,
    fresh_user_id2: Seq<char>,
)
    requires
        users.contains_key(token),
    ensures
        ({
            let (after1, step1) = resolve_against(users, Some(token), fresh_token1, fresh_user_id1);
            let (after2, step2) = resolve_against(after1, Some(token), fresh_token2, fresh_user_id2);
            &&& after1 == users
            &&& after2 == users
            &&& step1 == StepModel::Done { user_id: users[token], token_to_persist: None }
            &&& step2 == step1
        }),
{
}

/// An unknown token is healed in place: unless the minted user id is taken,
/// the token is stored under it and no cookie is asked for.
pub proof fn lemma_unknown_token_is_healed(
    users: UserTable,
    token: Seq<char>,
    fresh_token: Seq<char>,
    fresh_user_id: Seq<char>,
)
    requires
        !users.contains_key(token),
    ensures
        ({
            let (after, step) = resolve_against(users, Some(token), fresh_token, fresh_user_id);
            if user_id_taken(users, fresh_user_id) {
                after == users && step == StepModel::Failed(IdentityError::MintCollision)
            } else {
                after == users.insert(token, fresh_user_id) && step == StepModel::Done {
                    user_id: fresh_user_id,
                    token_to_persist: None,
                }
            }
        }),
{
}

/// Two resolutions without a token, one after the other, never hand out the
/// same token or the same user id: when both succeed, each issues its own
/// minted pair, as a cookie, and the two pairs differ in both parts.
pub proof fn lemma_fresh_identities_differ(
    users: UserTable,
    fresh_token1: Seq<char>,
    fresh_user_id1: Seq<char>,
    fresh_token2: Seq<char>,
    fresh_user_id2: Seq<char>,
)
    ensures
        ({
            let (after1, step1) = resolve_against(users, None, fresh_token1, fresh_user_id1);
            let (after2, step2) = resolve_against(after1, None, fresh_token2, fresh_user_id2);
            (step1 is Done && step2 is Done) ==> {
                &&& step1 == StepModel::Done {
                    user_id: fresh_user_id1,
                    token_to_persist: Some(fresh_token1),
                }
                &&& step2 == StepModel::Done {
                    user_id: fresh_user_id2,
                    token_to_persist: Some(fresh_token2),
                }
                &&& after2 == users.insert(fresh_token1, fresh_user_id1).insert(
                    fresh_token2,
                    fresh_user_id2,
                )
                &&& fresh_token1 != fresh_token2
                &&& fresh_user_id1 != fresh_user_id2
            }
        }),
{
    let (after1, step1) = resolve_against(users, None, fresh_token1, fresh_user_id1);
    if step1 is Done {
        assert(after1.contains_key(fresh_token1) && after1[fresh_token1] == fresh_user_id1);
    }
}

} // verus!
