//! The subscriber store: the lifecycle state machine over the pair of
//! tables holding subscribers and their confirmation tokens.
//!
//! The store owns every creation and mutation of subscriber and token
//! rows. Each operation is specified as a pure transition on the store's
//! mathematical model, so the laws of the lifecycle (what subscribing,
//! re-subscribing and confirming do, and what they leave untouched) are
//! stated and proved over those transitions.

use vstd::prelude::*;

use crate::domain::NewSubscriber;
use crate::domain::SubscriberEmail;
use crate::domain::SubscriberName;
use crate::domain::email_accepted;
use crate::domain::name_valid;
use crate::token::SubscriberToken;
use crate::token::token_valid;

verus! {

/// The three states a subscriber's email can be in, as seen by a
/// subscribe request. Stored rows are never `NonExisting`.
#[derive(PartialEq, Eq, Structural, Clone, Copy, Debug)]
pub enum SubscriberStatus {
    NonExisting,
    Pending,
    Confirmed,
}

/// What a subscribe request reports back.
#[derive(PartialEq, Eq, Structural, Clone, Copy, Debug)]
pub enum SubscribeOutcome {
    /// The row and token are stored and the confirmation mail went out.
    Success,
    /// The email is already confirmed, or a concurrent insert won the race.
    Conflict,
    /// A store write or the confirmation mail failed; nothing was kept.
    InternalError,
}

/// What a confirm request reports back.
#[derive(PartialEq, Eq, Structural, Clone, Copy, Debug)]
pub enum ConfirmOutcome {
    /// The owner of the token is now confirmed (possibly already was).
    Success,
    /// The token string is not a well-formed token.
    BadRequest,
    /// No subscriber owns this token.
    NotFound,
}

/// The query parameters of a confirm request.
pub struct Parameters {
    pub subscription_token: String,
}

impl SubscribeOutcome {
    /// The HTTP status a subscribe request answers with.
    pub fn status_code(&self) -> (r: u16)
        ensures
            r == (match self {
                SubscribeOutcome::Success => 200u16,
                SubscribeOutcome::Conflict => 409u16,
                SubscribeOutcome::InternalError => 500u16,
            }),
    {
        match self {
            SubscribeOutcome::Success => 200,
            SubscribeOutcome::Conflict => 409,
            SubscribeOutcome::InternalError => 500,
        }
    }
}

impl ConfirmOutcome {
    /// The HTTP status a confirm request answers with.
    pub fn status_code(&self) -> (r: u16)
        ensures
            r == (match self {
                ConfirmOutcome::Success => 200u16,
                ConfirmOutcome::BadRequest => 400u16,
                ConfirmOutcome::NotFound => 404u16,
            }),
    {
        match self {
            ConfirmOutcome::Success => 200,
            ConfirmOutcome::BadRequest => 400,
            ConfirmOutcome::NotFound => 404,
        }
    }
}

/// A stored subscriber row.
pub struct SubscriberRecord {
    pub id: u128,
    pub email: SubscriberEmail,
    pub name: SubscriberName,
    pub subscribed_at: i64,
    pub status: SubscriberStatus,
}

/// A stored confirmation-token row.
pub struct TokenRecord {
    pub token: SubscriberToken,
    pub subscriber_id: u128,
}

/// The mathematical image of a subscriber row.
#[verifier::ext_equal]
pub ghost struct SubModel {
    pub id: u128,
    pub email: Seq<char>,
    pub name: Seq<char>,
    pub subscribed_at: i64,
    pub status: SubscriberStatus,
}

/// The mathematical image of a token row.
#[verifier::ext_equal]
pub ghost struct TokModel {
    pub token: Seq<char>,
    pub subscriber_id: u128,
}

/// The mathematical image of the whole store.
#[verifier::ext_equal]
pub ghost struct StoreModel {
    pub subs: Seq<SubModel>,
    pub toks: Seq<TokModel>,
}

impl View for SubscriberRecord {
    type V = SubModel;

    open spec fn view(&self) -> SubModel {
        SubModel {
            id: self.id,
            email: self.email@,
            name: self.name@,
            subscribed_at: self.subscribed_at,
            status: self.status,
        }
    }
}

impl View for TokenRecord {
    type V = TokModel;

    open spec fn view(&self) -> TokModel {
        TokModel { token: self.token@, subscriber_id: self.subscriber_id }
    }
}

pub open spec fn has_email(m: StoreModel, email: Seq<char>) -> bool {
    exists|i: int| 0 <= i < m.subs.len() && m.subs[i].email == email
}

pub open spec fn email_idx(m: StoreModel, email: Seq<char>) -> int {
    choose|i: int| 0 <= i < m.subs.len() && m.subs[i].email == email
}

pub open spec fn has_sub_id(m: StoreModel, id: u128) -> bool {
    exists|i: int| 0 <= i < m.subs.len() && m.subs[i].id == id
}

pub open spec fn sub_id_idx(m: StoreModel, id: u128) -> int {
    choose|i: int| 0 <= i < m.subs.len() && m.subs[i].id == id
}

pub open spec fn has_token(m: StoreModel, token: Seq<char>) -> bool {
    exists|k: int| 0 <= k < m.toks.len() && m.toks[k].token == token
}

pub open spec fn token_idx(m: StoreModel, token: Seq<char>) -> int {
    choose|k: int| 0 <= k < m.toks.len() && m.toks[k].token == token
}

pub open spec fn has_token_for(m: StoreModel, id: u128) -> bool {
    exists|k: int| 0 <= k < m.toks.len() && m.toks[k].subscriber_id == id
}

pub open spec fn token_for_idx(m: StoreModel, id: u128) -> int {
    choose|k: int| 0 <= k < m.toks.len() && m.toks[k].subscriber_id == id
}

/// A token row with this token string owned by someone else than `id`.
pub open spec fn token_taken_by_other(m: StoreModel, token: Seq<char>, id: u128) -> bool {
    exists|k: int|
        0 <= k < m.toks.len() && m.toks[k].token == token && m.toks[k].subscriber_id != id
}

/// The state the lifecycle machine is in for this email address.
pub open spec fn status_of(m: StoreModel, email: Seq<char>) -> SubscriberStatus {
    if has_email(m, email) {
        m.subs[email_idx(m, email)].status
    } else {
        SubscriberStatus::NonExisting
    }
}

/// A stored subscriber row holds validated values and a real state.
pub open spec fn valid_sub(s: SubModel) -> bool {
    &&& email_accepted(s.email)
    &&& name_valid(s.name)
    &&& s.status != SubscriberStatus::NonExisting
}

/// A stored token row holds a well-formed token.
pub open spec fn valid_tok(t: TokModel) -> bool {
    token_valid(t.token)
}

/// Well-formedness of the store: unique emails, ids and token strings;
/// exactly one token row per subscriber row, each referencing an
/// existing subscriber; only validated values stored; no row in the
/// `NonExisting` state.
pub open spec fn store_wf(m: StoreModel) -> bool {
    &&& forall|i: int, j: int|
        0 <= i < m.subs.len() && 0 <= j < m.subs.len() && i != j ==> #[trigger] m.subs[i].email
            != #[trigger] m.subs[j].email
    &&& forall|i: int, j: int|
        0 <= i < m.subs.len() && 0 <= j < m.subs.len() && i != j ==> #[trigger] m.subs[i].id
            != #[trigger] m.subs[j].id
    &&& forall|i: int, j: int|
        0 <= i < m.toks.len() && 0 <= j < m.toks.len() && i != j ==> #[trigger] m.toks[i].token
            != #[trigger] m.toks[j].token
    &&& forall|i: int, j: int|
        0 <= i < m.toks.len() && 0 <= j < m.toks.len() && i != j
            ==> #[trigger] m.toks[i].subscriber_id != #[trigger] m.toks[j].subscriber_id
    &&& forall|k: int| 0 <= k < m.toks.len() ==> has_sub_id(m, #[trigger] m.toks[k].subscriber_id)
    &&& forall|i: int| 0 <= i < m.subs.len() ==> has_token_for(m, #[trigger] m.subs[i].id)
    &&& forall|i: int| 0 <= i < m.subs.len() ==> valid_sub(#[trigger] m.subs[i])
    &&& forall|k: int| 0 <= k < m.toks.len() ==> valid_tok(#[trigger] m.toks[k])
}

/// What one subscribe request does to the store.
///
/// `delivery_ok` stands for the outcome of the confirmation-mail send
/// that the request attempts before committing: when it is false, every
/// write is rolled back and the request fails, so the token is durable
/// exactly when the mail went out.
pub open spec fn subscribe_transition(
    m: StoreModel,
    id: u128,
    subscribed_at: i64,
    token: Seq<char>,
    email: Seq<char>,
    name: Seq<char>,
    delivery_ok: bool,
) -> (StoreModel, SubscribeOutcome) {
    if has_email(m, email) {
        let i = email_idx(m, email);
        if m.subs[i].status == SubscriberStatus::Confirmed {
            (m, SubscribeOutcome::Conflict)
        } else {
            let sid = m.subs[i].id;
            if token_taken_by_other(m, token, sid) || !delivery_ok {
                (m, SubscribeOutcome::InternalError)
            } else {
                let k = token_for_idx(m, sid);
                (
                    StoreModel {
                        toks: m.toks.update(k, TokModel { token, subscriber_id: sid }),
                        ..m
                    },
                    SubscribeOutcome::Success,
                )
            }
        }
    } else {
        if has_sub_id(m, id) {
            (m, SubscribeOutcome::Conflict)
        } else {
            if has_token(m, token) || !delivery_ok {
                (m, SubscribeOutcome::InternalError)
            } else {
                (
                    StoreModel {
                        subs: m.subs.push(
                            SubModel {
                                id,
                                email,
                                name,
                                subscribed_at,
                                status: SubscriberStatus::Pending,
                            },
                        ),
                        toks: m.toks.push(TokModel { token, subscriber_id: id }),
                    },
                    SubscribeOutcome::Success,
                )
            }
        }
    }
}

/// What one confirm request does to the store.
pub open spec fn confirm_transition(m: StoreModel, raw: Seq<char>) -> (
    StoreModel,
    ConfirmOutcome,
) {
    if !token_valid(raw) {
        (m, ConfirmOutcome::BadRequest)
    } else if !has_token(m, raw) {
        (m, ConfirmOutcome::NotFound)
    } else {
        let sid = m.toks[token_idx(m, raw)].subscriber_id;
        if has_sub_id(m, sid) && m.subs[sub_id_idx(m, sid)].status == SubscriberStatus::Pending {
            let i = sub_id_idx(m, sid);
            (
                StoreModel {
                    subs: m.subs.update(
                        i,
                        SubModel { status: SubscriberStatus::Confirmed, ..m.subs[i] },
                    ),
                    ..m
                },
                ConfirmOutcome::Success,
            )
        } else {
            (m, ConfirmOutcome::Success)
        }
    }
}

/// The emails of the first `n` rows that are confirmed, in store order.
pub open spec fn confirmed_emails_upto(subs: Seq<SubModel>, n: int) -> Seq<Seq<char>>
    decreases n,
{
    if n <= 0 {
        Seq::empty()
    } else {
        let p = confirmed_emails_upto(subs, n - 1);
        if subs[n - 1].status == SubscriberStatus::Confirmed {
            p.push(subs[n - 1].email)
        } else {
            p
        }
    }
}

/// The emails of all confirmed subscribers, in store order.
pub open spec fn confirmed_emails(m: StoreModel) -> Seq<Seq<char>> {
    confirmed_emails_upto(m.subs, m.subs.len() as int)
}

/// The views of a sequence of addresses.
pub open spec fn email_views(s: Seq<SubscriberEmail>) -> Seq<Seq<char>> {
    s.map_values(|e: SubscriberEmail| e@)
}

/// Every subscribe request leaves a well-formed store well-formed,
/// whatever its outcome.
pub proof fn lemma_subscribe_preserves_wf(
    m: StoreModel,
    id: u128,
    subscribed_at: i64,
    token: Seq<char>,
    email: Seq<char>,
    name: Seq<char>,
    delivery_ok: bool,
)
    requires
        store_wf(m),
        token_valid(token),
        email_accepted(email),
        name_valid(name),
    ensures
        store_wf(subscribe_transition(m, id, subscribed_at, token, email, name, delivery_ok).0),
{
    let m1 = subscribe_transition(m, id, subscribed_at, token, email, name, delivery_ok).0;
    if has_email(m, email) {
        let i = email_idx(m, email);
        assert(0 <= i < m.subs.len() && m.subs[i].email == email);
        if m.subs[i].status == SubscriberStatus::Confirmed {
            // nothing changed
        } else {
            let sid = m.subs[i].id;
            if token_taken_by_other(m, token, sid) || !delivery_ok {
                // nothing changed
            } else {
                assert(has_token_for(m, m.subs[i].id));
                let k = token_for_idx(m, sid);
                assert(0 <= k < m.toks.len() && m.toks[k].subscriber_id == sid);
                assert(m1.subs == m.subs);
                assert(m1.toks =~= m.toks.update(k, TokModel { token, subscriber_id: sid }));
                assert forall|x: int|
                    0 <= x < m1.toks.len() implies #[trigger] m1.toks[x].subscriber_id
                    == m.toks[x].subscriber_id by {}
                assert forall|x: int, y: int|
                    0 <= x < m1.toks.len() && 0 <= y < m1.toks.len() && x != y
                        implies #[trigger] m1.toks[x].token != #[trigger] m1.toks[y].token by {
                    if x == k {
                        assert(m.toks[y].subscriber_id != sid);
                        if m.toks[y].token == token {
                            assert(token_taken_by_other(m, token, sid));
                        }
                    } else if y == k {
                        assert(m.toks[x].subscriber_id != sid);
                        if m.toks[x].token == token {
                            assert(token_taken_by_other(m, token, sid));
                        }
                    } else {
                        assert(m.toks[x].token != m.toks[y].token);
                    }
                }
                assert forall|x: int|
                    0 <= x < m1.toks.len() implies has_sub_id(
                    m1,
                    #[trigger] m1.toks[x].subscriber_id,
                ) by {
                    assert(has_sub_id(m, m.toks[x].subscriber_id));
                }
                assert forall|x: int|
                    0 <= x < m1.subs.len() implies has_token_for(
                    m1,
                    #[trigger] m1.subs[x].id,
                ) by {
                    assert(has_token_for(m, m.subs[x].id));
                    let w = token_for_idx(m, m.subs[x].id);
                    assert(0 <= w < m.toks.len() && m.toks[w].subscriber_id == m.subs[x].id);
                    assert(m1.toks[w].subscriber_id == m.subs[x].id);
                }
                assert forall|x: int| 0 <= x < m1.toks.len() implies valid_tok(
                    #[trigger] m1.toks[x],
                ) by {
                    if x != k {
                        assert(m1.toks[x] == m.toks[x]);
                        assert(valid_tok(m.toks[x]));
                    }
                }
            }
        }
    } else {
        if has_sub_id(m, id) {
            // nothing changed
        } else if has_token(m, token) || !delivery_ok {
            // nothing changed
        } else {
            let ns = SubModel { id, email, name, subscribed_at, status: SubscriberStatus::Pending };
            let nt = TokModel { token, subscriber_id: id };
            let sl = m.subs.len() as int;
            let tl = m.toks.len() as int;
            assert(m1.subs =~= m.subs.push(ns));
            assert(m1.toks =~= m.toks.push(nt));
            assert forall|x: int, y: int|
                0 <= x < m1.subs.len() && 0 <= y < m1.subs.len() && x != y
                    implies #[trigger] m1.subs[x].email != #[trigger] m1.subs[y].email by {
                if x == sl {
                    if m.subs[y].email == email {
                        assert(has_email(m, email));
                    }
                } else if y == sl {
                    if m.subs[x].email == email {
                        assert(has_email(m, email));
                    }
                } else {
                    assert(m.subs[x].email != m.subs[y].email);
                }
            }
            assert forall|x: int, y: int|
                0 <= x < m1.subs.len() && 0 <= y < m1.subs.len() && x != y
                    implies #[trigger] m1.subs[x].id != #[trigger] m1.subs[y].id by {
                if x == sl {
                    if m.subs[y].id == id {
                        assert(has_sub_id(m, id));
                    }
                } else if y == sl {
                    if m.subs[x].id == id {
                        assert(has_sub_id(m, id));
                    }
                } else {
                    assert(m.subs[x].id != m.subs[y].id);
                }
            }
            assert forall|x: int, y: int|
                0 <= x < m1.toks.len() && 0 <= y < m1.toks.len() && x != y
                    implies #[trigger] m1.toks[x].token != #[trigger] m1.toks[y].token by {
                if x == tl {
                    if m.toks[y].token == token {
                        assert(has_token(m, token));
                    }
                } else if y == tl {
                    if m.toks[x].token == token {
                        assert(has_token(m, token));
                    }
                } else {
                    assert(m.toks[x].token != m.toks[y].token);
                }
            }
            assert forall|x: int, y: int|
                0 <= x < m1.toks.len() && 0 <= y < m1.toks.len() && x != y
                    implies #[trigger] m1.toks[x].subscriber_id
                    != #[trigger] m1.toks[y].subscriber_id by {
                if x == tl {
                    if m.toks[y].subscriber_id == id {
                        assert(has_sub_id(m, m.toks[y].subscriber_id));
                        let w = sub_id_idx(m, id);
                        assert(0 <= w < m.subs.len() && m.subs[w].id == id);
                        assert(has_sub_id(m, id));
                    }
                } else if y == tl {
                    if m.toks[x].subscriber_id == id {
                        assert(has_sub_id(m, m.toks[x].subscriber_id));
                        let w = sub_id_idx(m, id);
                        assert(0 <= w < m.subs.len() && m.subs[w].id == id);
                        assert(has_sub_id(m, id));
                    }
                } else {
                    assert(m.toks[x].subscriber_id != m.toks[y].subscriber_id);
                }
            }
            assert forall|x: int|
                0 <= x < m1.toks.len() implies has_sub_id(
                m1,
                #[trigger] m1.toks[x].subscriber_id,
            ) by {
                if x < tl {
                    assert(has_sub_id(m, m.toks[x].subscriber_id));
                    let w = sub_id_idx(m, m.toks[x].subscriber_id);
                    assert(0 <= w < m.subs.len() && m.subs[w].id == m.toks[x].subscriber_id);
                    assert(m1.subs[w].id == m1.toks[x].subscriber_id);
                } else {
                    assert(m1.subs[sl].id == id);
                }
            }
            assert forall|x: int|
                0 <= x < m1.subs.len() implies has_token_for(m1, #[trigger] m1.subs[x].id) by {
                if x < sl {
                    assert(has_token_for(m, m.subs[x].id));
                    let w = token_for_idx(m, m.subs[x].id);
                    assert(0 <= w < m.toks.len() && m.toks[w].subscriber_id == m.subs[x].id);
                    assert(m1.toks[w].subscriber_id == m1.subs[x].id);
                } else {
                    assert(m1.toks[tl].subscriber_id == id);
                }
            }
            assert forall|x: int| 0 <= x < m1.subs.len() implies valid_sub(
                #[trigger] m1.subs[x],
            ) by {
                if x < sl {
                    assert(m1.subs[x] == m.subs[x]);
                    assert(valid_sub(m.subs[x]));
                } else {
                    assert(m1.subs[x] == ns);
                }
            }
            assert forall|x: int| 0 <= x < m1.toks.len() implies valid_tok(
                #[trigger] m1.toks[x],
            ) by {
                if x < tl {
                    assert(m1.toks[x] == m.toks[x]);
                    assert(valid_tok(m.toks[x]));
                } else {
                    assert(m1.toks[x] == nt);
                }
            }
        }
    }
}

/// Every confirm request leaves a well-formed store well-formed,
/// whatever its outcome.
pub proof fn lemma_confirm_preserves_wf(m: StoreModel, raw: Seq<char>)
    requires
        store_wf(m),
    ensures
        store_wf(confirm_transition(m, raw).0),
{
    let m1 = confirm_transition(m, raw).0;
    if token_valid(raw) && has_token(m, raw) {
        let k = token_idx(m, raw);
        assert(0 <= k < m.toks.len() && m.toks[k].token == raw);
        let sid = m.toks[k].subscriber_id;
        if has_sub_id(m, sid) && m.subs[sub_id_idx(m, sid)].status == SubscriberStatus::Pending {
            let i = sub_id_idx(m, sid);
            assert(0 <= i < m.subs.len() && m.subs[i].id == sid);
            assert(m1.toks == m.toks);
            assert forall|x: int|
                0 <= x < m1.subs.len() implies #[trigger] m1.subs[x].email == m.subs[x].email
                && #[trigger] m1.subs[x].id == m.subs[x].id && m1.subs[x].name == m.subs[x].name
                && valid_sub(#[trigger] m1.subs[x]) by {
                assert(valid_sub(m.subs[x]));
                if x == i {
                    assert(m1.subs[x] == SubModel {
                        status: SubscriberStatus::Confirmed,
                        ..m.subs[i]
                    });
                } else {
                    assert(m1.subs[x] == m.subs[x]);
                }
            }
            assert forall|x: int|
                0 <= x < m1.toks.len() implies has_sub_id(
                m1,
                #[trigger] m1.toks[x].subscriber_id,
            ) by {
                assert(has_sub_id(m, m.toks[x].subscriber_id));
                let w = sub_id_idx(m, m.toks[x].subscriber_id);
                assert(0 <= w < m.subs.len() && m.subs[w].id == m.toks[x].subscriber_id);
                assert(m1.subs[w].id == m1.toks[x].subscriber_id);
            }
            assert forall|x: int|
                0 <= x < m1.subs.len() implies has_token_for(m1, #[trigger] m1.subs[x].id) by {
                assert(has_token_for(m, m.subs[x].id));
                let w = token_for_idx(m, m.subs[x].id);
                assert(0 <= w < m.toks.len() && m.toks[w].subscriber_id == m.subs[x].id);
                assert(m1.toks[w].subscriber_id == m1.subs[x].id);
            }
        }
    }
}

/// The in-memory store itself: one growable table per row kind.
pub struct SubscriberStore {
    subscribers: Vec<SubscriberRecord>,
    tokens: Vec<TokenRecord>,
}

impl View for SubscriberStore {
    type V = StoreModel;

    closed spec fn view(&self) -> StoreModel {
        StoreModel {
            subs: self.subscribers@.map_values(|r: SubscriberRecord| r@),
            toks: self.tokens@.map_values(|r: TokenRecord| r@),
        }
    }
}

impl SubscriberStore {
    pub open spec fn wf(&self) -> bool {
        store_wf(self@)
    }

    /// An empty store.
    pub fn new() -> (s: SubscriberStore)
        ensures
            s.wf(),
            s@.subs.len() == 0,
            s@.toks.len() == 0,
    {
        let s = SubscriberStore { subscribers: Vec::new(), tokens: Vec::new() };
        proof {
            assert(s@.subs =~= Seq::<SubModel>::empty());
            assert(s@.toks =~= Seq::<TokModel>::empty());
        }
        s
    }

    /// The row index holding this email, if any.
    fn find_by_email(&self, email: &str) -> (r: Option<usize>)
        ensures
            match r {
                Some(i) => i < self@.subs.len() && self@.subs[i as int].email == email@,
                None => !has_email(self@, email@),
            },
    {
        let n = self.subscribers.len();
        let mut i: usize = 0;
        while i < n
            invariant
                i <= n,
                n == self@.subs.len(),
                self@.subs.len() == self.subscribers@.len(),
                forall|j: int| 0 <= j < i ==> self@.subs[j].email != email@,
            decreases n - i,
        {
            assert(self@.subs[i as int] == self.subscribers@[i as int]@);
            if crate::strutil::str_eq(self.subscribers[i].email.as_str(), email) {
                return Some(i);
            }
            i = i + 1;
        }
        None
    }

    /// The token-table index holding this token string, if any.
    fn find_token_owner(&self, token: &str) -> (r: Option<usize>)
        ensures
            match r {
                Some(k) => k < self@.toks.len() && self@.toks[k as int].token == token@,
                None => !has_token(self@, token@),
            },
    {
        let n = self.tokens.len();
        let mut k: usize = 0;
        while k < n
            invariant
                k <= n,
                n == self@.toks.len(),
                self@.toks.len() == self.tokens@.len(),
                forall|j: int| 0 <= j < k ==> self@.toks[j].token != token@,
            decreases n - k,
        {
            assert(self@.toks[k as int] == self.tokens@[k as int]@);
            if crate::strutil::str_eq(self.tokens[k].token.as_str(), token) {
                return Some(k);
            }
            k = k + 1;
        }
        None
    }

    /// The token-table index of the token bound to this subscriber id.
    fn find_token_for(&self, id: u128) -> (r: Option<usize>)
        ensures
            match r {
                Some(k) => k < self@.toks.len() && self@.toks[k as int].subscriber_id == id,
                None => !has_token_for(self@, id),
            },
    {
        let n = self.tokens.len();
        let mut k: usize = 0;
        while k < n
            invariant
                k <= n,
                n == self@.toks.len(),
                self@.toks.len() == self.tokens@.len(),
                forall|j: int| 0 <= j < k ==> self@.toks[j].subscriber_id != id,
            decreases n - k,
        {
            assert(self@.toks[k as int] == self.tokens@[k as int]@);
            if self.tokens[k].subscriber_id == id {
                return Some(k);
            }
            k = k + 1;
        }
        None
    }

    /// The row index holding this subscriber id, if any.
    fn find_by_id(&self, id: u128) -> (r: Option<usize>)
        ensures
            match r {
                Some(i) => i < self@.subs.len() && self@.subs[i as int].id == id,
                None => !has_sub_id(self@, id),
            },
    {
        let n = self.subscribers.len();
        let mut i: usize = 0;
        while i < n
            invariant
                i <= n,
                n == self@.subs.len(),
                self@.subs.len() == self.subscribers@.len(),
                forall|j: int| 0 <= j < i ==> self@.subs[j].id != id,
            decreases n - i,
        {
            assert(self@.subs[i as int] == self.subscribers@[i as int]@);
            if self.subscribers[i].id == id {
                return Some(i);
            }
            i = i + 1;
        }
        None
    }

    /// Reads the state the lifecycle machine is in for this email.
    pub fn get_subscriber_status(&self, email: &SubscriberEmail) -> (st: SubscriberStatus)
        requires
            self.wf(),
        ensures
            st == status_of(self@, email@),
    {
        match self.find_by_email(email.as_str()) {
            Some(i) => {
                let st = self.subscribers[i].status;
                proof {
                    let ghost m = self@;
                    let ghost c = email_idx(m, email@);
                    assert(0 <= c < m.subs.len() && m.subs[c].email == email@);
                    assert(c == i as int);
                }
                st
            },
            None => SubscriberStatus::NonExisting,
        }
    }

    /// One subscribe request, run as a single transaction.
    ///
    /// `id` and `subscribed_at` are what a fresh row would be stored
    /// with; `subscription_token` is the freshly generated token; and
    /// `delivery_ok` is the outcome of the confirmation-mail send the
    /// request attempts before committing. The store changes exactly as
    /// `subscribe_transition` says: nothing is kept unless the request
    /// succeeds.
    pub fn subscribe(
        &mut self,
        id: u128,
        subscribed_at: i64,
        subscription_token: SubscriberToken,
        new_subscriber: NewSubscriber,
        delivery_ok: bool,
    ) -> (out: SubscribeOutcome)
        requires
            old(self).wf(),
        ensures
            final(self).wf(),
            (final(self)@, out) == subscribe_transition(
                old(self)@,
                id,
                subscribed_at,
                subscription_token@,
                new_subscriber.email@,
                new_subscriber.name@,
                delivery_ok,
            ),
    {
        proof {
            use_type_invariant(&subscription_token);
            use_type_invariant(&new_subscriber.email);
            use_type_invariant(&new_subscriber.name);
            lemma_subscribe_preserves_wf(
                old(self)@,
                id,
                subscribed_at,
                subscription_token@,
                new_subscriber.email@,
                new_subscriber.name@,
                delivery_ok,
            );
        }
        let ghost m = old(self)@;
        match self.find_by_email(new_subscriber.email.as_str()) {
            Some(i) => {
                proof {
                    assert(has_email(m, new_subscriber.email@));
                    let c = email_idx(m, new_subscriber.email@);
                    assert(0 <= c < m.subs.len() && m.subs[c].email == new_subscriber.email@);
                    assert(c == i as int);
                }
                if self.subscribers[i].status == SubscriberStatus::Confirmed {
                    return SubscribeOutcome::Conflict;
                }
                let sid = self.subscribers[i].id;
                let collides = match self.find_token_owner(subscription_token.as_str()) {
                    Some(k) => self.tokens[k].subscriber_id != sid,
                    None => false,
                };
                proof {
                    let ghost tok = subscription_token@;
                    if collides {
                        assert(token_taken_by_other(m, tok, sid));
                    } else {
                        if token_taken_by_other(m, tok, sid) {
                            let w = choose|w: int|
                                0 <= w < m.toks.len() && m.toks[w].token == tok
                                    && m.toks[w].subscriber_id != sid;
                            assert(has_token(m, tok));
                        }
                    }
                }
                if collides || !delivery_ok {
                    return SubscribeOutcome::InternalError;
                }
                let j = match self.find_token_for(sid) {
                    Some(j) => j,
                    None => {
                        proof {
                            assert(has_token_for(m, m.subs[i as int].id));
                            assert(false);
                        }
                        0
                    },
                };
                self.tokens[j] = TokenRecord { token: subscription_token, subscriber_id: sid };
                proof {
                    let k = token_for_idx(m, sid);
                    assert(0 <= k < m.toks.len() && m.toks[k].subscriber_id == sid);
                    assert(k == j as int);
                    assert(self@.toks =~= m.toks.update(
                        j as int,
                        TokModel { token: subscription_token@, subscriber_id: sid },
                    ));
                    assert(self@ =~= subscribe_transition(
                        m,
                        id,
                        subscribed_at,
                        subscription_token@,
                        new_subscriber.email@,
                        new_subscriber.name@,
                        delivery_ok,
                    ).0);
                }
                SubscribeOutcome::Success
            },
            None => {
                if let Some(_) = self.find_by_id(id) {
                    return SubscribeOutcome::Conflict;
                }
                if let Some(_) = self.find_token_owner(subscription_token.as_str()) {
                    return SubscribeOutcome::InternalError;
                }
                if !delivery_ok {
                    return SubscribeOutcome::InternalError;
                }
                let ghost ns = SubModel {
                    id,
                    email: new_subscriber.email@,
                    name: new_subscriber.name@,
                    subscribed_at,
                    status: SubscriberStatus::Pending,
                };
                let ghost nt = TokModel { token: subscription_token@, subscriber_id: id };
                self.subscribers.push(
                    SubscriberRecord {
                        id,
                        email: new_subscriber.email,
                        name: new_subscriber.name,
                        subscribed_at,
                        status: SubscriberStatus::Pending,
                    },
                );
                self.tokens.push(TokenRecord { token: subscription_token, subscriber_id: id });
                proof {
                    assert(self@.subs =~= m.subs.push(ns));
                    assert(self@.toks =~= m.toks.push(nt));
                    assert(self@ =~= subscribe_transition(
                        m,
                        id,
                        subscribed_at,
                        nt.token,
                        ns.email,
                        ns.name,
                        delivery_ok,
                    ).0);
                }
                SubscribeOutcome::Success
            },
        }
    }

    /// One confirm request: looks the token up and flips the owner's
    /// status, a no-op when the owner is already confirmed.
    pub fn confirm(&mut self, subscription_token: &str) -> (out: ConfirmOutcome)
        requires
            old(self).wf(),
        ensures
            final(self).wf(),
            (final(self)@, out) == confirm_transition(old(self)@, subscription_token@),
    {
        proof {
            lemma_confirm_preserves_wf(old(self)@, subscription_token@);
        }
        let ghost m = old(self)@;
        if let Err(_) = SubscriberToken::parse(subscription_token) {
            return ConfirmOutcome::BadRequest;
        }
        let k = match self.find_token_owner(subscription_token) {
            Some(k) => k,
            None => {
                return ConfirmOutcome::NotFound;
            },
        };
        proof {
            assert(has_token(m, subscription_token@));
            let c = token_idx(m, subscription_token@);
            assert(0 <= c < m.toks.len() && m.toks[c].token == subscription_token@);
            assert(c == k as int);
        }
        let sid = self.tokens[k].subscriber_id;
        let i = match self.find_by_id(sid) {
            Some(i) => i,
            None => {
                proof {
                    assert(has_sub_id(m, m.toks[k as int].subscriber_id));
                    assert(false);
                }
                return ConfirmOutcome::NotFound;
            },
        };
        proof {
            let c = sub_id_idx(m, sid);
            assert(0 <= c < m.subs.len() && m.subs[c].id == sid);
            assert(c == i as int);
        }
        if self.subscribers[i].status == SubscriberStatus::Pending {
            let rec = &mut self.subscribers[i];
            rec.status = SubscriberStatus::Confirmed;
            proof {
                assert(self@.subs =~= m.subs.update(
                    i as int,
                    SubModel { status: SubscriberStatus::Confirmed, ..m.subs[i as int] },
                ));
                assert(self@ =~= confirm_transition(m, subscription_token@).0);
            }
        }
        ConfirmOutcome::Success
    }

    /// All emails with status confirmed, in store order. In this store
    /// every address was validated on the way in, so none is skipped.
    pub fn fetch_confirmed_emails(&self) -> (r: Vec<SubscriberEmail>)
        ensures
            email_views(r@) == confirmed_emails(self@),
    {
        let n = self.subscribers.len();
        let mut r: Vec<SubscriberEmail> = Vec::new();
        proof {
            assert(email_views(r@) =~= confirmed_emails_upto(self@.subs, 0));
        }
        let mut i: usize = 0;
        while i < n
            invariant
                i <= n,
                n == self@.subs.len(),
                self@.subs.len() == self.subscribers@.len(),
                email_views(r@) == confirmed_emails_upto(self@.subs, i as int),
            decreases n - i,
        {
            assert(self@.subs[i as int] == self.subscribers@[i as int]@);
            if self.subscribers[i].status == SubscriberStatus::Confirmed {
                let ghost before = r@;
                let e = self.subscribers[i].email.duplicate();
                r.push(e);
                proof {
                    assert(email_views(r@) =~= email_views(before).push(e@));
                }
            }
            i = i + 1;
        }
        r
    }
}

/// Law: subscribing a brand-new valid pair, with the confirmation mail
/// delivered, succeeds, leaves the email in the pending state, and binds
/// exactly one token row to the new subscriber's id.
pub proof fn lemma_subscribe_new_yields_pending(
    m: StoreModel,
    id: u128,
    subscribed_at: i64,
    token: Seq<char>,
    email: Seq<char>,
    name: Seq<char>,
)
    requires
        store_wf(m),
        token_valid(token),
        email_accepted(email),
        name_valid(name),
        !has_email(m, email),
        !has_sub_id(m, id),
        !has_token(m, token),
    ensures
        ({
            let (m1, out) = subscribe_transition(m, id, subscribed_at, token, email, name, true);
            &&& out == SubscribeOutcome::Success
            &&& status_of(m1, email) == SubscriberStatus::Pending
            &&& m1.subs[email_idx(m1, email)].id == id
            &&& has_token_for(m1, id)
            &&& forall|k1: int, k2: int|
                0 <= k1 < m1.toks.len() && 0 <= k2 < m1.toks.len()
                    && #[trigger] m1.toks[k1].subscriber_id == id
                    && #[trigger] m1.toks[k2].subscriber_id == id ==> k1 == k2
            &&& m1.toks[token_for_idx(m1, id)].token == token
        }),
{
    lemma_subscribe_preserves_wf(m, id, subscribed_at, token, email, name, true);
    let (m1, out) = subscribe_transition(m, id, subscribed_at, token, email, name, true);
    let sl = m.subs.len() as int;
    let tl = m.toks.len() as int;
    assert(m1.subs[sl].email == email && m1.subs[sl].id == id);
    assert(has_email(m1, email));
    let c = email_idx(m1, email);
    assert(0 <= c < m1.subs.len() && m1.subs[c].email == email);
    assert(c == sl);
    assert(m1.toks[tl].subscriber_id == id);
    assert(has_token_for(m1, id));
    let w = token_for_idx(m1, id);
    assert(0 <= w < m1.toks.len() && m1.toks[w].subscriber_id == id);
    assert(w == tl);
}

/// Law: confirming the same token twice succeeds both times, and the
/// second confirmation changes no state.
pub proof fn lemma_confirm_idempotent(m: StoreModel, raw: Seq<char>)
    requires
        store_wf(m),
        confirm_transition(m, raw).1 == ConfirmOutcome::Success,
    ensures
        ({
            let m1 = confirm_transition(m, raw).0;
            confirm_transition(m1, raw) == (m1, ConfirmOutcome::Success)
        }),
{
    lemma_confirm_preserves_wf(m, raw);
    let m1 = confirm_transition(m, raw).0;
    assert(token_valid(raw) && has_token(m, raw));
    assert(m1.toks == m.toks);
    assert(has_token(m1, raw));
    let k = token_idx(m, raw);
    assert(0 <= k < m.toks.len() && m.toks[k].token == raw);
    let k1 = token_idx(m1, raw);
    assert(0 <= k1 < m1.toks.len() && m1.toks[k1].token == raw);
    assert(k1 == k);
    let sid = m.toks[k].subscriber_id;
    assert(has_sub_id(m, sid));
    let i = sub_id_idx(m, sid);
    assert(0 <= i < m.subs.len() && m.subs[i].id == sid);
    if m.subs[i].status == SubscriberStatus::Pending {
        assert(m1.subs =~= m.subs.update(
            i,
            SubModel { status: SubscriberStatus::Confirmed, ..m.subs[i] },
        ));
        assert(m1.subs[i].id == sid);
        assert(has_sub_id(m1, sid));
        let i1 = sub_id_idx(m1, sid);
        assert(0 <= i1 < m1.subs.len() && m1.subs[i1].id == sid);
        assert(m1.subs[i1].id == m1.subs[i].id);
        assert(i1 == i);
        assert(m1.subs[i1].status == SubscriberStatus::Confirmed);
    } else {
        assert(m1 == m);
        assert(has_sub_id(m1, sid));
        let i1 = sub_id_idx(m1, sid);
        assert(i1 == i);
    }
}

/// Law: a subscribe request for an already-confirmed email reports a
/// conflict and leaves every row and token untouched, whatever token,
/// id or delivery outcome it came with.
pub proof fn lemma_subscribe_confirmed_is_conflict(
    m: StoreModel,
    id: u128,
    subscribed_at: i64,
    token: Seq<char>,
    email: Seq<char>,
    name: Seq<char>,
    delivery_ok: bool,
)
    requires
        store_wf(m),
        status_of(m, email) == SubscriberStatus::Confirmed,
    ensures
        subscribe_transition(m, id, subscribed_at, token, email, name, delivery_ok) == (
            m,
            SubscribeOutcome::Conflict,
        ),
{
    assert(has_email(m, email));
}

/// Law: a second subscribe while pending, with the mail delivered and a
/// token the store has never seen, succeeds, replaces the subscriber's
/// token, and leaves every subscriber row (id and subscription time
/// included) unchanged; afterwards the old token no longer confirms and
/// the new one does.
pub proof fn lemma_resubscribe_rotates_token(
    m: StoreModel,
    id: u128,
    subscribed_at: i64,
    token: Seq<char>,
    email: Seq<char>,
    name: Seq<char>,
)
    requires
        store_wf(m),
        token_valid(token),
        email_accepted(email),
        name_valid(name),
        status_of(m, email) == SubscriberStatus::Pending,
        !has_token(m, token),
    ensures
        ({
            let (m1, out) = subscribe_transition(m, id, subscribed_at, token, email, name, true);
            let old_token = m.toks[token_for_idx(m, m.subs[email_idx(m, email)].id)].token;
            &&& out == SubscribeOutcome::Success
            &&& m1.subs == m.subs
            &&& confirm_transition(m1, old_token) == (m1, ConfirmOutcome::NotFound)
            &&& confirm_transition(m1, token).1 == ConfirmOutcome::Success
            &&& status_of(confirm_transition(m1, token).0, email) == SubscriberStatus::Confirmed
        }),
{
    lemma_subscribe_preserves_wf(m, id, subscribed_at, token, email, name, true);
    let (m1, out) = subscribe_transition(m, id, subscribed_at, token, email, name, true);
    assert(has_email(m, email));
    let i = email_idx(m, email);
    assert(0 <= i < m.subs.len() && m.subs[i].email == email);
    let sid = m.subs[i].id;
    if token_taken_by_other(m, token, sid) {
        let w = choose|w: int|
            0 <= w < m.toks.len() && m.toks[w].token == token && m.toks[w].subscriber_id != sid;
        assert(has_token(m, token));
    }
    assert(has_token_for(m, m.subs[i].id));
    let k = token_for_idx(m, sid);
    assert(0 <= k < m.toks.len() && m.toks[k].subscriber_id == sid);
    let old_token = m.toks[k].token;
    assert(valid_tok(m.toks[k]));
    assert(m1.toks =~= m.toks.update(k, TokModel { token, subscriber_id: sid }));
    assert(out == SubscribeOutcome::Success);

    // The old token is gone: it sat only at index k, which now holds the
    // fresh one, and the fresh one differs since the store never held it.
    assert(m.toks[k].token == old_token);
    assert(old_token != token) by {
        if old_token == token {
            assert(has_token(m, token));
        }
    }
    assert(!has_token(m1, old_token)) by {
        if has_token(m1, old_token) {
            let w = token_idx(m1, old_token);
            assert(0 <= w < m1.toks.len() && m1.toks[w].token == old_token);
            assert(w != k);
            assert(m1.toks[w] == m.toks[w]);
            assert(m.toks[w].token != m.toks[k].token);
        }
    }
    assert(confirm_transition(m1, old_token) == (m1, ConfirmOutcome::NotFound));

    // The new token confirms its owner.
    assert(m1.toks[k].token == token);
    assert(has_token(m1, token));
    let k1 = token_idx(m1, token);
    assert(0 <= k1 < m1.toks.len() && m1.toks[k1].token == token);
    assert(k1 == k);
    assert(m1.toks[k1].subscriber_id == sid);
    assert(m1.subs == m.subs);
    assert(m1.subs[i].id == sid);
    assert(has_sub_id(m1, sid));
    let i1 = sub_id_idx(m1, sid);
    assert(0 <= i1 < m1.subs.len() && m1.subs[i1].id == sid);
    assert(i1 == i);
    assert(m1.subs[i1].status == SubscriberStatus::Pending);
    let m2 = confirm_transition(m1, token).0;
    assert(confirm_transition(m1, token).1 == ConfirmOutcome::Success);
    assert(m2.subs =~= m1.subs.update(
        i,
        SubModel { status: SubscriberStatus::Confirmed, ..m1.subs[i] },
    ));
    assert(m2.subs[i].email == email);
    assert(has_email(m2, email));
    let c = email_idx(m2, email);
    assert(0 <= c < m2.subs.len() && m2.subs[c].email == email);
    assert(c == i) by {
        if c != i {
            assert(m2.subs[c].email == m.subs[c].email || c == i);
            assert(m2.subs[c] == m.subs[c]);
            assert(m.subs[c].email != m.subs[i].email);
        }
    }
    assert(m2.subs[i].status == SubscriberStatus::Confirmed);
}

} // verus!
