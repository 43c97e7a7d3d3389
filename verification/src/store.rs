//! The in-memory model of durable storage.
//!
//! Three tables: subscriber rows, confirmation-token rows, and credential
//! rows. The store enforces the same constraints a relational schema
//! would: no two subscribers share an email, identifiers are unique,
//! each subscriber holds at most one token, tokens are unique and always
//! reference an existing subscriber, and usernames are unique.
//!
//! Writes are all-or-nothing: an operation that reports a constraint
//! violation leaves the store exactly as it was.

use vstd::prelude::*;

use crate::domain::Subscriber;
use crate::domain::SubscriberEmail;
use crate::domain::valid_email;
use crate::secret::SecretString;

verus! {

/// Lifecycle state of a subscriber row. The only transition ever made
/// is `PendingConfirmation` to `Confirmed`.
#[derive(Clone, Copy, PartialEq, Eq, Structural, Debug)]
pub enum SubscriberStatus {
    PendingConfirmation,
    Confirmed,
}

/// Outcome of a write that a schema constraint refused.
#[derive(Clone, Copy, PartialEq, Eq, Structural, Debug)]
pub enum StoreError {
    ConstraintViolation,
}

/// A subscriber row as stored: the email is kept as the raw string it
/// arrived with, so rows planted by earlier systems may hold addresses
/// that no longer parse.
pub struct StoredSubscriber {
    pub id: u64,
    pub email: String,
    pub name: String,
    pub status: SubscriberStatus,
    pub subscribed_at: i64,
}

/// A confirmation-token row.
pub struct StoredToken {
    pub subscription_token: String,
    pub subscriber_id: u64,
}

/// A credential row: provisioned out of band, read-only to this crate.
pub struct StoredCredential {
    pub user_id: u64,
    pub username: String,
    pub password_hash: SecretString,
}

/// Mathematical image of a subscriber row. The enrolment timestamp is
/// left out: it is read from the clock and no rule depends on it.
#[verifier::ext_equal]
pub struct SubscriberRec {
    pub id: u64,
    pub email: Seq<char>,
    pub name: Seq<char>,
    pub status: SubscriberStatus,
}

#[verifier::ext_equal]
pub struct TokenRec {
    pub subscription_token: Seq<char>,
    pub subscriber_id: u64,
}

#[verifier::ext_equal]
pub struct CredentialRec {
    pub user_id: u64,
    pub username: Seq<char>,
    pub password_hash: Seq<char>,
}

/// Mathematical image of the whole store.
#[verifier::ext_equal]
pub struct StoreView {
    pub subscribers: Seq<SubscriberRec>,
    pub tokens: Seq<TokenRec>,
    pub users: Seq<CredentialRec>,
    pub next_id: u64,
}

impl View for StoredSubscriber {
    type V = SubscriberRec;

    open spec fn view(&self) -> SubscriberRec {
        SubscriberRec { id: self.id, email: self.email@, name: self.name@, status: self.status }
    }
}

impl View for StoredToken {
    type V = TokenRec;

    open spec fn view(&self) -> TokenRec {
        TokenRec { subscription_token: self.subscription_token@, subscriber_id: self.subscriber_id }
    }
}

impl View for StoredCredential {
    type V = CredentialRec;

    open spec fn view(&self) -> CredentialRec {
        CredentialRec {
            user_id: self.user_id,
            username: self.username@,
            password_hash: self.password_hash@,
        }
    }
}

impl StoreView {
    /// The schema constraints.
    pub open spec fn wf(self) -> bool {
        &&& (forall|i: int, j: int|
            0 <= i < self.subscribers.len() && 0 <= j < self.subscribers.len() && i != j
                ==> #[trigger] self.subscribers[i].email != #[trigger] self.subscribers[j].email)
        &&& (forall|i: int, j: int|
            0 <= i < self.subscribers.len() && 0 <= j < self.subscribers.len() && i != j
                ==> #[trigger] self.subscribers[i].id != #[trigger] self.subscribers[j].id)
        &&& (forall|i: int|
            0 <= i < self.subscribers.len() ==> #[trigger] self.subscribers[i].id < self.next_id)
        &&& (forall|i: int, j: int|
            0 <= i < self.tokens.len() && 0 <= j < self.tokens.len() && i != j
                ==> #[trigger] self.tokens[i].subscription_token
                != #[trigger] self.tokens[j].subscription_token)
        &&& (forall|i: int, j: int|
            0 <= i < self.tokens.len() && 0 <= j < self.tokens.len() && i != j
                ==> #[trigger] self.tokens[i].subscriber_id
                != #[trigger] self.tokens[j].subscriber_id)
        &&& (forall|i: int|
            0 <= i < self.tokens.len() ==> self.has_subscriber_with_id(
                #[trigger] self.tokens[i].subscriber_id,
            ))
        &&& (forall|i: int, j: int|
            0 <= i < self.users.len() && 0 <= j < self.users.len() && i != j
                ==> #[trigger] self.users[i].username != #[trigger] self.users[j].username)
    }

    pub open spec fn has_subscriber_with_email(self, email: Seq<char>) -> bool {
        exists|i: int| 0 <= i < self.subscribers.len() && #[trigger] self.subscribers[i].email == email
    }

    pub open spec fn has_subscriber_with_id(self, id: u64) -> bool {
        exists|i: int| 0 <= i < self.subscribers.len() && #[trigger] self.subscribers[i].id == id
    }

    pub open spec fn has_token(self, token: Seq<char>) -> bool {
        exists|i: int|
            0 <= i < self.tokens.len() && #[trigger] self.tokens[i].subscription_token == token
    }

    pub open spec fn has_token_for_subscriber(self, id: u64) -> bool {
        exists|i: int| 0 <= i < self.tokens.len() && #[trigger] self.tokens[i].subscriber_id == id
    }

    pub open spec fn has_user(self, username: Seq<char>) -> bool {
        exists|i: int| 0 <= i < self.users.len() && #[trigger] self.users[i].username == username
    }

    /// The one subscriber row holding this email; meaningful under `wf`
    /// when `has_subscriber_with_email` holds.
    pub open spec fn subscriber_for_email(self, email: Seq<char>) -> SubscriberRec {
        self.subscribers[choose|i: int|
            0 <= i < self.subscribers.len() && #[trigger] self.subscribers[i].email == email]
    }

    /// The one subscriber row holding this id; meaningful under `wf`
    /// when `has_subscriber_with_id` holds.
    pub open spec fn subscriber_for_id(self, id: u64) -> SubscriberRec {
        self.subscribers[choose|i: int|
            0 <= i < self.subscribers.len() && #[trigger] self.subscribers[i].id == id]
    }

    /// The one token row naming this token; meaningful under `wf` when
    /// `has_token` holds.
    pub open spec fn token_rec(self, token: Seq<char>) -> TokenRec {
        self.tokens[choose|i: int|
            0 <= i < self.tokens.len() && #[trigger] self.tokens[i].subscription_token == token]
    }

    /// The one token row bound to this subscriber; meaningful under `wf`
    /// when `has_token_for_subscriber` holds.
    pub open spec fn token_for_subscriber(self, id: u64) -> TokenRec {
        self.tokens[choose|i: int|
            0 <= i < self.tokens.len() && #[trigger] self.tokens[i].subscriber_id == id]
    }

    /// The one credential row for this username; meaningful under `wf`
    /// when `has_user` holds.
    pub open spec fn credential_for_username(self, username: Seq<char>) -> CredentialRec {
        self.users[choose|i: int|
            0 <= i < self.users.len() && #[trigger] self.users[i].username == username]
    }

    /// The store after a subscriber row is appended.
    pub open spec fn with_new_subscriber(
        self,
        name: Seq<char>,
        email: Seq<char>,
        status: SubscriberStatus,
    ) -> StoreView {
        StoreView {
            subscribers: self.subscribers.push(
                SubscriberRec { id: self.next_id, email, name, status },
            ),
            next_id: (self.next_id + 1) as u64,
            ..self
        }
    }

    /// The store after a token row is appended.
    pub open spec fn with_new_token(self, subscriber_id: u64, token: Seq<char>) -> StoreView {
        StoreView {
            tokens: self.tokens.push(TokenRec { subscription_token: token, subscriber_id }),
            ..self
        }
    }

    /// The store after a credential row is appended.
    pub open spec fn with_new_credential(
        self,
        username: Seq<char>,
        password_hash: Seq<char>,
    ) -> StoreView {
        StoreView {
            users: self.users.push(
                CredentialRec { user_id: self.next_id, username, password_hash },
            ),
            next_id: (self.next_id + 1) as u64,
            ..self
        }
    }

    /// The store after the subscriber with this id, if any, is marked
    /// confirmed. Setting the status is unconditional, so applying this
    /// twice is the same as applying it once.
    pub open spec fn with_subscriber_confirmed(self, id: u64) -> StoreView {
        StoreView {
            subscribers: self.subscribers.map_values(
                |r: SubscriberRec|
                    if r.id == id {
                        SubscriberRec {
                            id: r.id,
                            email: r.email,
                            name: r.name,
                            status: SubscriberStatus::Confirmed,
                        }
                    } else {
                        r
                    },
            ),
            ..self
        }
    }

    /// The confirmed subscriber rows, in table order.
    pub open spec fn confirmed_subscribers(self) -> Seq<SubscriberRec> {
        confirmed_of(self.subscribers)
    }

    /// Any row that matches an email is the row `subscriber_for_email` names.
    pub proof fn lemma_subscriber_for_email(self, email: Seq<char>, i: int)
        requires
            self.wf(),
            0 <= i < self.subscribers.len(),
            self.subscribers[i].email == email,
        ensures
            self.has_subscriber_with_email(email),
            self.subscriber_for_email(email) == self.subscribers[i],
    {
        let k = choose|k: int|
            0 <= k < self.subscribers.len() && #[trigger] self.subscribers[k].email == email;
        if k != i {
            assert(self.subscribers[k].email != self.subscribers[i].email);
        }
    }

    /// Any row that matches an id is the row `subscriber_for_id` names.
    pub proof fn lemma_subscriber_for_id(self, id: u64, i: int)
        requires
            self.wf(),
            0 <= i < self.subscribers.len(),
            self.subscribers[i].id == id,
        ensures
            self.has_subscriber_with_id(id),
            self.subscriber_for_id(id) == self.subscribers[i],
    {
        let k = choose|k: int|
            0 <= k < self.subscribers.len() && #[trigger] self.subscribers[k].id == id;
        if k != i {
            assert(self.subscribers[k].id != self.subscribers[i].id);
        }
    }

    /// Any row that matches a token string is the row `token_rec` names.
    pub proof fn lemma_token_rec(self, token: Seq<char>, i: int)
        requires
            self.wf(),
            0 <= i < self.tokens.len(),
            self.tokens[i].subscription_token == token,
        ensures
            self.has_token(token),
            self.token_rec(token) == self.tokens[i],
    {
        let k = choose|k: int|
            0 <= k < self.tokens.len() && #[trigger] self.tokens[k].subscription_token == token;
        if k != i {
            assert(self.tokens[k].subscription_token != self.tokens[i].subscription_token);
        }
    }

    /// Any row bound to a subscriber id is the row `token_for_subscriber` names.
    pub proof fn lemma_token_for_subscriber(self, id: u64, i: int)
        requires
            self.wf(),
            0 <= i < self.tokens.len(),
            self.tokens[i].subscriber_id == id,
        ensures
            self.has_token_for_subscriber(id),
            self.token_for_subscriber(id) == self.tokens[i],
    {
        let k = choose|k: int|
            0 <= k < self.tokens.len() && #[trigger] self.tokens[k].subscriber_id == id;
        if k != i {
            assert(self.tokens[k].subscriber_id != self.tokens[i].subscriber_id);
        }
    }

    /// Any row that matches a username is the row `credential_for_username` names.
    pub proof fn lemma_credential_for_username(self, username: Seq<char>, i: int)
        requires
            self.wf(),
            0 <= i < self.users.len(),
            self.users[i].username == username,
        ensures
            self.has_user(username),
            self.credential_for_username(username) == self.users[i],
    {
        let k = choose|k: int|
            0 <= k < self.users.len() && #[trigger] self.users[k].username == username;
        if k != i {
            assert(self.users[k].username != self.users[i].username);
        }
    }

    /// No token can be bound to an id the store has not handed out yet.
    pub proof fn lemma_no_token_for_fresh_id(self)
        requires
            self.wf(),
        ensures
            !self.has_token_for_subscriber(self.next_id),
    {
        if self.has_token_for_subscriber(self.next_id) {
            let i = choose|i: int|
                0 <= i < self.tokens.len() && #[trigger] self.tokens[i].subscriber_id
                    == self.next_id;
            assert(self.has_subscriber_with_id(self.tokens[i].subscriber_id));
            let j = choose|j: int|
                0 <= j < self.subscribers.len() && #[trigger] self.subscribers[j].id
                    == self.next_id;
            assert(self.subscribers[j].id < self.next_id);
        }
    }
}

/// The confirmed rows of a table, in order.
pub open spec fn confirmed_of(s: Seq<SubscriberRec>) -> Seq<SubscriberRec>
    decreases s.len(),
{
    if s.len() == 0 {
        Seq::empty()
    } else {
        let rest = confirmed_of(s.drop_last());
        if s.last().status == SubscriberStatus::Confirmed {
            rest.push(s.last())
        } else {
            rest
        }
    }
}

/// Appending a subscriber row with a fresh email keeps the schema
/// constraints.
pub proof fn lemma_wf_after_new_subscriber(
    pre: StoreView,
    name: Seq<char>,
    email: Seq<char>,
    status: SubscriberStatus,
)
    requires
        pre.wf(),
        !pre.has_subscriber_with_email(email),
        pre.next_id < u64::MAX,
    ensures
        pre.with_new_subscriber(name, email, status).wf(),
{
    let post = pre.with_new_subscriber(name, email, status);
    let n = pre.subscribers.len() as int;
    assert forall|i: int|
        0 <= i < n implies #[trigger] pre.subscribers[i].email != email by {
        if pre.subscribers[i].email == email {
            assert(pre.has_subscriber_with_email(email));
        }
    }
    assert forall|i: int|
        0 <= i < post.tokens.len() implies post.has_subscriber_with_id(
        #[trigger] post.tokens[i].subscriber_id,
    ) by {
        assert(pre.has_subscriber_with_id(pre.tokens[i].subscriber_id));
        let j = choose|j: int|
            0 <= j < pre.subscribers.len() && #[trigger] pre.subscribers[j].id
                == pre.tokens[i].subscriber_id;
        assert(post.subscribers[j].id == post.tokens[i].subscriber_id);
    }
}

/// Appending a token row that is fresh on both keys and references an
/// existing subscriber keeps the schema constraints.
pub proof fn lemma_wf_after_new_token(pre: StoreView, subscriber_id: u64, token: Seq<char>)
    requires
        pre.wf(),
        !pre.has_token(token),
        !pre.has_token_for_subscriber(subscriber_id),
        pre.has_subscriber_with_id(subscriber_id),
    ensures
        pre.with_new_token(subscriber_id, token).wf(),
{
    let post = pre.with_new_token(subscriber_id, token);
    let n = pre.tokens.len() as int;
    assert forall|i: int|
        0 <= i < n implies #[trigger] pre.tokens[i].subscription_token != token by {
        if pre.tokens[i].subscription_token == token {
            assert(pre.has_token(token));
        }
    }
    assert forall|i: int|
        0 <= i < n implies #[trigger] pre.tokens[i].subscriber_id != subscriber_id by {
        if pre.tokens[i].subscriber_id == subscriber_id {
            assert(pre.has_token_for_subscriber(subscriber_id));
        }
    }
    assert forall|i: int|
        0 <= i < post.tokens.len() implies post.has_subscriber_with_id(
        #[trigger] post.tokens[i].subscriber_id,
    ) by {
        if i < n {
            assert(pre.has_subscriber_with_id(pre.tokens[i].subscriber_id));
            let j = choose|j: int|
                0 <= j < pre.subscribers.len() && #[trigger] pre.subscribers[j].id
                    == pre.tokens[i].subscriber_id;
            assert(post.subscribers[j].id == post.tokens[i].subscriber_id);
        } else {
            let j = choose|j: int|
                0 <= j < pre.subscribers.len() && #[trigger] pre.subscribers[j].id == subscriber_id;
            assert(post.subscribers[j].id == post.tokens[i].subscriber_id);
        }
    }
}

/// Appending a credential row with a fresh username keeps the schema
/// constraints.
pub proof fn lemma_wf_after_new_credential(pre: StoreView, username: Seq<char>, hash: Seq<char>)
    requires
        pre.wf(),
        !pre.has_user(username),
        pre.next_id < u64::MAX,
    ensures
        pre.with_new_credential(username, hash).wf(),
{
    let post = pre.with_new_credential(username, hash);
    let n = pre.users.len() as int;
    assert forall|i: int|
        0 <= i < n implies #[trigger] pre.users[i].username != username by {
        if pre.users[i].username == username {
            assert(pre.has_user(username));
        }
    }
    assert forall|i: int|
        0 <= i < post.tokens.len() implies post.has_subscriber_with_id(
        #[trigger] post.tokens[i].subscriber_id,
    ) by {
        assert(pre.has_subscriber_with_id(pre.tokens[i].subscriber_id));
        let j = choose|j: int|
            0 <= j < pre.subscribers.len() && #[trigger] pre.subscribers[j].id
                == pre.tokens[i].subscriber_id;
        assert(post.subscribers[j].id == post.tokens[i].subscriber_id);
    }
}

/// Marking a subscriber confirmed keeps the schema constraints: ids,
/// emails and tokens are untouched.
pub proof fn lemma_wf_after_confirm(pre: StoreView, subscriber_id: u64)
    requires
        pre.wf(),
    ensures
        pre.with_subscriber_confirmed(subscriber_id).wf(),
{
    let post = pre.with_subscriber_confirmed(subscriber_id);
    assert forall|i: int|
        0 <= i < post.tokens.len() implies post.has_subscriber_with_id(
        #[trigger] post.tokens[i].subscriber_id,
    ) by {
        assert(pre.has_subscriber_with_id(pre.tokens[i].subscriber_id));
        let j = choose|j: int|
            0 <= j < pre.subscribers.len() && #[trigger] pre.subscribers[j].id
                == pre.tokens[i].subscriber_id;
        assert(post.subscribers[j].id == post.tokens[i].subscriber_id);
    }
}

/// Relies on chrono's `Utc::now` for the enrolment timestamp. The clock
/// may answer anything; no verified rule depends on the value.
#[verifier::external_body]
fn now_utc_timestamp() -> i64 {
    chrono::Utc::now().timestamp()
}

/// A confirmed subscriber's stored email, handed back by
/// `get_confirmed_subscribers` once the raw row parses again.
pub struct ConfirmedSubscriber {
    pub email: SubscriberEmail,
}

/// The store itself: three tables and the id counter.
pub struct SubscriberStore {
    subscribers: Vec<StoredSubscriber>,
    tokens: Vec<StoredToken>,
    users: Vec<StoredCredential>,
    next_id: u64,
}

impl View for SubscriberStore {
    type V = StoreView;

    closed spec fn view(&self) -> StoreView {
        StoreView {
            subscribers: self.subscribers@.map_values(|s: StoredSubscriber| s@),
            tokens: self.tokens@.map_values(|t: StoredToken| t@),
            users: self.users@.map_values(|c: StoredCredential| c@),
            next_id: self.next_id,
        }
    }
}

impl SubscriberStore {
    /// An empty store.
    pub fn new() -> (r: SubscriberStore)
        ensures
            r@.wf(),
            r@.subscribers =~= Seq::<SubscriberRec>::empty(),
            r@.tokens =~= Seq::<TokenRec>::empty(),
            r@.users =~= Seq::<CredentialRec>::empty(),
            r@.next_id == 0,
    {
        SubscriberStore { subscribers: Vec::new(), tokens: Vec::new(), users: Vec::new(), next_id: 0 }
    }

    /// Looks a subscriber up by email, the deduplication key.
    pub fn get_subscriber_id_from_email(&self, subscriber_email: &str) -> (r: Option<u64>)
        requires
            self@.wf(),
        ensures
            r is Some <==> self@.has_subscriber_with_email(subscriber_email@),
            r matches Some(id) ==> id == self@.subscriber_for_email(subscriber_email@).id,
    {
        let target = subscriber_email.to_owned();
        let n = self.subscribers.len();
        let mut i: usize = 0;
        while i < n
            invariant
                i <= n,
                n == self.subscribers.len(),
                self@.wf(),
                target@ == subscriber_email@,
                forall|j: int| 0 <= j < i ==> #[trigger] self@.subscribers[j].email != subscriber_email@,
            decreases n - i,
        {
            if self.subscribers[i].email == target {
                proof {
                    self@.lemma_subscriber_for_email(subscriber_email@, i as int);
                }
                return Some(self.subscribers[i].id);
            }
            i += 1;
        }
        proof {
            assert(!self@.has_subscriber_with_email(subscriber_email@)) by {
                if self@.has_subscriber_with_email(subscriber_email@) {
                    let k = choose|k: int|
                        0 <= k < self@.subscribers.len() && #[trigger] self@.subscribers[k].email
                            == subscriber_email@;
                    assert(self@.subscribers[k].email != subscriber_email@);
                }
            }
        }
        None
    }

    /// Looks the owning subscriber up by confirmation token.
    pub fn get_subscriber_id_from_token(&self, subscription_token: &str) -> (r: Option<u64>)
        requires
            self@.wf(),
        ensures
            r is Some <==> self@.has_token(subscription_token@),
            r matches Some(id) ==> id == self@.token_rec(subscription_token@).subscriber_id,
    {
        let target = subscription_token.to_owned();
        let n = self.tokens.len();
        let mut i: usize = 0;
        while i < n
            invariant
                i <= n,
                n == self.tokens.len(),
                self@.wf(),
                target@ == subscription_token@,
                forall|j: int|
                    0 <= j < i ==> #[trigger] self@.tokens[j].subscription_token
                        != subscription_token@,
            decreases n - i,
        {
            if self.tokens[i].subscription_token == target {
                proof {
                    self@.lemma_token_rec(subscription_token@, i as int);
                }
                return Some(self.tokens[i].subscriber_id);
            }
            i += 1;
        }
        proof {
            assert(!self@.has_token(subscription_token@)) by {
                if self@.has_token(subscription_token@) {
                    let k = choose|k: int|
                        0 <= k < self@.tokens.len() && #[trigger] self@.tokens[k].subscription_token
                            == subscription_token@;
                    assert(self@.tokens[k].subscription_token != subscription_token@);
                }
            }
        }
        None
    }

    /// Looks a subscriber's confirmation token up, if one was stored.
    pub fn get_subscription_token_from_id(&self, subscriber_id: u64) -> (r: Option<String>)
        requires
            self@.wf(),
        ensures
            r is Some <==> self@.has_token_for_subscriber(subscriber_id),
            r matches Some(token) ==> token@ == self@.token_for_subscriber(
                subscriber_id,
            ).subscription_token,
    {
        let n = self.tokens.len();
        let mut i: usize = 0;
        while i < n
            invariant
                i <= n,
                n == self.tokens.len(),
                self@.wf(),
                forall|j: int| 0 <= j < i ==> #[trigger] self@.tokens[j].subscriber_id != subscriber_id,
            decreases n - i,
        {
            if self.tokens[i].subscriber_id == subscriber_id {
                proof {
                    self@.lemma_token_for_subscriber(subscriber_id, i as int);
                }
                return Some(self.tokens[i].subscription_token.clone());
            }
            i += 1;
        }
        proof {
            assert(!self@.has_token_for_subscriber(subscriber_id)) by {
                if self@.has_token_for_subscriber(subscriber_id) {
                    let k = choose|k: int|
                        0 <= k < self@.tokens.len() && #[trigger] self@.tokens[k].subscriber_id
                            == subscriber_id;
                    assert(self@.tokens[k].subscriber_id != subscriber_id);
                }
            }
        }
        None
    }

    /// Looks a credential row up by username.
    pub fn get_stored_credentials(&self, username: &str) -> (r: Option<(u64, SecretString)>)
        requires
            self@.wf(),
        ensures
            r is Some <==> self@.has_user(username@),
            r matches Some(row) ==> row.0 == self@.credential_for_username(username@).user_id
                && row.1@ == self@.credential_for_username(username@).password_hash,
    {
        let target = username.to_owned();
        let n = self.users.len();
        let mut i: usize = 0;
        while i < n
            invariant
                i <= n,
                n == self.users.len(),
                self@.wf(),
                target@ == username@,
                forall|j: int| 0 <= j < i ==> #[trigger] self@.users[j].username != username@,
            decreases n - i,
        {
            if self.users[i].username == target {
                proof {
                    self@.lemma_credential_for_username(username@, i as int);
                }
                let hash = SecretString::new(self.users[i].password_hash.expose_secret().to_owned());
                return Some((self.users[i].user_id, hash));
            }
            i += 1;
        }
        proof {
            assert(!self@.has_user(username@)) by {
                if self@.has_user(username@) {
                    let k = choose|k: int|
                        0 <= k < self@.users.len() && #[trigger] self@.users[k].username == username@;
                    assert(self@.users[k].username != username@);
                }
            }
        }
        None
    }

    /// Appends a subscriber row in `PendingConfirmation`, stamped with
    /// the current time, under a fresh id. Refused when the email is
    /// already taken: the deduplication key is unique.
    pub fn insert_subscriber(&mut self, subscriber: &Subscriber) -> (r: Result<u64, StoreError>)
        requires
            old(self)@.wf(),
            old(self)@.next_id < u64::MAX,
        ensures
            final(self)@.wf(),
            old(self)@.has_subscriber_with_email(subscriber.email@) ==> r is Err && final(self)@
                == old(self)@,
            !old(self)@.has_subscriber_with_email(subscriber.email@) ==> r == Ok::<u64, StoreError>(
                old(self)@.next_id,
            ) && final(self)@ == old(self)@.with_new_subscriber(
                subscriber.name@,
                subscriber.email@,
                SubscriberStatus::PendingConfirmation,
            ),
    {
        if self.get_subscriber_id_from_email(subscriber.email.as_ref()).is_some() {
            return Err(StoreError::ConstraintViolation);
        }
        let id = self.next_id;
        let row = StoredSubscriber {
            id,
            email: subscriber.email.as_ref().to_owned(),
            name: subscriber.name.as_ref().to_owned(),
            status: SubscriberStatus::PendingConfirmation,
            subscribed_at: now_utc_timestamp(),
        };
        self.subscribers.push(row);
        self.next_id = id + 1;
        proof {
            assert(self@ =~~= old(self)@.with_new_subscriber(
                subscriber.name@,
                subscriber.email@,
                SubscriberStatus::PendingConfirmation,
            ));
            lemma_wf_after_new_subscriber(
                old(self)@,
                subscriber.name@,
                subscriber.email@,
                SubscriberStatus::PendingConfirmation,
            );
        }
        Ok(id)
    }

    /// Appends a row planted out of band: pre-existing durable data, with
    /// whatever email string and status it already had. The email must
    /// still be unique.
    pub fn seed_subscriber(&mut self, email: String, name: String, status: SubscriberStatus) -> (r:
        Result<u64, StoreError>)
        requires
            old(self)@.wf(),
            old(self)@.next_id < u64::MAX,
        ensures
            final(self)@.wf(),
            old(self)@.has_subscriber_with_email(email@) ==> r is Err && final(self)@ == old(self)@,
            !old(self)@.has_subscriber_with_email(email@) ==> r == Ok::<u64, StoreError>(
                old(self)@.next_id,
            ) && final(self)@ == old(self)@.with_new_subscriber(name@, email@, status),
    {
        if self.get_subscriber_id_from_email(email.as_str()).is_some() {
            return Err(StoreError::ConstraintViolation);
        }
        let id = self.next_id;
        let ghost name_view = name@;
        let ghost email_view = email@;
        let row = StoredSubscriber {
            id,
            email,
            name,
            status,
            subscribed_at: now_utc_timestamp(),
        };
        self.subscribers.push(row);
        self.next_id = id + 1;
        proof {
            assert(self@ =~~= old(self)@.with_new_subscriber(name_view, email_view, status));
            lemma_wf_after_new_subscriber(old(self)@, name_view, email_view, status);
        }
        Ok(id)
    }

    /// Appends a credential row: provisioning, done out of band. The
    /// username must be unique.
    pub fn seed_credential(&mut self, username: String, password_hash: SecretString) -> (r: Result<
        u64,
        StoreError,
    >)
        requires
            old(self)@.wf(),
            old(self)@.next_id < u64::MAX,
        ensures
            final(self)@.wf(),
            old(self)@.has_user(username@) ==> r is Err && final(self)@ == old(self)@,
            !old(self)@.has_user(username@) ==> r == Ok::<u64, StoreError>(old(self)@.next_id)
                && final(self)@ == old(self)@.with_new_credential(username@, password_hash@),
    {
        if self.get_stored_credentials(username.as_str()).is_some() {
            return Err(StoreError::ConstraintViolation);
        }
        let id = self.next_id;
        let ghost username_view = username@;
        let ghost hash_view = password_hash@;
        let row = StoredCredential { user_id: id, username, password_hash };
        self.users.push(row);
        self.next_id = id + 1;
        proof {
            assert(self@ =~~= old(self)@.with_new_credential(username_view, hash_view));
            lemma_wf_after_new_credential(old(self)@, username_view, hash_view);
        }
        Ok(id)
    }

    /// Appends a token row bound to a subscriber. Refused when the token
    /// string is taken, the subscriber already holds a token, or the id
    /// references no subscriber row.
    pub fn store_token(&mut self, subscriber_id: u64, subscription_token: &str) -> (r: Result<
        (),
        StoreError,
    >)
        requires
            old(self)@.wf(),
        ensures
            final(self)@.wf(),
            old(self)@.has_token(subscription_token@) || old(self)@.has_token_for_subscriber(
                subscriber_id,
            ) || !old(self)@.has_subscriber_with_id(subscriber_id) ==> r is Err && final(self)@
                == old(self)@,
            !(old(self)@.has_token(subscription_token@) || old(self)@.has_token_for_subscriber(
                subscriber_id,
            ) || !old(self)@.has_subscriber_with_id(subscriber_id)) ==> r is Ok && final(self)@
                == old(self)@.with_new_token(subscriber_id, subscription_token@),
    {
        if self.get_subscriber_id_from_token(subscription_token).is_some() {
            return Err(StoreError::ConstraintViolation);
        }
        if self.get_subscription_token_from_id(subscriber_id).is_some() {
            return Err(StoreError::ConstraintViolation);
        }
        if self.subscriber_status(subscriber_id).is_none() {
            return Err(StoreError::ConstraintViolation);
        }
        let row = StoredToken { subscription_token: subscription_token.to_owned(), subscriber_id };
        self.tokens.push(row);
        proof {
            assert(self@ =~~= old(self)@.with_new_token(subscriber_id, subscription_token@));
            lemma_wf_after_new_token(old(self)@, subscriber_id, subscription_token@);
        }
        Ok(())
    }

    /// The all-or-nothing write `submit` uses for a new subscriber: one
    /// subscriber row and one token row bound to it appear together, or
    /// the store is left exactly as it was.
    pub fn subscribe_transaction(&mut self, subscriber: &Subscriber, subscription_token: &str) -> (r:
        Result<u64, StoreError>)
        requires
            old(self)@.wf(),
            old(self)@.next_id < u64::MAX,
        ensures
            final(self)@.wf(),
            old(self)@.has_subscriber_with_email(subscriber.email@) || old(self)@.has_token(
                subscription_token@,
            ) ==> r is Err && final(self)@ == old(self)@,
            !(old(self)@.has_subscriber_with_email(subscriber.email@) || old(self)@.has_token(
                subscription_token@,
            )) ==> r == Ok::<u64, StoreError>(old(self)@.next_id) && final(self)@ == old(
                self,
            )@.with_new_subscriber(
                subscriber.name@,
                subscriber.email@,
                SubscriberStatus::PendingConfirmation,
            ).with_new_token(old(self)@.next_id, subscription_token@),
    {
        if self.get_subscriber_id_from_email(subscriber.email.as_ref()).is_some() {
            return Err(StoreError::ConstraintViolation);
        }
        if self.get_subscriber_id_from_token(subscription_token).is_some() {
            return Err(StoreError::ConstraintViolation);
        }
        proof {
            old(self)@.lemma_no_token_for_fresh_id();
        }
        let id = match self.insert_subscriber(subscriber) {
            Ok(id) => id,
            Err(e) => {
                proof {
                    assert(false);
                }
                return Err(e);
            },
        };
        let ghost mid = self@;
        proof {
            assert(!mid.has_token(subscription_token@)) by {
                if mid.has_token(subscription_token@) {
                    let k = choose|k: int|
                        0 <= k < mid.tokens.len() && #[trigger] mid.tokens[k].subscription_token
                            == subscription_token@;
                    assert(old(self)@.tokens[k].subscription_token == subscription_token@);
                    assert(old(self)@.has_token(subscription_token@));
                }
            }
            assert(!mid.has_token_for_subscriber(id)) by {
                if mid.has_token_for_subscriber(id) {
                    let k = choose|k: int|
                        0 <= k < mid.tokens.len() && #[trigger] mid.tokens[k].subscriber_id == id;
                    assert(old(self)@.tokens[k].subscriber_id == id);
                    assert(old(self)@.has_token_for_subscriber(id));
                }
            }
            assert(mid.has_subscriber_with_id(id)) by {
                assert(mid.subscribers[mid.subscribers.len() - 1].id == id);
            }
        }
        match self.store_token(id, subscription_token) {
            Ok(_) => Ok(id),
            Err(e) => {
                proof {
                    assert(false);
                }
                Err(e)
            },
        }
    }

    /// Marks a subscriber confirmed by id. The update is unconditional:
    /// an already-confirmed row stays confirmed, and an unknown id
    /// matches no row and changes nothing — both count as success.
    pub fn confirm_subscriber(&mut self, subscriber_id: u64)
        requires
            old(self)@.wf(),
        ensures
            final(self)@.wf(),
            final(self)@ == old(self)@.with_subscriber_confirmed(subscriber_id),
    {
        let n = self.subscribers.len();
        let mut i: usize = 0;
        while i < n
            invariant
                i <= n,
                n == self.subscribers.len(),
                self@.wf(),
                self@ == old(self)@,
                forall|j: int| 0 <= j < i ==> #[trigger] self@.subscribers[j].id != subscriber_id,
            decreases n - i,
        {
            if self.subscribers[i].id == subscriber_id {
                let row = StoredSubscriber {
                    id: self.subscribers[i].id,
                    email: self.subscribers[i].email.clone(),
                    name: self.subscribers[i].name.clone(),
                    status: SubscriberStatus::Confirmed,
                    subscribed_at: self.subscribers[i].subscribed_at,
                };
                self.subscribers.set(i, row);
                proof {
                    let pre = old(self)@;
                    let post = self@;
                    let target = pre.with_subscriber_confirmed(subscriber_id);
                    assert forall|j: int|
                        0 <= j < pre.subscribers.len() && j != i implies #[trigger] pre.subscribers[j].id
                        != subscriber_id by {
                        assert(pre.subscribers[j].id != pre.subscribers[i as int].id);
                    }
                    assert forall|j: int|
                        0 <= j < post.subscribers.len() implies #[trigger] post.subscribers[j]
                        =~~= target.subscribers[j] by {
                        if j != i {
                            assert(post.subscribers[j] == pre.subscribers[j]);
                        }
                    }
                    assert(post.subscribers =~~= target.subscribers);
                    assert(post =~~= target);
                    lemma_wf_after_confirm(old(self)@, subscriber_id);
                }
                return;
            }
            i += 1;
        }
        proof {
            assert(self@ =~~= old(self)@.with_subscriber_confirmed(subscriber_id));
            lemma_wf_after_confirm(old(self)@, subscriber_id);
        }
    }

    /// Loads every confirmed subscriber, re-parsing each stored email
    /// into a validated address; a row whose raw email no longer parses
    /// comes back as the parse error instead.
    pub fn get_confirmed_subscribers(&self) -> (r: Vec<Result<ConfirmedSubscriber, String>>)
        requires
            self@.wf(),
        ensures
            r@.len() == self@.confirmed_subscribers().len(),
            forall|i: int|
                0 <= i < r@.len() ==> (#[trigger] r@[i] is Ok <==> valid_email(
                    self@.confirmed_subscribers()[i].email,
                )),
            forall|i: int|
                0 <= i < r@.len() ==> (#[trigger] r@[i] matches Ok(cs) ==> cs.email@
                    == self@.confirmed_subscribers()[i].email),
    {
        let n = self.subscribers.len();
        let mut out: Vec<Result<ConfirmedSubscriber, String>> = Vec::new();
        let mut i: usize = 0;
        while i < n
            invariant
                i <= n,
                n == self.subscribers.len(),
                self@.wf(),
                out@.len() == confirmed_of(self@.subscribers.take(i as int)).len(),
                forall|k: int|
                    0 <= k < out@.len() ==> (#[trigger] out@[k] is Ok <==> valid_email(
                        confirmed_of(self@.subscribers.take(i as int))[k].email,
                    )),
                forall|k: int|
                    0 <= k < out@.len() ==> (#[trigger] out@[k] matches Ok(cs) ==> cs.email@
                        == confirmed_of(self@.subscribers.take(i as int))[k].email),
            decreases n - i,
        {
            proof {
                assert(self@.subscribers.take(i + 1).drop_last() =~= self@.subscribers.take(
                    i as int,
                ));
                assert(self@.subscribers.take(i + 1).last() == self@.subscribers[i as int]);
            }
            let row_confirmed = match self.subscribers[i].status {
                SubscriberStatus::Confirmed => true,
                SubscriberStatus::PendingConfirmation => false,
            };
            if row_confirmed {
                match SubscriberEmail::parse(self.subscribers[i].email.clone()) {
                    Ok(email) => out.push(Ok(ConfirmedSubscriber { email })),
                    Err(message) => out.push(Err(message)),
                }
            }
            i += 1;
        }
        proof {
            assert(self@.subscribers.take(n as int) =~= self@.subscribers);
        }
        out
    }

    /// Whether the id counter is exhausted: inserts demand room for one
    /// more id.
    pub fn at_capacity(&self) -> (r: bool)
        ensures
            r == (self@.next_id == u64::MAX),
    {
        self.next_id == u64::MAX
    }

    /// How many subscriber rows the store holds.
    pub fn subscriber_count(&self) -> (r: usize)
        ensures
            r == self@.subscribers.len(),
    {
        self.subscribers.len()
    }

    /// How many token rows the store holds.
    pub fn token_count(&self) -> (r: usize)
        ensures
            r == self@.tokens.len(),
    {
        self.tokens.len()
    }

    /// Reads a subscriber's status by id.
    pub fn subscriber_status(&self, subscriber_id: u64) -> (r: Option<SubscriberStatus>)
        requires
            self@.wf(),
        ensures
            r is Some <==> self@.has_subscriber_with_id(subscriber_id),
            r matches Some(status) ==> status == self@.subscriber_for_id(subscriber_id).status,
    {
        let n = self.subscribers.len();
        let mut i: usize = 0;
        while i < n
            invariant
                i <= n,
                n == self.subscribers.len(),
                self@.wf(),
                forall|j: int| 0 <= j < i ==> #[trigger] self@.subscribers[j].id != subscriber_id,
            decreases n - i,
        {
            if self.subscribers[i].id == subscriber_id {
                proof {
                    self@.lemma_subscriber_for_id(subscriber_id, i as int);
                }
                return Some(self.subscribers[i].status);
            }
            i += 1;
        }
        proof {
            assert(!self@.has_subscriber_with_id(subscriber_id)) by {
                if self@.has_subscriber_with_id(subscriber_id) {
                    let k = choose|k: int|
                        0 <= k < self@.subscribers.len() && #[trigger] self@.subscribers[k].id
                            == subscriber_id;
                    assert(self@.subscribers[k].id != subscriber_id);
                }
            }
        }
        None
    }
}

} // verus!
