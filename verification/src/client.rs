//! The authenticated client: credentials, the current bearer token and the
//! resolved project live behind a reader-writer lock that request issuers
//! read and the renewal task writes; a shared running flag carries the
//! cooperative stop signal. The lock's invariant states that a client holds
//! a usable token and a project from its first successful refresh on, so a
//! token is never read before one.
use vstd::prelude::*;
use vstd::rwlock::{RwLock, RwLockPredicate};
use vstd::string::StringExecFns;
use std::sync::Arc;
use crate::subscription::Subscription;
use crate::topic::Topic;
use crate::wire::{Method, Request};

verus! {

/// A fully qualified subscription name:
/// `projects/{project}/subscriptions/{name}`.
pub open spec fn subscription_qname(project: Seq<char>, name: Seq<char>) -> Seq<char> {
    "projects/"@ + project + "/subscriptions/"@ + name
}

/// A fully qualified topic name: `projects/{project}/topics/{name}`.
pub open spec fn topic_qname(project: Seq<char>, name: Seq<char>) -> Seq<char> {
    "projects/"@ + project + "/topics/"@ + name
}

/// A bearer token as the token source minted it.
#[derive(Clone)]
pub struct Token {
    pub token_type: String,
    pub access_token: String,
}

impl Token {
    /// A usable token: both parts present.
    pub open spec fn wf(&self) -> bool {
        self.token_type@.len() > 0 && self.access_token@.len() > 0
    }
}

/// Everything one successful token exchange yields: the fresh token and the
/// project identifier resolved from the credentials.
pub struct TokenUpdate {
    pub token: Token,
    pub project: String,
}

/// The shared client state. One value of this type sits in the client's
/// lock; every topic and subscription derived from the client reads it
/// through that lock.
pub struct State {
    pub token: Option<Token>,
    pub credentials_string: String,
    pub project: Option<String>,
    pub host: String,
    pub running: bool,
}

impl State {
    /// What the client's lock maintains: a client exists only after its
    /// first successful refresh, so a usable token and a project are
    /// always present.
    pub open spec fn wf(&self) -> bool {
        &&& self.token matches Some(t) && t.wf()
        &&& self.project is Some
    }

    /// The token type of the current token.
    pub fn token_type(&self) -> (r: &str)
        requires
            self.wf(),
        ensures
            r@ == self.token->0.token_type@,
    {
        self.token.as_ref().unwrap().token_type.as_str()
    }

    /// The value of the current token.
    pub fn access_token(&self) -> (r: &str)
        requires
            self.wf(),
        ensures
            r@ == self.token->0.access_token@,
    {
        self.token.as_ref().unwrap().access_token.as_str()
    }

    /// The resolved project identifier.
    pub fn project(&self) -> (r: &str)
        requires
            self.wf(),
        ensures
            r@ == self.project->0@,
    {
        self.project.as_ref().unwrap().as_str()
    }
}

/// The pair a reader obtains from one state: token type and token value,
/// both of the single token the state holds.
pub open spec fn snapshot_spec(s: State) -> (Seq<char>, Seq<char>)
    recommends
        s.wf(),
{
    (s.token->0.token_type@, s.token->0.access_token@)
}

/// The state after a successful refresh: the token is replaced wholesale
/// and the project identifier is (re-)resolved; nothing else moves.
pub open spec fn refreshed(s: State, u: TokenUpdate) -> State {
    State { token: Some(u.token), project: Some(u.project), ..s }
}

/// What one tick of the renewal task does to the state: a successful
/// exchange that yielded a usable token installs it; a failed exchange, or
/// one that yielded an unusable token, leaves the state exactly as it was.
pub open spec fn renewal_transition(s: State, outcome: Result<TokenUpdate, String>) -> State {
    match outcome {
        Ok(u) => if u.token.wf() {
            refreshed(s, u)
        } else {
            s
        },
        Err(_) => s,
    }
}

/// Refreshing installs the given token in full: the snapshot a reader takes
/// afterwards is exactly that token's type and value, both non-empty.
pub proof fn lemma_refresh_gives_consistent_snapshot(s: State, u: TokenUpdate)
    requires
        u.token.wf(),
    ensures
        refreshed(s, u).wf(),
        refreshed(s, u).token == Some(u.token),
        snapshot_spec(refreshed(s, u)).0 == u.token.token_type@,
        snapshot_spec(refreshed(s, u)).1 == u.token.access_token@,
        snapshot_spec(refreshed(s, u)).0.len() > 0,
        snapshot_spec(refreshed(s, u)).1.len() > 0,
{
}

/// A renewal swap is atomic for readers: the lock serializes reads against
/// the swap, so a reader's state is the pre-refresh or the post-refresh
/// state, and either way its snapshot is the full pair of one usable
/// token, never a mix of the two tokens' parts.
pub proof fn lemma_reader_sees_one_token(s: State, u: TokenUpdate, r: State)
    requires
        s.wf(),
        u.token.wf(),
        r == s || r == refreshed(s, u),
    ensures
        snapshot_spec(r) == snapshot_spec(s) || snapshot_spec(r) == snapshot_spec(refreshed(s, u)),
        exists|t: Token|
            t.wf() && r.token == Some(t) && snapshot_spec(r) == (t.token_type@, t.access_token@),
{
    if r == s {
        assert(r.token == Some(s.token->0));
    } else {
        assert(r.token == Some(u.token));
    }
}

/// A failed renewal changes nothing: the previous token stays installed and
/// the next reader authorizes with exactly the old snapshot.
pub proof fn lemma_failed_renewal_keeps_token(s: State, e: String)
    ensures
        renewal_transition(s, Err(e)) == s,
        snapshot_spec(renewal_transition(s, Err(e))) == snapshot_spec(s),
{
}

/// Applies a successful exchange to one state value: exactly
/// [`refreshed`] — the token replaced wholesale, the project re-resolved,
/// everything else untouched.
pub fn apply_refresh(st: State, update: TokenUpdate) -> (r: State)
    ensures
        r == refreshed(st, update),
{
    State {
        token: Some(update.token),
        project: Some(update.project),
        credentials_string: st.credentials_string,
        host: st.host,
        running: st.running,
    }
}

/// Applies one renewal tick's outcome to one state value: exactly
/// [`renewal_transition`] — a usable fresh token is installed, anything
/// else leaves the state as it was.
pub fn apply_renewal(st: State, outcome: Result<TokenUpdate, String>) -> (r: State)
    ensures
        r == renewal_transition(st, outcome),
{
    match outcome {
        Ok(u) => {
            if u.token.token_type.as_str().is_empty() || u.token.access_token.as_str().is_empty() {
                st
            } else {
                apply_refresh(st, u)
            }
        },
        Err(_) => st,
    }
}

/// Reads the snapshot pair out of one state value: exactly that state's
/// token type and token value, per [`snapshot_spec`].
pub fn read_snapshot(st: &State) -> (r: (String, String))
    requires
        st.wf(),
    ensures
        r.0@ == snapshot_spec(*st).0,
        r.1@ == snapshot_spec(*st).1,
{
    let token = st.token.as_ref().unwrap();
    (token.token_type.clone(), token.access_token.clone())
}

/// Forms `projects/{project}/subscriptions/{name}`.
pub fn subscription_name(project: &str, name: &str) -> (r: String)
    ensures
        r@ == subscription_qname(project@, name@),
{
    let mut n = "projects/".to_owned();
    n.append(project);
    n.append("/subscriptions/");
    n.append(name);
    assert(n@ =~= subscription_qname(project@, name@));
    n
}

/// Forms `projects/{project}/topics/{name}`.
pub fn topic_name(project: &str, name: &str) -> (r: String)
    ensures
        r@ == topic_qname(project@, name@),
{
    let mut n = "projects/".to_owned();
    n.append(project);
    n.append("/topics/");
    n.append(name);
    assert(n@ =~= topic_qname(project@, name@));
    n
}

/// The invariant of the client's lock: see [`State::wf`].
pub struct StatePred;

impl RwLockPredicate<State> for StatePred {
    open spec fn inv(self, v: State) -> bool {
        v.wf()
    }
}

/// The authenticated client: shared state behind a reader-writer lock.
/// Clones share the same lock, so every topic and subscription derived
/// from one client sees each token renewal.
#[derive(Clone)]
pub struct Client {
    state: Arc<RwLock<State, StatePred>>,
}

impl Client {
    /// Builds a client from loaded credentials and the outcome of the
    /// first, already successful token exchange. The original refresh is
    /// the caller's: a client never exists without a usable token.
    pub fn from_string(credentials_string: String, host: String, update: TokenUpdate) -> (c:
        Client)
        requires
            update.token.wf(),
    {
        let st = State {
            token: Some(update.token),
            credentials_string,
            project: Some(update.project),
            host,
            running: true,
        };
        Client { state: Arc::new(RwLock::new(st, Ghost(StatePred))) }
    }

    /// A consistent snapshot of the current token under one shared-lock
    /// acquisition: type and value of one usable token, never a mix.
    pub fn snapshot(&self) -> (r: (String, String))
        ensures
            exists|t: Token|
                t.wf() && r.0@ == t.token_type@ && r.1@ == t.access_token@,
    {
        let handle = self.state.acquire_read();
        let st = handle.borrow();
        let ghost tok = st.token->0;
        let pair = read_snapshot(st);
        handle.release_read();
        assert(tok.wf() && pair.0@ == tok.token_type@ && pair.1@ == tok.access_token@);
        pair
    }

    /// The resolved project identifier.
    pub fn project(&self) -> String {
        let handle = self.state.acquire_read();
        let p = handle.borrow().project.as_ref().unwrap().clone();
        handle.release_read();
        p
    }

    /// Sets the project identifier by hand, for credentials that do not
    /// carry one.
    pub fn set_project(&self, project: String) {
        let (mut st, wh) = self.state.acquire_write();
        st.project = Some(project);
        wh.release_write(st);
    }

    /// The loaded credential material, as the renewal task needs it to
    /// drive the next token exchange.
    pub fn credentials_string(&self) -> String {
        let handle = self.state.acquire_read();
        let c = handle.borrow().credentials_string.clone();
        handle.release_read();
        c
    }

    /// The service host every URI is formed against.
    pub fn host(&self) -> String {
        let handle = self.state.acquire_read();
        let h = handle.borrow().host.clone();
        handle.release_read();
        h
    }

    /// Whether the client is still running; the pull loop reads this at
    /// the top of each iteration.
    pub fn is_running(&self) -> bool {
        let handle = self.state.acquire_read();
        let r = handle.borrow().running;
        handle.release_read();
        r
    }

    /// Flips the running flag off: the single cooperative stop signal.
    pub fn stop(&self) {
        let (mut st, wh) = self.state.acquire_write();
        st.running = false;
        wh.release_write(st);
    }

    /// Installs the outcome of a successful token exchange: the stored
    /// state becomes [`apply_refresh`] of the held one — the token
    /// replaced wholesale, the project re-resolved — under one exclusive
    /// lock acquisition.
    pub fn refresh_with(&self, update: TokenUpdate)
        requires
            update.token.wf(),
    {
        let (st, wh) = self.state.acquire_write();
        let new_state = apply_refresh(st, update);
        assert(new_state.wf());
        wh.release_write(new_state);
    }

    /// One tick of the renewal task: the stored state becomes
    /// [`apply_renewal`] of the held one — exactly [`renewal_transition`]
    /// of the exchange's outcome, so a failure leaves the previous token
    /// in place for the next request — under one exclusive lock
    /// acquisition. Returns whether the token was replaced.
    pub fn renewal_step(&self, outcome: Result<TokenUpdate, String>) -> (applied: bool)
        ensures
            applied <==> (outcome matches Ok(u) && u.token.wf()),
    {
        let applied = match &outcome {
            Ok(u) => !u.token.token_type.as_str().is_empty()
                && !u.token.access_token.as_str().is_empty(),
            Err(_) => false,
        };
        let (st, wh) = self.state.acquire_write();
        let new_state = apply_renewal(st, outcome);
        assert(new_state.wf());
        wh.release_write(new_state);
        applied
    }

    /// Attaches to a pre-existing subscription by its short name, forming
    /// the fully qualified name against this client's project. No creation
    /// call is issued, and the handle carries no deletion responsibility
    /// beyond what the caller invokes.
    pub fn subscribe(&self, name: String) -> (s: Subscription)
        ensures
            s.topic is None,
            s.client is Some,
            exists|p: Seq<char>| s.name@ == subscription_qname(p, name@),
    {
        let project = self.project();
        let n = subscription_name(project.as_str(), name.as_str());
        Subscription { client: Some(self.clone()), name: n, topic: None }
    }

    /// A handle on the topic with the given short name, fully qualified
    /// against this client's project.
    pub fn topic(&self, name: String) -> (t: Topic)
        ensures
            t.client is Some,
            exists|p: Seq<char>| t.name@ == topic_qname(p, name@),
    {
        let project = self.project();
        let n = topic_name(project.as_str(), name.as_str());
        Topic { client: Some(self.clone()), name: n }
    }

    /// Shapes an authorized request: `Content-Type: application/json` and
    /// `Authorization: <type> <token>` from one snapshot of the current
    /// token. The caller sets the URI; no retry or timeout policy lives
    /// here.
    pub fn request(&self, method: Method, body: Vec<u8>) -> (r: Request)
        ensures
            r.method == method,
            r.body == body,
            r.uri@.len() == 0,
            r.content_type@ == "application/json"@,
            exists|t: Token|
                t.wf() && r.authorization@ == t.token_type@ + " "@ + t.access_token@,
    {
        let (token_type, access_token) = self.snapshot();
        let ghost tok = choose|t: Token|
            t.wf() && token_type@ == t.token_type@ && access_token@ == t.access_token@;
        let mut authorization = token_type;
        authorization.append(" ");
        authorization.append(access_token.as_str());
        assert(authorization@ == tok.token_type@ + " "@ + tok.access_token@);
        Request {
            method,
            uri: String::new(),
            content_type: "application/json".to_owned(),
            authorization,
            body,
        }
    }
}

} // verus!
