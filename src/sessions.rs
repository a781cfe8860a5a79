//! The session table: at most one terminal session per username, each on a
//! port reserved from the pool, with the decisions of session creation, crash
//! reaping and eviction. Spawning, readiness polling and timers are done by
//! the caller, which reports back through these methods.

use vstd::prelude::*;

use crate::errors::GatewayError;
use crate::terminal::SessionPolicy;
use crate::ports::{
    allocated, free_ports, freed, lowest_free, pool_view_wf, port_range, PoolView, PortPool,
};

verus! {

/// What a request for a user's session does next.
#[derive(Debug, Clone, Copy, PartialEq, Eq, Structural)]
pub enum CreateStep {
    /// A live session holds this port: use it, no subprocess work.
    Existing(u16),
    /// Another request is starting this user's session: wait, then ask again.
    Pending,
    /// This port was reserved for the user: start the subprocess on it, then
    /// report with `complete` or `abandon`.
    Spawn(u16),
}

/// What one reaper wake-up observed about its session's subprocess.
#[derive(Debug, Clone, Copy, PartialEq, Eq, Structural)]
pub enum ReapEvent {
    /// The session is in use right now; it was not checked this time.
    Busy,
    /// The subprocess is still running.
    Running,
    /// The subprocess has exited.
    Exited,
}

/// What the reaper does after a wake-up.
#[derive(Debug, Clone, Copy, PartialEq, Eq, Structural)]
pub enum ReapAction {
    /// Sleep one more interval and check again.
    Continue,
    /// The session is gone: the reaper ends.
    Stop,
}

/// What a readiness poll does after one connection attempt.
#[derive(Debug, Clone, Copy, PartialEq, Eq, Structural)]
pub enum Readiness {
    /// The port accepts connections.
    Ready,
    /// Try again after the poll interval.
    Retry,
    /// The deadline has passed: the subprocess never became reachable.
    TimedOut,
}

/// A connection attempt `waited_ms` after the spawn either succeeded, or is
/// retried until `max_wait_ms` has passed.
pub fn readiness_step(connected: bool, waited_ms: u64, max_wait_ms: u64) -> (r: Readiness)
    ensures
        r == (if connected {
            Readiness::Ready
        } else if waited_ms < max_wait_ms {
            Readiness::Retry
        } else {
            Readiness::TimedOut
        }),
{
    if connected {
        Readiness::Ready
    } else if waited_ms < max_wait_ms {
        Readiness::Retry
    } else {
        Readiness::TimedOut
    }
}

/// Model of the table: live sessions and sessions being started, each a
/// username with its port, and the pool the ports come from.
pub struct TableView {
    pub live: Map<Seq<char>, u16>,
    pub starting: Map<Seq<char>, u16>,
    pub pool: PoolView,
}

/// The table's invariant: both maps finite, no user both live and starting,
/// every held port in use in the pool, and no port held by two sessions.
pub open spec fn table_view_wf(v: TableView) -> bool {
    &&& pool_view_wf(v.pool)
    &&& v.live.dom().finite()
    &&& v.starting.dom().finite()
    &&& forall|k: Seq<char>| #[trigger] v.live.contains_key(k) ==> !v.starting.contains_key(k)
    &&& forall|k: Seq<char>| #[trigger]
        v.live.contains_key(k) ==> v.pool.in_use.contains(v.live[k] as int)
    &&& forall|k: Seq<char>| #[trigger]
        v.starting.contains_key(k) ==> v.pool.in_use.contains(v.starting[k] as int)
    &&& forall|a: Seq<char>, b: Seq<char>|
        #![trigger v.live[a], v.live[b]]
        v.live.contains_key(a) && v.live.contains_key(b) && a != b ==> v.live[a] != v.live[b]
    &&& forall|a: Seq<char>, b: Seq<char>|
        #![trigger v.starting[a], v.starting[b]]
        v.starting.contains_key(a) && v.starting.contains_key(b) && a != b ==> v.starting[a]
            != v.starting[b]
    &&& forall|a: Seq<char>, b: Seq<char>|
        #![trigger v.live[a], v.starting[b]]
        v.live.contains_key(a) && v.starting.contains_key(b) ==> v.live[a] != v.starting[b]
}

/// A request for `u`'s session: the live port, a wait while another request
/// starts it, or a fresh reservation of the lowest free port.
pub open spec fn get_or_create_spec(v: TableView, u: Seq<char>) -> (TableView, Result<CreateStep, GatewayError>) {
    if v.live.contains_key(u) {
        (v, Ok(CreateStep::Existing(v.live[u])))
    } else if v.starting.contains_key(u) {
        (v, Ok(CreateStep::Pending))
    } else {
        match lowest_free(v.pool) {
            Some(p) => (
                TableView {
                    live: v.live,
                    starting: v.starting.insert(u, p as u16),
                    pool: allocated(v.pool, p),
                },
                Ok(CreateStep::Spawn(p as u16)),
            ),
            None => (v, Err(GatewayError::PoolExhausted)),
        }
    }
}

/// `u`'s subprocess became reachable: its session goes live.
pub open spec fn complete_spec(v: TableView, u: Seq<char>) -> (TableView, Option<u16>) {
    if v.starting.contains_key(u) {
        (
            TableView {
                live: v.live.insert(u, v.starting[u]),
                starting: v.starting.remove(u),
                pool: v.pool,
            },
            Some(v.starting[u]),
        )
    } else {
        (v, None)
    }
}

/// `u`'s subprocess failed to start: the reservation and its port are dropped.
pub open spec fn abandon_spec(v: TableView, u: Seq<char>) -> (TableView, Option<u16>) {
    if v.starting.contains_key(u) {
        (
            TableView {
                live: v.live,
                starting: v.starting.remove(u),
                pool: freed(v.pool, v.starting[u] as int),
            },
            Some(v.starting[u]),
        )
    } else {
        (v, None)
    }
}

/// `u`'s live session ends: the entry goes and its port is freed.
pub open spec fn kill_spec(v: TableView, u: Seq<char>) -> (TableView, Option<u16>) {
    if v.live.contains_key(u) {
        (
            TableView {
                live: v.live.remove(u),
                starting: v.starting,
                pool: freed(v.pool, v.live[u] as int),
            },
            Some(v.live[u]),
        )
    } else {
        (v, None)
    }
}

/// One wake-up of the reaper of `u`'s session on `port`: it stops once that
/// session is gone, and removes the session when its subprocess has exited.
pub open spec fn reap_spec(v: TableView, u: Seq<char>, port: u16, e: ReapEvent) -> (
    TableView,
    ReapAction,
) {
    if !(v.live.contains_key(u) && v.live[u] == port) {
        (v, ReapAction::Stop)
    } else if e == ReapEvent::Exited {
        (kill_spec(v, u).0, ReapAction::Stop)
    } else {
        (v, ReapAction::Continue)
    }
}

/// Two requests for a user without a live session spawn at most one
/// subprocess between them, and both end up with the same port:
/// - if a start is already in progress, each request is told to wait and
///   changes nothing; once that start completes, each gets its port;
/// - otherwise the first reserves the lowest free port and is told to spawn;
///   the second, made while the first is starting, is told to wait and
///   changes nothing; once the first completes, the second is handed the same
///   port, the session is live on it and the port is in use in the pool;
/// - with no free port, the first fails with `PoolExhausted` and changes
///   nothing, so the second fails alike.
pub proof fn lemma_one_spawn_per_user(v: TableView, u: Seq<char>)
    requires
        table_view_wf(v),
        !v.live.contains_key(u),
    ensures
        v.starting.contains_key(u) ==> ({
            let p = v.starting[u];
            let done = complete_spec(v, u).0;
            &&& get_or_create_spec(v, u) == (v, Ok::<CreateStep, GatewayError>(CreateStep::Pending))
            &&& complete_spec(v, u).1 == Some(p)
            &&& get_or_create_spec(done, u).1 == Ok::<CreateStep, GatewayError>(CreateStep::Existing(p))
            &&& done.live.contains_key(u) && done.live[u] == p && done.pool.in_use.contains(p as int)
        }),
        !v.starting.contains_key(u) ==> match get_or_create_spec(v, u).1 {
            Ok(CreateStep::Spawn(p)) => {
                let v1 = get_or_create_spec(v, u).0;
                let done = complete_spec(v1, u).0;
                &&& get_or_create_spec(v1, u) == (v1, Ok::<CreateStep, GatewayError>(CreateStep::Pending))
                &&& complete_spec(v1, u).1 == Some(p)
                &&& get_or_create_spec(done, u).1 == Ok::<CreateStep, GatewayError>(
                    CreateStep::Existing(p),
                )
                &&& done.live.contains_key(u) && done.live[u] == p && done.pool.in_use.contains(p as int)
            },
            Ok(_) => false,
            Err(e) => e == GatewayError::PoolExhausted && get_or_create_spec(v, u).0 == v
                && get_or_create_spec(get_or_create_spec(v, u).0, u) == get_or_create_spec(v, u),
        },
{
    if v.starting.contains_key(u) {
        assert(v.pool.in_use.contains(v.starting[u] as int));
    }
}

/// Completing a start adds one live session; killing a live session
/// removes one.
pub proof fn lemma_live_counts(v: TableView, u: Seq<char>)
    requires
        table_view_wf(v),
    ensures
        v.starting.contains_key(u) ==> complete_spec(v, u).0.live.dom().len() == v.live.dom().len() + 1,
        v.live.contains_key(u) ==> kill_spec(v, u).0.live.dom().len() == v.live.dom().len() - 1,
{
    if v.starting.contains_key(u) {
        assert(!v.live.contains_key(u));
        assert(complete_spec(v, u).0.live.dom() == v.live.dom().insert(u));
    }
    if v.live.contains_key(u) {
        assert(kill_spec(v, u).0.live.dom() == v.live.dom().remove(u));
    }
}

/// When the reaper of a live session observes that its subprocess exited,
/// the session is removed and its port is free again.
pub proof fn lemma_reap_exit_frees_port(v: TableView, u: Seq<char>)
    requires
        table_view_wf(v),
        v.live.contains_key(u),
    ensures
        ({
            let (w, a) = reap_spec(v, u, v.live[u], ReapEvent::Exited);
            &&& a == ReapAction::Stop
            &&& !w.live.contains_key(u)
            &&& free_ports(w.pool).contains(v.live[u] as int)
        }),
{
    assert(v.pool.in_use.contains(v.live[u] as int));
    assert(port_range(v.pool.base).contains(v.live[u] as int));
}

#[verifier::external_type_specification]
#[verifier::external_body]
#[verifier::reject_recursive_types(K)]
#[verifier::reject_recursive_types(V)]
#[verifier::reject_recursive_types(S)]
pub struct ExDashMap<K, V, S>(dashmap::DashMap<K, V, S>);

/// A concurrent map from usernames to ports.
pub type PortMap = dashmap::DashMap<String, u16>;

/// What a concurrent map from usernames to ports holds.
pub uninterp spec fn session_ports(m: PortMap) -> Map<Seq<char>, u16>;

/// Relies on `dashmap::DashMap::new`: an empty map.
#[verifier::external_body]
fn port_map_new() -> (r: PortMap)
    ensures
        session_ports(r).dom() == Set::<Seq<char>>::empty(),
{
    dashmap::DashMap::new()
}

/// Relies on `dashmap::DashMap::get`: the value under the key, if any; the
/// value is copied out and the entry's guard dropped.
#[verifier::external_body]
fn port_map_get(m: &PortMap, key: &str) -> (r: Option<u16>)
    ensures
        r == (if session_ports(*m).contains_key(key@) {
            Some(session_ports(*m)[key@])
        } else {
            None
        }),
{
    m.get(key).map(|e| *e.value())
}

/// Relies on `dashmap::DashMap::insert`: the key now maps to the value.
#[verifier::external_body]
fn port_map_insert(m: &mut PortMap, key: String, value: u16)
    ensures
        session_ports(*final(m)) == session_ports(*old(m)).insert(key@, value),
{
    m.insert(key, value);
}

/// Relies on `dashmap::DashMap::remove`: the entry of the key goes, and its
/// value is returned.
#[verifier::external_body]
fn port_map_remove(m: &mut PortMap, key: &str) -> (r: Option<u16>)
    ensures
        session_ports(*final(m)) == session_ports(*old(m)).remove(key@),
        r == (if session_ports(*old(m)).contains_key(key@) {
            Some(session_ports(*old(m))[key@])
        } else {
            None
        }),
{
    m.remove(key).map(|(_, v)| v)
}

/// Relies on `dashmap::DashMap::len`: the number of entries.
#[verifier::external_body]
fn port_map_len(m: &PortMap) -> (r: usize)
    ensures
        r == session_ports(*m).dom().len(),
{
    m.len()
}

/// Relies on `dashmap::DashMap::iter`: every key once, in an order the map
/// leaves open.
#[verifier::external_body]
fn port_map_keys(m: &PortMap) -> (r: Vec<String>)
    ensures
        r@.len() == session_ports(*m).dom().len(),
        forall|i: int| 0 <= i < r@.len() ==> session_ports(*m).contains_key(#[trigger] r@[i]@),
        forall|k: Seq<char>| #[trigger]
            session_ports(*m).contains_key(k) ==> exists|i: int| 0 <= i < r@.len() && r@[i]@ == k,
        forall|i: int, j: int| 0 <= i < r@.len() && 0 <= j < r@.len() && i != j ==> r@[i]@ != r@[j]@,
{
    m.iter().map(|e| e.key().clone()).collect()
}

/// The live and starting sessions of all users, with the port pool.
pub struct Manager {
    live: PortMap,
    starting: PortMap,
    pool: PortPool,
    policy: SessionPolicy,
}

impl View for Manager {
    type V = TableView;

    closed spec fn view(&self) -> TableView {
        TableView { live: session_ports(self.live), starting: session_ports(self.starting), pool: self.pool@ }
    }
}

impl Manager {
    pub closed spec fn wf(&self) -> bool {
        &&& self.pool.wf()
        &&& table_view_wf(self@)
    }

    pub proof fn lemma_view_wf(&self)
        requires
            self.wf(),
        ensures
            table_view_wf(self@),
    {
    }

    pub closed spec fn policy_of(&self) -> SessionPolicy {
        self.policy
    }

    /// The session policy the table was made with.
    pub fn policy(&self) -> (r: SessionPolicy)
        ensures
            r == self.policy_of(),
    {
        self.policy
    }

    /// An empty table whose ports come from `base ..= base + 999`, for
    /// sessions under `policy`.
    pub fn new(base_port: u16, policy: SessionPolicy) -> (r: Manager)
        requires
            base_port <= crate::ports::MAX_BASE_PORT,
        ensures
            r.wf(),
            r@.live == Map::<Seq<char>, u16>::empty(),
            r@.starting == Map::<Seq<char>, u16>::empty(),
            r@.pool.base == base_port as int,
            r@.pool.in_use == Set::<int>::empty(),
            r.policy_of() == policy,
    {
        let r = Manager { live: port_map_new(), starting: port_map_new(), pool: PortPool::new(base_port), policy };
        proof {
            r.pool.lemma_view_wf();
            assert(r@.live =~= Map::<Seq<char>, u16>::empty());
            assert(r@.starting =~= Map::<Seq<char>, u16>::empty());
        }
        r
    }

    /// Getting a user's session: the live session's port if there is one,
    /// `Pending` while another request starts it, or else a reservation of
    /// the lowest free port, on which the caller starts the subprocess and
    /// then reports with `complete` or `abandon`. Fails with `PoolExhausted`
    /// when no port is free.
    pub fn get_or_create(&mut self, username: &str) -> (r: Result<CreateStep, GatewayError>)
        requires
            old(self).wf(),
        ensures
            final(self).wf(),
            final(self).policy_of() == old(self).policy_of(),
            (final(self)@, r) == get_or_create_spec(old(self)@, username@),
    {
        match port_map_get(&self.live, username) {
            Some(p) => return Ok(CreateStep::Existing(p)),
            None => {},
        }
        match port_map_get(&self.starting, username) {
            Some(_) => return Ok(CreateStep::Pending),
            None => {},
        }
        let ghost v = self@;
        let ghost u = username@;
        match self.pool.allocate() {
            Ok(p) => {
                port_map_insert(&mut self.starting, String::from_str(username), p);
                proof {
                    let w = self@;
                    assert(!v.pool.in_use.contains(p as int));
                    assert(w.pool.in_use == v.pool.in_use.insert(p as int));
                    assert forall|k: Seq<char>| #[trigger] w.live.contains_key(k) implies !w.starting.contains_key(k) by {
                        assert(v.live.contains_key(k));
                    }
                    assert forall|k: Seq<char>| #[trigger] w.starting.contains_key(k) implies w.pool.in_use.contains(
                        w.starting[k] as int,
                    ) by {
                        if k != u {
                            assert(v.starting.contains_key(k));
                        }
                    }
                    assert forall|a: Seq<char>, b: Seq<char>|
                        w.starting.contains_key(a) && w.starting.contains_key(b) && a != b implies #[trigger] w.starting[a]
                        != #[trigger] w.starting[b] by {
                        if a != u {
                            assert(v.pool.in_use.contains(v.starting[a] as int));
                        }
                        if b != u {
                            assert(v.pool.in_use.contains(v.starting[b] as int));
                        }
                    }
                    assert forall|a: Seq<char>, b: Seq<char>|
                        w.live.contains_key(a) && w.starting.contains_key(b) implies #[trigger] w.live[a]
                        != #[trigger] w.starting[b] by {
                        assert(v.pool.in_use.contains(v.live[a] as int));
                        if b != u {
                            assert(v.starting.contains_key(b));
                        }
                    }
                    assert(self@ == get_or_create_spec(v, u).0);
                }
                Ok(CreateStep::Spawn(p))
            },
            Err(e) => Err(e),
        }
    }

    /// The subprocess reserved for `username` became reachable: its session
    /// goes live on the reserved port, which is returned.
    pub fn complete(&mut self, username: &str) -> (r: Option<u16>)
        requires
            old(self).wf(),
        ensures
            final(self).wf(),
            final(self).policy_of() == old(self).policy_of(),
            (final(self)@, r) == complete_spec(old(self)@, username@),
    {
        let ghost v = self@;
        let ghost u = username@;
        match port_map_remove(&mut self.starting, username) {
            None => {
                assert(self@ =~= v) by {
                    assert(self@.starting =~= v.starting);
                }
                None
            },
            Some(port) => {
                assert(v.starting.contains_key(u));
                assert(!v.live.contains_key(u));
                port_map_insert(&mut self.live, String::from_str(username), port);
                proof {
                    let w = self@;
                    assert forall|k: Seq<char>| #[trigger] w.live.contains_key(k) implies !w.starting.contains_key(k) by {
                        if k != u {
                            assert(v.live.contains_key(k));
                        }
                    }
                    assert forall|k: Seq<char>| #[trigger] w.live.contains_key(k) implies w.pool.in_use.contains(
                        w.live[k] as int,
                    ) by {
                        if k != u {
                            assert(v.live.contains_key(k));
                        } else {
                            assert(v.starting.contains_key(u));
                        }
                    }
                    assert forall|k: Seq<char>| #[trigger] w.starting.contains_key(k) implies w.pool.in_use.contains(
                        w.starting[k] as int,
                    ) by {
                        assert(v.starting.contains_key(k));
                    }
                    assert forall|a: Seq<char>, b: Seq<char>|
                        w.live.contains_key(a) && w.live.contains_key(b) && a != b implies #[trigger] w.live[a]
                        != #[trigger] w.live[b] by {
                        if a == u {
                            assert(v.live[b] != v.starting[a]);
                        } else if b == u {
                            assert(v.live[a] != v.starting[b]);
                        }
                    }
                    assert forall|a: Seq<char>, b: Seq<char>|
                        w.starting.contains_key(a) && w.starting.contains_key(b) && a != b implies #[trigger] w.starting[a]
                        != #[trigger] w.starting[b] by {
                        assert(v.starting[a] != v.starting[b]);
                    }
                    assert forall|a: Seq<char>, b: Seq<char>|
                        w.live.contains_key(a) && w.starting.contains_key(b) implies #[trigger] w.live[a]
                        != #[trigger] w.starting[b] by {
                        if a == u {
                            assert(v.starting[a] != v.starting[b]);
                        } else {
                            assert(v.live[a] != v.starting[b]);
                        }
                    }
                    assert(self@ == complete_spec(v, u).0);
                }
                Some(port)
            },
        }
    }

    /// The subprocess reserved for `username` failed to start or to become
    /// reachable: the reservation is dropped and its port freed.
    pub fn abandon(&mut self, username: &str) -> (r: Option<u16>)
        requires
            old(self).wf(),
        ensures
            final(self).wf(),
            final(self).policy_of() == old(self).policy_of(),
            (final(self)@, r) == abandon_spec(old(self)@, username@),
    {
        let ghost v = self@;
        let ghost u = username@;
        match port_map_remove(&mut self.starting, username) {
            None => {
                assert(self@ =~= v) by {
                    assert(self@.starting =~= v.starting);
                }
                None
            },
            Some(port) => {
                assert(v.starting.contains_key(u));
                self.pool.free(port);
                proof {
                    let w = self@;
                    assert forall|k: Seq<char>| #[trigger] w.live.contains_key(k) implies w.pool.in_use.contains(
                        w.live[k] as int,
                    ) by {
                        assert(v.live[k] != v.starting[u]);
                    }
                    assert forall|k: Seq<char>| #[trigger] w.starting.contains_key(k) implies w.pool.in_use.contains(
                        w.starting[k] as int,
                    ) by {
                        assert(v.starting.contains_key(k));
                        assert(v.starting[k] != v.starting[u]);
                    }
                    assert forall|a: Seq<char>, b: Seq<char>|
                        w.starting.contains_key(a) && w.starting.contains_key(b) && a != b implies #[trigger] w.starting[a]
                        != #[trigger] w.starting[b] by {
                        assert(v.starting[a] != v.starting[b]);
                    }
                    assert forall|a: Seq<char>, b: Seq<char>|
                        w.live.contains_key(a) && w.starting.contains_key(b) implies #[trigger] w.live[a]
                        != #[trigger] w.starting[b] by {
                        assert(v.live[a] != v.starting[b]);
                    }
                    assert(self@ == abandon_spec(v, u).0);
                }
                Some(port)
            },
        }
    }

    /// Ends `username`'s live session: the entry is removed and its port
    /// freed. Returns the port, or `None` where there was no live session.
    pub fn kill(&mut self, username: &str) -> (r: Option<u16>)
        requires
            old(self).wf(),
        ensures
            final(self).wf(),
            final(self).policy_of() == old(self).policy_of(),
            (final(self)@, r) == kill_spec(old(self)@, username@),
    {
        let ghost v = self@;
        let ghost u = username@;
        match port_map_remove(&mut self.live, username) {
            None => {
                assert(self@ =~= v) by {
                    assert(self@.live =~= v.live);
                }
                None
            },
            Some(port) => {
                assert(v.live.contains_key(u));
                self.pool.free(port);
                proof {
                    let w = self@;
                    assert forall|k: Seq<char>| #[trigger] w.live.contains_key(k) implies w.pool.in_use.contains(
                        w.live[k] as int,
                    ) by {
                        assert(v.live[k] != v.live[u]);
                    }
                    assert forall|k: Seq<char>| #[trigger] w.starting.contains_key(k) implies w.pool.in_use.contains(
                        w.starting[k] as int,
                    ) by {
                        assert(v.live[u] != v.starting[k]);
                    }
                    assert forall|a: Seq<char>, b: Seq<char>|
                        w.live.contains_key(a) && w.live.contains_key(b) && a != b implies #[trigger] w.live[a]
                        != #[trigger] w.live[b] by {
                        assert(v.live[a] != v.live[b]);
                    }
                    assert forall|a: Seq<char>, b: Seq<char>|
                        w.live.contains_key(a) && w.starting.contains_key(b) implies #[trigger] w.live[a]
                        != #[trigger] w.starting[b] by {
                        assert(v.live[a] != v.starting[b]);
                    }
                    assert(self@ == kill_spec(v, u).0);
                }
                Some(port)
            },
        }
    }

    /// One wake-up of the reaper of `username`'s session on `port`, given
    /// what it observed. It stops once that session is gone; when the
    /// subprocess has exited it removes the session, frees the port and
    /// stops; otherwise it goes on.
    pub fn reap(&mut self, username: &str, port: u16, event: ReapEvent) -> (r: ReapAction)
        requires
            old(self).wf(),
        ensures
            final(self).wf(),
            final(self).policy_of() == old(self).policy_of(),
            (final(self)@, r) == reap_spec(old(self)@, username@, port, event),
    {
        let held = self.live_port(username);
        match held {
            Some(p) => {
                if p != port {
                    ReapAction::Stop
                } else {
                    match event {
                        ReapEvent::Exited => {
                            self.kill(username);
                            ReapAction::Stop
                        },
                        _ => ReapAction::Continue,
                    }
                }
            },
            None => ReapAction::Stop,
        }
    }

    /// The port of `username`'s live session, if any.
    pub fn live_port(&self, username: &str) -> (r: Option<u16>)
        requires
            self.wf(),
        ensures
            r == (if self@.live.contains_key(username@) {
                Some(self@.live[username@])
            } else {
                None
            }),
    {
        port_map_get(&self.live, username)
    }

    /// Whether `username` has a live session.
    pub fn is_active(&self, username: &str) -> (r: bool)
        requires
            self.wf(),
        ensures
            r == self@.live.contains_key(username@),
    {
        self.live_port(username).is_some()
    }

    /// The number of live sessions.
    pub fn active_count(&self) -> (r: usize)
        requires
            self.wf(),
        ensures
            r == self@.live.dom().len(),
    {
        port_map_len(&self.live)
    }

    /// The usernames of the live sessions, each once, in no set order.
    pub fn active_usernames(&self) -> (r: Vec<String>)
        requires
            self.wf(),
        ensures
            r@.len() == self@.live.dom().len(),
            forall|i: int| 0 <= i < r@.len() ==> self@.live.contains_key(#[trigger] r@[i]@),
            forall|k: Seq<char>| #[trigger] self@.live.contains_key(k) ==> exists|i: int| 0 <= i < r@.len() && r@[i]@ == k,
            forall|i: int, j: int| 0 <= i < r@.len() && 0 <= j < r@.len() && i != j ==> r@[i]@ != r@[j]@,
    {
        port_map_keys(&self.live)
    }
}

} // verus!
