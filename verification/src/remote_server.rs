//! The routing core of the remote-server daemon.
//!
//! The daemon serves several proxy connections at once. It keeps track of
//! which connections are open, which in-flight requests are host-scoped
//! (their response may be delivered through another connection when the
//! originating one has gone), and which requests can still be aborted. The
//! daemon shuts down after a grace period with no connection; the registry
//! says when that timer must be started or cancelled. Sending on the
//! connections' channels stays with the caller.

use vstd::prelude::*;

use crate::server_dispatch::{
    dispatch, dispatch_spec, ClientMessageKind, Dispatch, DispatchSpec, NotificationKind,
    RequestHandler,
};

verus! {

/// The identifier of a proxy connection (the value of its UUID).
pub type ConnectionId = u128;

/// Where a message must go.
#[derive(Clone, Copy, Debug, PartialEq, Eq, Structural)]
pub enum Route {
    /// Send to `target`; when that send fails and `failover_on_error` is set,
    /// deliver through one of the other connections instead.
    Direct { target: ConnectionId, failover_on_error: bool },
    /// `target` is gone: deliver through one of the other connections.
    Failover { target: ConnectionId },
    /// Send to every open connection (a push notification).
    Broadcast,
    /// `target` is gone and the response is tied to it: drop the message.
    Drop,
}

/// What deregistering a connection asks the caller to do.
#[derive(Debug)]
pub struct Deregistration {
    /// Whether the connection was open (a second deregistration is a no-op).
    pub was_registered: bool,
    /// In-flight requests to abort: the host-scoped requests still running
    /// when the last connection closed.
    pub aborted_requests: Vec<String>,
    /// Whether the shutdown timer must be (re)started.
    pub start_grace_timer: bool,
}

/// The mathematical state of a [`ConnectionRegistry`].
pub struct RegistryState {
    pub connections: Set<ConnectionId>,
    /// Host-scoped requests in flight, with the connection they came from.
    pub host_scoped_requests: Map<Seq<char>, ConnectionId>,
    /// Requests whose handler can still be aborted.
    pub in_progress: Set<Seq<char>>,
    /// Whether the shutdown timer is running.
    pub grace_timer_running: bool,
    /// The repository roots whose metadata snapshot was already sent on a
    /// connection, as (connection, root) pairs.
    pub snapshot_sent: Set<(ConnectionId, Seq<char>)>,
}

/// The connections, host-scoped requests and abortable requests of the
/// daemon.
pub struct ConnectionRegistry {
    connections: Vec<ConnectionId>,
    host_scoped_requests: Vec<(String, ConnectionId)>,
    in_progress: Vec<String>,
    grace_timer_running: bool,
    snapshot_sent: Vec<(ConnectionId, String)>,
}

pub open spec fn string_views(s: Seq<String>) -> Seq<Seq<char>> {
    s.map_values(|x: String| x@)
}

pub open spec fn pair_keys(s: Seq<(String, ConnectionId)>) -> Seq<Seq<char>> {
    s.map_values(|p: (String, ConnectionId)| p.0@)
}

pub open spec fn sent_views(s: Seq<(ConnectionId, String)>) -> Seq<(ConnectionId, Seq<char>)> {
    s.map_values(|p: (ConnectionId, String)| (p.0, p.1@))
}

pub open spec fn pair_map(s: Seq<(String, ConnectionId)>) -> Map<Seq<char>, ConnectionId> {
    Map::new(
        |k: Seq<char>| pair_keys(s).contains(k),
        |k: Seq<char>| s[pair_keys(s).index_of(k)].1,
    )
}

impl View for ConnectionRegistry {
    type V = RegistryState;

    closed spec fn view(&self) -> RegistryState {
        RegistryState {
            connections: self.connections@.to_set(),
            host_scoped_requests: pair_map(self.host_scoped_requests@),
            in_progress: string_views(self.in_progress@).to_set(),
            grace_timer_running: self.grace_timer_running,
            snapshot_sent: sent_views(self.snapshot_sent@).to_set(),
        }
    }
}

proof fn lemma_empty_to_set<A>(s: Seq<A>)
    ensures
        s.len() == 0 <==> s.to_set() == Set::<A>::empty(),
{
    if s.len() == 0 {
        assert(s.to_set() =~= Set::<A>::empty());
    } else {
        assert(s.to_set().contains(s[0]));
    }
}

proof fn lemma_remove_index<A>(s: Seq<A>, i: int)
    requires
        0 <= i < s.len(),
    ensures
        s.remove(i).len() == s.len() - 1,
        forall|j: int| 0 <= j < i ==> #[trigger] s.remove(i)[j] == s[j],
        forall|j: int| i <= j < s.len() - 1 ==> #[trigger] s.remove(i)[j] == s[j + 1],
{
}

proof fn lemma_push_contains<A>(s: Seq<A>, a: A)
    ensures
        forall|k: A| #[trigger] s.push(a).contains(k) <==> (s.contains(k) || k == a),
        s.push(a).to_set() == s.to_set().insert(a),
{
    assert forall|k: A| #[trigger] s.push(a).contains(k) <==> (s.contains(k) || k == a) by {
        if k == a {
            assert(s.push(a)[s.len() as int] == k);
        }
        if s.contains(k) {
            let j = choose|j: int| 0 <= j < s.len() && s[j] == k;
            assert(s.push(a)[j] == k);
        }
        if s.push(a).contains(k) {
            let j = choose|j: int| 0 <= j < s.len() + 1 && s.push(a)[j] == k;
            if j < s.len() {
                assert(s[j] == k);
            }
        }
    }
    assert(s.push(a).to_set() =~= s.to_set().insert(a));
}

proof fn lemma_take_push<A>(s: Seq<A>, i: int, k: A)
    requires
        0 <= i < s.len(),
    ensures
        s.take(i + 1).contains(k) <==> (s.take(i).contains(k) || k == s[i]),
{
    assert(s.take(i + 1) =~= s.take(i).push(s[i]));
    lemma_push_contains(s.take(i), s[i]);
}

proof fn lemma_push_distinct<A>(s: Seq<A>, a: A)
    requires
        s.no_duplicates(),
        !s.contains(a),
    ensures
        s.push(a).no_duplicates(),
{
    let r = s.push(a);
    assert forall|i: int, j: int| 0 <= i < r.len() && 0 <= j < r.len() && i != j implies r[i]
        != r[j] by {
        if i < s.len() && j < s.len() {
            assert(r[i] == s[i] && r[j] == s[j]);
        } else if i < s.len() {
            assert(r[i] == s[i]);
        } else if j < s.len() {
            assert(r[j] == s[j]);
        }
    }
}

proof fn lemma_remove_distinct<A>(s: Seq<A>, i: int)
    requires
        0 <= i < s.len(),
        s.no_duplicates(),
    ensures
        s.remove(i).no_duplicates(),
        s.remove(i).to_set() == s.to_set().remove(s[i]),
        forall|k: A| #[trigger] s.remove(i).contains(k) <==> (s.contains(k) && k != s[i]),
{
    lemma_remove_index(s, i);
    let r = s.remove(i);
    assert forall|a: A| #[trigger] r.contains(a) <==> (s.contains(a) && a != s[i]) by {
        if r.contains(a) {
            let j = choose|j: int| 0 <= j < r.len() && r[j] == a;
            if j < i {
                assert(s[j] == a);
            } else {
                assert(s[j + 1] == a);
            }
        }
        if s.contains(a) && a != s[i] {
            let j = choose|j: int| 0 <= j < s.len() && s[j] == a;
            if j < i {
                assert(r[j] == a);
            } else {
                assert(j != i);
                assert(r[j - 1] == a);
            }
        }
    }
    assert(r.to_set() =~= s.to_set().remove(s[i]));
}

/// The strings of `s` whose value is in `d`, in order.
pub open spec fn keep_in(s: Seq<String>, d: Set<Seq<char>>) -> Seq<String>
    decreases s.len(),
{
    if s.len() == 0 {
        s
    } else {
        let r = keep_in(s.drop_last(), d);
        if d.contains(s.last()@) {
            r.push(s.last())
        } else {
            r
        }
    }
}

/// The strings of `s` whose value is not in `d`, in order.
pub open spec fn keep_out(s: Seq<String>, d: Set<Seq<char>>) -> Seq<String>
    decreases s.len(),
{
    if s.len() == 0 {
        s
    } else {
        let r = keep_out(s.drop_last(), d);
        if d.contains(s.last()@) {
            r
        } else {
            r.push(s.last())
        }
    }
}

proof fn lemma_keep(s: Seq<String>, d: Set<Seq<char>>)
    requires
        string_views(s).no_duplicates(),
    ensures
        string_views(keep_in(s, d)).no_duplicates(),
        string_views(keep_out(s, d)).no_duplicates(),
        forall|k: Seq<char>| #[trigger]
            string_views(keep_in(s, d)).contains(k) <==> (string_views(s).contains(k)
                && d.contains(k)),
        forall|k: Seq<char>| #[trigger]
            string_views(keep_out(s, d)).contains(k) <==> (string_views(s).contains(k)
                && !d.contains(k)),
    decreases s.len(),
{
    if s.len() > 0 {
        let t = s.drop_last();
        let x = s.last();
        assert(string_views(s) =~= string_views(t).push(x@));
        assert(string_views(t) =~= string_views(s).drop_last());
        assert(string_views(t).no_duplicates());
        lemma_keep(t, d);
        lemma_push_contains(string_views(t), x@);
        assert(!string_views(t).contains(x@)) by {
            if string_views(t).contains(x@) {
                let j = choose|j: int| 0 <= j < t.len() && string_views(t)[j] == x@;
                assert(string_views(s)[j] == string_views(s)[s.len() - 1]);
            }
        }
        let ki = keep_in(t, d);
        let ko = keep_out(t, d);
        assert(string_views(ki.push(x)) =~= string_views(ki).push(x@));
        assert(string_views(ko.push(x)) =~= string_views(ko).push(x@));
        lemma_push_contains(string_views(ki), x@);
        lemma_push_contains(string_views(ko), x@);
        if d.contains(x@) {
            lemma_push_distinct(string_views(ki), x@);
        } else {
            lemma_push_distinct(string_views(ko), x@);
        }
    }
}

proof fn lemma_string_views_remove(s: Seq<String>, i: int)
    requires
        0 <= i < s.len(),
    ensures
        string_views(s.remove(i)) =~= string_views(s).remove(i),
{
    lemma_remove_index(s, i);
    lemma_remove_index(string_views(s), i);
}

proof fn lemma_pair_keys_remove(s: Seq<(String, ConnectionId)>, i: int)
    requires
        0 <= i < s.len(),
    ensures
        pair_keys(s.remove(i)) =~= pair_keys(s).remove(i),
{
    lemma_remove_index(s, i);
    lemma_remove_index(pair_keys(s), i);
}

proof fn lemma_pair_map_at(s: Seq<(String, ConnectionId)>, i: int)
    requires
        0 <= i < s.len(),
        pair_keys(s).no_duplicates(),
    ensures
        pair_map(s).contains_key(s[i].0@),
        pair_map(s)[s[i].0@] == s[i].1,
{
    let k = s[i].0@;
    assert(pair_keys(s)[i] == k);
    let j = pair_keys(s).index_of(k);
    assert(pair_keys(s)[j] == k);
    assert(j == i);
}

proof fn lemma_pair_map_remove(s: Seq<(String, ConnectionId)>, i: int)
    requires
        0 <= i < s.len(),
        pair_keys(s).no_duplicates(),
    ensures
        pair_keys(s.remove(i)).no_duplicates(),
        pair_map(s.remove(i)) == pair_map(s).remove(s[i].0@),
{
    let r = s.remove(i);
    lemma_pair_keys_remove(s, i);
    assert(pair_keys(s)[i] == s[i].0@);
    lemma_remove_distinct(pair_keys(s), i);
    lemma_remove_index(s, i);
    assert(pair_keys(r).to_set() == pair_keys(s).to_set().remove(s[i].0@));
    assert forall|k: Seq<char>| #[trigger]
        pair_map(r).contains_key(k) implies pair_map(r)[k] == pair_map(s)[k] by {
        assert(pair_keys(r).to_set().contains(k));
        let j = pair_keys(r).index_of(k);
        assert(pair_keys(r)[j] == k);
        if j < i {
            lemma_pair_map_at(s, j);
        } else {
            lemma_pair_map_at(s, j + 1);
        }
        lemma_pair_map_at(r, j);
    }
    assert forall|k: Seq<char>|
        pair_map(r).contains_key(k) <==> #[trigger] pair_map(s).remove(s[i].0@).contains_key(
            k,
        ) by {
        assert(pair_keys(r).to_set().contains(k) == pair_keys(r).contains(k));
        assert(pair_keys(s).to_set().contains(k) == pair_keys(s).contains(k));
    }
    assert(pair_map(r) =~= pair_map(s).remove(s[i].0@));
}

proof fn lemma_pair_map_push(s: Seq<(String, ConnectionId)>, p: (String, ConnectionId))
    requires
        pair_keys(s).no_duplicates(),
        !pair_keys(s).contains(p.0@),
    ensures
        pair_keys(s.push(p)).no_duplicates(),
        pair_map(s.push(p)) == pair_map(s).insert(p.0@, p.1),
{
    let r = s.push(p);
    assert(pair_keys(r) =~= pair_keys(s).push(p.0@));
    lemma_push_distinct(pair_keys(s), p.0@);
    assert forall|k: Seq<char>| #[trigger]
        pair_map(r).contains_key(k) implies pair_map(r)[k] == pair_map(s).insert(p.0@, p.1)[k] by {
        let j = pair_keys(r).index_of(k);
        assert(pair_keys(r)[j] == k);
        lemma_pair_map_at(r, j);
        if j < s.len() {
            assert(pair_keys(s)[j] == k);
            assert(r[j] == s[j]);
            assert(k != p.0@);
            lemma_pair_map_at(s, j);
            assert(pair_map(r)[k] == r[j].1);
            assert(pair_map(s).insert(p.0@, p.1)[k] == pair_map(s)[k]);
            assert(pair_map(r)[k] == pair_map(s).insert(p.0@, p.1)[k]);
        } else {
            assert(r[j] == p);
            assert(k == p.0@);
            assert(pair_map(r)[k] == p.1);
            assert(pair_map(s).insert(p.0@, p.1)[k] == p.1);
        }
    }
    assert forall|k: Seq<char>|
        pair_map(r).contains_key(k) <==> #[trigger] pair_map(s).insert(p.0@, p.1).contains_key(
            k,
        ) by {
        if pair_keys(s).contains(k) {
            let j = choose|j: int| 0 <= j < pair_keys(s).len() && pair_keys(s)[j] == k;
            assert(pair_keys(r)[j] == k);
        }
        if k == p.0@ {
            assert(pair_keys(r)[s.len() as int] == k);
        }
        if pair_keys(r).contains(k) {
            let j = choose|j: int| 0 <= j < pair_keys(r).len() && pair_keys(r)[j] == k;
            if j < s.len() {
                assert(pair_keys(s)[j] == k);
            }
        }
    }
    assert(pair_map(r) =~= pair_map(s).insert(p.0@, p.1));
}

proof fn lemma_pair_map_update(s: Seq<(String, ConnectionId)>, i: int, p: (String, ConnectionId))
    requires
        0 <= i < s.len(),
        pair_keys(s).no_duplicates(),
        s[i].0@ == p.0@,
    ensures
        pair_keys(s.update(i, p)) =~= pair_keys(s),
        pair_map(s.update(i, p)) == pair_map(s).insert(p.0@, p.1),
{
    let r = s.update(i, p);
    assert(pair_keys(r) =~= pair_keys(s));
    assert forall|k: Seq<char>| #[trigger]
        pair_map(r).contains_key(k) implies pair_map(r)[k] == pair_map(s).insert(p.0@, p.1)[k] by {
        let j = pair_keys(r).index_of(k);
        assert(pair_keys(r)[j] == k);
        lemma_pair_map_at(r, j);
        lemma_pair_map_at(s, j);
        if j == i {
            assert(r[j] == p);
            assert(pair_map(r)[k] == p.1);
        } else {
            assert(r[j] == s[j]);
            assert(pair_keys(s)[j] == k);
            assert(pair_keys(s)[i] == p.0@);
            assert(k != p.0@);
            assert(pair_map(r)[k] == pair_map(s)[k]);
        }
    }
    assert forall|k: Seq<char>|
        pair_map(r).contains_key(k) <==> #[trigger] pair_map(s).insert(p.0@, p.1).contains_key(
            k,
        ) by {
        if k == p.0@ {
            assert(pair_keys(s)[i] == k);
        }
    }
    assert(pair_map(r) =~= pair_map(s).insert(p.0@, p.1));
}

/// The position of `x` in `v`.
fn find_connection(v: &Vec<ConnectionId>, x: ConnectionId) -> (r: Option<usize>)
    ensures
        match r {
            Some(i) => i < v@.len() && v@[i as int] == x,
            None => !v@.contains(x),
        },
{
    let mut i: usize = 0;
    while i < v.len()
        invariant
            0 <= i <= v@.len(),
            forall|j: int| 0 <= j < i ==> v@[j] != x,
        decreases v@.len() - i,
    {
        if v[i] == x {
            return Some(i);
        }
        i = i + 1;
    }
    None
}

/// The position of the string equal to `x` in `v`.
fn find_string(v: &Vec<String>, x: &String) -> (r: Option<usize>)
    ensures
        match r {
            Some(i) => i < v@.len() && v@[i as int]@ == x@,
            None => !string_views(v@).contains(x@),
        },
{
    let mut i: usize = 0;
    while i < v.len()
        invariant
            0 <= i <= v@.len(),
            forall|j: int| 0 <= j < i ==> v@[j]@ != x@,
        decreases v@.len() - i,
    {
        if v[i] == *x {
            return Some(i);
        }
        i = i + 1;
    }
    proof {
        if string_views(v@).contains(x@) {
            let j = choose|j: int| 0 <= j < v@.len() && string_views(v@)[j] == x@;
            assert(v@[j]@ == x@);
        }
    }
    None
}

/// The position of the entry whose key equals `x` in `v`.
fn find_key(v: &Vec<(String, ConnectionId)>, x: &String) -> (r: Option<usize>)
    ensures
        r is Some <==> pair_keys(v@).contains(x@),
        match r {
            Some(i) => i < v@.len() && v@[i as int].0@ == x@,
            None => !pair_keys(v@).contains(x@),
        },
{
    let mut i: usize = 0;
    while i < v.len()
        invariant
            0 <= i <= v@.len(),
            forall|j: int| 0 <= j < i ==> v@[j].0@ != x@,
        decreases v@.len() - i,
    {
        if v[i].0 == *x {
            proof {
                assert(pair_keys(v@)[i as int] == x@);
            }
            return Some(i);
        }
        i = i + 1;
    }
    proof {
        if pair_keys(v@).contains(x@) {
            let j = choose|j: int| 0 <= j < v@.len() && pair_keys(v@)[j] == x@;
            assert(v@[j].0@ == x@);
        }
    }
    None
}

fn clone_string(s: &String) -> (r: String)
    ensures
        r == *s,
{
    s.clone()
}

/// Removes the entry with key `key`, if any.
fn remove_key(v: &mut Vec<(String, ConnectionId)>, key: &String)
    requires
        pair_keys(old(v)@).no_duplicates(),
    ensures
        pair_keys(final(v)@).no_duplicates(),
        pair_map(final(v)@) == pair_map(old(v)@).remove(key@),
{
    match find_key(v, key) {
        Some(i) => {
            let ghost before = v@;
            v.remove(i);
            proof {
                lemma_pair_map_remove(before, i as int);
            }
        },
        None => {
            proof {
                assert(pair_map(v@) =~= pair_map(v@).remove(key@));
            }
        },
    }
}

/// Removes the string equal to `key`, if any.
fn remove_string(v: &mut Vec<String>, key: &String)
    requires
        string_views(old(v)@).no_duplicates(),
    ensures
        string_views(final(v)@).no_duplicates(),
        string_views(final(v)@).to_set() == string_views(old(v)@).to_set().remove(key@),
{
    match find_string(v, key) {
        Some(i) => {
            let ghost before = v@;
            v.remove(i);
            proof {
                lemma_string_views_remove(before, i as int);
                assert(string_views(before)[i as int] == key@);
                lemma_remove_distinct(string_views(before), i as int);
            }
        },
        None => {
            proof {
                assert(!string_views(v@).to_set().contains(key@));
                assert(string_views(v@).to_set() =~= string_views(v@).to_set().remove(key@));
            }
        },
    }
}

/// The pairs of `s` that do not belong to `conn`, in order.
pub open spec fn drop_conn(s: Seq<(ConnectionId, Seq<char>)>, conn: ConnectionId) -> Seq<
    (ConnectionId, Seq<char>),
>
    decreases s.len(),
{
    if s.len() == 0 {
        s
    } else {
        let r = drop_conn(s.drop_last(), conn);
        if s.last().0 == conn {
            r
        } else {
            r.push(s.last())
        }
    }
}

proof fn lemma_drop_conn(s: Seq<(ConnectionId, Seq<char>)>, conn: ConnectionId)
    requires
        s.no_duplicates(),
    ensures
        drop_conn(s, conn).no_duplicates(),
        forall|k: (ConnectionId, Seq<char>)| #[trigger]
            drop_conn(s, conn).contains(k) <==> (s.contains(k) && k.0 != conn),
    decreases s.len(),
{
    if s.len() > 0 {
        let t = s.drop_last();
        let x = s.last();
        assert(t.push(x) =~= s);
        assert(t.no_duplicates());
        lemma_drop_conn(t, conn);
        lemma_push_contains(t, x);
        assert(!t.contains(x)) by {
            if t.contains(x) {
                let j = choose|j: int| 0 <= j < t.len() && t[j] == x;
                assert(s[j] == s[s.len() - 1]);
            }
        }
        let r = drop_conn(t, conn);
        lemma_push_contains(r, x);
        if x.0 != conn {
            lemma_push_distinct(r, x);
        }
    }
}

/// Removes the entries of `conn`.
fn remove_conn_entries(v: &mut Vec<(ConnectionId, String)>, conn: ConnectionId)
    requires
        sent_views(old(v)@).no_duplicates(),
    ensures
        sent_views(final(v)@).no_duplicates(),
        sent_views(final(v)@).to_set() == sent_views(old(v)@).to_set().filter(
            |p: (ConnectionId, Seq<char>)| p.0 != conn,
        ),
{
    let mut all: Vec<(ConnectionId, String)> = Vec::new();
    std::mem::swap(&mut all, v);
    let ghost src = sent_views(all@);
    let n = all.len();
    let mut i: usize = 0;
    while i < n
        invariant
            0 <= i <= n,
            n == all@.len(),
            src == sent_views(all@),
            sent_views(v@) == drop_conn(src.take(i as int), conn),
        decreases n - i,
    {
        proof {
            assert(src.take(i + 1).drop_last() =~= src.take(i as int));
            assert(src.take(i + 1).last() == src[i as int]);
        }
        if all[i].0 != conn {
            let ghost before = v@;
            let p = (all[i].0, clone_string(&all[i].1));
            v.push(p);
            proof {
                assert(sent_views(v@) =~= sent_views(before).push(src[i as int]));
            }
        }
        i = i + 1;
    }
    proof {
        assert(src.take(n as int) =~= src);
        lemma_drop_conn(src, conn);
        assert(sent_views(v@).to_set() =~= src.to_set().filter(
            |p: (ConnectionId, Seq<char>)| p.0 != conn,
        ));
    }
}

/// Whether `(conn, root)` is among `v`'s entries.
fn find_sent(v: &Vec<(ConnectionId, String)>, conn: ConnectionId, root: &String) -> (r: bool)
    ensures
        r == sent_views(v@).contains((conn, root@)),
{
    let mut i: usize = 0;
    while i < v.len()
        invariant
            0 <= i <= v@.len(),
            forall|j: int| 0 <= j < i ==> sent_views(v@)[j] != (conn, root@),
        decreases v@.len() - i,
    {
        if v[i].0 == conn && v[i].1 == *root {
            proof {
                assert(sent_views(v@)[i as int] == (conn, root@));
            }
            return true;
        }
        i = i + 1;
    }
    false
}

/// What the daemon does next with a message from a proxy.
#[derive(Debug)]
pub enum MessageStep {
    /// Run the request's handler; its response is sent when it is ready.
    RunHandler(RequestHandler),
    /// Answer at once with an `InvalidRequest` error carrying `message`,
    /// delivered along `route`.
    Reply { route: Route, message: String },
    /// Handle the notification; nothing is sent.
    Notify(NotificationKind),
    /// Drop the notification; nothing is sent.
    Ignore,
}

/// `st` with its host-scoped requests replaced by `hs`.
pub open spec fn with_host_scoped(st: RegistryState, hs: Map<Seq<char>, ConnectionId>) -> RegistryState {
    RegistryState {
        connections: st.connections,
        host_scoped_requests: hs,
        in_progress: st.in_progress,
        grace_timer_running: st.grace_timer_running,
        snapshot_sent: st.snapshot_sent,
    }
}

/// The registry once a message of kind `kind` with `request_id` from `conn`
/// is accepted: a host-scoped request with an id is tracked for failover.
pub open spec fn tracked_for(
    st: RegistryState,
    kind: ClientMessageKind,
    request_id: Seq<char>,
    conn: ConnectionId,
) -> RegistryState {
    if kind is HostScoped && request_id.len() > 0 {
        with_host_scoped(st, st.host_scoped_requests.insert(request_id, conn))
    } else {
        st
    }
}

/// Where a repository metadata snapshot goes after a navigation.
#[derive(Clone, Copy, Debug, PartialEq, Eq, Structural)]
pub enum SnapshotTarget {
    /// The snapshot of this repository was already sent on this connection.
    Skip,
    /// Send to the connection that navigated.
    Connection(ConnectionId),
    /// Send to every connection.
    Broadcast,
}

impl ConnectionRegistry {
    /// The registry's internal invariant: no connection, host-scoped request
    /// or abortable request is recorded twice, and the shutdown timer runs
    /// exactly when no connection is open.
    pub closed spec fn wf(&self) -> bool {
        &&& self.connections@.no_duplicates()
        &&& pair_keys(self.host_scoped_requests@).no_duplicates()
        &&& string_views(self.in_progress@).no_duplicates()
        &&& self.grace_timer_running <==> self.connections@.len() == 0
        &&& sent_views(self.snapshot_sent@).no_duplicates()
        &&& forall|p: (ConnectionId, Seq<char>)| #[trigger]
            sent_views(self.snapshot_sent@).contains(p) ==> self.connections@.contains(p.0)
    }

    /// A daemon that has just started: no connection, and the shutdown timer
    /// running so that it exits if no proxy ever connects.
    pub fn new() -> (r: Self)
        ensures
            r.wf(),
            r@.connections == Set::<ConnectionId>::empty(),
            r@.host_scoped_requests == Map::<Seq<char>, ConnectionId>::empty(),
            r@.in_progress == Set::<Seq<char>>::empty(),
            r@.grace_timer_running,
            r@.snapshot_sent == Set::<(ConnectionId, Seq<char>)>::empty(),
    {
        let r = ConnectionRegistry {
            connections: Vec::new(),
            host_scoped_requests: Vec::new(),
            in_progress: Vec::new(),
            grace_timer_running: true,
            snapshot_sent: Vec::new(),
        };
        proof {
            assert(r@.connections =~= Set::<ConnectionId>::empty());
            assert(r@.host_scoped_requests =~= Map::<Seq<char>, ConnectionId>::empty());
            assert(string_views(r.in_progress@) =~= Seq::<Seq<char>>::empty());
            assert(r@.in_progress =~= Set::<Seq<char>>::empty());
            assert(sent_views(r.snapshot_sent@) =~= Seq::<(ConnectionId, Seq<char>)>::empty());
            assert(r@.snapshot_sent =~= Set::<(ConnectionId, Seq<char>)>::empty());
        }
        r
    }

    /// Whether the shutdown timer is running.
    pub fn grace_timer_running(&self) -> (r: bool)
        ensures
            r == self@.grace_timer_running,
    {
        self.grace_timer_running
    }

    /// Whether `conn` is open.
    pub fn is_connected(&self, conn: ConnectionId) -> (r: bool)
        ensures
            r == self@.connections.contains(conn),
    {
        find_connection(&self.connections, conn).is_some()
    }

    /// Records that the proxy `conn` connected. Returns whether the running
    /// shutdown timer must be cancelled.
    pub fn register_connection(&mut self, conn: ConnectionId) -> (cancel_grace_timer: bool)
        requires
            old(self).wf(),
        ensures
            final(self).wf(),
            cancel_grace_timer == old(self)@.grace_timer_running,
            final(self)@.connections == old(self)@.connections.insert(conn),
            final(self)@.host_scoped_requests == old(self)@.host_scoped_requests,
            final(self)@.in_progress == old(self)@.in_progress,
            !final(self)@.grace_timer_running,
            final(self)@.snapshot_sent == old(self)@.snapshot_sent.filter(
                |p: (ConnectionId, Seq<char>)| p.0 != conn,
            ),
    {
        let ghost old_conns = self.connections@;
        let ghost old_sent = sent_views(self.snapshot_sent@);
        remove_conn_entries(&mut self.snapshot_sent, conn);
        let cancel = self.grace_timer_running;
        self.grace_timer_running = false;
        match find_connection(&self.connections, conn) {
            Some(_) => {
                proof {
                    assert(self.connections@.to_set().contains(conn));
                    assert(self.connections@.to_set() =~= self.connections@.to_set().insert(conn));
                }
            },
            None => {
                let ghost before = self.connections@;
                self.connections.push(conn);
                proof {
                    lemma_push_distinct(before, conn);
                    lemma_push_contains(before, conn);
                    assert(self.connections@.len() > 0);
                }
            },
        }
        proof {
            assert forall|p: (ConnectionId, Seq<char>)| #[trigger]
                sent_views(self.snapshot_sent@).contains(p) implies self.connections@.contains(
                p.0,
            ) by {
                assert(sent_views(self.snapshot_sent@).to_set().contains(p));
                assert(old_sent.to_set().contains(p));
                assert(old_conns.contains(p.0));
                assert(self.connections@.to_set().contains(p.0));
            }
        }
        cancel
    }

    /// Records that the proxy `conn` disconnected. A second deregistration
    /// of the same connection changes nothing. When the last connection
    /// closes, every host-scoped request is forgotten, the ones still running
    /// are to be aborted, and the shutdown timer is to be started.
    pub fn deregister_connection(&mut self, conn: ConnectionId) -> (r: Deregistration)
        requires
            old(self).wf(),
        ensures
            final(self).wf(),
            r.was_registered == old(self)@.connections.contains(conn),
            !r.was_registered ==> {
                &&& final(self)@ == old(self)@
                &&& r.aborted_requests@.len() == 0
                &&& !r.start_grace_timer
            },
            r.was_registered ==> final(self)@.connections == old(self)@.connections.remove(conn),
            !final(self)@.connections.contains(conn),
            r.was_registered && final(self)@.connections != Set::<ConnectionId>::empty() ==> {
                &&& final(self)@.host_scoped_requests == old(self)@.host_scoped_requests
                &&& final(self)@.in_progress == old(self)@.in_progress
                &&& r.aborted_requests@.len() == 0
                &&& !r.start_grace_timer
            },
            r.was_registered && final(self)@.connections == Set::<ConnectionId>::empty() ==> {
                &&& final(self)@.host_scoped_requests == Map::<Seq<char>, ConnectionId>::empty()
                &&& final(self)@.in_progress == old(self)@.in_progress.difference(
                    old(self)@.host_scoped_requests.dom(),
                )
                &&& string_views(r.aborted_requests@).to_set() == old(self)@.in_progress.intersect(
                    old(self)@.host_scoped_requests.dom(),
                )
                &&& string_views(r.aborted_requests@).no_duplicates()
                &&& r.start_grace_timer
            },
            final(self)@.grace_timer_running == (final(self)@.connections == Set::<
                ConnectionId,
            >::empty()),
            final(self)@.snapshot_sent == old(self)@.snapshot_sent.filter(
                |p: (ConnectionId, Seq<char>)| p.0 != conn,
            ),
    {
        let ghost entry_view = self@;
        let ghost old_sent = sent_views(self.snapshot_sent@);
        remove_conn_entries(&mut self.snapshot_sent, conn);
        proof {
            assert forall|p: (ConnectionId, Seq<char>)| #[trigger]
                sent_views(self.snapshot_sent@).contains(p) implies self.connections@.contains(p.0)
                && p.0 != conn by {
                assert(sent_views(self.snapshot_sent@).to_set().contains(p));
                assert(old_sent.to_set().contains(p));
            }
        }
        let mut aborted: Vec<String> = Vec::new();
        let idx = find_connection(&self.connections, conn);
        let i = match idx {
            None => {
                proof {
                    assert(!self@.connections.contains(conn));
                    lemma_empty_to_set(self.connections@);
                    assert(entry_view.snapshot_sent =~= entry_view.snapshot_sent.filter(
                        |p: (ConnectionId, Seq<char>)| p.0 != conn,
                    ));
                }
                return Deregistration {
                    was_registered: false,
                    aborted_requests: aborted,
                    start_grace_timer: false,
                };
            },
            Some(i) => i,
        };
        let ghost old_view = self@;
        let ghost old_conns = self.connections@;
        self.connections.remove(i);
        proof {
            lemma_remove_distinct(old_conns, i as int);
            lemma_empty_to_set(self.connections@);
            assert forall|p: (ConnectionId, Seq<char>)| #[trigger]
                sent_views(self.snapshot_sent@).contains(p) implies self.connections@.contains(
                p.0,
            ) by {
                assert(old_conns.contains(p.0));
                assert(self.connections@.contains(p.0));
            }
        }
        if self.connections.len() > 0 {
            return Deregistration {
                was_registered: true,
                aborted_requests: aborted,
                start_grace_timer: false,
            };
        }
        // No connection is left: forget every host-scoped request and abort
        // the ones still running.
        let ghost hosts = self.host_scoped_requests@;
        let ghost d = pair_map(hosts).dom();
        let mut prog: Vec<String> = Vec::new();
        std::mem::swap(&mut prog, &mut self.in_progress);
        let mut kept: Vec<String> = Vec::new();
        let n = prog.len();
        let mut j: usize = 0;
        while j < n
            invariant
                0 <= j <= n,
                n == prog@.len(),
                hosts == self.host_scoped_requests@,
                d == pair_map(hosts).dom(),
                kept@ == keep_out(prog@.take(j as int), d),
                aborted@ == keep_in(prog@.take(j as int), d),
            decreases n - j,
        {
            proof {
                assert(prog@.take(j + 1).drop_last() =~= prog@.take(j as int));
                assert(prog@.take(j + 1).last() == prog@[j as int]);
            }
            let p = clone_string(&prog[j]);
            proof {
                assert(p == prog@[j as int]);
            }
            let hosted = find_key(&self.host_scoped_requests, &p).is_some();
            proof {
                assert(hosted == d.contains(p@));
            }
            if hosted {
                aborted.push(p);
            } else {
                kept.push(p);
            }
            j = j + 1;
        }
        proof {
            assert(prog@.take(n as int) =~= prog@);
            lemma_keep(prog@, d);
        }
        self.in_progress = kept;
        self.host_scoped_requests = Vec::new();
        proof {
            assert(pair_keys(self.host_scoped_requests@) =~= Seq::<Seq<char>>::empty());
            assert(self@.host_scoped_requests =~= Map::<Seq<char>, ConnectionId>::empty());
            assert(old_view.in_progress == string_views(prog@).to_set());
            assert(self@.in_progress =~= old_view.in_progress.difference(
                old_view.host_scoped_requests.dom(),
            ));
            assert(string_views(aborted@).to_set() =~= old_view.in_progress.intersect(
                old_view.host_scoped_requests.dom(),
            ));
        }
        self.grace_timer_running = true;
        Deregistration { was_registered: true, aborted_requests: aborted, start_grace_timer: true }
    }

    /// Records that a host-scoped request came in on `conn`, so that its
    /// response can be delivered through another connection should `conn`
    /// close first. Requests without an id are not tracked.
    pub fn track_host_scoped_request(&mut self, request_id: String, conn: ConnectionId)
        requires
            old(self).wf(),
        ensures
            final(self).wf(),
            final(self)@.snapshot_sent == old(self)@.snapshot_sent,
            final(self)@.connections == old(self)@.connections,
            final(self)@.in_progress == old(self)@.in_progress,
            final(self)@.grace_timer_running == old(self)@.grace_timer_running,
            final(self)@.host_scoped_requests == (if request_id@.len() == 0 {
                old(self)@.host_scoped_requests
            } else {
                old(self)@.host_scoped_requests.insert(request_id@, conn)
            }),
    {
        if request_id.as_str().is_empty() {
            return;
        }
        match find_key(&self.host_scoped_requests, &request_id) {
            Some(i) => {
                let ghost before = self.host_scoped_requests@;
                let ghost p = (request_id, conn);
                self.host_scoped_requests.set(i, (request_id, conn));
                proof {
                    lemma_pair_map_update(before, i as int, p);
                }
            },
            None => {
                let ghost before = self.host_scoped_requests@;
                let ghost p = (request_id, conn);
                self.host_scoped_requests.push((request_id, conn));
                proof {
                    lemma_pair_map_push(before, p);
                }
            },
        }
    }

    /// Records that the handler of `request_id` is running and can be
    /// aborted.
    pub fn track_in_progress(&mut self, request_id: String)
        requires
            old(self).wf(),
        ensures
            final(self).wf(),
            final(self)@.snapshot_sent == old(self)@.snapshot_sent,
            final(self)@.connections == old(self)@.connections,
            final(self)@.host_scoped_requests == old(self)@.host_scoped_requests,
            final(self)@.grace_timer_running == old(self)@.grace_timer_running,
            final(self)@.in_progress == old(self)@.in_progress.insert(request_id@),
    {
        match find_string(&self.in_progress, &request_id) {
            Some(i) => {
                proof {
                    assert(string_views(self.in_progress@)[i as int] == request_id@);
                    assert(string_views(self.in_progress@).to_set().contains(request_id@));
                    assert(self@.in_progress =~= self@.in_progress.insert(request_id@));
                }
            },
            None => {
                let ghost before = self.in_progress@;
                let ghost k = request_id@;
                self.in_progress.push(request_id);
                proof {
                    assert(string_views(self.in_progress@) =~= string_views(before).push(k));
                    lemma_push_distinct(string_views(before), k);
                    lemma_push_contains(string_views(before), k);
                }
            },
        }
    }

    /// Records that the handler of `request_id` finished or was cancelled.
    pub fn finish_request(&mut self, request_id: &String)
        requires
            old(self).wf(),
        ensures
            final(self).wf(),
            final(self)@.snapshot_sent == old(self)@.snapshot_sent,
            final(self)@.connections == old(self)@.connections,
            final(self)@.host_scoped_requests == old(self)@.host_scoped_requests,
            final(self)@.grace_timer_running == old(self)@.grace_timer_running,
            final(self)@.in_progress == old(self)@.in_progress.remove(request_id@),
    {
        remove_string(&mut self.in_progress, request_id);
    }

    /// Handles an abort of `request_id`: it is no longer tracked as
    /// host-scoped nor as running. Returns whether its handler was running
    /// and must be aborted.
    pub fn abort_request(&mut self, request_id: &String) -> (abort_handler: bool)
        requires
            old(self).wf(),
        ensures
            final(self).wf(),
            abort_handler == old(self)@.in_progress.contains(request_id@),
            final(self)@.snapshot_sent == old(self)@.snapshot_sent,
            final(self)@.connections == old(self)@.connections,
            final(self)@.grace_timer_running == old(self)@.grace_timer_running,
            final(self)@.host_scoped_requests == old(self)@.host_scoped_requests.remove(
                request_id@,
            ),
            final(self)@.in_progress == old(self)@.in_progress.remove(request_id@),
    {
        remove_key(&mut self.host_scoped_requests, request_id);
        let running = find_string(&self.in_progress, request_id).is_some();
        proof {
            if running {
                let i = choose|i: int|
                    0 <= i < self.in_progress@.len() && self.in_progress@[i]@ == request_id@;
                assert(string_views(self.in_progress@)[i] == request_id@);
            }
        }
        remove_string(&mut self.in_progress, request_id);
        running
    }

    /// Decides where a message goes, and stops tracking its request as
    /// host-scoped: sending a response ends the request. A message for a
    /// connection is sent there; when that connection has gone, a
    /// host-scoped response goes through another connection and any other
    /// message is dropped. A message for no particular connection is
    /// broadcast.
    pub fn route_message(&mut self, target: Option<ConnectionId>, request_id: Option<&String>) -> (r:
        Route)
        requires
            old(self).wf(),
        ensures
            final(self).wf(),
            final(self)@.snapshot_sent == old(self)@.snapshot_sent,
            final(self)@.connections == old(self)@.connections,
            final(self)@.in_progress == old(self)@.in_progress,
            final(self)@.grace_timer_running == old(self)@.grace_timer_running,
            final(self)@.host_scoped_requests == match request_id {
                Some(rid) => old(self)@.host_scoped_requests.remove(rid@),
                None => old(self)@.host_scoped_requests,
            },
            r == route_for(old(self)@, target, match request_id {
                Some(rid) => Some(rid@),
                None => None,
            }),
    {
        let is_host_scoped = match request_id {
            Some(rid) => !rid.as_str().is_empty() && find_key(
                &self.host_scoped_requests,
                rid,
            ).is_some(),
            None => false,
        };
        match request_id {
            Some(rid) => remove_key(&mut self.host_scoped_requests, rid),
            None => {},
        }
        match target {
            Some(t) => {
                if find_connection(&self.connections, t).is_some() {
                    Route::Direct { target: t, failover_on_error: is_host_scoped }
                } else if is_host_scoped {
                    Route::Failover { target: t }
                } else {
                    Route::Drop
                }
            },
            None => Route::Broadcast,
        }
    }

    /// The open connections other than `target`, each once: where a
    /// host-scoped response for `target` may be delivered instead.
    pub fn failover_candidates(&self, target: ConnectionId) -> (r: Vec<ConnectionId>)
        requires
            self.wf(),
        ensures
            r@.no_duplicates(),
            r@.to_set() == self@.connections.remove(target),
    {
        let n = self.connections.len();
        let mut r: Vec<ConnectionId> = Vec::new();
        let mut i: usize = 0;
        while i < n
            invariant
                0 <= i <= n,
                n == self.connections@.len(),
                self.connections@.no_duplicates(),
                r@.no_duplicates(),
                forall|c: ConnectionId| #[trigger]
                    r@.contains(c) <==> (self.connections@.take(i as int).contains(c) && c
                        != target),
            decreases n - i,
        {
            let c = self.connections[i];
            let ghost before = r@;
            proof {
                lemma_push_contains(self.connections@.take(i as int), c);
                assert(self.connections@.take(i + 1) =~= self.connections@.take(i as int).push(c));
            }
            if c != target {
                proof {
                    if before.contains(c) {
                        let j = choose|j: int|
                            0 <= j < i && self.connections@.take(i as int)[j] == c;
                        assert(self.connections@[j] == self.connections@[i as int]);
                    }
                    lemma_push_distinct(before, c);
                    lemma_push_contains(before, c);
                }
                r.push(c);
            }
            i = i + 1;
        }
        proof {
            assert(self.connections@.take(n as int) =~= self.connections@);
            assert(r@.to_set() =~= self@.connections.remove(target));
        }
        r
    }

    /// Whether the snapshot of the repository at `root` was already sent on
    /// `conn`.
    pub fn snapshot_already_sent(&self, conn: ConnectionId, root: &String) -> (r: bool)
        ensures
            r == self@.snapshot_sent.contains((conn, root@)),
    {
        let r = find_sent(&self.snapshot_sent, conn, root);
        proof {
            if sent_views(self.snapshot_sent@).contains((conn, root@)) {
                assert(self@.snapshot_sent.contains((conn, root@)));
            }
        }
        r
    }

    /// Where the metadata snapshot of the directory at `root`, reached by a
    /// navigation on `conn`, is sent: a git repository's snapshot goes to
    /// that connection, once per connection; any other directory's is
    /// broadcast.
    pub fn snapshot_target(&self, conn: ConnectionId, root: &String, is_git: bool) -> (r:
        SnapshotTarget)
        ensures
            r == (if !is_git {
                SnapshotTarget::Broadcast
            } else if self@.snapshot_sent.contains((conn, root@)) {
                SnapshotTarget::Skip
            } else {
                SnapshotTarget::Connection(conn)
            }),
    {
        if !is_git {
            SnapshotTarget::Broadcast
        } else if self.snapshot_already_sent(conn, root) {
            SnapshotTarget::Skip
        } else {
            SnapshotTarget::Connection(conn)
        }
    }

    /// Records that the snapshot of the repository at `root` was sent on
    /// `conn`. Nothing is recorded for a connection that is not open.
    pub fn record_snapshot_sent(&mut self, conn: ConnectionId, root: String)
        requires
            old(self).wf(),
        ensures
            final(self).wf(),
            final(self)@.connections == old(self)@.connections,
            final(self)@.host_scoped_requests == old(self)@.host_scoped_requests,
            final(self)@.in_progress == old(self)@.in_progress,
            final(self)@.grace_timer_running == old(self)@.grace_timer_running,
            final(self)@.snapshot_sent == (if old(self)@.connections.contains(conn) {
                old(self)@.snapshot_sent.insert((conn, root@))
            } else {
                old(self)@.snapshot_sent
            }),
    {
        if find_connection(&self.connections, conn).is_none() {
            return;
        }
        if find_sent(&self.snapshot_sent, conn, &root) {
            proof {
                assert(self@.snapshot_sent =~= self@.snapshot_sent.insert((conn, root@)));
            }
            return;
        }
        let ghost before = self.snapshot_sent@;
        let ghost k = (conn, root@);
        self.snapshot_sent.push((conn, root));
        proof {
            assert(sent_views(self.snapshot_sent@) =~= sent_views(before).push(k));
            lemma_push_distinct(sent_views(before), k);
            lemma_push_contains(sent_views(before), k);
        }
    }

    /// Records that the snapshot of the repository at `root` was sent on
    /// every open connection (it was broadcast when the repository finished
    /// indexing).
    pub fn record_snapshot_sent_everywhere(&mut self, root: &String)
        requires
            old(self).wf(),
        ensures
            final(self).wf(),
            final(self)@.connections == old(self)@.connections,
            final(self)@.host_scoped_requests == old(self)@.host_scoped_requests,
            final(self)@.in_progress == old(self)@.in_progress,
            final(self)@.grace_timer_running == old(self)@.grace_timer_running,
            final(self)@.snapshot_sent == old(self)@.snapshot_sent.union(
                Set::new(
                    |p: (ConnectionId, Seq<char>)|
                        old(self)@.connections.contains(p.0) && p.1 == root@,
                ),
            ),
    {
        let ids = self.connection_ids();
        let ghost start = self@;
        let n = ids.len();
        let mut i: usize = 0;
        while i < n
            invariant
                0 <= i <= n,
                n == ids@.len(),
                ids@.to_set() == start.connections,
                self.wf(),
                self@.connections == start.connections,
                self@.host_scoped_requests == start.host_scoped_requests,
                self@.in_progress == start.in_progress,
                self@.grace_timer_running == start.grace_timer_running,
                self@.snapshot_sent == start.snapshot_sent.union(
                    Set::new(
                        |p: (ConnectionId, Seq<char>)|
                            ids@.take(i as int).contains(p.0) && p.1 == root@,
                    ),
                ),
            decreases n - i,
        {
            let c = ids[i];
            let ghost before = self@.snapshot_sent;
            proof {
                assert(ids@.to_set().contains(c));
            }
            let r = root.clone();
            assert(r@ == root@);
            self.record_snapshot_sent(c, r);
            proof {
                assert(self@.snapshot_sent == before.insert((c, root@)));
                assert forall|p: (ConnectionId, Seq<char>)|
                    #[trigger] self@.snapshot_sent.contains(p) <==> (start.snapshot_sent.contains(p)
                        || (ids@.take(i + 1).contains(p.0) && p.1 == root@)) by {
                    lemma_take_push(ids@, i as int, p.0);
                }
                assert(self@.snapshot_sent =~= start.snapshot_sent.union(
                    Set::new(
                        |p: (ConnectionId, Seq<char>)|
                            ids@.take(i + 1).contains(p.0) && p.1 == root@,
                    ),
                ));
            }
            i = i + 1;
        }
        proof {
            assert(ids@.take(n as int) =~= ids@);
            assert forall|k: ConnectionId| ids@.contains(k) <==> start.connections.contains(k) by {
                assert(ids@.to_set().contains(k) <==> ids@.contains(k));
            }
            assert(self@.snapshot_sent =~= start.snapshot_sent.union(
                Set::new(
                    |p: (ConnectionId, Seq<char>)| start.connections.contains(p.0) && p.1 == root@,
                ),
            ));
        }
    }

    /// Accepts a message of kind `kind` with `request_id` from `conn`: a
    /// host-scoped request is tracked for failover; a request is handed to
    /// its handler; a message whose variant is missing or not supported is
    /// answered at once with an error, routed back to `conn`; a
    /// notification changes nothing here and is never answered.
    pub fn handle_message(&mut self, conn: ConnectionId, request_id: &String, kind: ClientMessageKind) -> (r:
        MessageStep)
        requires
            old(self).wf(),
        ensures
            final(self).wf(),
            match dispatch_spec(kind) {
                DispatchSpec::Handle { handler, .. } => {
                    &&& r matches MessageStep::RunHandler(h) && h == handler
                    &&& final(self)@ == tracked_for(old(self)@, kind, request_id@, conn)
                },
                DispatchSpec::InvalidRequest { message } => {
                    &&& r matches MessageStep::Reply { route, message: m } && m@ == message
                        && route == route_for(
                        tracked_for(old(self)@, kind, request_id@, conn),
                        Some(conn),
                        Some(request_id@),
                    )
                    &&& final(self)@ == with_host_scoped(
                        old(self)@,
                        old(self)@.host_scoped_requests.remove(request_id@),
                    )
                },
                DispatchSpec::Notify(n) => {
                    &&& r matches MessageStep::Notify(k) && k == n
                    &&& final(self)@ == old(self)@
                },
                DispatchSpec::Ignore => {
                    &&& r is Ignore
                    &&& final(self)@ == old(self)@
                },
            },
    {
        let ghost start = self@;
        match dispatch(kind) {
            Dispatch::Handle { handler, host_scoped } => {
                if host_scoped {
                    self.track_host_scoped_request(request_id.clone(), conn);
                }
                proof {
                    assert(self@.host_scoped_requests
                        =~= tracked_for(start, kind, request_id@, conn).host_scoped_requests);
                }
                MessageStep::RunHandler(handler)
            },
            Dispatch::InvalidRequest { message } => {
                if let ClientMessageKind::HostScoped(_) = kind {
                    self.track_host_scoped_request(request_id.clone(), conn);
                }
                proof {
                    assert(self@.host_scoped_requests
                        =~= tracked_for(start, kind, request_id@, conn).host_scoped_requests);
                }
                let route = self.route_message(Some(conn), Some(request_id));
                proof {
                    assert(self@.host_scoped_requests =~= start.host_scoped_requests.remove(
                        request_id@,
                    ));
                }
                MessageStep::Reply { route, message }
            },
            Dispatch::Notify(n) => MessageStep::Notify(n),
            Dispatch::Ignore => MessageStep::Ignore,
        }
    }

    /// The open connections, each once: where a broadcast goes.
    pub fn connection_ids(&self) -> (r: Vec<ConnectionId>)
        requires
            self.wf(),
        ensures
            r@.no_duplicates(),
            r@.to_set() == self@.connections,
    {
        let n = self.connections.len();
        let mut r: Vec<ConnectionId> = Vec::new();
        let mut i: usize = 0;
        while i < n
            invariant
                0 <= i <= n,
                n == self.connections@.len(),
                r@ == self.connections@.take(i as int),
            decreases n - i,
        {
            r.push(self.connections[i]);
            proof {
                assert(r@ =~= self.connections@.take(i + 1));
            }
            i = i + 1;
        }
        proof {
            assert(r@ =~= self.connections@);
        }
        r
    }
}

/// Where a message goes, given the registry before it is sent (see
/// [`ConnectionRegistry::route_message`]).
pub open spec fn route_for(
    st: RegistryState,
    target: Option<ConnectionId>,
    request_id: Option<Seq<char>>,
) -> Route {
    let host_scoped = match request_id {
        Some(rid) => rid.len() > 0 && st.host_scoped_requests.contains_key(rid),
        None => false,
    };
    match target {
        Some(t) => if st.connections.contains(t) {
            Route::Direct { target: t, failover_on_error: host_scoped }
        } else if host_scoped {
            Route::Failover { target: t }
        } else {
            Route::Drop
        },
        None => Route::Broadcast,
    }
}


/// In every well-formed registry the shutdown timer runs exactly when no
/// proxy is connected.
pub proof fn lemma_grace_timer_iff_no_connection(reg: &ConnectionRegistry)
    requires
        reg.wf(),
    ensures
        reg@.grace_timer_running <==> reg@.connections == Set::<ConnectionId>::empty(),
{
    lemma_empty_to_set(reg.connections@);
}

/// A message that is not the response to a tracked host-scoped request is
/// never delivered through another connection: it goes to its target, is
/// broadcast, or is dropped.
pub proof fn lemma_non_host_scoped_never_fails_over(
    st: RegistryState,
    target: Option<ConnectionId>,
    request_id: Option<Seq<char>>,
)
    requires
        !(request_id matches Some(rid) && rid.len() > 0 && st.host_scoped_requests.contains_key(
            rid,
        )),
    ensures
        !(route_for(st, target, request_id) is Failover),
        route_for(st, target, request_id) is Direct ==> !route_for(
            st,
            target,
            request_id,
        )->failover_on_error,
        target matches Some(t) && !st.connections.contains(t) ==> route_for(st, target, request_id)
            == Route::Drop,
{
}

/// The response to a tracked host-scoped request is never dropped: when its
/// connection is gone it fails over, and otherwise it is sent there with
/// failover should the send fail.
pub proof fn lemma_host_scoped_response_is_delivered(
    st: RegistryState,
    target: ConnectionId,
    request_id: Seq<char>,
)
    requires
        request_id.len() > 0,
        st.host_scoped_requests.contains_key(request_id),
    ensures
        st.connections.contains(target) ==> route_for(st, Some(target), Some(request_id))
            == (Route::Direct { target, failover_on_error: true }),
        !st.connections.contains(target) ==> route_for(st, Some(target), Some(request_id))
            == (Route::Failover { target }),
{
}

/// Once a repository finished indexing and its snapshot was broadcast, a
/// later navigation into it on any connection that was open then does not
/// send the snapshot again.
pub proof fn lemma_indexed_repository_is_not_resent(
    before: RegistryState,
    after: RegistryState,
    root: Seq<char>,
    conn: ConnectionId,
)
    requires
        after.snapshot_sent == before.snapshot_sent.union(
            Set::new(|p: (ConnectionId, Seq<char>)| before.connections.contains(p.0) && p.1 == root),
        ),
        before.connections.contains(conn),
    ensures
        after.snapshot_sent.contains((conn, root)),
{
    assert(Set::new(
        |p: (ConnectionId, Seq<char>)| before.connections.contains(p.0) && p.1 == root,
    ).contains((conn, root)));
}

/// A message whose variant is missing, or a session-scoped request whose
/// variant is missing or not supported, is answered exactly once, on the
/// connection it came from, with no failover, when that connection is open
/// and its request id is not tracked as host-scoped.
pub proof fn lemma_invalid_message_answered_to_sender(
    st: RegistryState,
    kind: ClientMessageKind,
    request_id: Seq<char>,
    conn: ConnectionId,
)
    requires
        dispatch_spec(kind) is InvalidRequest,
        !(kind is HostScoped),
        st.connections.contains(conn),
        !st.host_scoped_requests.contains_key(request_id),
    ensures
        route_for(tracked_for(st, kind, request_id, conn), Some(conn), Some(request_id))
            == (Route::Direct { target: conn, failover_on_error: false }),
{
}

/// A host-scoped request whose variant is missing or not supported is
/// answered on its connection when that connection is open, and may fail
/// over to another connection if that send fails.
pub proof fn lemma_invalid_host_scoped_request_may_fail_over(
    st: RegistryState,
    kind: ClientMessageKind,
    request_id: Seq<char>,
    conn: ConnectionId,
)
    requires
        dispatch_spec(kind) is InvalidRequest,
        kind is HostScoped,
        request_id.len() > 0,
        st.connections.contains(conn),
    ensures
        route_for(tracked_for(st, kind, request_id, conn), Some(conn), Some(request_id))
            == (Route::Direct { target: conn, failover_on_error: true }),
{
}

/// A notification is never answered and leaves the registry as it was.
pub proof fn lemma_notifications_are_not_answered(
    st: RegistryState,
    kind: ClientMessageKind,
    request_id: Seq<char>,
    conn: ConnectionId,
)
    requires
        kind is Notification,
    ensures
        dispatch_spec(kind) is Notify || dispatch_spec(kind) is Ignore,
        tracked_for(st, kind, request_id, conn) == st,
{
}

/// A message for a connection that is open is sent to that connection,
/// whatever its request id, and a push message (no request id) or a
/// response to an untracked request has no failover.
pub proof fn lemma_open_target_is_sent_directly(
    st: RegistryState,
    target: ConnectionId,
    request_id: Option<Seq<char>>,
)
    requires
        st.connections.contains(target),
    ensures
        route_for(st, Some(target), request_id) matches Route::Direct { target: t, .. } && t
            == target,
        request_id is None ==> route_for(st, Some(target), request_id) == (Route::Direct {
            target,
            failover_on_error: false,
        }),
        (request_id matches Some(rid) && !st.host_scoped_requests.contains_key(rid)) ==> route_for(
            st,
            Some(target),
            request_id,
        ) == (Route::Direct { target, failover_on_error: false }),
{
}

/// A push message without a target goes to every connection.
pub proof fn lemma_untargeted_message_is_broadcast(st: RegistryState, request_id: Option<Seq<char>>)
    ensures
        route_for(st, None, request_id) == Route::Broadcast,
{
}

} // verus!
