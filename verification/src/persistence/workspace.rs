//! Workspace connections, and the cache that keeps one per workspace.

use std::path::PathBuf;
use std::sync::Arc;

use vstd::prelude::*;

use crate::error::kind::Kind;
use crate::server::path_from;

verus! {

/// Workspace connection wrapper
pub struct Connection {
    /// Workspace identifier
    pub WorkspaceId: String,
    /// Database path for this workspace
    pub DatabasePath: std::path::PathBuf,
    /// Whether this connection is active
    pub Active: bool,
}

impl Connection {
    /// Create a new workspace connection, active
    pub fn New(WorkspaceId: String, DatabasePath: std::path::PathBuf) -> (r: Self)
        ensures
            r.WorkspaceId == WorkspaceId,
            r.DatabasePath == DatabasePath,
            r.Active,
    {
        Connection { WorkspaceId, DatabasePath, Active: true }
    }

    /// Close the connection
    pub fn Close(&mut self)
        ensures
            !final(self).Active,
            final(self).WorkspaceId == old(self).WorkspaceId,
            final(self).DatabasePath == old(self).DatabasePath,
    {
        self.Active = false;
    }
}

// ---------------------------------------------------------------------------
// The connection cache
// ---------------------------------------------------------------------------

/// Calls `dirs::data_local_dir`. What it returns depends on the platform
/// and the environment, so nothing is stated of it.
#[verifier::external_body]
pub(crate) fn data_local_dir() -> Option<PathBuf> {
    dirs::data_local_dir()
}

/// The path that `std::path::Path::join` makes of a base and a part.
pub uninterp spec fn joined_path(base: PathBuf, part: Seq<char>) -> PathBuf;

/// Calls `std::path::Path::join`; the contract names the path it makes.
#[verifier::external_body]
pub(crate) fn path_join(base: &PathBuf, part: &str) -> (r: PathBuf)
    ensures
        r == joined_path(*base, part@),
{
    base.join(part)
}

/// Calls `Arc::clone`: a second handle of the same connection.
#[verifier::external_body]
fn share(c: &Arc<Connection>) -> (r: Arc<Connection>)
    ensures
        r == *c,
{
    Arc::clone(c)
}

/// A cached connection as its workspace and whether it is active.
pub open spec fn entry(c: Connection) -> (Seq<char>, bool) {
    (c.WorkspaceId@, c.Active)
}

/// No workspace has two connections in the cache.
pub open spec fn ids_distinct(s: Seq<(Seq<char>, bool)>) -> bool {
    forall|i: int, j: int| 0 <= i < j < s.len() ==> s[i].0 != s[j].0
}

/// The position of the connection of a workspace, from `i` on.
pub open spec fn id_index_from(s: Seq<(Seq<char>, bool)>, id: Seq<char>, i: int) -> Option<int>
    decreases s.len() - i,
{
    if i < 0 || i >= s.len() {
        None
    } else if s[i].0 == id {
        Some(i)
    } else {
        id_index_from(s, id, i + 1)
    }
}

/// The position of the connection of a workspace in the cache.
pub open spec fn id_index(s: Seq<(Seq<char>, bool)>, id: Seq<char>) -> Option<int> {
    id_index_from(s, id, 0)
}

/// The position of the oldest inactive connection, from `i` on.
pub open spec fn inactive_from(s: Seq<(Seq<char>, bool)>, i: int) -> Option<int>
    decreases s.len() - i,
{
    if i < 0 || i >= s.len() {
        None
    } else if !s[i].1 {
        Some(i)
    } else {
        inactive_from(s, i + 1)
    }
}

/// One eviction: the oldest inactive connection, or else the oldest one.
pub open spec fn evict_one(s: Seq<(Seq<char>, bool)>) -> Seq<(Seq<char>, bool)> {
    match inactive_from(s, 0) {
        Some(i) => s.remove(i),
        None => s.remove(0),
    }
}

/// The cache after evictions until it holds fewer than `max` connections.
pub open spec fn evicted(s: Seq<(Seq<char>, bool)>, max: nat) -> Seq<(Seq<char>, bool)>
    decreases s.len(),
{
    if s.len() < max || s.len() == 0 {
        s
    } else {
        proof {
            lemma_inactive_from(s, 0);
        }
        evicted(evict_one(s), max)
    }
}

/// The cache without the connection of a workspace.
pub open spec fn without_id(s: Seq<(Seq<char>, bool)>, id: Seq<char>) -> Seq<(Seq<char>, bool)> {
    match id_index(s, id) {
        Some(i) => s.remove(i),
        None => s,
    }
}

/// The cache after a request for a workspace that has no active connection
/// in it: evictions make room, and a new active connection comes last.
pub open spec fn after_miss(s: Seq<(Seq<char>, bool)>, id: Seq<char>, max: nat) -> Seq<(Seq<char>, bool)> {
    without_id(evicted(s, max), id).push((id, true))
}

/// The number of active connections.
pub open spec fn active_count(s: Seq<(Seq<char>, bool)>) -> nat
    decreases s.len(),
{
    if s.len() == 0 {
        0
    } else {
        active_count(s.drop_last()) + (if s.last().1 {
            1nat
        } else {
            0nat
        })
    }
}

/// Where the search for a workspace from `k` on stops.
proof fn lemma_id_index_from(s: Seq<(Seq<char>, bool)>, id: Seq<char>, k: int)
    requires
        0 <= k,
    ensures
        match id_index_from(s, id, k) {
            Some(i) => k <= i < s.len() && s[i].0 == id,
            None => forall|j: int| k <= j < s.len() ==> s[j].0 != id,
        },
    decreases s.len() - k,
{
    if k < s.len() && s[k].0 != id {
        lemma_id_index_from(s, id, k + 1);
    }
}

/// Where the search for an inactive connection from `k` on stops.
pub proof fn lemma_inactive_from(s: Seq<(Seq<char>, bool)>, k: int)
    requires
        0 <= k,
    ensures
        match inactive_from(s, k) {
            Some(i) => k <= i < s.len() && !s[i].1,
            None => forall|j: int| k <= j < s.len() ==> s[j].1,
        },
    decreases s.len() - k,
{
    if k < s.len() && s[k].1 {
        lemma_inactive_from(s, k + 1);
    }
}

/// Removing a connection keeps the workspaces distinct.
proof fn lemma_remove_keeps_distinct(s: Seq<(Seq<char>, bool)>, i: int)
    requires
        ids_distinct(s),
        0 <= i < s.len(),
    ensures
        ids_distinct(s.remove(i)),
        forall|j: int| 0 <= j < s.remove(i).len() ==> s.remove(i)[j].0 != s[i].0,
{
    let r = s.remove(i);
    assert forall|a: int, b: int| 0 <= a < b < r.len() implies r[a].0 != r[b].0 by {
        let a0 = if a < i { a } else { a + 1 };
        let b0 = if b < i { b } else { b + 1 };
        assert(r[a] == s[a0] && r[b] == s[b0]);
    }
    assert forall|j: int| 0 <= j < r.len() implies r[j].0 != s[i].0 by {
        let j0 = if j < i { j } else { j + 1 };
        assert(r[j] == s[j0]);
    }
}

/// Removing the connection of a workspace keeps the workspaces distinct and
/// leaves none for that workspace.
proof fn lemma_remove_distinct(s: Seq<(Seq<char>, bool)>, id: Seq<char>)
    requires
        ids_distinct(s),
    ensures
        ids_distinct(without_id(s, id)),
        forall|j: int| 0 <= j < without_id(s, id).len() ==> without_id(s, id)[j].0 != id,
{
    lemma_id_index_from(s, id, 0);
    match id_index(s, id) {
        Some(i) => lemma_remove_keeps_distinct(s, i),
        None => {},
    }
}

/// Evictions keep the workspaces distinct and leave fewer than `max`
/// connections.
proof fn lemma_evicted(s: Seq<(Seq<char>, bool)>, max: nat)
    requires
        ids_distinct(s),
        max >= 1,
    ensures
        ids_distinct(evicted(s, max)),
        evicted(s, max).len() < max,
    decreases s.len(),
{
    if !(s.len() < max || s.len() == 0) {
        lemma_inactive_from(s, 0);
        match inactive_from(s, 0) {
            Some(i) => lemma_remove_keeps_distinct(s, i),
            None => lemma_remove_keeps_distinct(s, 0),
        }
        lemma_evicted(evict_one(s), max);
    }
}

/// A request that misses keeps the workspaces of the cache distinct.
proof fn lemma_after_miss_distinct(s: Seq<(Seq<char>, bool)>, id: Seq<char>, max: nat)
    requires
        ids_distinct(s),
        max >= 1,
    ensures
        ids_distinct(after_miss(s, id, max)),
{
    lemma_evicted(s, max);
    lemma_remove_distinct(evicted(s, max), id);
}

/// The search finds a workspace that only the last connection has.
proof fn lemma_id_index_last(t: Seq<(Seq<char>, bool)>, id: Seq<char>, k: int)
    requires
        0 <= k < t.len(),
        t.last().0 == id,
        forall|j: int| 0 <= j < t.len() - 1 ==> t[j].0 != id,
    ensures
        id_index_from(t, id, k) == Some(t.len() - 1),
    decreases t.len() - k,
{
    if k < t.len() - 1 {
        lemma_id_index_last(t, id, k + 1);
    }
}

/// A request for a workspace that missed leaves at most `max` connections
/// in the cache.
pub proof fn lemma_cache_bounded(s: Seq<(Seq<char>, bool)>, id: Seq<char>, max: nat)
    requires
        ids_distinct(s),
        max >= 1,
    ensures
        after_miss(s, id, max).len() <= max,
{
    lemma_evicted(s, max);
    lemma_id_index_from(evicted(s, max), id, 0);
}

/// After a request for a workspace, a second request for it finds its
/// connection active in the cache: it is answered from the cache.
pub proof fn lemma_second_request_hits(s: Seq<(Seq<char>, bool)>, id: Seq<char>, max: nat)
    requires
        ids_distinct(s),
        max >= 1,
    ensures
        id_index(after_miss(s, id, max), id) matches Some(i) && after_miss(s, id, max)[i].1,
{
    lemma_evicted(s, max);
    lemma_remove_distinct(evicted(s, max), id);
    let t = after_miss(s, id, max);
    lemma_id_index_last(t, id, 0);
}

/// After a workspace is removed, a request for it finds no connection: a
/// new one is made.
pub proof fn lemma_removed_workspace_misses(s: Seq<(Seq<char>, bool)>, id: Seq<char>)
    requires
        ids_distinct(s),
    ensures
        id_index(without_id(s, id), id) is None,
{
    lemma_remove_distinct(s, id);
    lemma_id_index_from(without_id(s, id), id, 0);
}

/// Manager for workspace connections with connection caching
pub struct Manager {
    /// The cached connections, oldest first.
    Connections: Vec<Arc<Connection>>,
    /// Default workspace path
    DefaultPath: PathBuf,
    /// Maximum number of cached connections
    MaxCacheSize: usize,
}

impl Manager {
    /// The cached connections, oldest first.
    pub closed spec fn entries(&self) -> Seq<(Seq<char>, bool)> {
        self.Connections@.map_values(|c: Arc<Connection>| entry(*c))
    }

    /// The cached connections themselves, oldest first.
    pub closed spec fn connections(&self) -> Seq<Connection> {
        self.Connections@.map_values(|c: Arc<Connection>| *c)
    }

    /// The number of connections the cache keeps.
    pub closed spec fn max_cache_size(&self) -> nat {
        self.MaxCacheSize as nat
    }

    /// The directory under which workspaces keep their databases.
    pub closed spec fn default_path(&self) -> PathBuf {
        self.DefaultPath
    }

    /// No workspace has two connections in the cache.
    pub open spec fn wf(&self) -> bool {
        ids_distinct(self.entries())
    }

    /// Create a new workspace manager, with an empty cache of ten connections.
    pub fn New() -> (r: Self)
        ensures
            r.wf(),
            r.entries() == Seq::<(Seq<char>, bool)>::empty(),
            r.max_cache_size() == 10,
            exists|d: PathBuf| r.default_path() == joined_path(joined_path(d, "conport"@), "workspaces"@),
    {
        let base = match data_local_dir() {
            Some(p) => p,
            None => path_from("."),
        };
        let DefaultPath = path_join(&path_join(&base, "conport"), "workspaces");
        let r = Manager { Connections: Vec::new(), DefaultPath, MaxCacheSize: 10 };
        assert(r.entries() =~= Seq::<(Seq<char>, bool)>::empty());
        assert(r.default_path() == joined_path(joined_path(base, "conport"@), "workspaces"@));
        r
    }

    /// The position of the connection of a workspace.
    fn find(&self, WorkspaceId: &str) -> (r: Option<usize>)
        ensures
            match id_index(self.entries(), WorkspaceId@) {
                Some(i) => 0 <= i < self.entries().len() && (r matches Some(j) && j as int == i),
                None => r is None,
            },
            r matches Some(i) ==> i < self.entries().len() && self.entries()[i as int].0 == WorkspaceId@,
    {
        proof {
            lemma_id_index_from(self.entries(), WorkspaceId@, 0);
        }
        let ghost s = self.entries();
        let mut i: usize = 0;
        while i < self.Connections.len()
            invariant
                s == self.entries(),
                s.len() == self.Connections.len(),
                i <= s.len(),
                id_index(s, WorkspaceId@) == id_index_from(s, WorkspaceId@, i as int),
            decreases self.Connections.len() - i,
        {
            assert(s[i as int] == entry(*self.Connections[i as int]));
            if crate::text::str_eq(self.Connections[i].WorkspaceId.as_str(), WorkspaceId) {
                return Some(i);
            }
            i = i + 1;
        }
        None
    }

    /// The position of the oldest inactive connection.
    fn oldest_inactive(&self) -> (r: Option<usize>)
        ensures
            match inactive_from(self.entries(), 0) {
                Some(i) => 0 <= i < self.entries().len() && (r matches Some(j) && j as int == i),
                None => r is None,
            },
    {
        proof {
            lemma_inactive_from(self.entries(), 0);
        }
        let ghost s = self.entries();
        let mut i: usize = 0;
        while i < self.Connections.len()
            invariant
                s == self.entries(),
                s.len() == self.Connections.len(),
                i <= s.len(),
                inactive_from(s, 0) == inactive_from(s, i as int),
            decreases self.Connections.len() - i,
        {
            assert(s[i as int] == entry(*self.Connections[i as int]));
            if !self.Connections[i].Active {
                return Some(i);
            }
            i = i + 1;
        }
        None
    }

    /// Removes the connection at a position.
    fn remove_at(&mut self, i: usize)
        requires
            i < old(self).entries().len(),
        ensures
            final(self).entries() == old(self).entries().remove(i as int),
            final(self).MaxCacheSize == old(self).MaxCacheSize,
            final(self).DefaultPath == old(self).DefaultPath,
    {
        let ghost before = self.Connections@;
        self.Connections.remove(i);
        assert(self.entries() =~= before.map_values(|c: Arc<Connection>| entry(*c)).remove(i as int));
    }

    /// Enforce maximum cache size by evicting oldest inactive connections
    fn EnforceCacheSize(&mut self)
        requires
            old(self).max_cache_size() >= 1,
        ensures
            final(self).entries() == evicted(old(self).entries(), old(self).max_cache_size()),
            final(self).MaxCacheSize == old(self).MaxCacheSize,
            final(self).DefaultPath == old(self).DefaultPath,
    {
        let ghost max = self.max_cache_size();
        let ghost target = evicted(self.entries(), max);
        while self.Connections.len() >= self.MaxCacheSize
            invariant
                max == self.max_cache_size(),
                max >= 1,
                self.entries().len() == self.Connections.len(),
                evicted(self.entries(), max) == target,
                self.MaxCacheSize == old(self).MaxCacheSize,
                self.DefaultPath == old(self).DefaultPath,
            decreases self.Connections.len(),
        {
            let ghost s = self.entries();
            match self.oldest_inactive() {
                Some(i) => self.remove_at(i),
                None => self.remove_at(0),
            }
            assert(self.entries() == evict_one(s));
        }
    }

    /// Get or create a connection for a workspace
    pub fn GetConnection(&mut self, WorkspaceId: &str) -> (r: Result<Arc<Connection>, Kind>)
        requires
            old(self).wf(),
            old(self).max_cache_size() >= 1,
        ensures
            final(self).wf(),
            final(self).max_cache_size() == old(self).max_cache_size(),
            final(self).default_path() == old(self).default_path(),
            r matches Ok(c) && c.WorkspaceId@ == WorkspaceId@ && c.Active,
            old(self).entries().len() == old(self).connections().len(),
            match id_index(old(self).entries(), WorkspaceId@) {
                Some(i) => old(self).entries()[i].1 ==> (final(self).entries() == old(self).entries() && (r matches Ok(
                    c,
                ) && *c == old(self).connections()[i])),
                None => true,
            },
            !(id_index(old(self).entries(), WorkspaceId@) matches Some(i) && old(self).entries()[i].1)
                ==> (r matches Ok(c) && c.DatabasePath == joined_path(
                joined_path(old(self).default_path(), WorkspaceId@),
                "conport.db"@,
            ) && final(self).connections().last() == *c),
            !(id_index(old(self).entries(), WorkspaceId@) matches Some(i) && old(self).entries()[i].1)
                ==> final(self).entries() == after_miss(
                old(self).entries(),
                WorkspaceId@,
                old(self).max_cache_size(),
            ),
    {
        proof {
            lemma_id_index_from(self.entries(), WorkspaceId@, 0);
        }
        assert(self.connections().len() == self.entries().len());
        if let Some(i) = self.find(WorkspaceId) {
            assert(self.entries()[i as int] == entry(*self.Connections[i as int]));
            assert(self.connections()[i as int] == *self.Connections[i as int]);
            if self.Connections[i].Active {
                return Ok(share(&self.Connections[i]));
            }
        }
        let DatabasePath = self.GetWorkspacePath(WorkspaceId);
        self.EnforceCacheSize();
        let c = Arc::new(Connection::New(String::from_str(WorkspaceId), DatabasePath));
        if let Some(j) = self.find(WorkspaceId) {
            self.remove_at(j);
        }
        let ghost before = self.Connections@;
        self.Connections.push(share(&c));
        assert(self.entries() =~= before.map_values(|x: Arc<Connection>| entry(*x)).push(
            (WorkspaceId@, true),
        ));
        assert(self.connections().last() == *c);
        proof {
            lemma_after_miss_distinct(old(self).entries(), WorkspaceId@, old(self).max_cache_size());
        }
        Ok(c)
    }

    /// Get the database path for a workspace
    pub fn GetWorkspacePath(&self, WorkspaceId: &str) -> (r: PathBuf)
        ensures
            r == joined_path(joined_path(self.default_path(), WorkspaceId@), "conport.db"@),
    {
        path_join(&path_join(&self.DefaultPath, WorkspaceId), "conport.db")
    }

    /// Remove a workspace connection from cache. The cache holds shared,
    /// read-only handles: a handle already handed out keeps the connection it
    /// had, which stays marked active (the removed entry is no longer found).
    pub fn RemoveWorkspace(&mut self, WorkspaceId: &str) -> (r: Result<(), Kind>)
        requires
            old(self).wf(),
        ensures
            r is Ok,
            final(self).wf(),
            final(self).entries() == without_id(old(self).entries(), WorkspaceId@),
            final(self).max_cache_size() == old(self).max_cache_size(),
            final(self).default_path() == old(self).default_path(),
    {
        let ghost s = self.entries();
        match self.find(WorkspaceId) {
            Some(i) => {
                self.remove_at(i);
                assert(self.entries() == s.remove(i as int));
            },
            None => {},
        }
        assert(self.entries() == without_id(s, WorkspaceId@));
        proof {
            lemma_remove_distinct(old(self).entries(), WorkspaceId@);
        }
        Ok(())
    }

    /// Get all workspace IDs
    pub fn GetWorkspaces(&self) -> (r: Vec<String>)
        ensures
            r@.map_values(|s: String| s@) == self.entries().map_values(|e: (Seq<char>, bool)| e.0),
    {
        let mut r: Vec<String> = Vec::new();
        let mut i: usize = 0;
        while i < self.Connections.len()
            invariant
                i <= self.Connections.len(),
                r@.map_values(|s: String| s@) == self.entries().take(i as int).map_values(
                    |e: (Seq<char>, bool)| e.0,
                ),
            decreases self.Connections.len() - i,
        {
            let ghost before = r@;
            r.push(self.Connections[i].WorkspaceId.clone());
            assert(self.entries().take(i as int + 1) =~= self.entries().take(i as int).push(
                self.entries()[i as int],
            ));
            assert(r@.map_values(|s: String| s@) =~= before.map_values(|s: String| s@).push(
                self.Connections[i as int].WorkspaceId@,
            ));
            assert(self.entries().take(i as int + 1).map_values(|e: (Seq<char>, bool)| e.0)
                =~= self.entries().take(i as int).map_values(|e: (Seq<char>, bool)| e.0).push(
                self.entries()[i as int].0,
            ));
            i = i + 1;
        }
        assert(self.entries().take(i as int) =~= self.entries());
        r
    }

    /// Get the count of active connections
    pub fn ConnectionCount(&self) -> (r: usize)
        ensures
            r == active_count(self.entries()),
    {
        let mut n: usize = 0;
        let mut i: usize = 0;
        while i < self.Connections.len()
            invariant
                i <= self.Connections.len(),
                n == active_count(self.entries().take(i as int)),
                n <= i,
            decreases self.Connections.len() - i,
        {
            assert(self.entries().take(i as int + 1).drop_last() =~= self.entries().take(i as int));
            if self.Connections[i].Active {
                n = n + 1;
            }
            i = i + 1;
        }
        assert(self.entries().take(i as int) =~= self.entries());
        n
    }

    /// Clear all connections. As with `RemoveWorkspace`, handles already
    /// handed out are not marked inactive; the cache simply no longer holds
    /// them.
    pub fn Clear(&mut self)
        ensures
            final(self).wf(),
            final(self).entries() == Seq::<(Seq<char>, bool)>::empty(),
            final(self).max_cache_size() == old(self).max_cache_size(),
            final(self).default_path() == old(self).default_path(),
    {
        self.Connections = Vec::new();
        assert(self.entries() =~= Seq::<(Seq<char>, bool)>::empty());
    }

    /// Set the default workspace path
    pub fn SetDefaultPath(&mut self, Path: PathBuf)
        ensures
            final(self).default_path() == Path,
            final(self).entries() == old(self).entries(),
            final(self).max_cache_size() == old(self).max_cache_size(),
    {
        self.DefaultPath = Path;
    }

    /// Set maximum cache size
    pub fn SetMaxCacheSize(&mut self, Size: usize)
        ensures
            final(self).max_cache_size() == Size,
            final(self).entries() == old(self).entries(),
            final(self).default_path() == old(self).default_path(),
    {
        self.MaxCacheSize = Size;
    }
}

impl Default for Manager {
    fn default() -> (r: Self)
        ensures
            r.wf(),
            r.entries() == Seq::<(Seq<char>, bool)>::empty(),
            r.max_cache_size() == 10,
    {
        Self::New()
    }
}

} // verus!
