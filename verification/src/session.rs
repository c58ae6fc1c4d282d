use vstd::prelude::*;
use vstd::hash_map::StringHashMap;
use vstd::string::StringExecFns;

use crate::errors::Error;
use crate::object::{ObjView, ObjectKind, RemoteObject};
use crate::text::{root_path, root_path_string};

verus! {

/// The images of every object a path cache holds, keyed by canonical path.
pub open spec fn views_of(m: Map<Seq<char>, RemoteObject>) -> Map<Seq<char>, ObjView> {
    Map::new(|k: Seq<char>| m.contains_key(k), |k: Seq<char>| m[k]@)
}

pub proof fn lemma_views_insert(m: Map<Seq<char>, RemoteObject>, k: Seq<char>, v: RemoteObject)
    ensures
        views_of(m.insert(k, v)) == views_of(m).insert(k, v@),
{
    assert(views_of(m.insert(k, v)) =~= views_of(m).insert(k, v@));
}

/// The image of the synthetic root object: fixed id, named by the provider
/// namespace prefix, directory-kind, with no size, extension or timestamp of
/// its own.
pub open spec fn root_view() -> ObjView {
    ObjView {
        id: "root"@,
        name: root_path(),
        kind: ObjectKind::Directory,
        size: 0,
        extension: Seq::empty(),
        modified: Seq::empty(),
    }
}

/// A path cache holding exactly the root object under the root path: the
/// state a session starts in, and returns to on every (re)authentication and
/// on sign-out.
pub open spec fn seeded_cache() -> Map<Seq<char>, ObjView> {
    Map::empty().insert(root_path(), root_view())
}

/// After a session reset only the root path resolves: every other path must
/// first be produced again by a listing, a search or an upload.
pub proof fn lemma_seeded_cache_only_root(q: Seq<char>)
    requires
        q != root_path(),
    ensures
        !seeded_cache().contains_key(q),
        seeded_cache().contains_key(root_path()),
{
}

/// A provider session: whether it is authenticated, and the path cache — the
/// single source of truth for path-to-id resolution. The cache is never
/// pruned while the session lives; staleness against remote-side changes is
/// an accepted limit of the design.
pub struct GDrive {
    pub authenticated: bool,
    pub path2file: StringHashMap<RemoteObject>,
}

impl GDrive {
    /// The mathematical content of the path cache.
    pub open spec fn cache(&self) -> Map<Seq<char>, ObjView> {
        views_of(self.path2file@)
    }

    /// Whether the session holds a remote handle.
    pub open spec fn authed(&self) -> bool {
        self.authenticated
    }

    /// The synthetic root object. The only remote object ever constructed
    /// locally: everything else is observed in a remote answer.
    pub fn construct_root_file() -> (r: RemoteObject)
        ensures
            r@ == root_view(),
    {
        RemoteObject {
            id: "root".to_owned(),
            name: root_path_string(),
            kind: ObjectKind::Directory,
            size: 0,
            extension: String::new(),
            modified: String::new(),
        }
    }

    /// Replaces the cache with just the root mapping.
    pub(crate) fn reseed(&mut self)
        ensures
            final(self).cache() == seeded_cache(),
            final(self).authenticated == old(self).authenticated,
    {
        self.path2file.clear();
        let root = Self::construct_root_file();
        proof {
            lemma_views_insert(self.path2file@, root_path(), root);
            assert(views_of(Map::<Seq<char>, RemoteObject>::empty()) =~= Map::<
                Seq<char>,
                ObjView,
            >::empty());
        }
        self.path2file.insert(root_path_string(), root);
    }

    /// A fresh, unauthenticated session, seeded with the root object.
    pub fn new() -> (g: GDrive)
        ensures
            !g.authed(),
            g.cache() == seeded_cache(),
    {
        let mut g = GDrive { authenticated: false, path2file: StringHashMap::new() };
        g.reseed();
        g
    }

    /// Whether the session is authenticated, as an operation gate.
    pub fn is_authenticated(&self) -> (r: Result<(), Error>)
        ensures
            r is Ok <==> self.authed(),
            r matches Err(e) ==> e is Auth,
    {
        if self.authenticated {
            Ok(())
        } else {
            Err(Error::Auth("drive not authenticated".to_owned()))
        }
    }

    /// Records that the driver acquired credentials: the session becomes
    /// authenticated and the cache is cleared and reseeded with the root, so
    /// that nothing stale from an earlier session survives.
    pub fn complete_authentication(&mut self)
        ensures
            final(self).authed(),
            final(self).cache() == seeded_cache(),
    {
        self.authenticated = true;
        self.reseed();
    }

    /// Ends the session: the remote handle is dropped and the cache returns
    /// to just the root, so every other cached path stops resolving.
    pub fn sign_out(&mut self)
        ensures
            !final(self).authed(),
            final(self).cache() == seeded_cache(),
    {
        self.authenticated = false;
        self.reseed();
    }

    /// Resolves a canonical path to its last-known remote object — the only
    /// way from a path to an opaque remote id.
    pub fn resolve(&self, path: &str) -> (r: Option<&RemoteObject>)
        ensures
            match r {
                Some(o) => self.cache().contains_key(path@) && o@ == self.cache()[path@],
                None => !self.cache().contains_key(path@),
            },
    {
        self.path2file.get(path)
    }
}

} // verus!
