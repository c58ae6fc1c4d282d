use vstd::prelude::*;
use vstd::string::StringExecFns;

use crate::errors::Error;
use crate::listing::{
    all_digest_ok, all_times_display, commit_listing, listed_cache, listed_entries,
    search_query_of, search_query_string,
};
use crate::object::{
    digest, digest_ok, digest_view, folder_mime, folder_mime_type, DirectoryEntry, ObjView,
    ObjectKind, RawObject,
};
use crate::session::{lemma_views_insert, seeded_cache, views_of, GDrive};
use crate::size::{nodes_of, NodeView, SizeInfo, SizeNode, SizeProbe, SizeWalk, WalkView};
use crate::text::{basename, basename_of, join_path, joined, root_path, root_path_string};
use crate::transfer::{
    choose_strategy, CreatePlan, DownloadPlan, UploadPlan, UPLOAD_SINGLE_SHOT_MAX,
};

verus! {

/// The capability contract of a provider session.
///
/// The remote store is reached over blocking I/O that this core does not
/// perform itself, so each operation is split: a query step resolves paths
/// against the cache and says which remote question to ask; a commit step
/// takes the remote answer — plain wire records — and updates the cache and
/// the caller-facing views. The driver around the library performs the calls
/// in between, and acquires credentials whenever a step demands
/// authentication.
pub trait CloudProvider: Sized {
    /// The path cache: canonical path to the image of the last-known object.
    spec fn cache(&self) -> Map<Seq<char>, ObjView>;

    /// Whether the session holds a remote handle.
    spec fn authed(&self) -> bool;

    /// A fresh, unauthenticated session, holding only the root mapping.
    fn new() -> (s: Self)
        ensures
            !s.authed(),
            s.cache() == seeded_cache(),
    ;

    /// Records that the driver acquired credentials: the session becomes
    /// authenticated and the cache is reseeded with just the root.
    fn complete_authentication(&mut self)
        ensures
            final(self).authed(),
            final(self).cache() == seeded_cache(),
    ;

    /// Ends the session: unauthenticated again, and no cached path but the
    /// root survives.
    fn sign_out(&mut self)
        ensures
            !final(self).authed(),
            final(self).cache() == seeded_cache(),
    ;

    /// Resolves a directory path for listing: the id to query children of.
    /// Fails without touching the remote store when the session is not
    /// authenticated, or when the path was never cached.
    fn read_dir_query(&self, path: &str) -> (r: Result<String, Error>)
        ensures
            r is Ok <==> self.authed() && self.cache().contains_key(path@),
            r matches Ok(id) ==> id@ == self.cache()[path@].id,
            !self.authed() ==> (r matches Err(e) && e is Auth),
            self.authed() && !self.cache().contains_key(path@) ==> (r matches Err(e)
                && e matches Error::NotCached(p) && p@ == path@),
    ;

    /// Digests the remote answer for a listing of `path`: caches every child
    /// under `path/child.name` — the side effect that makes any deeper
    /// operation on those children possible — and surfaces one entry per
    /// child, in answer order. It succeeds exactly when every child digests
    /// and every timestamp displays — a condition on the answer alone, so
    /// listing an unchanged directory again succeeds again. On any other
    /// answer nothing changes.
    fn read_dir_commit(&mut self, path: &str, children: Vec<RawObject>) -> (r: Result<
        Vec<DirectoryEntry>,
        Error,
    >)
        ensures
            r is Ok <==> all_digest_ok(children@) && all_times_display(children@),
            r matches Ok(es) ==> final(self).cache() == listed_cache(
                old(self).cache(),
                path@,
                children@,
            ) && es.deep_view() == listed_entries(path@, children@),
            r is Err ==> *final(self) == *old(self),
            r matches Err(e) ==> e is RemoteCall,
            final(self).authed() == old(self).authed(),
    ;

    /// Builds the flat name-substring query. A search needs no resolved path
    /// — only an authenticated session.
    fn search_query(&self, fragment: &str) -> (r: Result<String, Error>)
        ensures
            r is Ok <==> self.authed(),
            r matches Ok(q) ==> q@ == search_query_of(fragment@),
            !self.authed() ==> (r matches Err(e) && e is Auth),
    ;

    /// Digests a search answer: every hit is cached under a synthesized path
    /// directly below the root, and surfaced as an entry. Both success and
    /// the entries are functions of the answer alone — no prior cache
    /// population plays any part in either.
    fn search_commit(&mut self, results: Vec<RawObject>) -> (r: Result<Vec<DirectoryEntry>, Error>)
        ensures
            r is Ok <==> all_digest_ok(results@) && all_times_display(results@),
            r matches Ok(es) ==> final(self).cache() == listed_cache(
                old(self).cache(),
                root_path(),
                results@,
            ) && es.deep_view() == listed_entries(root_path(), results@),
            r is Err ==> *final(self) == *old(self),
            r matches Err(e) ==> e is RemoteCall,
            final(self).authed() == old(self).authed(),
    ;

    /// Answers a size query as far as the cache can: a path resolved to a
    /// file is answered on the spot — its size, one entry, and no remote call
    /// at all — while a directory starts a walk seeded with that directory.
    fn get_item_size(&self, path: &str) -> (r: Result<SizeProbe, Error>)
        ensures
            r is Ok <==> self.cache().contains_key(path@),
            !self.cache().contains_key(path@) ==> (r matches Err(e) && e matches
                Error::NotCached(p) && p@ == path@),
            self.cache().contains_key(path@) && !(self.cache()[path@].kind is Directory) ==> (
            r matches Ok(p) && p matches SizeProbe::Ready(info) && info == (SizeInfo {
                size: self.cache()[path@].size,
                count: 1,
            })),
            self.cache().contains_key(path@) && self.cache()[path@].kind is Directory ==> (
            r matches Ok(p) && p matches SizeProbe::Walk(w) && w@ == (WalkView {
                pending: seq![
                    NodeView {
                        id: self.cache()[path@].id,
                        kind: ObjectKind::Directory,
                        size: self.cache()[path@].size,
                    },
                ],
                size: 0,
                count: 0,
            })),
    ;

    /// Plans a download: the remote id to stream, and the concrete path the
    /// bytes land on — the destination directory followed by the object's
    /// name.
    fn download_plan(&self, from_path: &str, to_dir: &str) -> (r: Result<DownloadPlan, Error>)
        ensures
            r is Ok <==> self.authed() && self.cache().contains_key(from_path@),
            !self.authed() ==> (r matches Err(e) && e is Auth),
            self.authed() && !self.cache().contains_key(from_path@) ==> (r matches Err(e)
                && e matches Error::NotCached(p) && p@ == from_path@),
            r matches Ok(p) ==> p.id@ == self.cache()[from_path@].id && p.save_path@ == to_dir@
                + self.cache()[from_path@].name,
    ;

    /// Plans the upload of one local file of `local_size` bytes: named after
    /// the last segment of its local path, created under the id the
    /// destination path resolves to, single-shot exactly up to the fixed
    /// bound and resumable above it.
    fn upload_plan(&self, local_path: &str, local_size: u64, to_path: &str) -> (r: Result<
        UploadPlan,
        Error,
    >)
        ensures
            r is Ok <==> self.authed() && self.cache().contains_key(to_path@),
            !self.authed() ==> (r matches Err(e) && e is Auth),
            self.authed() && !self.cache().contains_key(to_path@) ==> (r matches Err(e)
                && e matches Error::NotCached(q) && q@ == to_path@),
            r matches Ok(p) ==> p.name@ == basename_of(local_path@) && p.parent_id@
                == self.cache()[to_path@].id && (p.strategy is SingleShot <==> local_size
                <= UPLOAD_SINGLE_SHOT_MAX),
    ;

    /// Plans the creation of a remote directory named after the local
    /// directory's last path segment, under the id the destination resolves
    /// to, marked with the provider's folder kind.
    fn create_dir_plan(&self, local_path: &str, to_path: &str) -> (r: Result<CreatePlan, Error>)
        ensures
            r is Ok <==> self.authed() && self.cache().contains_key(to_path@),
            !self.authed() ==> (r matches Err(e) && e is Auth),
            self.authed() && !self.cache().contains_key(to_path@) ==> (r matches Err(e)
                && e matches Error::NotCached(q) && q@ == to_path@),
            r matches Ok(p) ==> p.name@ == basename_of(local_path@) && p.parent_id@
                == self.cache()[to_path@].id && p.mime_type@ == folder_mime(),
    ;

    /// Records what an upload or create call brought into being: the digested
    /// object is cached at `to_path/name`, so the new path resolves from now
    /// on. On an undigestible answer nothing changes.
    fn absorb_created(&mut self, to_path: &str, created: RawObject) -> (r: Result<(), Error>)
        ensures
            r is Ok <==> digest_ok(created),
            r is Ok ==> final(self).cache() == old(self).cache().insert(
                joined(to_path@, digest_view(created).name),
                digest_view(created),
            ),
            r is Err ==> *final(self) == *old(self),
            r matches Err(e) ==> e is RemoteCall,
            final(self).authed() == old(self).authed(),
    ;
}

impl CloudProvider for GDrive {
    open spec fn cache(&self) -> Map<Seq<char>, ObjView> {
        views_of(self.path2file@)
    }

    open spec fn authed(&self) -> bool {
        self.authenticated
    }

    fn new() -> (s: GDrive) {
        GDrive::new()
    }

    fn complete_authentication(&mut self) {
        GDrive::complete_authentication(self)
    }

    fn sign_out(&mut self) {
        GDrive::sign_out(self)
    }

    fn read_dir_query(&self, path: &str) -> (r: Result<String, Error>) {
        if let Err(e) = self.is_authenticated() {
            return Err(e);
        }
        match self.resolve(path) {
            Some(o) => Ok(o.id.clone()),
            None => Err(Error::NotCached(path.to_owned())),
        }
    }

    fn read_dir_commit(&mut self, path: &str, children: Vec<RawObject>) -> (r: Result<
        Vec<DirectoryEntry>,
        Error,
    >) {
        commit_listing(&mut self.path2file, path, &children)
    }

    fn search_query(&self, fragment: &str) -> (r: Result<String, Error>) {
        if let Err(e) = self.is_authenticated() {
            return Err(e);
        }
        Ok(search_query_string(fragment))
    }

    fn search_commit(&mut self, results: Vec<RawObject>) -> (r: Result<Vec<DirectoryEntry>, Error>) {
        let root = root_path_string();
        commit_listing(&mut self.path2file, root.as_str(), &results)
    }

    fn get_item_size(&self, path: &str) -> (r: Result<SizeProbe, Error>) {
        let o = match self.resolve(path) {
            Some(o) => o,
            None => {
                return Err(Error::NotCached(path.to_owned()));
            },
        };
        if o.is_dir() {
            let node = SizeNode { id: o.id.clone(), kind: ObjectKind::Directory, size: o.size };
            let ghost gnode = node;
            let mut pending: Vec<SizeNode> = Vec::new();
            pending.push(node);
            let w = SizeWalk { pending, size: 0, count: 0 };
            proof {
                assert(nodes_of(w.pending@) =~= seq![gnode@]);
            }
            Ok(SizeProbe::Walk(w))
        } else {
            Ok(SizeProbe::Ready(SizeInfo { size: o.size, count: 1 }))
        }
    }

    fn download_plan(&self, from_path: &str, to_dir: &str) -> (r: Result<DownloadPlan, Error>) {
        if let Err(e) = self.is_authenticated() {
            return Err(e);
        }
        let o = match self.resolve(from_path) {
            Some(o) => o,
            None => {
                return Err(Error::NotCached(from_path.to_owned()));
            },
        };
        let mut save_path: String = to_dir.to_owned();
        save_path.append(o.name.as_str());
        Ok(DownloadPlan { id: o.id.clone(), save_path })
    }

    fn upload_plan(&self, local_path: &str, local_size: u64, to_path: &str) -> (r: Result<
        UploadPlan,
        Error,
    >) {
        if let Err(e) = self.is_authenticated() {
            return Err(e);
        }
        let parent = match self.resolve(to_path) {
            Some(o) => o,
            None => {
                return Err(Error::NotCached(to_path.to_owned()));
            },
        };
        let name = basename(local_path);
        let strategy = choose_strategy(local_size);
        Ok(UploadPlan { name, parent_id: parent.id.clone(), strategy })
    }

    fn create_dir_plan(&self, local_path: &str, to_path: &str) -> (r: Result<CreatePlan, Error>) {
        if let Err(e) = self.is_authenticated() {
            return Err(e);
        }
        let parent = match self.resolve(to_path) {
            Some(o) => o,
            None => {
                return Err(Error::NotCached(to_path.to_owned()));
            },
        };
        let name = basename(local_path);
        Ok(CreatePlan { name, parent_id: parent.id.clone(), mime_type: folder_mime_type() })
    }

    fn absorb_created(&mut self, to_path: &str, created: RawObject) -> (r: Result<(), Error>) {
        let o = match digest(&created) {
            Ok(o) => o,
            Err(e) => {
                return Err(e);
            },
        };
        let key = join_path(to_path, o.name.as_str());
        let ghost pre = self.path2file@;
        let ghost gkey = key@;
        let ghost go = o;
        self.path2file.insert(key, o);
        proof {
            lemma_views_insert(pre, gkey, go);
        }
        Ok(())
    }
}

} // verus!
