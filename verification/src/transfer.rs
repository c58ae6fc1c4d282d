use vstd::prelude::*;

use crate::object::ObjView;
use crate::text::{basename, basename_of, join_path, joined};

verus! {

/// The transfer engine's fixed policy bound, in bytes: a payload of at most
/// this many bytes goes up as one single-shot request; anything larger
/// streams through a provider-managed resumable session.
pub const UPLOAD_SINGLE_SHOT_MAX: u64 = 5 * 1024 * 1024;

/// How a single file travels to the remote store.
#[derive(Clone, Copy, PartialEq, Eq, Structural, Debug)]
pub enum UploadStrategy {
    /// Metadata and content in one request.
    SingleShot,
    /// Content streamed in a session that survives transient interruption,
    /// with progress reported per chunk.
    Resumable,
}

/// Chooses the strategy for a payload of `size` bytes. The boundary is
/// closed on the single-shot side: exactly the bound still goes single-shot,
/// one byte more goes resumable.
pub fn choose_strategy(size: u64) -> (r: UploadStrategy)
    ensures
        r is SingleShot <==> size <= UPLOAD_SINGLE_SHOT_MAX,
{
    if size <= UPLOAD_SINGLE_SHOT_MAX {
        UploadStrategy::SingleShot
    } else {
        UploadStrategy::Resumable
    }
}

/// A planned download: which remote object to stream, and the concrete local
/// path its bytes land on — the destination directory followed by the
/// object's own name.
pub struct DownloadPlan {
    pub id: String,
    pub save_path: String,
}

/// A planned single-file upload: the metadata of the create call, and the
/// strategy the payload's size demands.
pub struct UploadPlan {
    pub name: String,
    pub parent_id: String,
    pub strategy: UploadStrategy,
}

/// A planned directory creation: a folder-kind object named after the local
/// directory, under the resolved destination.
pub struct CreatePlan {
    pub name: String,
    pub parent_id: String,
    pub mime_type: String,
}

/// The remote destination for the children of a local directory being
/// uploaded to `to_path`: the directory's own entry under the destination.
pub fn child_dest(to_path: &str, local_path: &str) -> (r: String)
    ensures
        r@ == joined(to_path@, basename_of(local_path@)),
{
    let name = basename(local_path);
    join_path(to_path, name.as_str())
}

/// One child of a local directory, as the driver stats it.
pub struct LocalChild {
    pub path: String,
    pub is_dir: bool,
}

/// The order a directory upload walks its children in: every subdirectory
/// before any file, each group keeping its order.
pub fn upload_order(children: &Vec<LocalChild>) -> (r: Vec<LocalChild>)
    ensures
        r@ == children@.filter(|c: LocalChild| c.is_dir) + children@.filter(
            |c: LocalChild| !c.is_dir,
        ),
{
    let ghost is_d: spec_fn(LocalChild) -> bool = |c: LocalChild| c.is_dir;
    let ghost is_f: spec_fn(LocalChild) -> bool = |c: LocalChild| !c.is_dir;
    let n = children.len();
    let mut dirs: Vec<LocalChild> = Vec::new();
    let mut files: Vec<LocalChild> = Vec::new();
    let mut i: usize = 0;
    proof {
        reveal(Seq::<LocalChild>::filter);
        assert(children@.subrange(0, 0).filter(is_d) =~= Seq::<LocalChild>::empty());
        assert(children@.subrange(0, 0).filter(is_f) =~= Seq::<LocalChild>::empty());
    }
    while i < n
        invariant
            i <= n,
            n == children@.len(),
            is_d == (|c: LocalChild| c.is_dir),
            is_f == (|c: LocalChild| !c.is_dir),
            dirs@ == children@.subrange(0, i as int).filter(is_d),
            files@ == children@.subrange(0, i as int).filter(is_f),
        decreases n - i,
    {
        let c = &children[i];
        let copy = LocalChild { path: c.path.clone(), is_dir: c.is_dir };
        proof {
            reveal(Seq::<LocalChild>::filter);
            let pre = children@.subrange(0, i as int);
            let post = children@.subrange(0, i as int + 1);
            assert(copy == children@[i as int]);
            assert(post.drop_last() =~= pre);
            assert(post.last() == children@[i as int]);
            assert(post.filter(is_d) == if is_d(post.last()) {
                pre.filter(is_d).push(post.last())
            } else {
                pre.filter(is_d)
            });
            assert(post.filter(is_f) == if is_f(post.last()) {
                pre.filter(is_f).push(post.last())
            } else {
                pre.filter(is_f)
            });
        }
        if copy.is_dir {
            dirs.push(copy);
        } else {
            files.push(copy);
        }
        i = i + 1;
    }
    proof {
        assert(children@.subrange(0, n as int) =~= children@);
    }
    let mut r = dirs;
    r.append(&mut files);
    r
}

/// The cache-level round trip of one transferred object: registered under
/// `to/name` by an upload, that very path resolves again, to the same object
/// — so a following download is planned with the same name and id. What the
/// stores do with the bytes belongs to the remote and local collaborators,
/// not to this core.
pub proof fn lemma_upload_then_download(
    m: Map<Seq<char>, ObjView>,
    to: Seq<char>,
    o: ObjView,
    dir: Seq<char>,
)
    ensures
        m.insert(joined(to, o.name), o).contains_key(joined(to, o.name)),
        m.insert(joined(to, o.name), o)[joined(to, o.name)] == o,
        dir + m.insert(joined(to, o.name), o)[joined(to, o.name)].name == dir + o.name,
{
}

} // verus!
