use vstd::prelude::*;

use crate::errors::Error;
use crate::object::{folder_mime, size_field_ok, spec_size_of, ObjectKind, RawObject};
use crate::text::{add_saturating, parse_u64, sat_add, str_eq};

verus! {

/// The aggregate a subtree walk computes: total bytes, and total entries
/// counting files and directories, the walked root included. Computed on
/// demand and never cached — directory sizes are not stable.
#[derive(Clone, Copy, PartialEq, Eq, Structural, Debug)]
pub struct SizeInfo {
    pub size: u64,
    pub count: u64,
}

/// One node a size walk has seen but not yet accounted. A file contributes
/// its bytes; a directory contributes its children, fetched by id.
pub struct SizeNode {
    pub id: String,
    pub kind: ObjectKind,
    pub size: u64,
}

/// The mathematical image of a [`SizeNode`].
pub struct NodeView {
    pub id: Seq<char>,
    pub kind: ObjectKind,
    pub size: u64,
}

impl View for SizeNode {
    type V = NodeView;

    open spec fn view(&self) -> NodeView {
        NodeView { id: self.id@, kind: self.kind, size: self.size }
    }
}

/// The images of a run of nodes.
pub open spec fn nodes_of(s: Seq<SizeNode>) -> Seq<NodeView> {
    s.map_values(|n: SizeNode| n@)
}

proof fn lemma_nodes_of_drop_last(s: Seq<SizeNode>)
    requires
        s.len() > 0,
    ensures
        nodes_of(s).len() == s.len(),
        nodes_of(s.drop_last()) == nodes_of(s).drop_last(),
        nodes_of(s).last() == s.last()@,
{
    assert(forall|i: int|
        0 <= i < s.len() - 1 ==> nodes_of(s.drop_last())[i] == #[trigger] nodes_of(
            s,
        ).drop_last()[i]);
    assert(nodes_of(s.drop_last()) =~= nodes_of(s).drop_last());
}

proof fn lemma_nodes_of_concat(s: Seq<SizeNode>, t: Seq<SizeNode>)
    ensures
        nodes_of(s + t) == nodes_of(s) + nodes_of(t),
{
    assert(forall|i: int|
        0 <= i < s.len() + t.len() ==> nodes_of(s + t)[i] == #[trigger] (nodes_of(s) + nodes_of(
            t,
        ))[i]);
    assert(nodes_of(s + t) =~= nodes_of(s) + nodes_of(t));
}

/// The image of a walk: the nodes still to account, and the totals so far.
pub struct WalkView {
    pub pending: Seq<NodeView>,
    pub size: u64,
    pub count: u64,
}

/// An in-progress recursive size aggregation: the remote tree walk with an
/// explicit stack. The walk holds one remote call's worth of state at a time;
/// the driver executes each children query the walk asks for and feeds the
/// answer back. Saturating totals: a subtree too large for `u64` caps at
/// `u64::MAX` instead of failing.
pub struct SizeWalk {
    pub pending: Vec<SizeNode>,
    pub size: u64,
    pub count: u64,
}

impl View for SizeWalk {
    type V = WalkView;

    open spec fn view(&self) -> WalkView {
        WalkView { pending: nodes_of(self.pending@), size: self.size, count: self.count }
    }
}

/// Accounts every trailing file node of `w`: each adds its bytes and one
/// entry. Stops at the first directory from the top of the stack, or when
/// nothing is pending.
pub open spec fn drained(w: WalkView) -> WalkView
    decreases w.pending.len(),
{
    if w.pending.len() == 0 {
        w
    } else if w.pending.last().kind is File {
        drained(
            WalkView {
                pending: w.pending.drop_last(),
                size: sat_add(w.size, w.pending.last().size),
                count: sat_add(w.count, 1),
            },
        )
    } else {
        w
    }
}

/// What a walk asks of its driver next: nothing — the totals are final — or
/// the children of one directory, by remote id.
pub enum SizeStep {
    Done(SizeInfo),
    Fetch(String),
}

impl SizeWalk {
    /// Accounts pending nodes until the walk finishes or needs a directory's
    /// children. A file is accounted on the spot — its bytes and one entry —
    /// and never causes a fetch; a directory is accounted as one entry and
    /// its id is handed out to fetch.
    pub fn step(&mut self) -> (r: SizeStep)
        ensures
            drained(old(self)@).pending.len() == 0 ==> (r matches SizeStep::Done(info) && info
                == (SizeInfo { size: drained(old(self)@).size, count: drained(old(self)@).count })
                && final(self)@ == drained(old(self)@)),
            drained(old(self)@).pending.len() > 0 ==> (r matches SizeStep::Fetch(id) && id@
                == drained(old(self)@).pending.last().id && final(self)@ == (WalkView {
                pending: drained(old(self)@).pending.drop_last(),
                size: drained(old(self)@).size,
                count: sat_add(drained(old(self)@).count, 1),
            })),
    {
        loop
            invariant
                drained(self@) == drained(old(self)@),
            decreases self.pending@.len(),
        {
            proof {
                if self.pending@.len() > 0 {
                    lemma_nodes_of_drop_last(self.pending@);
                }
                assert(nodes_of(self.pending@).len() == self.pending@.len());
            }
            if self.pending.len() == 0 {
                return SizeStep::Done(SizeInfo { size: self.size, count: self.count });
            }
            let node = match self.pending.pop() {
                Some(node) => node,
                None => {
                    return SizeStep::Done(SizeInfo { size: self.size, count: self.count });
                },
            };
            let bumped = add_saturating(self.count, 1);
            if node.kind == ObjectKind::Directory {
                self.count = bumped;
                return SizeStep::Fetch(node.id);
            }
            let grown = add_saturating(self.size, node.size);
            self.size = grown;
            self.count = bumped;
        }
    }
}

/// Whether a wire object of a minimal-field children answer can be accounted:
/// the kind marker must be there; a directory needs its id, a file its size.
pub open spec fn size_node_ok(raw: RawObject) -> bool {
    &&& raw.mime_type is Some
    &&& (raw.mime_type.unwrap()@ == folder_mime() ==> raw.id is Some)
    &&& (raw.mime_type.unwrap()@ != folder_mime() ==> raw.size is Some && size_field_ok(raw.size))
}

/// The accounted image of such a wire object.
pub open spec fn size_node_view(raw: RawObject) -> NodeView {
    NodeView {
        id: match raw.id {
            Some(i) => i@,
            None => Seq::empty(),
        },
        kind: if raw.mime_type.unwrap()@ == folder_mime() {
            ObjectKind::Directory
        } else {
            ObjectKind::File
        },
        size: if raw.mime_type.unwrap()@ == folder_mime() {
            0
        } else {
            spec_size_of(raw.size)
        },
    }
}

pub open spec fn all_size_nodes_ok(cs: Seq<RawObject>) -> bool {
    forall|i: int| 0 <= i < cs.len() ==> size_node_ok(cs[i])
}

pub open spec fn size_node_views(cs: Seq<RawObject>) -> Seq<NodeView> {
    cs.map_values(|c: RawObject| size_node_view(c))
}

/// Digests one wire object of a children answer for accounting.
pub fn digest_size_node(raw: &RawObject) -> (r: Result<SizeNode, Error>)
    ensures
        r is Ok <==> size_node_ok(*raw),
        r matches Ok(n) ==> n@ == size_node_view(*raw),
        r matches Err(e) ==> e is RemoteCall,
{
    let mime = match &raw.mime_type {
        Some(x) => x,
        None => {
            return Err(Error::RemoteCall("remote object without a kind marker".to_owned()));
        },
    };
    let is_folder = str_eq(mime.as_str(), "application/vnd.google-apps.folder");
    let id = match &raw.id {
        Some(x) => x.clone(),
        None => {
            if is_folder {
                return Err(Error::RemoteCall("remote directory without an id".to_owned()));
            }
            String::new()
        },
    };
    if is_folder {
        return Ok(SizeNode { id, kind: ObjectKind::Directory, size: 0 });
    }
    let size = match &raw.size {
        Some(t) => match parse_u64(t.as_str()) {
            Some(v) => v,
            None => {
                return Err(Error::RemoteCall("remote object with an unreadable size".to_owned()));
            },
        },
        None => {
            return Err(Error::RemoteCall("remote file without a size".to_owned()));
        },
    };
    Ok(SizeNode { id, kind: ObjectKind::File, size })
}

impl SizeWalk {
    /// Hands the walk the children of the directory it last asked about. On
    /// any unreadable child the walk is left exactly as it was.
    pub fn feed(&mut self, children: &Vec<RawObject>) -> (r: Result<(), Error>)
        ensures
            r is Ok <==> all_size_nodes_ok(children@),
            r is Ok ==> final(self)@ == (WalkView {
                pending: old(self)@.pending + size_node_views(children@),
                size: old(self)@.size,
                count: old(self)@.count,
            }),
            r is Err ==> *final(self) == *old(self),
            r matches Err(e) ==> e is RemoteCall,
    {
        let n = children.len();
        let mut ns: Vec<SizeNode> = Vec::new();
        let mut i: usize = 0;
        while i < n
            invariant
                i <= n,
                n == children@.len(),
                ns@.len() == i,
                forall|j: int| 0 <= j < i ==> size_node_ok(children@[j]),
                forall|j: int| 0 <= j < i ==> ns@[j]@ == size_node_view(children@[j]),
            decreases n - i,
        {
            let node = match digest_size_node(&children[i]) {
                Ok(node) => node,
                Err(e) => {
                    return Err(e);
                },
            };
            ns.push(node);
            i = i + 1;
        }
        let ghost pend0 = self.pending@;
        let ghost ns0 = ns@;
        self.pending.append(&mut ns);
        proof {
            lemma_nodes_of_concat(pend0, ns0);
            assert(size_node_views(children@).len() == n);
            assert(nodes_of(ns0).len() == n);
            assert(forall|j: int|
                0 <= j < n ==> nodes_of(ns0)[j] == #[trigger] size_node_views(children@)[j]);
            assert(nodes_of(ns0) =~= size_node_views(children@));
            assert(nodes_of(self.pending@) =~= nodes_of(pend0) + size_node_views(children@));
        }
        Ok(())
    }
}

/// What a size query resolves to at once: a file answers directly from the
/// cache — no remote call at all — while a directory starts a walk.
pub enum SizeProbe {
    Ready(SizeInfo),
    Walk(SizeWalk),
}

} // verus!
