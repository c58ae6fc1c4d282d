use vstd::prelude::*;
use vstd::hash_map::StringHashMap;
use vstd::string::StringExecFns;

use crate::errors::Error;
use crate::object::{
    digest, digest_ok, digest_view, entry_of, format_timestamp, make_entry, DirectoryEntry,
    EntryView, ObjView, RawObject, RemoteObject,
};
use crate::session::{lemma_views_insert, views_of};
use crate::text::{join_path, joined};

verus! {

/// The canonical path a listed child is cached under: `parent/child.name`.
pub open spec fn listing_key(p: Seq<char>, raw: RawObject) -> Seq<char> {
    joined(p, digest_view(raw).name)
}

/// Whether every wire object of a remote answer can be digested.
pub open spec fn all_digest_ok(cs: Seq<RawObject>) -> bool {
    forall|i: int| 0 <= i < cs.len() ==> digest_ok(cs[i])
}

/// The path cache after a listing of `p` answered `cs`: one insertion per
/// child, in answer order, keyed by `p/child.name`.
pub open spec fn listed_cache(
    m: Map<Seq<char>, ObjView>,
    p: Seq<char>,
    cs: Seq<RawObject>,
) -> Map<Seq<char>, ObjView>
    decreases cs.len(),
{
    if cs.len() == 0 {
        m
    } else {
        listed_cache(m, p, cs.drop_last()).insert(
            listing_key(p, cs.last()),
            digest_view(cs.last()),
        )
    }
}

/// The entries a listing of `p` surfaces for the answer `cs`: a function of
/// the listed path and the remote answer alone, independent of any cache
/// state.
pub open spec fn listed_entries(p: Seq<char>, cs: Seq<RawObject>) -> Seq<EntryView> {
    cs.map_values(|c: RawObject| entry_of(p, digest_view(c)))
}

/// What one listing writes, taken by itself: the listing's writes joined over
/// any starting cache always land on top of it.
pub proof fn lemma_listed_cache_is_union(
    m: Map<Seq<char>, ObjView>,
    p: Seq<char>,
    cs: Seq<RawObject>,
)
    ensures
        listed_cache(m, p, cs) == m.union_prefer_right(
            listed_cache(Map::<Seq<char>, ObjView>::empty(), p, cs),
        ),
    decreases cs.len(),
{
    if cs.len() == 0 {
        assert(listed_cache(m, p, cs) =~= m.union_prefer_right(
            listed_cache(Map::<Seq<char>, ObjView>::empty(), p, cs),
        ));
    } else {
        lemma_listed_cache_is_union(m, p, cs.drop_last());
        assert(listed_cache(m, p, cs) =~= m.union_prefer_right(
            listed_cache(Map::<Seq<char>, ObjView>::empty(), p, cs),
        ));
    }
}

/// Listing idempotence: against an unchanged remote answer, listing a path a
/// second time leaves the cache exactly as the first listing left it — one
/// entry per child, keyed by `p/child.name`, and nothing else moved.
pub proof fn lemma_listing_idempotent(
    m: Map<Seq<char>, ObjView>,
    p: Seq<char>,
    cs: Seq<RawObject>,
)
    ensures
        listed_cache(listed_cache(m, p, cs), p, cs) == listed_cache(m, p, cs),
{
    lemma_listed_cache_is_union(m, p, cs);
    lemma_listed_cache_is_union(listed_cache(m, p, cs), p, cs);
    assert(listed_cache(m, p, cs).union_prefer_right(
        listed_cache(Map::<Seq<char>, ObjView>::empty(), p, cs),
    ) =~= listed_cache(m, p, cs));
}

/// Every listed child is cached afterwards, under its listing key.
pub proof fn lemma_listed_cache_covers(
    m: Map<Seq<char>, ObjView>,
    p: Seq<char>,
    cs: Seq<RawObject>,
    i: int,
)
    requires
        0 <= i < cs.len(),
    ensures
        listed_cache(m, p, cs).contains_key(listing_key(p, cs[i])),
    decreases cs.len(),
{
    if i < cs.len() - 1 {
        lemma_listed_cache_covers(m, p, cs.drop_last(), i);
        assert(cs.drop_last()[i] == cs[i]);
    }
}

/// Paths that are no child's listing key are left exactly as they were.
pub proof fn lemma_listed_cache_frame(
    m: Map<Seq<char>, ObjView>,
    p: Seq<char>,
    cs: Seq<RawObject>,
    k: Seq<char>,
)
    requires
        forall|i: int| 0 <= i < cs.len() ==> listing_key(p, cs[i]) != k,
    ensures
        listed_cache(m, p, cs).contains_key(k) == m.contains_key(k),
        m.contains_key(k) ==> listed_cache(m, p, cs)[k] == m[k],
    decreases cs.len(),
{
    if cs.len() > 0 {
        assert(listing_key(p, cs[cs.len() - 1]) != k);
        lemma_listed_cache_frame(m, p, cs.drop_last(), k);
    }
}

/// The single-level children query the remote store understands.
pub open spec fn children_query_of(id: Seq<char>) -> Seq<char> {
    "'"@ + id + "' in parents"@
}

/// Builds the children query for a resolved id.
pub fn children_query(id: &str) -> (q: String)
    ensures
        q@ == children_query_of(id@),
{
    let mut s: String = "'".to_owned();
    s.append(id);
    s.append("' in parents");
    s
}

/// The flat name-substring query the search engine issues.
pub open spec fn search_query_of(fragment: Seq<char>) -> Seq<char> {
    "name contains '"@ + fragment + "'"@
}

/// Builds the search query for a name fragment.
pub fn search_query_string(fragment: &str) -> (q: String)
    ensures
        q@ == search_query_of(fragment@),
{
    let mut s: String = "name contains '".to_owned();
    s.append(fragment);
    s.append("'");
    s
}

/// Whether every timestamp of a remote answer can be displayed — with
/// [`all_digest_ok`], exactly the condition on which a listing commits.
pub open spec fn all_times_display(cs: Seq<RawObject>) -> bool {
    forall|i: int|
        0 <= i < cs.len() ==> crate::object::time_displays(digest_view(cs[i]).modified)
}

/// Digests a remote answer for `parent`: caches every child under
/// `parent/child.name` and surfaces one entry per child, in answer order.
/// It succeeds exactly when every child digests and every timestamp
/// displays — a condition on the answer alone, so an unchanged answer that
/// committed once commits again. On any other answer nothing at all is
/// written.
pub fn commit_listing(
    m: &mut StringHashMap<RemoteObject>,
    parent: &str,
    children: &Vec<RawObject>,
) -> (r: Result<Vec<DirectoryEntry>, Error>)
    ensures
        r is Ok <==> all_digest_ok(children@) && all_times_display(children@),
        r matches Ok(es) ==> views_of(final(m)@) == listed_cache(
            views_of(old(m)@),
            parent@,
            children@,
        ) && es.deep_view() == listed_entries(parent@, children@),
        r is Err ==> *final(m) == *old(m),
        r matches Err(e) ==> e is RemoteCall,
{
    let n = children.len();
    let mut ds: Vec<RemoteObject> = Vec::new();
    let mut ts: Vec<String> = Vec::new();
    let mut i: usize = 0;
    while i < n
        invariant
            i <= n,
            n == children@.len(),
            ds@.len() == i,
            ts@.len() == i,
            forall|j: int| 0 <= j < i ==> digest_ok(children@[j]),
            forall|j: int| 0 <= j < i ==> crate::object::time_displays(
                digest_view(children@[j]).modified,
            ),
            forall|j: int| 0 <= j < i ==> ds@[j]@ == digest_view(children@[j]),
            forall|j: int|
                0 <= j < i ==> ts@[j]@ == crate::object::display_time_of(
                    digest_view(children@[j]).modified,
                ),
        decreases n - i,
    {
        let o = match digest(&children[i]) {
            Ok(o) => o,
            Err(e) => {
                return Err(e);
            },
        };
        let t = match format_timestamp(o.modified.as_str()) {
            Some(t) => t,
            None => {
                return Err(Error::RemoteCall("remote object with an unreadable timestamp".to_owned()));
            },
        };
        ds.push(o);
        ts.push(t);
        i = i + 1;
    }
    let mut es: Vec<DirectoryEntry> = Vec::new();
    let mut k: usize = 0;
    while k < n
        invariant
            k <= n,
            n == children@.len(),
            ds@.len() == n,
            ts@.len() == n,
            forall|j: int| 0 <= j < n ==> digest_ok(children@[j]),
            forall|j: int| 0 <= j < n ==> ds@[j]@ == digest_view(children@[j]),
            forall|j: int|
                0 <= j < n ==> ts@[j]@ == crate::object::display_time_of(
                    digest_view(children@[j]).modified,
                ),
            es@.len() == k,
            forall|j: int|
                0 <= j < k ==> es@[j].deep_view() == entry_of(
                    parent@,
                    digest_view(children@[j]),
                ),
            views_of(m@) == listed_cache(
                views_of(old(m)@),
                parent@,
                children@.subrange(0, k as int),
            ),
        decreases n - k,
    {
        let o = &ds[k];
        let t = ts[k].clone();
        let e = make_entry(parent, o, t);
        proof {
            assert(e@ == entry_of(parent@, digest_view(children@[k as int])));
        }
        es.push(e);
        let key = join_path(parent, o.name.as_str());
        let dup = o.duplicate();
        let ghost pre = m@;
        let ghost gkey = key@;
        let ghost gdup = dup;
        m.insert(key, dup);
        proof {
            lemma_views_insert(pre, gkey, gdup);
            assert(children@.subrange(0, k as int + 1).drop_last() =~= children@.subrange(
                0,
                k as int,
            ));
            assert(children@.subrange(0, k as int + 1).last() == children@[k as int]);
        }
        k = k + 1;
    }
    proof {
        assert(children@.subrange(0, n as int) =~= children@);
        assert(es.deep_view().len() == es@.len());
        assert(forall|j: int|
            0 <= j < n ==> es@[j].deep_view() == #[trigger] es.deep_view()[j]);
        assert(listed_entries(parent@, children@).len() == n);
        assert(forall|j: int|
            0 <= j < n ==> #[trigger] listed_entries(parent@, children@)[j] == entry_of(
                parent@,
                digest_view(children@[j]),
            ));
        assert(es.deep_view() =~= listed_entries(parent@, children@));
    }
    Ok(es)
}

} // verus!
