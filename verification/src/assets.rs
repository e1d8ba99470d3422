//! The static-asset resolver.
//!
//! Assets are a read-only mapping from key to MIME type and bytes, built
//! once at packaging time. A request path resolves only by exact match
//! against a key; an unknown path is reported not-found, never served by
//! partial overlap with an unrelated key.

use vstd::prelude::*;
use crate::response::{Body, Response};
use crate::text::str_eq;

verus! {

/// One embedded asset.
pub struct Asset {
    pub mime: String,
    pub data: Vec<u8>,
}

/// The asset mapping; read-only at runtime.
pub struct AssetStore {
    pub entries: Vec<(String, Asset)>,
}

/// First entry whose key is exactly `key`, if any.
pub open spec fn spec_lookup(entries: Seq<(String, Asset)>, key: Seq<char>) -> Option<Asset>
    decreases entries.len(),
{
    if entries.len() == 0 {
        None
    } else if entries[0].0@ == key {
        Some(entries[0].1)
    } else {
        spec_lookup(entries.skip(1), key)
    }
}

/// Whether some entry's key is exactly `key`.
pub open spec fn has_key(entries: Seq<(String, Asset)>, key: Seq<char>) -> bool {
    exists|i: int| 0 <= i < entries.len() && entries[i].0@ == key
}

/// The lookup finds an entry exactly when some key matches.
pub proof fn lemma_lookup_iff_has_key(entries: Seq<(String, Asset)>, key: Seq<char>)
    ensures
        spec_lookup(entries, key) is Some <==> has_key(entries, key),
    decreases entries.len(),
{
    if entries.len() > 0 {
        if entries[0].0@ == key {
            assert(has_key(entries, key));
        } else {
            lemma_lookup_iff_has_key(entries.skip(1), key);
            if has_key(entries.skip(1), key) {
                let i = choose|i: int|
                    0 <= i < entries.skip(1).len() && entries.skip(1)[i].0@ == key;
                assert(entries[i + 1].0@ == key);
            }
            if has_key(entries, key) {
                let i = choose|i: int| 0 <= i < entries.len() && entries[i].0@ == key;
                assert(entries.skip(1)[i - 1].0@ == key);
            }
        }
    }
}

/// Skipping entries whose keys all miss does not change the lookup.
proof fn lemma_lookup_skip(entries: Seq<(String, Asset)>, key: Seq<char>, i: int)
    requires
        0 <= i <= entries.len(),
        forall|j: int| 0 <= j < i ==> entries[j].0@ != key,
    ensures
        spec_lookup(entries, key) == spec_lookup(entries.skip(i), key),
    decreases i,
{
    if i > 0 {
        assert(forall|j: int| 0 <= j < i - 1 ==> #[trigger] entries.skip(1)[j].0@ != key);
        lemma_lookup_skip(entries.skip(1), key, i - 1);
        assert(entries.skip(1).skip(i - 1) =~= entries.skip(i));
    } else {
        assert(entries.skip(0) =~= entries);
    }
}

/// Resolve `key` against the store by exact match.
pub fn resolve<'a>(store: &'a AssetStore, key: &str) -> (r: Option<&'a Asset>)
    ensures
        r matches Some(a) ==> spec_lookup(store.entries@, key@) == Some(*a),
        r is None ==> spec_lookup(store.entries@, key@) is None,
{
    let n = store.entries.len();
    let mut i: usize = 0;
    while i < n
        invariant
            i <= n,
            n == store.entries@.len(),
            forall|j: int| 0 <= j < i ==> store.entries@[j].0@ != key@,
        decreases n - i,
    {
        if str_eq(store.entries[i].0.as_str(), key) {
            proof {
                lemma_lookup_skip(store.entries@, key@, i as int);
            }
            return Some(&store.entries[i].1);
        }
        i = i + 1;
    }
    proof {
        lemma_lookup_skip(store.entries@, key@, n as int);
    }
    None
}

/// Serve one asset request: the asset's bytes and MIME type on an exact key
/// match, otherwise a 404 with an empty body.
pub fn serve_asset(store: &AssetStore, key: &str) -> (r: Response)
    ensures
        spec_lookup(store.entries@, key@) matches Some(a) ==> {
            &&& r.status == 200
            &&& r.location is None
            &&& r.cookie is None
            &&& r.body matches Body::Bytes { mime, data } && mime@ == a.mime@ && data@ == a.data@
        },
        spec_lookup(store.entries@, key@) is None ==> {
            &&& r.status == 404
            &&& r.location is None
            &&& r.cookie is None
            &&& r.body is Empty
        },
{
    match resolve(store, key) {
        Some(asset) => Response {
            status: 200,
            location: None,
            cookie: None,
            body: Body::Bytes { mime: asset.mime.clone(), data: asset.data.clone() },
        },
        None => Response { status: 404, location: None, cookie: None, body: Body::Empty },
    }
}

} // verus!
