//! Where the cache keeps its files:
//!
//! ```text
//! <root>/Cache.toml                 root manifest
//! <root>/<bucket>/CacheItem.toml    item manifest of a bucket
//! <root>/<bucket>/<key>             value of a key
//! ```
//!
//! `<bucket>` and `<key>` are content addresses, so they hold hexadecimal
//! digits only.
use crate::digest::{
    content_address, flexbuffer_of_string, is_address, is_hex_char,
    lemma_content_address_distinct, sha256,
};
use vstd::prelude::*;
use vstd::string::*;

verus! {

/// File name of the root manifest.
pub const MANIFEST_NAME: &'static str = "Cache.toml";

/// File name of a bucket's item manifest.
pub const ITEM_MANIFEST_NAME: &'static str = "CacheItem.toml";

/// What stands before a name that is joined to `base`: nothing for an empty
/// base, else the base followed by one separator.
pub open spec fn prefix_of(base: Seq<char>) -> Seq<char> {
    if base.len() == 0 {
        base
    } else if base.last() == '/' {
        base
    } else {
        base.push('/')
    }
}

/// The path of `name` inside the directory `base`.
pub open spec fn join(base: Seq<char>, name: Seq<char>) -> Seq<char> {
    prefix_of(base) + name
}

/// The path of the root manifest of the cache at `root`.
pub open spec fn manifest_path(root: Seq<char>) -> Seq<char> {
    join(root, MANIFEST_NAME@)
}

/// The path of the bucket named `bucket`.
pub open spec fn bucket_path(root: Seq<char>, bucket: Seq<char>) -> Seq<char> {
    join(root, bucket)
}

/// The path of the item manifest of the bucket named `bucket`.
pub open spec fn item_manifest_path(root: Seq<char>, bucket: Seq<char>) -> Seq<char> {
    join(bucket_path(root, bucket), ITEM_MANIFEST_NAME@)
}

/// The path of the value file named `key` in the bucket named `bucket`.
pub open spec fn value_path(root: Seq<char>, bucket: Seq<char>, key: Seq<char>) -> Seq<char> {
    join(bucket_path(root, bucket), key)
}

/// Joining two names to one base gives one path only if the names are equal.
pub proof fn lemma_join_injective(base: Seq<char>, a: Seq<char>, b: Seq<char>)
    requires
        join(base, a) == join(base, b),
    ensures
        a == b,
{
    let p = prefix_of(base);
    assert((p + a).subrange(p.len() as int, (p + a).len() as int) =~= a);
    assert((p + b).subrange(p.len() as int, (p + b).len() as int) =~= b);
}

/// Identifiers whose digests differ get different bucket directories.
pub proof fn lemma_bucket_paths_distinct(root: Seq<char>, id1: Seq<char>, id2: Seq<char>)
    requires
        sha256(flexbuffer_of_string(id1)) != sha256(flexbuffer_of_string(id2)),
    ensures
        bucket_path(root, content_address(flexbuffer_of_string(id1))) != bucket_path(
            root,
            content_address(flexbuffer_of_string(id2)),
        ),
{
    let a = content_address(flexbuffer_of_string(id1));
    let b = content_address(flexbuffer_of_string(id2));
    lemma_content_address_distinct(flexbuffer_of_string(id1), flexbuffer_of_string(id2));
    if bucket_path(root, a) == bucket_path(root, b) {
        lemma_join_injective(root, a, b);
    }
}

/// Within one bucket, keys whose digests differ get different value files.
pub proof fn lemma_value_paths_distinct(
    root: Seq<char>,
    bucket: Seq<char>,
    key1: Seq<u8>,
    key2: Seq<u8>,
)
    requires
        sha256(key1) != sha256(key2),
    ensures
        value_path(root, bucket, content_address(key1)) != value_path(
            root,
            bucket,
            content_address(key2),
        ),
{
    lemma_content_address_distinct(key1, key2);
    if value_path(root, bucket, content_address(key1)) == value_path(
        root,
        bucket,
        content_address(key2),
    ) {
        lemma_join_injective(bucket_path(root, bucket), content_address(key1), content_address(key2));
    }
}

/// No value file takes the place of its bucket's item manifest, and no bucket
/// takes the place of the root manifest.
pub proof fn lemma_manifests_apart(root: Seq<char>, bucket: Seq<char>, key: Seq<char>)
    requires
        is_address(bucket),
        is_address(key),
    ensures
        value_path(root, bucket, key) != item_manifest_path(root, bucket),
        bucket_path(root, bucket) != manifest_path(root),
{
    reveal_strlit("Cache.toml");
    reveal_strlit("CacheItem.toml");
    assert(MANIFEST_NAME@.len() == 10);
    assert(ITEM_MANIFEST_NAME@.len() == 14);
    if value_path(root, bucket, key) == item_manifest_path(root, bucket) {
        lemma_join_injective(bucket_path(root, bucket), key, ITEM_MANIFEST_NAME@);
    }
    if bucket_path(root, bucket) == manifest_path(root) {
        lemma_join_injective(root, bucket, MANIFEST_NAME@);
    }
}

/// Files of different buckets never share a path, whatever their names.
pub proof fn lemma_buckets_apart(
    root: Seq<char>,
    bucket1: Seq<char>,
    bucket2: Seq<char>,
    name1: Seq<char>,
    name2: Seq<char>,
)
    requires
        is_address(bucket1),
        is_address(bucket2),
        bucket1 != bucket2,
    ensures
        join(bucket_path(root, bucket1), name1) != join(bucket_path(root, bucket2), name2),
{
    let p = prefix_of(root);
    let d1 = bucket_path(root, bucket1);
    let d2 = bucket_path(root, bucket2);
    assert(d1.last() == bucket1[63]);
    assert(d2.last() == bucket2[63]);
    assert(is_hex_char(bucket1[63]));
    assert(is_hex_char(bucket2[63]));
    let f1 = join(d1, name1);
    let f2 = join(d2, name2);
    assert(f1 == d1.push('/') + name1);
    assert(f2 == d2.push('/') + name2);
    if f1 == f2 {
        assert forall|i: int| 0 <= i < 64 implies bucket1[i] == bucket2[i] by {
            assert(f1[p.len() + i] == bucket1[i]);
            assert(f2[p.len() + i] == bucket2[i]);
        }
        assert(bucket1 =~= bucket2);
    }
}

/// Computes the path of `name` inside the directory `base`.
pub fn join_path(base: &str, name: &str) -> (path: String)
    ensures
        path@ == join(base@, name@),
{
    let n = base.unicode_len();
    if n == 0 {
        assert(base@ + name@ =~= name@);
        name.to_owned()
    } else if base.get_char(n - 1) == '/' {
        base.to_owned().concat(name)
    } else {
        let path = base.to_owned().concat("/").concat(name);
        proof {
            reveal_strlit("/");
            assert("/"@ =~= seq!['/']);
            assert(base@ + "/"@ =~= base@.push('/'));
        }
        path
    }
}

} // verus!
