use crate::utils::{display_opt_str, hex2str, hex_of, shown_text};
use vstd::prelude::*;
use vstd::string::StringExecFns;

verus! {

/// A 128-bit digest.
pub type HashBinary = [u8; 16];

/// The key of a cached object, together with the digests that the hashing
/// backend computed for it.
#[derive(Clone, Debug, PartialEq, Eq)]
pub struct CacheKey {
    /// Separates key spaces; empty for keys that the proxy derives.
    pub namespace: String,
    /// The primary key: `scheme://host/path?query`.
    pub primary: String,
    /// An extra tag that identifies a user; empty for keys that the proxy
    /// derives.
    pub user_tag: String,
    /// The digest of the primary key.
    pub primary_bin: HashBinary,
    /// The digest of what the response varies on, if it varies.
    pub variance_bin: Option<HashBinary>,
    /// The digest of primary key and variance together: the name of the
    /// object on disk.
    pub combined_bin: HashBinary,
}

/// The narrow form of a key that eviction and purge work with.
#[derive(Clone, Debug, PartialEq, Eq)]
pub struct CompactCacheKey {
    /// The digest of the primary key.
    pub primary: HashBinary,
    /// The digest of what the response varies on, if it varies.
    pub variance: Option<HashBinary>,
    /// An extra tag that identifies a user.
    pub user_tag: String,
    /// The digest of primary key and variance together.
    pub combined_bin: HashBinary,
}

impl CacheKey {
    /// Without a variance the combined digest is the primary digest.
    pub open spec fn wf(&self) -> bool {
        self.variance_bin is None ==> self.combined_bin@ == self.primary_bin@
    }

    /// The name of the object on disk: the combined digest in capital
    /// hexadecimal digits.
    pub open spec fn combined_spec(&self) -> Seq<char> {
        hex_of(self.combined_bin@)
    }

    /// A key without variance, whose only digest is `digest`.
    pub fn new(namespace: String, primary: String, user_tag: String, digest: HashBinary) -> (key:
        CacheKey)
        ensures
            key.wf(),
            key.namespace@ == namespace@,
            key.primary@ == primary@,
            key.user_tag@ == user_tag@,
            key.primary_bin@ == digest@,
            key.variance_bin is None,
            key.combined_bin@ == digest@,
    {
        CacheKey {
            namespace,
            primary,
            user_tag,
            primary_bin: digest,
            variance_bin: None,
            combined_bin: digest,
        }
    }

    /// The name of the object on disk.
    pub fn combined(&self) -> (r: String)
        ensures
            r@ == self.combined_spec(),
            r@.len() == 32,
    {
        hex2str(&self.combined_bin)
    }

    /// The narrow form of this key. It names the same object.
    pub fn to_compact(&self) -> (c: CompactCacheKey)
        ensures
            c.primary@ == self.primary_bin@,
            c.variance == self.variance_bin,
            c.user_tag@ == self.user_tag@,
            c.combined_bin@ == self.combined_bin@,
            c.combined_spec() == self.combined_spec(),
            self.wf() ==> c.wf(),
    {
        CompactCacheKey {
            primary: self.primary_bin,
            variance: self.variance_bin,
            user_tag: self.user_tag.clone(),
            combined_bin: self.combined_bin,
        }
    }
}

impl CompactCacheKey {
    /// Without a variance the combined digest is the primary digest.
    pub open spec fn wf(&self) -> bool {
        self.variance is None ==> self.combined_bin@ == self.primary@
    }

    /// The name of the object on disk: the combined digest in capital
    /// hexadecimal digits.
    pub open spec fn combined_spec(&self) -> Seq<char> {
        hex_of(self.combined_bin@)
    }

    /// The name of the object on disk.
    pub fn combined(&self) -> (r: String)
        ensures
            r@ == self.combined_spec(),
            r@.len() == 32,
    {
        hex2str(&self.combined_bin)
    }
}

/// How an optional digest is shown: `None`, or `Some("..")` around its
/// hexadecimal digits.
pub open spec fn shown_variance(variance: Option<HashBinary>) -> Seq<char> {
    match variance {
        Some(v) => "Some(\""@ + hex_of(v@) + "\")"@,
        None => "None"@,
    }
}

/// The line that describes a compact key.
pub open spec fn compact_key_line(
    primary: Seq<u8>,
    variance: Option<HashBinary>,
    user_tag: Seq<char>,
) -> Seq<char> {
    "Primary: \""@ + hex_of(primary) + "\", Variance: "@ + shown_variance(variance)
        + ", User tag: "@ + shown_text(Some(user_tag))
}

/// The line that describes a key.
pub open spec fn cache_key_line(key: CacheKey) -> Seq<char> {
    "Namespace: "@ + shown_text(Some(key.namespace@)) + ", Primary Key: "@ + shown_text(
        Some(key.primary@),
    ) + ", "@ + compact_key_line(key.primary_bin@, key.variance_bin, key.user_tag@)
}

/// Shows an optional digest.
fn format_variance(variance: &Option<HashBinary>) -> (r: String)
    ensures
        r@ == shown_variance(*variance),
{
    match variance {
        Some(v) => {
            let mut s = "Some(\"".to_owned();
            s.append(hex2str(v).as_str());
            s.append("\")");
            s
        },
        None => "None".to_owned(),
    }
}

/// Describes a compact key in one line, for a log.
pub fn format_compact_cache_key(ck: &CompactCacheKey) -> (r: String)
    ensures
        r@ == compact_key_line(ck.primary@, ck.variance, ck.user_tag@),
{
    let mut s = "Primary: \"".to_owned();
    s.append(hex2str(&ck.primary).as_str());
    s.append("\", Variance: ");
    s.append(format_variance(&ck.variance).as_str());
    s.append(", User tag: ");
    s.append(display_opt_str(&Some(ck.user_tag.as_str())).as_str());
    s
}

/// Describes a key in one line, for a log.
pub fn format_cache_key(ck: &CacheKey) -> (r: String)
    ensures
        r@ == cache_key_line(*ck),
{
    let mut s = "Namespace: ".to_owned();
    s.append(display_opt_str(&Some(ck.namespace.as_str())).as_str());
    s.append(", Primary Key: ");
    s.append(display_opt_str(&Some(ck.primary.as_str())).as_str());
    s.append(", ");
    s.append("Primary: \"");
    s.append(hex2str(&ck.primary_bin).as_str());
    s.append("\", Variance: ");
    s.append(format_variance(&ck.variance_bin).as_str());
    s.append(", User tag: ");
    s.append(display_opt_str(&Some(ck.user_tag.as_str())).as_str());
    assert(s@ =~= cache_key_line(*ck));
    s
}

} // verus!
