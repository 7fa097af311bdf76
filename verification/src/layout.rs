use crate::text::{chars_of, push_char};
use crate::utils::{hex_of, is_upper_hex, lemma_hex_of_shape};
use vstd::prelude::*;

verus! {

/// `base` extended by the component `name`, by the rules of Unix paths: an
/// absolute `name` replaces `base`; otherwise one slash separates the two,
/// unless `base` is empty or already ends in a slash.
pub open spec fn join(base: Seq<char>, name: Seq<char>) -> Seq<char> {
    if name.len() > 0 && name[0] == '/' {
        name
    } else if base.len() == 0 || base.last() == '/' {
        base + name
    } else {
        base + seq!['/'] + name
    }
}

/// The first shard of an object name: its first two characters.
pub open spec fn shard_one(hash: Seq<char>) -> Seq<char> {
    hash.subrange(0, 2)
}

/// The second shard of an object name: its third and fourth characters.
pub open spec fn shard_two(hash: Seq<char>) -> Seq<char> {
    hash.subrange(2, 4)
}

/// The directory of the object named `hash` under `root`: two levels of
/// shards, then the full name.
pub open spec fn object_dir(root: Seq<char>, hash: Seq<char>) -> Seq<char> {
    join(join(join(root, shard_one(hash)), shard_two(hash)), hash)
}

/// Whether `hash` can be cut into shards: it has four characters or more.
pub open spec fn shardable(hash: Seq<char>) -> bool {
    hash.len() >= 4
}

/// Whether `hash` is the name of an object: 32 capital hexadecimal digits.
pub open spec fn is_object_name(hash: Seq<char>) -> bool {
    &&& hash.len() == 32
    &&& forall|i: int| 0 <= i < 32 ==> is_upper_hex(#[trigger] hash[i])
}

/// The files of one cached object.
#[derive(Clone, Debug, PartialEq, Eq)]
pub struct ObjectPaths {
    /// The name of the object.
    pub hash: String,
    /// The directory that holds the three files.
    pub dir: String,
    /// The response body, as the origin sent it.
    pub body: String,
    /// The serialized internal meta.
    pub meta: String,
    /// The serialized response header.
    pub hdr: String,
}

impl ObjectPaths {
    /// Whether these are the files of the object named `hash` under `root`.
    pub open spec fn is_layout_of(&self, root: Seq<char>, hash: Seq<char>) -> bool {
        &&& self.hash@ == hash
        &&& self.dir@ == object_dir(root, hash)
        &&& self.body@ == join(self.dir@, "body"@)
        &&& self.meta@ == join(self.dir@, "meta"@)
        &&& self.hdr@ == join(self.dir@, "hdr"@)
    }
}

/// Extends the path `base` by the component `name`.
pub fn join_path(base: &str, name: &str) -> (r: String)
    ensures
        r@ == join(base@, name@),
{
    let b = chars_of(base);
    let n = chars_of(name);
    let mut s = String::new();
    let absolute = n.len() > 0 && n[0] == '/';
    if !absolute {
        let mut i: usize = 0;
        while i < b.len()
            invariant
                i <= b@.len(),
                s@ == b@.take(i as int),
            decreases b.len() - i,
        {
            push_char(&mut s, b[i]);
            i += 1;
        }
        assert(b@.take(b@.len() as int) =~= b@);
        if b.len() > 0 && b[b.len() - 1] != '/' {
            push_char(&mut s, '/');
        }
    }
    let ghost head = s@;
    let mut j: usize = 0;
    while j < n.len()
        invariant
            j <= n@.len(),
            s@ == head + n@.take(j as int),
        decreases n.len() - j,
    {
        push_char(&mut s, n[j]);
        assert(n@.take(j as int).push(n@[j as int]) =~= n@.take(j + 1));
        j += 1;
    }
    assert(n@.take(n@.len() as int) =~= n@);
    assert(s@ =~= join(base@, name@));
    s
}

/// The files of the object named `hash` under `root`.
pub fn object_paths(root: &str, hash: String) -> (p: ObjectPaths)
    requires
        shardable(hash@),
    ensures
        p.is_layout_of(root@, hash@),
{
    let h = chars_of(hash.as_str());
    let mut one = String::new();
    push_char(&mut one, h[0]);
    push_char(&mut one, h[1]);
    let mut two = String::new();
    push_char(&mut two, h[2]);
    push_char(&mut two, h[3]);
    assert(one@ =~= shard_one(hash@));
    assert(two@ =~= shard_two(hash@));
    let level_one = join_path(root, one.as_str());
    let level_two = join_path(level_one.as_str(), two.as_str());
    let dir = join_path(level_two.as_str(), hash.as_str());
    let body = join_path(dir.as_str(), "body");
    let meta = join_path(dir.as_str(), "meta");
    let hdr = join_path(dir.as_str(), "hdr");
    ObjectPaths { hash, dir, body, meta, hdr }
}

/// The hexadecimal rendering of a 16-byte digest is an object name.
pub proof fn law_digest_is_object_name(digest: Seq<u8>)
    requires
        digest.len() == 16,
    ensures
        is_object_name(hex_of(digest)),
{
    lemma_hex_of_shape(digest);
}

/// Sharding puts every object exactly two directory levels of two
/// characters each below the root, whatever its name holds: under a root
/// that does not end in a slash, the directory of the object named `hash`
/// is `root/h0h1/h2h3/hash`.
pub proof fn law_two_shard_levels(root: Seq<char>, hash: Seq<char>)
    requires
        is_object_name(hash),
        root.len() > 0,
        root.last() != '/',
    ensures
        shard_one(hash).len() == 2,
        shard_two(hash).len() == 2,
        object_dir(root, hash) == root + seq!['/'] + shard_one(hash) + seq!['/'] + shard_two(hash)
            + seq!['/'] + hash,
{
    let one = shard_one(hash);
    let two = shard_two(hash);
    assert(is_upper_hex(hash[0]) && is_upper_hex(hash[1]) && is_upper_hex(hash[2])
        && is_upper_hex(hash[3]));
    assert(one[0] == hash[0] && one[1] == hash[1]);
    assert(two[0] == hash[2] && two[1] == hash[3]);
    let l1 = join(root, one);
    assert(l1 == root + seq!['/'] + one);
    assert(l1.last() == one[1]);
    let l2 = join(l1, two);
    assert(l2 == l1 + seq!['/'] + two);
    assert(l2.last() == two[1]);
    assert(join(l2, hash) == l2 + seq!['/'] + hash);
}

/// The three files of an object are three different paths.
pub proof fn law_object_files_distinct(dir: Seq<char>)
    ensures
        join(dir, "body"@) != join(dir, "meta"@),
        join(dir, "body"@) != join(dir, "hdr"@),
        join(dir, "meta"@) != join(dir, "hdr"@),
{
    reveal_strlit("body");
    reveal_strlit("meta");
    reveal_strlit("hdr");
    let body = join(dir, "body"@);
    let meta = join(dir, "meta"@);
    let hdr = join(dir, "hdr"@);
    assert(body.len() == meta.len());
    assert(body.len() == hdr.len() + 1);
    assert(body[body.len() - 4] == 'b');
    assert(meta[meta.len() - 4] == 'm');
}

} // verus!
