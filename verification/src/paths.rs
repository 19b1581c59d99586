//! Paths as sequences of characters: joining a component to a directory and
//! reading a path relative to a root.

use crate::platform::Platform;
use vstd::prelude::*;

verus! {

/// `base` followed by the component `name`, with the platform's separator
/// between them unless `base` is empty or already ends in a separator.
pub open spec fn spec_join(base: Seq<char>, name: Seq<char>, platform: Platform) -> Seq<char> {
    if base.len() == 0 {
        name
    } else if platform.spec_is_separator(base.last()) {
        base + name
    } else {
        base + seq![platform.spec_separator()] + name
    }
}

/// What is left of `path` once the leading `root` and the separator after it
/// are taken away, or `None` where `path` does not lie at or under `root`.
pub open spec fn spec_relative_path(root: Seq<char>, path: Seq<char>, platform: Platform) -> Option<
    Seq<char>,
> {
    if !root.is_prefix_of(path) {
        None
    } else if root.len() == 0 || platform.spec_is_separator(root.last()) {
        Some(path.skip(root.len() as int))
    } else if root.len() == path.len() {
        Some(Seq::empty())
    } else if platform.spec_is_separator(path[root.len() as int]) {
        Some(path.skip(root.len() as int + 1))
    } else {
        None
    }
}

/// The characters of `s`, one by one.
pub fn chars_of(s: &str) -> (v: Vec<char>)
    ensures
        v@ == s@,
{
    let mut v: Vec<char> = Vec::new();
    for c in it: s.chars()
        invariant
            it.seq() == s@,
            v@ == s@.take(it.index() as int),
    {
        v.push(c);
    }
    assert(s@.take(s@.len() as int) =~= s@);
    v
}

/// Appends the component `name` to the directory `base`.
pub fn join(base: &str, name: &str, platform: Platform) -> (joined: String)
    ensures
        joined@ == spec_join(base@, name@, platform),
{
    let n = base.unicode_len();
    if n == 0 {
        return String::from_str(name);
    }
    let mut joined = String::from_str(base);
    if !platform.is_separator(base.get_char(n - 1)) {
        proof {
            reveal_strlit("\\");
            reveal_strlit("/");
        }
        match platform {
            Platform::Windows => {
                joined.append("\\");
                assert(joined@ == base@ + seq!['\\']);
            },
            _ => {
                joined.append("/");
                assert(joined@ == base@ + seq!['/']);
            },
        }
    }
    joined.append(name);
    joined
}

/// Reads `path` relative to `root`: the part of `path` below `root`, or `None`
/// where `path` does not lie at or under `root`.
pub fn relative_path(root: &str, path: &str, platform: Platform) -> (rel: Option<String>)
    ensures
        match rel {
            Some(r) => spec_relative_path(root@, path@, platform) == Some(r@),
            None => spec_relative_path(root@, path@, platform) is None,
        },
{
    let r = chars_of(root);
    let p = chars_of(path);
    if r.len() > p.len() {
        return None;
    }
    let mut i: usize = 0;
    while i < r.len()
        invariant
            r@ == root@,
            p@ == path@,
            r.len() <= p.len(),
            i <= r.len(),
            r@.take(i as int) == p@.take(i as int),
        decreases r.len() - i,
    {
        if r[i] != p[i] {
            assert(!r@.is_prefix_of(p@)) by {
                if r@.is_prefix_of(p@) {
                    assert(p@.subrange(0, r@.len() as int)[i as int] == r@[i as int]);
                }
            }
            return None;
        }
        assert(r@.take(i + 1) == r@.take(i as int).push(r@[i as int]));
        assert(p@.take(i + 1) == p@.take(i as int).push(p@[i as int]));
        i += 1;
    }
    assert(r@.take(r.len() as int) == r@);
    assert(r@.is_prefix_of(p@));
    let start: usize = if r.len() == 0 || platform.is_separator(r[r.len() - 1]) {
        r.len()
    } else if r.len() == p.len() {
        r.len()
    } else if platform.is_separator(p[r.len()]) {
        r.len() + 1
    } else {
        return None;
    };
    let rest = path.substring_char(start, p.len());
    assert(rest@ == p@.skip(start as int));
    assert(r.len() == p.len() ==> p@.skip(start as int) == Seq::<char>::empty());
    Some(String::from_str(rest))
}

/// A component joined to a directory is read back as that component where
/// the joined path is taken relative to the directory.
pub proof fn lemma_joined_path_is_relative(base: Seq<char>, name: Seq<char>, platform: Platform)
    ensures
        spec_relative_path(base, spec_join(base, name, platform), platform) == Some(name),
{
    let joined = spec_join(base, name, platform);
    if base.len() == 0 {
        assert(joined.skip(0) =~= name);
    } else if platform.spec_is_separator(base.last()) {
        assert(joined.subrange(0, base.len() as int) =~= base);
        assert(joined.skip(base.len() as int) =~= name);
    } else {
        assert(joined.subrange(0, base.len() as int) =~= base);
        assert(joined[base.len() as int] == platform.spec_separator());
        assert(joined.skip(base.len() as int + 1) =~= name);
    }
}

} // verus!
