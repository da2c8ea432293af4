//! Where a demo lives under a storage root.
//!
//! A demo named `name` is kept at `root/name[0..2]/name[2..4]/name`: two
//! levels of directories taken from the first four characters of the name, so
//! that no directory grows without bound. The same rule serves every root, so
//! one name leads to the same place below each of them.

use vstd::prelude::*;
use vstd::string::*;

verus! {

/// A name can be placed when it has the four characters that the two
/// directory levels are cut from.
pub open spec fn shardable(name: Seq<char>) -> bool {
    name.len() >= 4
}

/// What follows the root in the path of `name`: the two directory levels and
/// the name itself, each behind a separator.
pub open spec fn shard_suffix(name: Seq<char>) -> Seq<char> {
    seq!['/'] + name.subrange(0, 2) + seq!['/'] + name.subrange(2, 4) + seq!['/'] + name
}

/// The path of `name` below `root`.
pub open spec fn sharded_path(root: Seq<char>, name: Seq<char>) -> Seq<char> {
    root + shard_suffix(name)
}

/// Whether `name` is long enough to be placed.
pub fn is_shardable(name: &str) -> (ok: bool)
    ensures
        ok == shardable(name@),
{
    name.unicode_len() >= 4
}

/// The path of `name` below `basedir`.
pub fn generate_path(basedir: &str, name: &str) -> (path: String)
    requires
        shardable(name@),
    ensures
        path@ == sharded_path(basedir@, name@),
{
    proof {
        reveal_strlit("/");
    }
    let mut path = String::from_str(basedir);
    path.append("/");
    path.append(name.substring_char(0, 2));
    path.append("/");
    path.append(name.substring_char(2, 4));
    path.append("/");
    path.append(name);
    assert("/"@ =~= seq!['/']);
    path
}

/// Like [`generate_path`], for any name: `None` where the name is too short to
/// be placed.
pub fn try_generate_path(basedir: &str, name: &str) -> (path: Option<String>)
    ensures
        path is Some <==> shardable(name@),
        path matches Some(p) ==> p@ == sharded_path(basedir@, name@),
{
    if is_shardable(name) {
        Some(generate_path(basedir, name))
    } else {
        None
    }
}

/// Where the last component of `path` begins: behind its last separator, or
/// at 0 where it has none.
pub open spec fn file_name_start(path: Seq<char>) -> int
    decreases path.len(),
{
    if path.len() == 0 {
        0
    } else if path.last() == '/' {
        path.len() as int
    } else {
        file_name_start(path.drop_last())
    }
}

/// The last component of `path`: what follows its last separator, or all of
/// it where it has none.
pub open spec fn file_name_of(path: Seq<char>) -> Seq<char> {
    path.subrange(file_name_start(path), path.len() as int)
}

/// `file_name_start` is the one position from which no separator follows and
/// before which, unless it is the start, a separator stands.
pub proof fn lemma_file_name_start(path: Seq<char>, start: int)
    requires
        0 <= start <= path.len(),
        forall|j: int| start <= j < path.len() ==> path[j] != '/',
        start == 0 || path[start - 1] == '/',
    ensures
        file_name_start(path) == start,
    decreases path.len(),
{
    if path.len() > 0 && path.last() != '/' {
        lemma_file_name_start(path.drop_last(), start);
    }
}

/// The last component of `path`, the file's name. It holds no separator, and
/// `path` is a directory part, empty or ending in a separator, followed by it.
pub fn file_name(path: &str) -> (name: &str)
    ensures
        name@ == file_name_of(path@),
        !name@.contains('/'),
        path@ == path@.subrange(0, file_name_start(path@)) + name@,
        0 <= file_name_start(path@) <= path@.len(),
        file_name_start(path@) == 0 || path@[file_name_start(path@) - 1] == '/',
{
    let len: usize = path.unicode_len();
    let mut start: usize = len;
    while start > 0 && path.get_char(start - 1) != '/'
        invariant
            start <= len,
            len == path@.len(),
            forall|j: int| start <= j < len ==> path@[j] != '/',
        decreases start,
    {
        start = start - 1;
    }
    proof {
        lemma_file_name_start(path@, start as int);
    }
    let name = path.substring_char(start, len);
    assert(path@ =~= path@.subrange(0, start as int) + name@);
    name
}

/// `text` without the separators at its end.
pub open spec fn trimmed(text: Seq<char>) -> Seq<char>
    decreases text.len(),
{
    if text.len() > 0 && text.last() == '/' {
        trimmed(text.drop_last())
    } else {
        text
    }
}

/// `trimmed` keeps the longest start of the text that does not end in a
/// separator.
pub proof fn lemma_trimmed(text: Seq<char>, keep: int)
    requires
        0 <= keep <= text.len(),
        forall|j: int| keep <= j < text.len() ==> text[j] == '/',
        keep == 0 || text[keep - 1] != '/',
    ensures
        trimmed(text) == text.subrange(0, keep),
    decreases text.len(),
{
    if text.len() > 0 && text.last() == '/' {
        if keep == text.len() {
            assert(text.subrange(0, keep) =~= text);
        } else {
            lemma_trimmed(text.drop_last(), keep);
            assert(text.drop_last().subrange(0, keep) =~= text.subrange(0, keep));
        }
    } else {
        assert(text.subrange(0, keep) =~= text);
    }
}

/// Whether `text` ends in a separator.
pub open spec fn ends_in_separator(text: Seq<char>) -> bool {
    text.len() > 0 && text.last() == '/'
}

/// What `trimmed` gives does not end in a separator, so trimming it again
/// changes nothing.
pub proof fn lemma_trimmed_is_trim(text: Seq<char>)
    ensures
        !ends_in_separator(trimmed(text)),
        trimmed(trimmed(text)) == trimmed(text),
    decreases text.len(),
{
    if ends_in_separator(text) {
        lemma_trimmed_is_trim(text.drop_last());
    }
}

/// `text` without the separators at its end: a root is kept this way, so
/// that `/srv/demos/` and `/srv/demos` name one place. The result does not
/// end in a separator, and only separators were cut.
pub fn trim_separators(text: &str) -> (kept: &str)
    ensures
        kept@ == trimmed(text@),
        !ends_in_separator(kept@),
        kept@.len() <= text@.len(),
        kept@ == text@.subrange(0, kept@.len() as int),
        forall|j: int| kept@.len() <= j < text@.len() ==> text@[j] == '/',
{
    let len: usize = text.unicode_len();
    let mut keep: usize = len;
    while keep > 0 && text.get_char(keep - 1) == '/'
        invariant
            keep <= len,
            len == text@.len(),
            forall|j: int| keep <= j < len ==> text@[j] == '/',
        decreases keep,
    {
        keep = keep - 1;
    }
    proof {
        lemma_trimmed(text@, keep as int);
    }
    text.substring_char(0, keep)
}

/// Under any two roots, the path of one name ends in the same relative part:
/// what is left of each path once its root is taken away is equal.
pub proof fn lemma_same_place_under_each_root(
    source_root: Seq<char>,
    target_root: Seq<char>,
    name: Seq<char>,
)
    requires
        shardable(name),
    ensures
        sharded_path(source_root, name).subrange(
            source_root.len() as int,
            sharded_path(source_root, name).len() as int,
        ) == sharded_path(target_root, name).subrange(
            target_root.len() as int,
            sharded_path(target_root, name).len() as int,
        ),
        sharded_path(source_root, name).subrange(0, source_root.len() as int) == source_root,
        sharded_path(target_root, name).subrange(0, target_root.len() as int) == target_root,
{
    let suffix = shard_suffix(name);
    assert(sharded_path(source_root, name).subrange(
        source_root.len() as int,
        sharded_path(source_root, name).len() as int,
    ) =~= suffix);
    assert(sharded_path(target_root, name).subrange(
        target_root.len() as int,
        sharded_path(target_root, name).len() as int,
    ) =~= suffix);
    assert(sharded_path(source_root, name).subrange(0, source_root.len() as int) =~= source_root);
    assert(sharded_path(target_root, name).subrange(0, target_root.len() as int) =~= target_root);
}

/// Under one root, two names have the same path only if they are the same
/// name: no two demos share a place.
pub proof fn lemma_path_tells_name(root: Seq<char>, first: Seq<char>, second: Seq<char>)
    requires
        shardable(first),
        shardable(second),
        sharded_path(root, first) == sharded_path(root, second),
    ensures
        first == second,
{
    let p = sharded_path(root, first);
    let q = sharded_path(root, second);
    assert(p.len() == root.len() + 7 + first.len());
    assert(q.len() == root.len() + 7 + second.len());
    assert(first =~= p.subrange(root.len() as int + 7, p.len() as int));
    assert(second =~= q.subrange(root.len() as int + 7, q.len() as int));
}

} // verus!
