//! Fully-qualified reference names: the namespace a name lives in, and the
//! short name that the prompt shows for it.

use vstd::prelude::*;

verus! {

/// The separator between the segments of a reference name.
pub const SEPARATOR: char = '/';

/// The prefix of every branch's fully-qualified name.
pub open spec fn branch_namespace() -> Seq<char> {
    "refs/heads/"@
}

/// The prefix of every tag's fully-qualified name.
pub open spec fn tag_namespace() -> Seq<char> {
    "refs/tags/"@
}

/// A reference is a branch when its name lives in the branch namespace.
pub open spec fn in_branch_namespace(name: Seq<char>) -> bool {
    branch_namespace().is_prefix_of(name)
}

/// A reference is a tag when its name lives in the tag namespace.
pub open spec fn in_tag_namespace(name: Seq<char>) -> bool {
    tag_namespace().is_prefix_of(name)
}

/// Where the last segment of `name` starts: just behind the last separator,
/// or at 0 when there is none.
pub open spec fn last_segment_start(name: Seq<char>) -> int
    decreases name.len(),
{
    if name.len() == 0 {
        0
    } else if name.last() == SEPARATOR {
        name.len() as int
    } else {
        last_segment_start(name.drop_last())
    }
}

/// The segment behind the last separator of `name`; all of `name` when it
/// holds no separator.
pub open spec fn last_segment(name: Seq<char>) -> Seq<char> {
    name.subrange(last_segment_start(name), name.len() as int)
}

/// The start of the last segment lies within the name, a separator stands
/// just before it unless it is 0, and no separator follows it.
pub proof fn lemma_last_segment_start(name: Seq<char>)
    ensures
        0 <= last_segment_start(name) <= name.len(),
        last_segment_start(name) > 0 ==> name[last_segment_start(name) - 1] == SEPARATOR,
        forall|i: int| last_segment_start(name) <= i < name.len() ==> name[i] != SEPARATOR,
    decreases name.len(),
{
    if name.len() > 0 && name.last() != SEPARATOR {
        let front = name.drop_last();
        lemma_last_segment_start(front);
        assert forall|i: int| last_segment_start(name) <= i < name.len() implies name[i]
            != SEPARATOR by {
            if i < front.len() {
                assert(name[i] == front[i]);
            }
        }
    }
}

/// Any index that has a separator just before it (or is 0) and none from it
/// on is the start of the last segment.
pub proof fn lemma_last_segment_start_unique(name: Seq<char>, start: int)
    requires
        0 <= start <= name.len(),
        start > 0 ==> name[start - 1] == SEPARATOR,
        forall|i: int| start <= i < name.len() ==> name[i] != SEPARATOR,
    ensures
        last_segment_start(name) == start,
{
    lemma_last_segment_start(name);
    let found = last_segment_start(name);
    if found < start {
        assert(name[start - 1] == SEPARATOR);
    } else if found > start {
        assert(name[found - 1] == SEPARATOR);
    }
}

/// The short name is a suffix of the full name and holds no separator.
pub proof fn lemma_last_segment_is_plain_suffix(name: Seq<char>)
    ensures
        last_segment(name).is_suffix_of(name),
        !last_segment(name).contains(SEPARATOR),
{
    lemma_last_segment_start(name);
}

/// Behind a prefix that ends in a separator, a name without separators is
/// its own short name.
pub proof fn lemma_last_segment_of_qualified(namespace: Seq<char>, plain: Seq<char>)
    requires
        namespace.len() > 0,
        namespace.last() == SEPARATOR,
        !plain.contains(SEPARATOR),
    ensures
        last_segment(namespace + plain) == plain,
{
    let full = namespace + plain;
    assert forall|i: int| namespace.len() <= i < full.len() implies full[i] != SEPARATOR by {
        assert(full[i] == plain[i - namespace.len()]);
    }
    lemma_last_segment_start_unique(full, namespace.len() as int);
    assert(last_segment(full) =~= plain);
}

/// Whether `text` begins with `prefix`.
pub fn starts_with(text: &str, prefix: &str) -> (found: bool)
    ensures
        found == prefix@.is_prefix_of(text@),
{
    let text_len: usize = text.unicode_len();
    let prefix_len: usize = prefix.unicode_len();
    if prefix_len > text_len {
        return false;
    }
    let mut i: usize = 0;
    while i < prefix_len
        invariant
            i <= prefix_len <= text_len,
            prefix_len == prefix@.len(),
            text_len == text@.len(),
            forall|k: int| 0 <= k < i ==> prefix@[k] == text@[k],
        decreases prefix_len - i,
    {
        if prefix.get_char(i) != text.get_char(i) {
            assert(text@.subrange(0, prefix@.len() as int)[i as int] == text@[i as int]);
            return false;
        }
        i = i + 1;
    }
    assert(prefix@ =~= text@.subrange(0, prefix@.len() as int));
    true
}

/// Whether the fully-qualified `name` is that of a branch.
pub fn is_branch_name(name: &str) -> (branch: bool)
    ensures
        branch == in_branch_namespace(name@),
{
    starts_with(name, "refs/heads/")
}

/// Whether the fully-qualified `name` is that of a tag.
pub fn is_tag_name(name: &str) -> (tag: bool)
    ensures
        tag == in_tag_namespace(name@),
{
    starts_with(name, "refs/tags/")
}

/// The short name of a reference: the segment behind the last separator of
/// its fully-qualified name.
pub fn short_name(name: &str) -> (short: String)
    ensures
        short@ == last_segment(name@),
{
    let len: usize = name.unicode_len();
    let mut start: usize = len;
    while start > 0 && name.get_char(start - 1) != SEPARATOR
        invariant
            start <= len,
            len == name@.len(),
            forall|i: int| start <= i < len ==> name@[i] != SEPARATOR,
        decreases start,
    {
        start = start - 1;
    }
    proof {
        lemma_last_segment_start_unique(name@, start as int);
    }
    String::from_str(name.substring_char(start, len))
}

} // verus!
