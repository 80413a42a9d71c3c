//! Paths as text, with `/` as the separator: joining and the trailing
//! component.

use vstd::prelude::*;
use vstd::string::*;
use crate::text::same_text;

verus! {

/// Whether `p` starts at the root.
pub open spec fn is_absolute(p: Seq<char>) -> bool {
    p.len() > 0 && p[0] == '/'
}

/// `child` appended to `base` as a further component. An absolute `child`
/// replaces `base`; a separator is put between the two unless `base` is empty
/// or already ends with one.
pub open spec fn joined(base: Seq<char>, child: Seq<char>) -> Seq<char> {
    if is_absolute(child) {
        child
    } else if base.len() == 0 || base.last() == '/' {
        base + child
    } else {
        base + seq!['/'] + child
    }
}

/// The characters of `p` that follow its last separator.
pub open spec fn last_segment(p: Seq<char>) -> Seq<char>
    decreases p.len(),
{
    if p.len() == 0 || p.last() == '/' {
        Seq::empty()
    } else {
        last_segment(p.drop_last()).push(p.last())
    }
}

/// The trailing component of `p`: its last segment that is neither empty nor
/// `.`, unless that segment is `..` or there is none.
pub open spec fn file_name_of(p: Seq<char>) -> Option<Seq<char>>
    decreases p.len(),
{
    if p.len() == 0 {
        None
    } else if p.last() == '/' {
        file_name_of(p.drop_last())
    } else {
        let segment = last_segment(p);
        if segment == seq!['.'] {
            file_name_of(p.drop_last())
        } else if segment == seq!['.', '.'] {
            None
        } else {
            Some(segment)
        }
    }
}

/// The last segment of `p` starts right after its last separator.
pub proof fn lemma_last_segment_from(p: Seq<char>, start: int)
    requires
        0 <= start <= p.len(),
        start == 0 || p[start - 1] == '/',
        forall|i: int| start <= i < p.len() ==> p[i] != '/',
    ensures
        last_segment(p) == p.subrange(start, p.len() as int),
    decreases p.len() - start,
{
    if start == p.len() {
        assert(p.subrange(start, p.len() as int) =~= Seq::<char>::empty());
    } else {
        let shorter = p.drop_last();
        lemma_last_segment_from(shorter, start);
        assert(shorter.subrange(start, shorter.len() as int).push(p.last()) =~= p.subrange(
            start,
            p.len() as int,
        ));
    }
}

/// A path without separators, other than `.` and `..`, is its own trailing
/// component, also behind a base that it is joined to.
pub proof fn lemma_file_name_of_joined(base: Seq<char>, name: Seq<char>)
    requires
        name.len() > 0,
        forall|i: int| 0 <= i < name.len() ==> name[i] != '/',
        name != seq!['.'],
        name != seq!['.', '.'],
    ensures
        file_name_of(joined(base, name)) == Some(name),
{
    let path = joined(base, name);
    let start = path.len() - name.len();
    assert(path.subrange(start, path.len() as int) =~= name);
    assert forall|i: int| start <= i < path.len() implies path[i] != '/' by {
        assert(path[i] == name[i - start]);
    }
    assert(path.last() == name.last());
    lemma_last_segment_from(path, start);
}

/// Appends `child` to `base` as a further path component.
pub fn join_path(base: &str, child: &str) -> (r: String)
    ensures
        r@ == joined(base@, child@),
{
    let base_len: usize = base.unicode_len();
    let child_len: usize = child.unicode_len();
    if child_len > 0 && child.get_char(0) == '/' {
        return child.to_owned();
    }
    let mut r: String = base.to_owned();
    if base_len > 0 && base.get_char(base_len - 1) != '/' {
        proof {
            reveal_strlit("/");
        }
        r.append("/");
        assert(r@ =~= base@ + seq!['/']);
    }
    r.append(child);
    r
}

/// The trailing component of `path`, where it has one.
pub fn file_name(path: &str) -> (r: Option<String>)
    ensures
        r is Some <==> file_name_of(path@) is Some,
        r matches Some(name) ==> file_name_of(path@) == Some(name@),
{
    let n: usize = path.unicode_len();
    let mut end: usize = n;
    assert(path@.take(n as int) =~= path@);
    while end > 0
        invariant
            end <= n,
            n == path@.len(),
            file_name_of(path@) == file_name_of(path@.take(end as int)),
        decreases end,
    {
        let ghost head: Seq<char> = path@.take(end as int);
        assert(head.drop_last() =~= path@.take(end - 1));
        if path.get_char(end - 1) == '/' {
            end = end - 1;
        } else {
            let mut start: usize = end - 1;
            while start > 0 && path.get_char(start - 1) != '/'
                invariant
                    start < end <= n,
                    n == path@.len(),
                    forall|i: int| start <= i < end ==> path@[i] != '/',
                decreases start,
            {
                start = start - 1;
            }
            proof {
                assert forall|i: int| start <= i < head.len() implies head[i] != '/' by {
                    assert(head[i] == path@[i]);
                }
                lemma_last_segment_from(head, start as int);
                assert(head.subrange(start as int, end as int) =~= path@.subrange(
                    start as int,
                    end as int,
                ));
                reveal_strlit(".");
                reveal_strlit("..");
                assert("."@ =~= seq!['.']);
                assert(".."@ =~= seq!['.', '.']);
            }
            let segment: &str = path.substring_char(start, end);
            if same_text(segment, ".") {
                end = end - 1;
            } else if same_text(segment, "..") {
                return None;
            } else {
                return Some(segment.to_owned());
            }
        }
    }
    assert(path@.take(0) =~= Seq::<char>::empty());
    None
}

} // verus!
