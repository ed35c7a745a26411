use vstd::prelude::*;

verus! {

/// Whether `c` separates the components of a path.
pub open spec fn is_separator(c: char) -> bool {
    c == '/' || c == '\\'
}

/// The length of the longest prefix of `p` that ends in `a` or `b`: the position
/// just after the last such character, or 0 when there is none.
pub open spec fn after_last(p: Seq<char>, a: char, b: char) -> nat
    decreases p.len(),
{
    if p.len() == 0 {
        0
    } else if p.last() == a || p.last() == b {
        p.len()
    } else {
        after_last(p.drop_last(), a, b)
    }
}

/// `p` without what ends it and names no component: trailing separators and a
/// final `.` component.
pub open spec fn stripped(p: Seq<char>) -> Seq<char>
    decreases p.len(),
{
    if p.len() > 0 && is_separator(p.last()) {
        stripped(p.drop_last())
    } else if p.len() >= 2 && p.last() == '.' && is_separator(p[p.len() - 2]) {
        stripped(p.drop_last())
    } else {
        p
    }
}

/// Whether `p` starts with a drive, as in `C:`.
pub open spec fn has_drive(p: Seq<char>) -> bool {
    &&& p.len() >= 2
    &&& p[1] == ':'
    &&& ('a' <= p[0] <= 'z' || 'A' <= p[0] <= 'Z')
}

/// The length of the drive prefix of `p`: 2 when it has one, else 0.
pub open spec fn prefix_len(p: Seq<char>) -> nat {
    if has_drive(p) {
        2
    } else {
        0
    }
}

/// Where the last component of `p` starts: after its last separator, and never
/// inside its drive prefix.
pub open spec fn name_start(p: Seq<char>) -> nat {
    let k = after_last(p, '/', '\\');
    if k < prefix_len(p) {
        prefix_len(p)
    } else {
        k
    }
}

/// The last component of a path, trailing separators and `.` aside; empty when
/// the path is only a root or a drive.
pub open spec fn file_name(p: Seq<char>) -> Seq<char> {
    let s = stripped(p);
    s.subrange(name_start(s) as int, s.len() as int)
}

/// The extension of a path: what follows the last dot of its file name, when
/// that dot is not the name's first character.
pub open spec fn extension(p: Seq<char>) -> Option<Seq<char>> {
    let n = file_name(p);
    let k = after_last(n, '.', '.');
    if k > 1 {
        Some(n.subrange(k as int, n.len() as int))
    } else {
        None
    }
}

proof fn lemma_after_last_bound(p: Seq<char>, a: char, b: char)
    ensures
        after_last(p, a, b) <= p.len(),
    decreases p.len(),
{
    if p.len() > 0 {
        lemma_after_last_bound(p.drop_last(), a, b);
    }
}

/// The position just after the last `a` or `b` in `cs[start..end]`, or `start`.
pub(crate) fn find_after_last(cs: &Vec<char>, start: usize, end: usize, a: char, b: char) -> (r: usize)
    requires
        start <= end <= cs@.len(),
    ensures
        r == start + after_last(cs@.subrange(start as int, end as int), a, b),
        start <= r <= end,
{
    proof {
        lemma_after_last_bound(cs@.subrange(start as int, end as int), a, b);
    }
    let mut i: usize = end;
    while i > start
        invariant
            start <= i <= end <= cs@.len(),
            after_last(cs@.subrange(start as int, end as int), a, b) == after_last(
                cs@.subrange(start as int, i as int),
                a,
                b,
            ),
        decreases i,
    {
        let c = cs[i - 1];
        if c == a || c == b {
            return i;
        }
        assert(cs@.subrange(start as int, i as int).drop_last() =~= cs@.subrange(
            start as int,
            i - 1,
        ));
        i = i - 1;
    }
    start
}

fn separator(c: char) -> (r: bool)
    ensures
        r == is_separator(c),
{
    c == '/' || c == '\\'
}

/// The length of `stripped(cs[..end])`, which is a prefix of it.
pub(crate) fn strip_end(cs: &Vec<char>, end: usize) -> (r: usize)
    requires
        end <= cs@.len(),
    ensures
        r <= end,
        cs@.subrange(0, r as int) == stripped(cs@.subrange(0, end as int)),
{
    let mut i: usize = end;
    loop
        invariant
            i <= end <= cs@.len(),
            stripped(cs@.subrange(0, end as int)) == stripped(cs@.subrange(0, i as int)),
        decreases i,
    {
        let ghost p = cs@.subrange(0, i as int);
        if i > 0 && separator(cs[i - 1]) {
            assert(p.drop_last() =~= cs@.subrange(0, i - 1));
            i = i - 1;
        } else if i >= 2 && cs[i - 1] == '.' && separator(cs[i - 2]) {
            assert(p.drop_last() =~= cs@.subrange(0, i - 1));
            i = i - 1;
        } else {
            return i;
        }
    }
}

/// The length of the drive prefix of `cs[..end]`.
pub(crate) fn drive_len(cs: &Vec<char>, end: usize) -> (r: usize)
    requires
        end <= cs@.len(),
    ensures
        r == prefix_len(cs@.subrange(0, end as int)),
{
    if end >= 2 && cs[1] == ':' && (('a' <= cs[0] && cs[0] <= 'z') || ('A' <= cs[0] && cs[0]
        <= 'Z')) {
        2
    } else {
        0
    }
}

/// Where the last component of `cs[..end]` starts.
pub(crate) fn find_name_start(cs: &Vec<char>, end: usize) -> (r: usize)
    requires
        end <= cs@.len(),
    ensures
        r == name_start(cs@.subrange(0, end as int)),
        r <= end,
{
    let k = find_after_last(cs, 0, end, '/', '\\');
    let pl = drive_len(cs, end);
    if k < pl {
        pl
    } else {
        k
    }
}

} // verus!
