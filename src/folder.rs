use vstd::prelude::*;

use crate::text::{chars_of, string_of};
use crate::path::{drive_len, file_name, find_name_start, is_separator, name_start, prefix_len, strip_end, stripped};
use crate::util::{is_accepted, is_accepted_image_type};

verus! {

/// One entry of a folder listing: its name, its size in bytes, and whether it
/// is itself a folder.
pub struct DirEntry {
    pub name: String,
    pub size: usize,
    pub is_dir: bool,
}

/// The files of a listing that the viewer shows, with their sizes, in the
/// order of the listing: entries that are no folders and whose names have an
/// accepted image extension.
pub open spec fn listed_images(entries: Seq<DirEntry>) -> Seq<(Seq<char>, usize)>
    decreases entries.len(),
{
    if entries.len() == 0 {
        Seq::empty()
    } else {
        let rest = listed_images(entries.drop_last());
        let e = entries.last();
        if !e.is_dir && is_accepted(e.name@) {
            rest.push((e.name@, e.size))
        } else {
            rest
        }
    }
}

/// The folder that holds the last component of `p` (trailing separators and
/// `.` aside): the text before that component without its trailing separators,
/// except that a root (`/`, `C:\`) keeps its separator, a drive alone (`C:`) is
/// kept as it is, and a bare name gives the empty (current) folder. A path that
/// is empty, a root or a drive has no parent.
pub open spec fn parent_of(p: Seq<char>) -> Option<Seq<char>> {
    let s = stripped(p);
    let n = name_start(s);
    if n == s.len() {
        None
    } else {
        let head = s.subrange(0, n as int);
        let t = stripped(head);
        let pl = prefix_len(head);
        if t.len() > pl {
            Some(t)
        } else if head.len() > pl && is_separator(head[pl as int]) {
            Some(head.subrange(0, (pl + 1) as int))
        } else {
            Some(head.subrange(0, pl as int))
        }
    }
}

/// The folder whose files a drop of `p` shows: `p` itself when it is a folder,
/// else the folder that holds it.
pub open spec fn drop_folder(p: Seq<char>, is_dir: bool) -> Option<Seq<char>> {
    if is_dir {
        Some(p)
    } else {
        parent_of(p)
    }
}

/// Dropping a file that is no folder lists the folder that holds it: for any
/// path that names a file (it has a last component, so it is not empty, a root
/// or a drive) the target exists and is the path's parent.
pub proof fn lemma_dropped_file_lists_parent(p: Seq<char>)
    requires
        file_name(p).len() > 0,
    ensures
        drop_folder(p, false) is Some,
        drop_folder(p, false) == parent_of(p),
{
}

/// The image files of a folder listing, as name and size pairs, in order.
pub fn accepted_files(entries: &Vec<DirEntry>) -> (r: Vec<(String, usize)>)
    ensures
        r@.map_values(|f: (String, usize)| (f.0@, f.1)) == listed_images(entries@),
{
    let mut r: Vec<(String, usize)> = Vec::new();
    let mut i: usize = 0;
    while i < entries.len()
        invariant
            i <= entries@.len(),
            r@.map_values(|f: (String, usize)| (f.0@, f.1)) == listed_images(
                entries@.subrange(0, i as int),
            ),
        decreases entries@.len() - i,
    {
        let e = &entries[i];
        assert(entries@.subrange(0, i + 1).drop_last() =~= entries@.subrange(0, i as int));
        if !e.is_dir && is_accepted_image_type(e.name.as_str()) {
            r.push((e.name.clone(), e.size));
        }
        assert(r@.map_values(|f: (String, usize)| (f.0@, f.1)) =~= listed_images(
            entries@.subrange(0, i + 1),
        ));
        i = i + 1;
    }
    assert(entries@.subrange(0, entries@.len() as int) =~= entries@);
    r
}

/// The folder that holds the file at `path`, as `parent_of` states.
pub fn parent_dir(path: &str) -> (r: Option<String>)
    ensures
        match r {
            Some(s) => parent_of(path@) == Some(s@),
            None => parent_of(path@) is None,
        },
{
    let cs = chars_of(path);
    assert(cs@.subrange(0, cs@.len() as int) =~= path@);
    let e = strip_end(&cs, cs.len());
    let n = find_name_start(&cs, e);
    if n == e {
        return None;
    }
    let ghost s = cs@.subrange(0, e as int);
    assert(s.subrange(0, n as int) =~= cs@.subrange(0, n as int));
    let t = strip_end(&cs, n);
    let pl = drive_len(&cs, n);
    if t > pl {
        Some(string_of(&cs, 0, t))
    } else if n > pl && (cs[pl] == '/' || cs[pl] == '\\') {
        assert(cs@.subrange(0, n as int).subrange(0, pl + 1) =~= cs@.subrange(0, pl + 1));
        Some(string_of(&cs, 0, pl + 1))
    } else {
        assert(cs@.subrange(0, n as int).subrange(0, pl as int) =~= cs@.subrange(0, pl as int));
        Some(string_of(&cs, 0, pl))
    }
}

/// The folder to list when `path` is dropped on the viewer: the path itself
/// when it is a folder, else the folder that holds it.
pub fn drop_target(path: &str, is_dir: bool) -> (r: Option<String>)
    ensures
        match r {
            Some(s) => drop_folder(path@, is_dir) == Some(s@),
            None => drop_folder(path@, is_dir) is None,
        },
{
    if is_dir {
        Some(path.to_owned())
    } else {
        parent_dir(path)
    }
}

} // verus!
