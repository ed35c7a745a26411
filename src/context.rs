use vstd::prelude::*;

verus! {

/// The state shared by both windows: the files of the current folder, which of
/// them is selected, whether the list window follows the main one, and the
/// frame shown of an animated image.
///
/// Whenever the list holds files the selected index points into it; while it
/// is empty the index is 0. The frame index is not tied to the selection by the
/// primitives: the navigation operations reset it themselves.
pub struct Context {
    list: Vec<String>,
    index: usize,
    snap: bool,
    frame: usize,
}

/// What a `Context` holds, as mathematical values.
pub struct ContextView {
    pub list: Seq<Seq<char>>,
    pub index: nat,
    pub snap: bool,
    pub frame: nat,
}

/// The index that follows `index` in a list of `len` files, wrapping at the end.
pub open spec fn next_index(index: nat, len: nat) -> nat {
    if index + 1 == len { 0 } else { index + 1 }
}

/// The index that precedes `index` in a list of `len` files, wrapping at the start.
pub open spec fn previous_index(index: nat, len: nat) -> nat {
    if index == 0 { (len - 1) as nat } else { (index - 1) as nat }
}

/// The index reached from `index` after `k` steps forward in a list of `len` files.
pub open spec fn advance(index: nat, len: nat, k: nat) -> nat
    decreases k,
{
    if k == 0 {
        index
    } else {
        next_index(advance(index, len, (k - 1) as nat), len)
    }
}

/// `k` steps forward from a valid index land on `(index + k) mod len`.
pub proof fn lemma_advance_mod(index: nat, len: nat, k: nat)
    requires
        index < len,
    ensures
        advance(index, len, k) as int == (index + k) as int % (len as int),
    decreases k,
{
    if k == 0 {
        vstd::arithmetic::div_mod::lemma_small_mod(index, len);
    } else {
        lemma_advance_mod(index, len, (k - 1) as nat);
        let p = advance(index, len, (k - 1) as nat);
        vstd::arithmetic::div_mod::lemma_mod_bound((index + k - 1) as int, len as int);
        vstd::arithmetic::div_mod::lemma_mod_bound((index + k) as int, len as int);
        if len > 1 {
            vstd::arithmetic::div_mod::lemma_small_mod(1, len);
            vstd::arithmetic::div_mod::lemma_add_mod_noop((index + k - 1) as int, 1, len as int);
            assert((p + 1) as int % (len as int) == (index + k) as int % (len as int));
            if p + 1 == len {
                vstd::arithmetic::div_mod::lemma_mod_self_0(len as int);
            } else {
                vstd::arithmetic::div_mod::lemma_small_mod((p + 1) as nat, len);
            }
        }
    }
}

/// Stepping forward once per file of a non-empty list comes back to the start.
pub proof fn lemma_next_cycles(index: nat, len: nat)
    requires
        index < len,
    ensures
        advance(index, len, len) == index,
{
    lemma_advance_mod(index, len, len);
    vstd::arithmetic::div_mod::lemma_mod_add_multiples_vanish(index as int, len as int);
    vstd::arithmetic::div_mod::lemma_small_mod(index, len);
}

/// A step back followed by a step forward, or a step forward followed by a step
/// back, returns to the index it started from.
pub proof fn lemma_previous_next_inverse(index: nat, len: nat)
    requires
        index < len,
    ensures
        next_index(previous_index(index, len), len) == index,
        previous_index(next_index(index, len), len) == index,
        previous_index(index, len) < len,
        next_index(index, len) < len,
{
}

/// The context after one step forward: the next file is selected and shown
/// from its first frame; a context with an empty list stays as it is.
pub open spec fn after_next(c: ContextView) -> ContextView {
    if c.list.len() == 0 {
        c
    } else {
        ContextView { index: next_index(c.index, c.list.len()), frame: 0, ..c }
    }
}

/// The context after `k` steps forward.
pub open spec fn after_nexts(c: ContextView, k: nat) -> ContextView
    decreases k,
{
    if k == 0 {
        c
    } else {
        after_next(after_nexts(c, (k - 1) as nat))
    }
}

proof fn lemma_after_nexts(c: ContextView, k: nat)
    requires
        c.wf(),
        c.list.len() > 0,
        k > 0,
    ensures
        after_nexts(c, k) == (ContextView {
            index: advance(c.index, c.list.len(), k),
            frame: 0,
            ..c
        }),
    decreases k,
{
    let len = c.list.len();
    if k > 1 {
        lemma_after_nexts(c, (k - 1) as nat);
    } else {
        assert(after_nexts(c, 0) == c);
        assert(advance(c.index, len, 0) == c.index);
    }
    assert(advance(c.index, len, k) == next_index(advance(c.index, len, (k - 1) as nat), len));
    assert(after_nexts(c, k) == after_next(after_nexts(c, (k - 1) as nat)));
}

/// As many steps forward as there are files bring a context back to the file it
/// started from, with the same list and snap flag.
pub proof fn lemma_context_next_cycles(c: ContextView)
    requires
        c.wf(),
        c.list.len() > 0,
    ensures
        after_nexts(c, c.list.len()).index == c.index,
        after_nexts(c, c.list.len()).list == c.list,
        after_nexts(c, c.list.len()).snap == c.snap,
{
    lemma_after_nexts(c, c.list.len());
    lemma_next_cycles(c.index, c.list.len());
}

impl ContextView {
    /// The selection invariant.
    pub open spec fn wf(self) -> bool {
        if self.list.len() > 0 {
            self.index < self.list.len()
        } else {
            self.index == 0
        }
    }
}

impl View for Context {
    type V = ContextView;

    closed spec fn view(&self) -> ContextView {
        ContextView {
            list: self.list@.map_values(|s: String| s@),
            index: self.index as nat,
            snap: self.snap,
            frame: self.frame as nat,
        }
    }
}

impl Context {
    /// Well-formedness: the selection invariant holds.
    pub open spec fn wf(&self) -> bool {
        self@.wf()
    }

    /// An empty context whose snap flag is the one stored in the configuration.
    pub fn new(snap: bool) -> (r: Context)
        ensures
            r.wf(),
            r@ == (ContextView { list: Seq::empty(), index: 0, snap, frame: 0 }),
    {
        let r = Context { list: Vec::new(), index: 0, snap, frame: 0 };
        assert(r@.list =~= Seq::<Seq<char>>::empty());
        r
    }

    /// The number of files in the list.
    pub fn get_len(&self) -> (r: usize)
        ensures
            r == self@.list.len(),
    {
        self.list.len()
    }

    /// The selected index.
    pub fn get_index(&self) -> (r: usize)
        ensures
            r == self@.index,
    {
        self.index
    }

    /// Selects the file at `index`, which must lie in the list (or be 0 while it
    /// is empty). The frame index is left as it is.
    pub fn set_index(&mut self, index: usize)
        requires
            old(self).wf(),
            index < old(self)@.list.len() || index == 0,
        ensures
            final(self).wf(),
            final(self)@ == (ContextView { index: index as nat, ..old(self)@ }),
    {
        self.index = index;
    }

    /// The frame shown of the selected image.
    pub fn get_frame_index(&self) -> (r: usize)
        ensures
            r == self@.frame,
    {
        self.frame
    }

    /// Sets the frame shown of the selected image.
    pub fn set_frame_index(&mut self, pos: usize)
        ensures
            final(self)@ == (ContextView { frame: pos as nat, ..old(self)@ }),
    {
        self.frame = pos;
    }

    /// Whether the list window follows the main window.
    pub fn get_snap(&self) -> (r: bool)
        ensures
            r == self@.snap,
    {
        self.snap
    }

    /// Sets whether the list window follows the main window.
    pub fn set_snap(&mut self, snap: bool)
        ensures
            final(self)@ == (ContextView { snap, ..old(self)@ }),
    {
        self.snap = snap;
    }

    /// Empties the list; the selection goes back to 0 with it.
    pub fn clear_list(&mut self)
        ensures
            final(self).wf(),
            final(self)@ == (ContextView { list: Seq::empty(), index: 0, ..old(self)@ }),
    {
        self.list = Vec::new();
        self.index = 0;
        assert(self@.list =~= Seq::<Seq<char>>::empty());
    }

    /// Appends the names of `el` (name and size pairs) to the list, in order.
    pub fn extend_list(&mut self, el: &[(String, usize)])
        requires
            old(self).wf(),
        ensures
            final(self).wf(),
            final(self)@ == (ContextView {
                list: old(self)@.list + el@.map_values(|e: (String, usize)| e.0@),
                ..old(self)@
            }),
    {
        let ghost start = self@.list;
        let mut i: usize = 0;
        while i < el.len()
            invariant
                0 <= i <= el@.len(),
                self.index == old(self).index,
                self.snap == old(self).snap,
                self.frame == old(self).frame,
                old(self)@.wf(),
                self@.list == start + el@.subrange(0, i as int).map_values(|e: (String, usize)| e.0@),
                start == old(self)@.list,
            decreases el@.len() - i,
        {
            let ghost before = self.list@;
            let name = el[i].0.clone();
            self.list.push(name);
            proof {
                assert(self.list@ == before.push(el@[i as int].0));
                assert(self@.list =~= before.map_values(|s: String| s@).push(el@[i as int].0@));
                assert(el@.subrange(0, i + 1) == el@.subrange(0, i as int).push(el@[i as int]));
                assert(self@.list =~= start + el@.subrange(0, i + 1).map_values(|e: (String, usize)| e.0@));
            }
            i = i + 1;
        }
        assert(el@.subrange(0, el@.len() as int) == el@);
    }

    /// Moves the selection one file forward, wrapping at the end, and shows the
    /// first frame of the newly selected file. Returns the new index, or `None`
    /// (with nothing changed) when the list is empty.
    pub fn select_next(&mut self) -> (r: Option<usize>)
        requires
            old(self).wf(),
        ensures
            final(self).wf(),
            final(self)@ == after_next(old(self)@),
            old(self)@.list.len() == 0 ==> r is None && final(self)@ == old(self)@,
            old(self)@.list.len() > 0 ==> {
                let i = next_index(old(self)@.index, old(self)@.list.len());
                &&& r == Some(i as usize)
                &&& final(self)@ == (ContextView { index: i, frame: 0, ..old(self)@ })
            },
    {
        let len = self.list.len();
        if len == 0 {
            return None;
        }
        let next = if self.index + 1 == len { 0 } else { self.index + 1 };
        self.index = next;
        self.frame = 0;
        Some(next)
    }

    /// Moves the selection one file back, wrapping at the start, and shows the
    /// first frame of the newly selected file. Returns the new index, or `None`
    /// (with nothing changed) when the list is empty.
    pub fn select_previous(&mut self) -> (r: Option<usize>)
        requires
            old(self).wf(),
        ensures
            final(self).wf(),
            old(self)@.list.len() == 0 ==> r is None && final(self)@ == old(self)@,
            old(self)@.list.len() > 0 ==> {
                let i = previous_index(old(self)@.index, old(self)@.list.len());
                &&& r == Some(i as usize)
                &&& final(self)@ == (ContextView { index: i, frame: 0, ..old(self)@ })
            },
    {
        let len = self.list.len();
        if len == 0 {
            return None;
        }
        let prev = if self.index == 0 { len - 1 } else { self.index - 1 };
        self.index = prev;
        self.frame = 0;
        Some(prev)
    }

    /// Selects the file at `index` when it lies in the list and differs from the
    /// current selection, showing its first frame; returns whether it did.
    /// Any other index leaves the context unchanged.
    pub fn select(&mut self, index: usize) -> (r: bool)
        requires
            old(self).wf(),
        ensures
            final(self).wf(),
            r == (index < old(self)@.list.len() && index != old(self)@.index),
            r ==> final(self)@ == (ContextView { index: index as nat, frame: 0, ..old(self)@ }),
            !r ==> final(self)@ == old(self)@,
    {
        if index < self.list.len() && index != self.index {
            self.index = index;
            self.frame = 0;
            true
        } else {
            false
        }
    }

    /// Replaces the whole list by the names of `files` and selects the first,
    /// in one step: no state in between is ever seen.
    pub fn replace_list(&mut self, files: &[(String, usize)])
        requires
            old(self).wf(),
        ensures
            final(self).wf(),
            final(self)@ == (ContextView {
                list: files@.map_values(|e: (String, usize)| e.0@),
                index: 0,
                frame: 0,
                ..old(self)@
            }),
    {
        self.clear_list();
        self.set_index(0);
        self.set_frame_index(0);
        self.extend_list(files);
        assert(self@.list =~= files@.map_values(|e: (String, usize)| e.0@));
    }

    /// The file names, in order.
    pub fn get_list_iter(&self) -> (r: &[String])
        ensures
            r@.map_values(|s: String| s@) == self@.list,
    {
        self.list.as_slice()
    }
}

} // verus!
