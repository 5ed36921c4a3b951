//! Paths as sequences of components, and the `/`-joined form in which the
//! index of the store names a file.

use vstd::prelude::*;

verus! {

/// The byte that separates components in an index entry, and the name of the root.
pub const SLASH: u8 = 47;

/// The byte of which the names `.` and `..` are made.
pub const DOT: u8 = 46;

/// The components of a path, each as its bytes.
pub open spec fn components(parts: Seq<Vec<u8>>) -> Seq<Seq<u8>> {
    parts.map_values(|part: Vec<u8>| part@)
}

/// The paths of a list, each as its components.
pub open spec fn paths(list: Seq<FilePath>) -> Seq<Seq<Seq<u8>>> {
    list.map_values(|path: FilePath| path@)
}

/// The component that stands for the root of the file system.
pub open spec fn is_root(component: Seq<u8>) -> bool {
    component == seq![SLASH]
}

/// A component that names a directory entry: not empty, without a separator,
/// and neither `.` nor `..`.
pub open spec fn is_normal(component: Seq<u8>) -> bool {
    &&& component.len() > 0
    &&& !component.contains(SLASH)
    &&& component != seq![DOT]
    &&& component != seq![DOT, DOT]
}

/// An absolute path in which every component after the root names a directory
/// entry, so that no other spelling of the same components exists.
pub open spec fn is_canonical(path: Seq<Seq<u8>>) -> bool {
    &&& path.len() > 0
    &&& is_root(path[0])
    &&& forall|i: int| 1 <= i < path.len() ==> is_normal(#[trigger] path[i])
}

/// A path of one component or more, all of which name directory entries: the
/// form of a tracked file.
pub open spec fn is_relative(path: Seq<Seq<u8>>) -> bool {
    &&& path.len() > 0
    &&& forall|i: int| 0 <= i < path.len() ==> is_normal(#[trigger] path[i])
}

/// `path` lies strictly below `root`.
pub open spec fn is_below(root: Seq<Seq<u8>>, path: Seq<Seq<u8>>) -> bool {
    root.len() < path.len() && root.is_prefix_of(path)
}

/// A path without its last component; the empty path stays empty.
pub open spec fn parent_of(path: Seq<Seq<u8>>) -> Seq<Seq<u8>> {
    if path.len() > 0 {
        path.drop_last()
    } else {
        path
    }
}

/// The components joined by `/`: the name under which the index holds a file.
pub open spec fn joined(path: Seq<Seq<u8>>) -> Seq<u8>
    decreases path.len(),
{
    if path.len() == 0 {
        Seq::empty()
    } else if path.len() == 1 {
        path[0]
    } else {
        joined(path.drop_last()) + seq![SLASH] + path.last()
    }
}

/// The components of an index entry: every `/` opens a new component, every
/// other byte extends the last one.
pub open spec fn split(entry: Seq<u8>) -> Seq<Seq<u8>>
    decreases entry.len(),
{
    if entry.len() == 0 {
        seq![Seq::empty()]
    } else {
        let before = split(entry.drop_last());
        if entry.last() == SLASH {
            before.push(Seq::empty())
        } else {
            before.drop_last().push(before.last().push(entry.last()))
        }
    }
}

/// Whether two byte strings hold the same bytes.
pub fn bytes_eq(a: &Vec<u8>, b: &Vec<u8>) -> (same: bool)
    ensures
        same == (a@ == b@),
{
    if a.len() != b.len() {
        return false;
    }
    let mut i: usize = 0;
    while i < a.len()
        invariant
            a.len() == b.len(),
            i <= a.len(),
            forall|k: int| 0 <= k < i ==> a@[k] == b@[k],
        decreases a.len() - i,
    {
        if a[i] != b[i] {
            return false;
        }
        i += 1;
    }
    assert(a@ =~= b@);
    true
}

/// A copy of a byte string.
pub fn copy_bytes(bytes: &Vec<u8>) -> (copy: Vec<u8>)
    ensures
        copy@ == bytes@,
{
    let copy = bytes.clone();
    assert(copy@ =~= bytes@);
    copy
}

/// Whether a component names a directory entry.
pub fn component_is_normal(component: &Vec<u8>) -> (normal: bool)
    ensures
        normal == is_normal(component@),
{
    let len = component.len();
    if len == 0 {
        return false;
    }
    if len == 1 && component[0] == DOT {
        assert(component@ =~= seq![DOT]);
        return false;
    }
    if len == 2 && component[0] == DOT && component[1] == DOT {
        assert(component@ =~= seq![DOT, DOT]);
        return false;
    }
    assert(component@ != seq![DOT]) by {
        if component@ == seq![DOT] {
            assert(seq![DOT].len() == 1);
            assert(seq![DOT][0] == DOT);
        }
    }
    assert(component@ != seq![DOT, DOT]) by {
        if component@ == seq![DOT, DOT] {
            assert(seq![DOT, DOT].len() == 2);
            assert(seq![DOT, DOT][0] == DOT);
            assert(seq![DOT, DOT][1] == DOT);
        }
    }
    let mut i: usize = 0;
    while i < len
        invariant
            len == component.len(),
            i <= len,
            forall|k: int| 0 <= k < i ==> component@[k] != SLASH,
        decreases len - i,
    {
        if component[i] == SLASH {
            assert(component@.contains(SLASH));
            return false;
        }
        i += 1;
    }
    true
}

/// A path, held as its components. An absolute path starts with the
/// component `/`; a relative one does not.
#[derive(Debug, PartialEq, Eq)]
pub struct FilePath {
    pub parts: Vec<Vec<u8>>,
}

impl View for FilePath {
    type V = Seq<Seq<u8>>;

    open spec fn view(&self) -> Seq<Seq<u8>> {
        components(self.parts@)
    }
}

/// Appends copies of the components `from..to` of `source`.
fn extend_with(parts: &mut Vec<Vec<u8>>, source: &FilePath, from: usize, to: usize)
    requires
        from <= to <= source.parts.len(),
    ensures
        components(final(parts)@) == components(old(parts)@) + source@.subrange(
            from as int,
            to as int,
        ),
{
    let mut i: usize = from;
    assert(components(parts@) =~= components(old(parts)@) + source@.subrange(
        from as int,
        from as int,
    ));
    while i < to
        invariant
            from <= i <= to <= source.parts.len(),
            components(parts@) == components(old(parts)@) + source@.subrange(
                from as int,
                i as int,
            ),
        decreases to - i,
    {
        let ghost before = components(parts@);
        parts.push(copy_bytes(&source.parts[i]));
        assert(components(parts@) =~= before.push(source@[i as int]));
        assert(components(old(parts)@) + source@.subrange(from as int, i + 1) =~= before.push(
            source@[i as int],
        ));
        i += 1;
    }
}

impl Clone for FilePath {
    fn clone(&self) -> (copy: FilePath)
        ensures
            copy@ == self@,
    {
        self.skip(0)
    }
}

impl FilePath {
    /// The path made of the given components.
    pub fn new(parts: Vec<Vec<u8>>) -> (path: FilePath)
        ensures
            path.parts == parts,
    {
        FilePath { parts }
    }

    /// Whether two paths have the same components.
    pub fn same_as(&self, other: &FilePath) -> (same: bool)
        ensures
            same == (self@ == other@),
    {
        if self.parts.len() != other.parts.len() {
            assert(self@.len() != other@.len());
            return false;
        }
        let mut i: usize = 0;
        while i < self.parts.len()
            invariant
                self.parts.len() == other.parts.len(),
                i <= self.parts.len(),
                forall|k: int| 0 <= k < i ==> self@[k] == other@[k],
            decreases self.parts.len() - i,
        {
            if !bytes_eq(&self.parts[i], &other.parts[i]) {
                assert(self@[i as int] != other@[i as int]);
                return false;
            }
            i += 1;
        }
        assert(self@ =~= other@);
        true
    }

    /// Whether the path is absolute and spelled in the one canonical way.
    pub fn is_canonical(&self) -> (canonical: bool)
        ensures
            canonical == is_canonical(self@),
    {
        let len = self.parts.len();
        if len == 0 {
            return false;
        }
        let first = &self.parts[0];
        if !(first.len() == 1 && first[0] == SLASH) {
            assert(self@[0] != seq![SLASH]) by {
                if self@[0] == seq![SLASH] {
                    assert(seq![SLASH].len() == 1);
                    assert(seq![SLASH][0] == SLASH);
                }
            }
            return false;
        }
        assert(self@[0] =~= seq![SLASH]);
        let mut i: usize = 1;
        while i < len
            invariant
                len == self.parts.len(),
                1 <= i <= len,
                forall|k: int| 1 <= k < i ==> is_normal(#[trigger] self@[k]),
            decreases len - i,
        {
            if !component_is_normal(&self.parts[i]) {
                assert(!is_normal(self@[i as int]));
                return false;
            }
            i += 1;
        }
        true
    }

    /// Whether the path lies strictly below `root`.
    pub fn is_below(&self, root: &FilePath) -> (below: bool)
        ensures
            below == is_below(root@, self@),
    {
        let n = root.parts.len();
        if n >= self.parts.len() {
            return false;
        }
        let mut i: usize = 0;
        while i < n
            invariant
                n == root.parts.len(),
                n < self.parts.len(),
                i <= n,
                forall|k: int| 0 <= k < i ==> self@[k] == root@[k],
            decreases n - i,
        {
            if !bytes_eq(&self.parts[i], &root.parts[i]) {
                assert(self@.subrange(0, n as int)[i as int] != root@[i as int]);
                return false;
            }
            i += 1;
        }
        assert(root@ =~= self@.subrange(0, n as int));
        true
    }

    /// The path followed by the components of `rest`.
    pub fn join(&self, rest: &FilePath) -> (whole: FilePath)
        ensures
            whole@ == self@ + rest@,
    {
        let mut parts: Vec<Vec<u8>> = Vec::new();
        extend_with(&mut parts, self, 0, self.parts.len());
        extend_with(&mut parts, rest, 0, rest.parts.len());
        let whole = FilePath { parts };
        assert(whole@ =~= self@ + rest@);
        whole
    }

    /// The components that follow the first `count`; none where the path has
    /// no more than `count`.
    pub fn skip(&self, count: usize) -> (rest: FilePath)
        ensures
            count <= self@.len() ==> rest@ == self@.skip(count as int),
            count > self@.len() ==> rest@ == Seq::<Seq<u8>>::empty(),
    {
        let mut parts: Vec<Vec<u8>> = Vec::new();
        if count <= self.parts.len() {
            extend_with(&mut parts, self, count, self.parts.len());
        }
        let rest = FilePath { parts };
        assert(count <= self@.len() ==> rest@ =~= self@.skip(count as int));
        assert(count > self@.len() ==> rest@ =~= Seq::<Seq<u8>>::empty());
        rest
    }

    /// The path without its last component.
    pub fn parent(&self) -> (directory: FilePath)
        ensures
            directory@ == parent_of(self@),
    {
        let mut parts: Vec<Vec<u8>> = Vec::new();
        if self.parts.len() > 0 {
            extend_with(&mut parts, self, 0, self.parts.len() - 1);
        }
        let directory = FilePath { parts };
        assert(directory@ =~= parent_of(self@));
        directory
    }

    /// Reads the name under which the index holds a file.
    pub fn from_index_entry(entry: &Vec<u8>) -> (path: FilePath)
        ensures
            path@ == split(entry@),
    {
        let mut parts: Vec<Vec<u8>> = Vec::new();
        let mut current: Vec<u8> = Vec::new();
        let mut i: usize = 0;
        assert(components(parts@).push(current@) =~= split(entry@.take(0)));
        while i < entry.len()
            invariant
                i <= entry.len(),
                components(parts@).push(current@) == split(entry@.take(i as int)),
            decreases entry.len() - i,
        {
            let byte = entry[i];
            let ghost before = entry@.take(i as int);
            let ghost now = entry@.take(i + 1);
            let ghost done = components(parts@);
            let ghost open = current@;
            assert(now.drop_last() =~= before);
            assert(now.last() == byte);
            assert(done.push(open).drop_last() =~= done);
            if byte == SLASH {
                parts.push(current);
                current = Vec::new();
                assert(components(parts@).push(current@) =~= split(before).push(Seq::empty()));
            } else {
                current.push(byte);
                assert(components(parts@).push(current@) =~= done.push(open.push(byte)));
            }
            i += 1;
        }
        assert(entry@.take(entry.len() as int) =~= entry@);
        let ghost done = components(parts@);
        let ghost open = current@;
        parts.push(current);
        let path = FilePath { parts };
        assert(path@ =~= done.push(open));
        path
    }

    /// Writes the name under which the index holds the file.
    pub fn to_index_entry(&self) -> (entry: Vec<u8>)
        ensures
            entry@ == joined(self@),
    {
        let mut entry: Vec<u8> = Vec::new();
        let mut i: usize = 0;
        assert(self@.take(0) =~= Seq::<Seq<u8>>::empty());
        while i < self.parts.len()
            invariant
                i <= self.parts.len(),
                entry@ == joined(self@.take(i as int)),
            decreases self.parts.len() - i,
        {
            let ghost before = self@.take(i as int);
            let ghost now = self@.take(i + 1);
            let ghost head = entry@;
            assert(now.drop_last() =~= before);
            assert(now.last() == self@[i as int]);
            if i > 0 {
                entry.push(SLASH);
            }
            let ghost lead = entry@;
            let part = &self.parts[i];
            let mut j: usize = 0;
            while j < part.len()
                invariant
                    j <= part.len(),
                    entry@ == lead + part@.take(j as int),
                decreases part.len() - j,
            {
                entry.push(part[j]);
                assert(entry@ =~= lead + part@.take(j + 1));
                j += 1;
            }
            assert(part@.take(part.len() as int) =~= part@);
            assert(entry@ =~= joined(now)) by {
                if i == 0 {
                    assert(lead =~= Seq::<u8>::empty());
                    assert(entry@ =~= part@);
                } else {
                    assert(lead =~= head + seq![SLASH]);
                }
            }
            i += 1;
        }
        assert(self@.take(self.parts.len() as int) =~= self@);
        entry
    }
}

/// An index entry has at least one component, and none of them holds a `/`.
pub proof fn lemma_split_shape(entry: Seq<u8>)
    ensures
        split(entry).len() >= 1,
        forall|i: int|
            0 <= i < split(entry).len() ==> !(#[trigger] split(entry)[i]).contains(SLASH),
    decreases entry.len(),
{
    if entry.len() > 0 {
        lemma_split_shape(entry.drop_last());
        let before = split(entry.drop_last());
        if entry.last() != SLASH {
            let last = before.last().push(entry.last());
            assert forall|k: int| 0 <= k < last.len() implies last[k] != SLASH by {
                if k < before.last().len() {
                    assert(before.last().contains(last[k]));
                }
            }
        }
    }
}

/// Joining the components of an index entry gives the entry back.
pub proof fn lemma_joined_split(entry: Seq<u8>)
    ensures
        joined(split(entry)) == entry,
    decreases entry.len(),
{
    if entry.len() == 0 {
        assert(joined(split(entry)) =~= entry);
    } else {
        lemma_joined_split(entry.drop_last());
        lemma_split_shape(entry.drop_last());
        let before = split(entry.drop_last());
        if entry.last() == SLASH {
            let now = before.push(Seq::empty());
            assert(now.drop_last() =~= before);
            assert(joined(now) =~= entry);
        } else {
            let now = before.drop_last().push(before.last().push(entry.last()));
            assert(now.drop_last() =~= before.drop_last());
            assert(now.last() == before.last().push(entry.last()));
            if before.len() == 1 {
                assert(joined(before) == before[0]);
                assert(joined(now) == now[0]);
            } else {
                let front = joined(before.drop_last()) + seq![SLASH];
                assert(joined(before) == front + before.last());
                assert(joined(now) == front + now.last());
                assert(front + now.last() =~= (front + before.last()).push(entry.last()));
            }
            assert(entry =~= entry.drop_last().push(entry.last()));
            assert(joined(now) =~= entry);
        }
    }
}

/// Appending bytes other than `/` to an index entry extends its last component.
pub proof fn lemma_split_extend(entry: Seq<u8>, tail: Seq<u8>)
    requires
        !tail.contains(SLASH),
    ensures
        split(entry + tail) == split(entry).drop_last().push(split(entry).last() + tail),
    decreases tail.len(),
{
    lemma_split_shape(entry);
    if tail.len() == 0 {
        assert(entry + tail =~= entry);
        assert(split(entry).last() + tail =~= split(entry).last());
        assert(split(entry).drop_last().push(split(entry).last()) =~= split(entry));
    } else {
        let shorter = tail.drop_last();
        assert(!shorter.contains(SLASH)) by {
            if shorter.contains(SLASH) {
                let k = choose|k: int| 0 <= k < shorter.len() && shorter[k] == SLASH;
                assert(tail[k] == SLASH);
            }
        }
        lemma_split_extend(entry, shorter);
        assert((entry + tail).drop_last() =~= entry + shorter);
        assert((entry + tail).last() == tail.last());
        assert(tail.last() != SLASH) by {
            assert(tail[tail.len() - 1] == tail.last());
        }
        let before = split(entry + shorter);
        assert(before.drop_last() =~= split(entry).drop_last());
        assert(before.last().push(tail.last()) =~= split(entry).last() + tail);
    }
}

/// Splitting the joined form of a path without `/` in its components gives
/// the path back, provided it has a component at all.
pub proof fn lemma_split_joined(path: Seq<Seq<u8>>)
    requires
        path.len() >= 1,
        forall|i: int| 0 <= i < path.len() ==> !(#[trigger] path[i]).contains(SLASH),
    ensures
        split(joined(path)) == path,
    decreases path.len(),
{
    if path.len() == 1 {
        let empty = Seq::<u8>::empty();
        lemma_split_extend(empty, path[0]);
        assert(empty + path[0] =~= path[0]);
        assert(split(empty) =~= seq![empty]);
        assert(split(joined(path)) =~= path);
    } else {
        let front = path.drop_last();
        lemma_split_joined(front);
        let opened = joined(front) + seq![SLASH];
        assert(opened.drop_last() =~= joined(front));
        assert(opened.last() == SLASH);
        assert(split(opened) == front.push(Seq::empty()));
        lemma_split_extend(opened, path.last());
        assert(split(opened).drop_last() =~= front);
        assert(Seq::<u8>::empty() + path.last() =~= path.last());
        assert(front.push(path.last()) =~= path);
    }
}

} // verus!
