//! Unix paths as bytes, compared by their components.

use vstd::prelude::*;
use vstd::string::*;
use vstd::utf8::*;

verus! {

/// A Unix path. Its bytes need not be UTF-8.
pub struct SourcePath {
    pub bytes: Vec<u8>,
}

/// What a path names: whether it starts at the root, and its components. Repeated and trailing
/// separators do not count, nor does a `.` except at the start of a relative path.
#[verifier::ext_equal]
pub ghost struct PathModel {
    pub absolute: bool,
    pub parts: Seq<Seq<u8>>,
}

impl View for SourcePath {
    type V = Seq<u8>;

    open spec fn view(&self) -> Seq<u8> {
        self.bytes@
    }
}

pub open spec fn separator() -> u8 {
    0x2f
}

pub open spec fn current_dir() -> Seq<u8> {
    seq![0x2eu8]
}

pub open spec fn parent_dir() -> Seq<u8> {
    seq![0x2eu8, 0x2eu8]
}

/// The components of the rest of a path. `leading` says that nothing came before, not even a
/// separator.
pub open spec fn parts(rest: Seq<u8>, leading: bool) -> Seq<Seq<u8>>
    decreases rest.len(),
{
    if !rest.contains(separator()) {
        kept_part(rest, leading)
    } else {
        proof {
            rest.index_of_first_ensures(separator());
        }
        let at = rest.index_of_first(separator())->Some_0;
        kept_part(rest.take(at), leading) + parts(rest.skip(at + 1), false)
    }
}

/// The component that stands between two separators, if it counts.
pub open spec fn kept_part(piece: Seq<u8>, leading: bool) -> Seq<Seq<u8>> {
    if piece.len() == 0 || (piece == current_dir() && !leading) {
        Seq::empty()
    } else {
        seq![piece]
    }
}

pub open spec fn path_model(bytes: Seq<u8>) -> PathModel {
    PathModel {
        absolute: bytes.len() > 0 && bytes[0] == separator(),
        parts: parts(bytes, !(bytes.len() > 0 && bytes[0] == separator())),
    }
}

/// The last component of a path, when it is the name of an entry.
pub open spec fn file_name(bytes: Seq<u8>) -> Option<Seq<u8>> {
    let all = path_model(bytes).parts;
    if all.len() == 0 || all.last() == current_dir() || all.last() == parent_dir() {
        None
    } else {
        Some(all.last())
    }
}

/// The bytes that a sequence of vectors holds.
pub open spec fn rows(list: Seq<Vec<u8>>) -> Seq<Seq<u8>> {
    list.map_values(|row: Vec<u8>| row@)
}

pub fn same_bytes(a: &Vec<u8>, b: &Vec<u8>) -> (r: bool)
    ensures
        r == (a@ == b@),
{
    if a.len() != b.len() {
        return false;
    }
    let mut i: usize = 0;
    while i < a.len()
        invariant
            i <= a@.len() == b@.len(),
            a@.take(i as int) == b@.take(i as int),
        decreases a@.len() - i,
    {
        if a[i] != b[i] {
            return false;
        }
        assert(a@.take(i + 1) =~= a@.take(i as int).push(a@[i as int]));
        assert(b@.take(i + 1) =~= b@.take(i as int).push(b@[i as int]));
        i += 1;
    }
    assert(a@.take(i as int) =~= a@);
    assert(b@.take(i as int) =~= b@);
    true
}

fn byte_run(bytes: &Vec<u8>, from: usize, to: usize) -> (r: Vec<u8>)
    requires
        from <= to <= bytes@.len(),
    ensures
        r@ == bytes@.subrange(from as int, to as int),
{
    let mut out: Vec<u8> = Vec::new();
    let mut i: usize = from;
    while i < to
        invariant
            from <= i <= to <= bytes@.len(),
            out@ == bytes@.subrange(from as int, i as int),
        decreases to - i,
    {
        out.push(bytes[i]);
        i += 1;
        assert(bytes@.subrange(from as int, i as int) =~= bytes@.subrange(from as int, i - 1).push(
            bytes@[i - 1],
        ));
    }
    out
}

fn next_separator(bytes: &Vec<u8>, from: usize) -> (r: usize)
    requires
        from <= bytes@.len(),
    ensures
        from <= r <= bytes@.len(),
        forall|i: int| from <= i < r ==> bytes@[i] != separator(),
        r < bytes@.len() ==> bytes@[r as int] == separator(),
{
    let mut i: usize = from;
    while i < bytes.len() && bytes[i] != 0x2f
        invariant
            from <= i <= bytes@.len(),
            forall|j: int| from <= j < i ==> bytes@[j] != separator(),
        decreases bytes@.len() - i,
    {
        i += 1;
    }
    i
}

/// The piece up to the next separator is the first piece of the rest.
proof fn lemma_next_piece(bytes: Seq<u8>, from: int, at: int, leading: bool)
    requires
        0 <= from <= at <= bytes.len(),
        forall|i: int| from <= i < at ==> bytes[i] != separator(),
        at < bytes.len() ==> bytes[at] == separator(),
    ensures
        at == bytes.len() ==> parts(bytes.skip(from), leading) == kept_part(
            bytes.subrange(from, at),
            leading,
        ),
        at < bytes.len() ==> parts(bytes.skip(from), leading) == kept_part(
            bytes.subrange(from, at),
            leading,
        ) + parts(bytes.skip(at + 1), false),
{
    let rest = bytes.skip(from);
    if at == bytes.len() {
        assert forall|i: int| 0 <= i < rest.len() implies rest[i] != separator() by {
            assert(rest[i] == bytes[from + i]);
        }
        assert(!rest.contains(separator()));
        assert(rest =~= bytes.subrange(from, at));
    } else {
        assert(rest[at - from] == separator());
        rest.index_of_first_ensures(separator());
        let first = rest.index_of_first(separator())->Some_0;
        assert(rest[first] == bytes[from + first]);
        if at - from < first {
            assert(rest[at - from] != separator());
        }
        assert(first == at - from);
        assert(rest.take(first) =~= bytes.subrange(from, at));
        assert(rest.skip(first + 1) =~= bytes.skip(at + 1));
    }
}

impl SourcePath {
    pub fn is_absolute(&self) -> (r: bool)
        ensures
            r == path_model(self@).absolute,
    {
        self.bytes.len() > 0 && self.bytes[0] == 0x2f
    }

    /// The components of the path.
    pub fn components(&self) -> (r: Vec<Vec<u8>>)
        ensures
            rows(r@) == path_model(self@).parts,
    {
        let mut leading: bool = !self.is_absolute();
        let n: usize = self.bytes.len();
        let mut out: Vec<Vec<u8>> = Vec::new();
        let mut from: usize = 0;
        let ghost whole = parts(self@, leading);
        assert(self@.skip(0) =~= self@);
        assert(rows(out@) + parts(self@.skip(0), leading) =~= whole);
        loop
            invariant
                n == self@.len(),
                from <= n,
                whole == path_model(self@).parts,
                rows(out@) + parts(self@.skip(from as int), leading) == whole,
            decreases n - from,
        {
            let at = next_separator(&self.bytes, from);
            proof {
                lemma_next_piece(self@, from as int, at as int, leading);
            }
            let ghost kept = kept_part(self@.subrange(from as int, at as int), leading);
            let ghost before = rows(out@);
            let piece = byte_run(&self.bytes, from, at);
            let dot: bool = piece.len() == 1 && piece[0] == 0x2e;
            assert(dot == (piece@ =~= current_dir()));
            if piece.len() > 0 && !(dot && !leading) {
                out.push(piece);
                assert(rows(out@) =~= before + kept);
            } else {
                assert(rows(out@) =~= before + kept);
            }
            if at == n {
                assert(rows(out@) =~= whole);
                return out;
            }
            assert(rows(out@) + parts(self@.skip(at + 1), false) =~= before + parts(
                self@.skip(from as int),
                leading,
            ));
            leading = false;
            from = at + 1;
        }
    }

    /// Whether two paths have the same components.
    pub fn same_path(&self, other: &SourcePath) -> (r: bool)
        ensures
            r == (path_model(self@) == path_model(other@)),
    {
        if self.is_absolute() != other.is_absolute() {
            return false;
        }
        let mine = self.components();
        let theirs = other.components();
        assert(rows(mine@).len() == mine@.len() && rows(theirs@).len() == theirs@.len());
        if mine.len() != theirs.len() {
            return false;
        }
        let mut i: usize = 0;
        while i < mine.len()
            invariant
                i <= mine@.len() == theirs@.len(),
                rows(mine@).take(i as int) == rows(theirs@).take(i as int),
                rows(mine@) == path_model(self@).parts,
                rows(theirs@) == path_model(other@).parts,
            decreases mine@.len() - i,
        {
            assert(rows(mine@)[i as int] == mine@[i as int]@);
            assert(rows(theirs@)[i as int] == theirs@[i as int]@);
            if !same_bytes(&mine[i], &theirs[i]) {
                return false;
            }
            assert(rows(mine@).take(i + 1) =~= rows(mine@).take(i as int).push(
                rows(mine@)[i as int],
            ));
            assert(rows(theirs@).take(i + 1) =~= rows(theirs@).take(i as int).push(
                rows(theirs@)[i as int],
            ));
            i += 1;
        }
        assert(rows(mine@).take(i as int) =~= rows(mine@));
        assert(rows(theirs@).take(i as int) =~= rows(theirs@));
        assert(path_model(self@) =~= path_model(other@));
        true
    }

    pub fn file_name(&self) -> (r: Option<Vec<u8>>)
        ensures
            (match r {
                Some(name) => Some(name@),
                None => None,
            }) == file_name(self@),
    {
        let mut all = self.components();
        let ghost before = all@;
        if all.len() == 0 {
            return None;
        }
        let name = all.pop().unwrap();
        assert(rows(before).last() == name@);
        let dot: bool = name.len() == 1 && name[0] == 0x2e;
        let dots: bool = name.len() == 2 && name[0] == 0x2e && name[1] == 0x2e;
        assert(dot == (name@ =~= current_dir()));
        assert(dots == (name@ =~= parent_dir()));
        if dot || dots {
            None
        } else {
            Some(name)
        }
    }

    pub fn copy(&self) -> (r: SourcePath)
        ensures
            r@ == self@,
    {
        let n: usize = self.bytes.len();
        SourcePath { bytes: byte_run(&self.bytes, 0, n) }
    }

    pub fn from_text(source: &str) -> (r: SourcePath)
        ensures
            r@ == encode_utf8(source@),
    {
        SourcePath { bytes: source.as_bytes_vec() }
    }

    /// `self` with a relative path below it.
    pub(crate) fn join(&self, below: &str) -> (r: SourcePath)
        ensures
            r@ == joined(self@, encode_utf8(below@)),
    {
        let n: usize = self.bytes.len();
        let mut bytes = byte_run(&self.bytes, 0, n);
        if n > 0 && bytes[n - 1] != 0x2f {
            bytes.push(0x2f);
        }
        let mut tail = below.as_bytes_vec();
        bytes.append(&mut tail);
        assert(bytes@ =~= joined(self@, encode_utf8(below@)));
        SourcePath { bytes }
    }
}

/// A relative path below a base, with one separator between them unless the base is empty or
/// brings one.
pub open spec fn joined(base: Seq<u8>, below: Seq<u8>) -> Seq<u8> {
    if base.len() == 0 || base.last() == separator() {
        base + below
    } else {
        base.push(separator()) + below
    }
}

/// The name of a path is what stands behind its last separator, where that is a name.
pub proof fn the_last_component_is_the_name(dir: Seq<u8>, name: Seq<u8>)
    requires
        name.len() > 0,
        !name.contains(0x2fu8),
        name != seq![0x2eu8],
        name != seq![0x2eu8, 0x2eu8],
    ensures
        file_name(dir.push(0x2fu8) + name) == Some(name),
        file_name(name) == Some(name),
{
    let path = dir.push(0x2fu8) + name;
    let leading = !(path.len() > 0 && path[0] == separator());
    lemma_last_part(dir, name, leading);
    assert(name[0] != separator()) by {
        if name[0] == separator() {
            assert(name.contains(0x2fu8));
        }
    }
    assert(parts(name, true) == seq![name]);
}

proof fn lemma_last_part(dir: Seq<u8>, name: Seq<u8>, leading: bool)
    requires
        name.len() > 0,
        !name.contains(0x2fu8),
        name != seq![0x2eu8],
    ensures
        parts(dir.push(0x2fu8) + name, leading).len() > 0,
        parts(dir.push(0x2fu8) + name, leading).last() == name,
    decreases dir.len(),
{
    let path = dir.push(0x2fu8) + name;
    assert(path[dir.len() as int] == separator());
    path.index_of_first_ensures(separator());
    let at = path.index_of_first(separator())->Some_0;
    let rest = path.skip(at + 1);
    assert(at <= dir.len()) by {
        if at > dir.len() {
            assert(path[dir.len() as int] != separator());
        }
    }
    if at == dir.len() {
        assert(rest =~= name);
        assert(current_dir() == seq![0x2eu8]);
        assert(parts(rest, false) == seq![name]);
        assert((kept_part(path.take(at), leading) + seq![name]).last() == name);
    } else {
        assert(rest =~= dir.skip(at + 1).push(0x2fu8) + name);
        lemma_last_part(dir.skip(at + 1), name, false);
        let head = kept_part(path.take(at), leading);
        let tail = parts(rest, false);
        assert((head + tail).last() == tail.last());
    }
}

/// A separator at the end of a path does not count.
pub proof fn a_separator_at_the_end_does_not_count(path: Seq<u8>)
    requires
        path.len() > 0,
    ensures
        path_model(path.push(0x2fu8)) == path_model(path),
{
    let longer = path.push(0x2fu8);
    let leading = !(path[0] == separator());
    lemma_trailing_separator(path, leading);
    assert(longer[0] == path[0]);
}

proof fn lemma_trailing_separator(path: Seq<u8>, leading: bool)
    ensures
        parts(path.push(0x2fu8), leading) == parts(path, leading),
    decreases path.len(),
{
    let longer = path.push(0x2fu8);
    assert(longer[path.len() as int] == separator());
    longer.index_of_first_ensures(separator());
    let at = longer.index_of_first(separator())->Some_0;
    let empty = Seq::<u8>::empty();
    assert(!empty.contains(separator()));
    assert(parts(empty, false) =~= Seq::<Seq<u8>>::empty());
    if path.contains(separator()) {
        path.index_of_first_ensures(separator());
        let first = path.index_of_first(separator())->Some_0;
        assert(longer[first] == separator());
        if at < first {
            assert(path[at] == separator());
        }
        if first < at {
            assert(longer[first] != separator());
        }
        assert(at == first);
        assert(longer.take(at) =~= path.take(at));
        assert(longer.skip(at + 1) =~= path.skip(at + 1).push(0x2fu8));
        lemma_trailing_separator(path.skip(at + 1), false);
    } else {
        if at < path.len() {
            assert(path[at] == separator());
            assert(path.contains(separator()));
        }
        assert(at == path.len());
        assert(longer.take(at) =~= path);
        assert(longer.skip(at + 1) =~= empty);
        assert(kept_part(path, leading) + Seq::<Seq<u8>>::empty() =~= kept_part(path, leading));
    }
}

/// Paths with different components are different, and so are an absolute and a relative one.
pub proof fn different_paths_are_told_apart(one: Seq<u8>, other: Seq<u8>)
    requires
        one.len() > 0,
        other.len() > 0,
        !one.contains(0x2fu8),
        !other.contains(0x2fu8),
        one != other,
    ensures
        path_model(one) != path_model(other),
        path_model(seq![0x2fu8] + one) != path_model(one),
{
    assert(one[0] != separator()) by {
        if one[0] == separator() {
            assert(one.contains(0x2fu8));
        }
    }
    assert(other[0] != separator()) by {
        if other[0] == separator() {
            assert(other.contains(0x2fu8));
        }
    }
    assert(path_model(one).parts == seq![one]);
    assert(path_model(other).parts == seq![other]);
    assert(path_model(one).parts[0] == one);
    assert(path_model(other).parts[0] == other);
    assert((seq![0x2fu8] + one)[0] == separator());
    assert(path_model(seq![0x2fu8] + one).absolute);
}

} // verus!
