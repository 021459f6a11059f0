use vstd::prelude::*;
use vstd::string::StringSliceAdditionalSpecFns;

verus! {

/// The byte that separates path components.
pub const SEPARATOR: u8 = 0x2f;

/// The byte of the current-directory component `.`.
pub const DOT: u8 = 0x2e;

/// A path is absolute when it starts at the root directory.
pub open spec fn is_absolute(p: Seq<u8>) -> bool {
    p.len() > 0 && p[0] == SEPARATOR
}

/// Parts between separators that do not name a component: the empty part
/// (repeated or trailing separators) and `.`.
pub open spec fn is_skipped(part: Seq<u8>) -> bool {
    part.len() == 0 || part == seq![DOT]
}

/// Appends a finished part to the components, unless it is skipped.
pub open spec fn push_part(done: Seq<Seq<u8>>, part: Seq<u8>) -> Seq<Seq<u8>> {
    if is_skipped(part) {
        done
    } else {
        done.push(part)
    }
}

/// Reads a path left to right: the components finished so far, and the part
/// after the last separator.
pub open spec fn scan(p: Seq<u8>) -> (Seq<Seq<u8>>, Seq<u8>)
    decreases p.len(),
{
    if p.len() == 0 {
        (seq![], seq![])
    } else {
        let (done, part) = scan(p.drop_last());
        if p.last() == SEPARATOR {
            (push_part(done, part), seq![])
        } else {
            (done, part.push(p.last()))
        }
    }
}

/// The named components of a path below its root: the parts between
/// separators, with empty parts and `.` left out.
pub open spec fn components(p: Seq<u8>) -> Seq<Seq<u8>> {
    push_part(scan(p).0, scan(p).1)
}

/// `a` is a component-wise prefix of `b`: every component of `a` equals the
/// component of `b` at the same position, and `b` has at least as many.
pub open spec fn is_component_prefix(a: Seq<u8>, b: Seq<u8>) -> bool {
    let ca = components(a);
    let cb = components(b);
    ca.len() <= cb.len() && cb.subrange(0, ca.len() as int) == ca
}

pub open spec fn views_of(v: Seq<Vec<u8>>) -> Seq<Seq<u8>> {
    v.map_values(|c: Vec<u8>| c@)
}

/// Whether the path is absolute.
pub fn is_absolute_path(path: &str) -> (r: bool)
    ensures
        r == is_absolute(path.spec_bytes()),
{
    let b = path.as_bytes();
    b.len() > 0 && b[0] == SEPARATOR
}

fn push_part_exec(done: &mut Vec<Vec<u8>>, part: Vec<u8>)
    ensures
        views_of(final(done)@) == push_part(views_of(old(done)@), part@),
{
    let skipped = part.len() == 0 || (part.len() == 1 && part[0] == DOT);
    if skipped {
        assert(is_skipped(part@)) by {
            if part@.len() == 1 {
                assert(part@ =~= seq![DOT]);
            }
        }
    } else {
        assert(!is_skipped(part@)) by {
            if part@ == seq![DOT] {
                assert(part@.len() == 1 && part@[0] == DOT);
            }
        }
        let ghost before = done@;
        done.push(part);
        assert(views_of(done@) =~= views_of(before).push(part@));
    }
}

/// The named components of a path, as `components` states them.
pub fn path_components(path: &str) -> (r: Vec<Vec<u8>>)
    ensures
        views_of(r@) == components(path.spec_bytes()),
{
    let b = path.as_bytes();
    let ghost p = path.spec_bytes();
    let mut done: Vec<Vec<u8>> = Vec::new();
    let mut part: Vec<u8> = Vec::new();
    let mut i: usize = 0;
    assert(p.subrange(0, 0) =~= Seq::<u8>::empty());
    while i < b.len()
        invariant
            b@ == p,
            i <= b@.len(),
            (views_of(done@), part@) == scan(p.subrange(0, i as int)),
        decreases b@.len() - i,
    {
        let c = b[i];
        assert(p.subrange(0, i + 1).drop_last() =~= p.subrange(0, i as int));
        if c == SEPARATOR {
            let finished = part;
            part = Vec::new();
            push_part_exec(&mut done, finished);
        } else {
            part.push(c);
        }
        i = i + 1;
    }
    assert(p.subrange(0, i as int) =~= p);
    push_part_exec(&mut done, part);
    done
}

fn bytes_equal(x: &Vec<u8>, y: &Vec<u8>) -> (r: bool)
    ensures
        r == (x@ == y@),
{
    if x.len() != y.len() {
        return false;
    }
    let mut i: usize = 0;
    while i < x.len()
        invariant
            x@.len() == y@.len(),
            i <= x@.len(),
            forall|k: int| 0 <= k < i ==> x@[k] == y@[k],
        decreases x@.len() - i,
    {
        if x[i] != y[i] {
            return false;
        }
        i = i + 1;
    }
    assert(x@ =~= y@);
    true
}

/// Whether `new_root` is a component-wise prefix of `put_old`.
pub fn is_path_prefix(new_root: &str, put_old: &str) -> (r: bool)
    ensures
        r == is_component_prefix(new_root.spec_bytes(), put_old.spec_bytes()),
{
    let a = path_components(new_root);
    let b = path_components(put_old);
    let ghost ca = components(new_root.spec_bytes());
    let ghost cb = components(put_old.spec_bytes());
    if a.len() > b.len() {
        return false;
    }
    let mut i: usize = 0;
    while i < a.len()
        invariant
            ca == components(new_root.spec_bytes()),
            cb == components(put_old.spec_bytes()),
            views_of(a@) == ca,
            views_of(b@) == cb,
            a@.len() <= b@.len(),
            i <= a@.len(),
            forall|k: int| 0 <= k < i ==> ca[k] == cb[k],
        decreases a@.len() - i,
    {
        if !bytes_equal(&a[i], &b[i]) {
            assert(ca[i as int] == a@[i as int]@);
            assert(cb[i as int] == b@[i as int]@);
            assert(cb.subrange(0, ca.len() as int)[i as int] != ca[i as int]);
            return false;
        }
        assert(ca[i as int] == a@[i as int]@);
        assert(cb[i as int] == b@[i as int]@);
        i = i + 1;
    }
    assert(cb.subrange(0, ca.len() as int) =~= ca);
    true
}

} // verus!
