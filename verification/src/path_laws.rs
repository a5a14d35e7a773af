//! What holds of every path: when two are equal, and which comes first.

use crate::order::{byte_less, bytes_before, comes_before_at};
use crate::paths::{part_before, part_less, path_before, NameView, PartKey, PartView, PathView};
use vstd::prelude::*;

verus! {

/// Two components are equal exactly if they are of the same kind and, if they are names, have
/// the same bytes, however they look as text.
pub proof fn components_are_equal_by_kind_and_bytes(a: PartView, b: PartView)
    ensures
        a.key() == b.key() <==> {
            ||| a is Root && b is Root
            ||| a is Current && b is Current
            ||| a is Parent && b is Parent
            ||| a is Normal && b is Normal && a->Normal_0.bytes == b->Normal_0.bytes
        },
{
}

/// Two paths are equal exactly if their components are, one by one.
pub proof fn paths_are_equal_by_component(a: PathView, b: PathView)
    ensures
        a.key() == b.key() <==> {
            &&& a.parts.len() == b.parts.len()
            &&& forall|i: int|
                0 <= i < a.parts.len() ==> (#[trigger] a.parts[i]).key() == b.parts[i].key()
        },
{
    if a.key() == b.key() {
        assert(a.key().len() == a.parts.len());
        assert(b.key().len() == b.parts.len());
        assert forall|i: int| 0 <= i < a.parts.len() implies (#[trigger] a.parts[i]).key()
            == b.parts[i].key() by {
            assert(a.key()[i] == a.parts[i].key());
            assert(b.key()[i] == b.parts[i].key());
        }
    }
    if a.parts.len() == b.parts.len() && (forall|i: int|
        0 <= i < a.parts.len() ==> (#[trigger] a.parts[i]).key() == b.parts[i].key()) {
        assert(a.key() =~= b.key());
    }
}

/// The root is shown as a slash, the current directory as a dot, the parent directory as two
/// dots, and a name as itself.
pub proof fn components_are_shown_as_usual(path: PathView, i: int)
    requires
        0 <= i < path.parts.len(),
    ensures
        path.part_texts().len() == path.parts.len(),
        path.parts[i] is Root ==> path.part_texts()[i] == "/"@,
        path.parts[i] is Current ==> path.part_texts()[i] == "."@,
        path.parts[i] is Parent ==> path.part_texts()[i] == ".."@,
        path.parts[i] matches PartView::Normal(name) ==> path.part_texts()[i] == name.text,
{
}

/// A path is well formed exactly if the root and the current directory stand at its beginning
/// only, and no name in it is empty.
pub proof fn path_form(path: PathView)
    ensures
        path.well_formed() <==> {
            &&& forall|i: int|
                0 < i < path.parts.len() ==> !((#[trigger] path.parts[i]) is Root)
                    && !(path.parts[i] is Current)
            &&& forall|i: int|
                0 <= i < path.parts.len() ==> ((#[trigger] path.parts[i]) matches PartView::Normal(
                    name,
                ) ==> name.bytes.len() > 0)
        },
        path.is_absolute() <==> path.parts.len() > 0 && path.parts[0] == PartView::Root,
{
    if path.well_formed() {
        assert forall|i: int| 0 < i < path.parts.len() implies !((#[trigger] path.parts[i]) is Root)
            && !(path.parts[i] is Current) by {
            assert(path.parts[i].fits_at(i));
        }
        assert forall|i: int| 0 <= i < path.parts.len() implies ((
        #[trigger] path.parts[i]) matches PartView::Normal(name) ==> name.bytes.len() > 0) by {
            assert(path.parts[i].fits_at(i));
        }
    }
}

/// The last component of a path is its file name if it is a name, and its text is the handle if
/// it is the text of the very bytes.
pub proof fn file_name_is_the_last_component(path: PathView, name: NameView)
    ensures
        path.file_name() == Some(name) <==> path.parts.len() > 0 && path.parts[path.parts.len() - 1]
            == PartView::Normal(name),
        path.file_name() == Some(name) && vstd::utf8::encode_utf8(name.text) == name.bytes
            ==> path.file_name_text() == Some(name.text),
        path.file_name() == Some(name) && vstd::utf8::encode_utf8(name.text) != name.bytes
            ==> path.file_name_text() is None,
        path.file_name() is None ==> path.file_name_text() is None,
{
}

/// The first byte in which two names differ decides between them, and a name comes before every
/// longer one that begins with it.
pub proof fn first_different_byte_decides(
    beginning: Seq<u8>,
    x: u8,
    y: u8,
    a: Seq<u8>,
    b: Seq<u8>,
)
    requires
        x < y,
    ensures
        bytes_before(beginning.push(x) + a, beginning.push(y) + b),
        !bytes_before(beginning.push(y) + b, beginning.push(x) + a),
        bytes_before(beginning, beginning.push(x) + a),
        !bytes_before(beginning.push(x) + a, beginning),
{
    let smaller = beginning.push(x) + a;
    let greater = beginning.push(y) + b;
    let n = beginning.len() as int;
    assert(comes_before_at(smaller, greater, byte_less(), n));
    assert(comes_before_at(beginning, smaller, byte_less(), n));
    if bytes_before(greater, smaller) {
        let k = choose|k: int| comes_before_at(greater, smaller, byte_less(), k);
        if k < n {
            assert(greater[k] == smaller[k]);
        } else if k > n {
            assert(greater[n] == smaller[n]);
        }
    }
    if bytes_before(smaller, beginning) {
        let k = choose|k: int| comes_before_at(smaller, beginning, byte_less(), k);
        assert(smaller[k] == beginning[k]);
    }
}

proof fn names_are_ordered(a: Seq<u8>, b: Seq<u8>)
    ensures
        a == b || bytes_before(a, b) || bytes_before(b, a),
{
    if a != b && !bytes_before(b, a) {
        let k = first_difference(a, b);
        if k < a.len() && k < b.len() {
            if a[k] < b[k] {
                assert(comes_before_at(a, b, byte_less(), k));
            } else {
                assert(comes_before_at(b, a, byte_less(), k));
            }
        } else if k < b.len() {
            assert(comes_before_at(a, b, byte_less(), k));
        } else {
            assert(comes_before_at(b, a, byte_less(), k));
        }
    }
}

/// The position at which two different lists begin to differ.
proof fn first_difference<T>(a: Seq<T>, b: Seq<T>) -> (k: int)
    requires
        a != b,
    ensures
        0 <= k <= a.len(),
        k <= b.len(),
        forall|i: int| 0 <= i < k ==> a[i] == b[i],
        k < a.len() || k < b.len(),
        k < a.len() && k < b.len() ==> a[k] != b[k],
    decreases a.len(),
{
    if a.len() == 0 || b.len() == 0 {
        if a.len() == 0 && b.len() == 0 {
            assert(a =~= b);
        }
        0
    } else if a[0] != b[0] {
        0
    } else {
        let x = a.drop_first();
        let y = b.drop_first();
        if x == y {
            assert(a =~= seq![a[0]] + x);
            assert(b =~= seq![b[0]] + y);
        }
        let k = first_difference(x, y);
        assert forall|i: int| 0 <= i < k + 1 implies a[i] == b[i] by {
            if i > 0 {
                assert(a[i] == x[i - 1] && b[i] == y[i - 1]);
            }
        }
        if k < x.len() {
            assert(a[k + 1] == x[k]);
        }
        if k < y.len() {
            assert(b[k + 1] == y[k]);
        }
        k + 1
    }
}

/// The root comes before the current directory, that before the parent directory, and that
/// before every name; names stand in the order of their bytes.
pub proof fn kinds_of_components_are_ordered(a: Seq<u8>, b: Seq<u8>)
    ensures
        part_before(PartKey::Root, PartKey::Current),
        part_before(PartKey::Current, PartKey::Parent),
        part_before(PartKey::Parent, PartKey::Normal(a)),
        part_before(PartKey::Root, PartKey::Normal(a)),
        part_before(PartKey::Normal(a), PartKey::Normal(b)) <==> bytes_before(a, b),
{
}

/// Of two components, they are equal or one comes before the other.
pub proof fn components_are_ordered(a: PartKey, b: PartKey)
    ensures
        a == b || part_before(a, b) || part_before(b, a),
        !(part_before(a, b) && part_before(b, a)),
{
    if let (PartKey::Normal(x), PartKey::Normal(y)) = (a, b) {
        names_are_ordered(x, y);
        if bytes_before(x, y) && bytes_before(y, x) {
            crate::order::comes_before_is_transitive(x, y, x, byte_less());
            crate::order::comes_before_is_irreflexive(x, byte_less());
        }
    }
}

/// The first component in which two paths differ decides between them, and a path comes before
/// every longer one that begins with it.
pub proof fn first_different_component_decides(
    beginning: Seq<PartKey>,
    x: PartKey,
    y: PartKey,
    a: Seq<PartKey>,
    b: Seq<PartKey>,
)
    requires
        part_before(x, y),
    ensures
        path_before(beginning.push(x) + a, beginning.push(y) + b),
        path_before(beginning, beginning.push(x) + a),
{
    reveal(path_before);
    let n = beginning.len() as int;
    assert(comes_before_at(beginning.push(x) + a, beginning.push(y) + b, part_less(), n));
    assert(comes_before_at(beginning, beginning.push(x) + a, part_less(), n));
}

/// Of two paths, they are equal or exactly one comes before the other.
pub proof fn paths_are_ordered(a: Seq<PartKey>, b: Seq<PartKey>)
    ensures
        a == b || path_before(a, b) || path_before(b, a),
        !(path_before(a, b) && path_before(b, a)),
{
    if path_before(a, b) && path_before(b, a) {
        crate::paths::path_before_is_transitive(a, b, a);
        crate::paths::path_before_is_irreflexive(a);
    }
    if a != b {
        reveal(path_before);
        let k = first_difference(a, b);
        if k < a.len() && k < b.len() {
            components_are_ordered(a[k], b[k]);
            if part_before(a[k], b[k]) {
                assert(comes_before_at(a, b, part_less(), k));
            } else {
                assert(comes_before_at(b, a, part_less(), k));
            }
        } else if k < b.len() {
            assert(comes_before_at(a, b, part_less(), k));
        } else {
            assert(comes_before_at(b, a, part_less(), k));
        }
    }
}

} // verus!
