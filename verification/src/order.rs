//! Lexicographic order of sequences.

use vstd::prelude::*;

verus! {

/// How one value stands to another in an order.
#[derive(Clone, Copy, Debug, PartialEq, Eq, Structural)]
pub enum Placement {
    Before,
    Same,
    After,
}

/// `a` comes before `b` in the lexicographic order that `less` gives on the elements:
/// after an equal beginning of length `k`, either `a` ends and `b` goes on, or `a` has the
/// smaller element.
pub open spec fn comes_before_at<T>(
    a: Seq<T>,
    b: Seq<T>,
    less: spec_fn(T, T) -> bool,
    k: int,
) -> bool {
    &&& 0 <= k <= a.len()
    &&& k <= b.len()
    &&& forall|i: int| 0 <= i < k ==> a[i] == b[i]
    &&& k < b.len()
    &&& k == a.len() || less(a[k], b[k])
}

/// `a` comes before `b` in the lexicographic order that `less` gives on the elements.
pub open spec fn comes_before<T>(a: Seq<T>, b: Seq<T>, less: spec_fn(T, T) -> bool) -> bool {
    exists|k: int| comes_before_at(a, b, less, k)
}

/// `less` chains.
pub open spec fn transitive<T>(less: spec_fn(T, T) -> bool) -> bool {
    forall|x: T, y: T, z: T| #[trigger] less(x, y) && #[trigger] less(y, z) ==> less(x, z)
}

/// No element is less than itself.
pub open spec fn irreflexive<T>(less: spec_fn(T, T) -> bool) -> bool {
    forall|x: T| !(#[trigger] less(x, x))
}

/// The lexicographic order chains where the order of the elements does.
pub proof fn comes_before_is_transitive<T>(
    a: Seq<T>,
    b: Seq<T>,
    c: Seq<T>,
    less: spec_fn(T, T) -> bool,
)
    requires
        transitive(less),
        comes_before(a, b, less),
        comes_before(b, c, less),
    ensures
        comes_before(a, c, less),
{
    let k = choose|k: int| comes_before_at(a, b, less, k);
    let l = choose|l: int| comes_before_at(b, c, less, l);
    let m = if k <= l {
        k
    } else {
        l
    };
    assert(comes_before_at(a, c, less, m)) by {
        assert forall|i: int| 0 <= i < m implies a[i] == c[i] by {
            assert(a[i] == b[i]);
            assert(b[i] == c[i]);
        }
        if k < l {
            assert(b[k] == c[k]);
        } else if l < k {
            assert(a[l] == b[l]);
        } else if k < a.len() {
            assert(less(a[k], b[k]) && less(b[k], c[k]));
        }
    }
}

/// No sequence comes before itself where no element is less than itself.
pub proof fn comes_before_is_irreflexive<T>(a: Seq<T>, less: spec_fn(T, T) -> bool)
    requires
        irreflexive(less),
    ensures
        !comes_before(a, a, less),
{
    if comes_before(a, a, less) {
        let k = choose|k: int| comes_before_at(a, a, less, k);
        assert(!less(a[k], a[k]));
    }
}

/// The order of byte values.
pub open spec fn byte_less() -> spec_fn(u8, u8) -> bool {
    |x: u8, y: u8| x < y
}

/// Whether `a` comes before `b` byte by byte.
pub open spec fn bytes_before(a: Seq<u8>, b: Seq<u8>) -> bool {
    comes_before(a, b, byte_less())
}

/// Places `a` with respect to `b`, byte by byte.
pub fn place_bytes(a: &Vec<u8>, b: &Vec<u8>) -> (res: Placement)
    ensures
        match res {
            Placement::Before => bytes_before(a@, b@),
            Placement::Same => a@ == b@,
            Placement::After => bytes_before(b@, a@),
        },
{
    let mut i: usize = 0;
    while i < a.len() && i < b.len()
        invariant
            i <= a@.len(),
            i <= b@.len(),
            forall|j: int| 0 <= j < i ==> a@[j] == b@[j],
        decreases a@.len() - i,
    {
        if a[i] < b[i] {
            assert(comes_before_at(a@, b@, byte_less(), i as int));
            return Placement::Before;
        }
        if b[i] < a[i] {
            assert(comes_before_at(b@, a@, byte_less(), i as int));
            return Placement::After;
        }
        i = i + 1;
    }
    if i < b.len() {
        assert(comes_before_at(a@, b@, byte_less(), i as int));
        Placement::Before
    } else if i < a.len() {
        assert(comes_before_at(b@, a@, byte_less(), i as int));
        Placement::After
    } else {
        assert(a@ =~= b@);
        Placement::Same
    }
}

} // verus!
