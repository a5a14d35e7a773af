//! File system paths as the workflows read them.
//!
//! A path is held as its components, so that equality, order and the last component do not
//! depend on how it was spelled.

use crate::order::{place_bytes, Placement};
#[allow(unused_imports)]
use crate::order::{
    byte_less, bytes_before, comes_before, comes_before_at, comes_before_is_irreflexive,
    comes_before_is_transitive, irreflexive, transitive,
};
use vstd::prelude::*;

verus! {

/// The name of a file or directory.
pub struct PathName {
    /// The name as the operating system encodes it.
    pub bytes: Vec<u8>,
    /// The name as text, with a replacement character for what is not UTF-8.
    pub text: String,
}

/// One component of a path.
pub enum PathPart {
    /// The root directory; only at the beginning of a path.
    Root,
    /// The current directory; only at the beginning of a path.
    Current,
    /// The parent directory.
    Parent,
    /// A name.
    Normal(PathName),
}

/// A path: its components and the text that shows it.
pub struct WorkspacePath {
    /// The path as it is shown to the user.
    pub text: String,
    /// The components.
    pub parts: Vec<PathPart>,
}

/// The value of a [`PathName`].
pub struct NameView {
    pub bytes: Seq<u8>,
    pub text: Seq<char>,
}

/// The value of a [`PathPart`].
pub enum PartView {
    Root,
    Current,
    Parent,
    Normal(NameView),
}

/// The value of a [`WorkspacePath`].
#[verifier::ext_equal]
pub struct PathView {
    pub text: Seq<char>,
    pub parts: Seq<PartView>,
}

impl View for PathName {
    type V = NameView;

    open spec fn view(&self) -> NameView {
        NameView { bytes: self.bytes@, text: self.text@ }
    }
}

impl View for PathPart {
    type V = PartView;

    open spec fn view(&self) -> PartView {
        match self {
            PathPart::Root => PartView::Root,
            PathPart::Current => PartView::Current,
            PathPart::Parent => PartView::Parent,
            PathPart::Normal(name) => PartView::Normal(name@),
        }
    }
}

impl View for WorkspacePath {
    type V = PathView;

    open spec fn view(&self) -> PathView {
        PathView { text: self.text@, parts: self.parts@.map_values(|p: PathPart| p@) }
    }
}

impl Clone for PathName {
    fn clone(&self) -> (copy: Self)
        ensures
            copy@ == self@,
    {
        let bytes = self.bytes.clone();
        assert(bytes@ =~= self.bytes@);
        PathName { bytes, text: self.text.clone() }
    }
}

impl Clone for PathPart {
    fn clone(&self) -> (copy: Self)
        ensures
            copy@ == self@,
    {
        match self {
            PathPart::Root => PathPart::Root,
            PathPart::Current => PathPart::Current,
            PathPart::Parent => PathPart::Parent,
            PathPart::Normal(name) => PathPart::Normal(name.clone()),
        }
    }
}

impl Clone for WorkspacePath {
    fn clone(&self) -> (copy: Self)
        ensures
            copy@ == self@,
    {
        let mut parts: Vec<PathPart> = Vec::new();
        for i in 0..self.parts.len()
            invariant
                parts@.len() == i,
                forall|j: int| 0 <= j < i ==> (#[trigger] parts@[j])@ == self.parts@[j]@,
        {
            parts.push(self.parts[i].clone());
        }
        let copy = WorkspacePath { text: self.text.clone(), parts };
        assert(copy@ =~= self@);
        copy
    }
}

/// What a component is compared by.
pub enum PartKey {
    Root,
    Current,
    Parent,
    Normal(Seq<u8>),
}

impl PartView {
    /// What the component is compared by: a name by its bytes alone.
    pub open spec fn key(self) -> PartKey {
        match self {
            PartView::Root => PartKey::Root,
            PartView::Current => PartKey::Current,
            PartView::Parent => PartKey::Parent,
            PartView::Normal(name) => PartKey::Normal(name.bytes),
        }
    }

    /// The component as text.
    pub open spec fn text(self) -> Seq<char> {
        match self {
            PartView::Root => "/"@,
            PartView::Current => "."@,
            PartView::Parent => ".."@,
            PartView::Normal(name) => name.text,
        }
    }

    /// Whether the component can stand at position `i` of a path: the root and the current
    /// directory only at the beginning, a name only if it is not empty.
    pub open spec fn fits_at(self, i: int) -> bool {
        match self {
            PartView::Root => i == 0,
            PartView::Current => i == 0,
            PartView::Parent => true,
            PartView::Normal(name) => name.bytes.len() > 0,
        }
    }
}

impl PathView {
    /// What the path is compared by.
    pub open spec fn key(self) -> Seq<PartKey> {
        self.parts.map_values(|p: PartView| p.key())
    }

    /// The last component, if it is a name.
    pub open spec fn file_name(self) -> Option<NameView> {
        if self.parts.len() > 0 {
            match self.parts.last() {
                PartView::Normal(name) => Some(name),
                _ => None,
            }
        } else {
            None
        }
    }

    /// The last component as UTF-8 text, if it is a name and valid UTF-8.
    pub open spec fn file_name_text(self) -> Option<Seq<char>> {
        match self.file_name() {
            Some(name) => if vstd::utf8::encode_utf8(name.text) == name.bytes {
                Some(name.text)
            } else {
                None
            },
            None => None,
        }
    }

    /// Whether the components are those of a path.
    pub open spec fn well_formed(self) -> bool {
        forall|i: int| 0 <= i < self.parts.len() ==> (#[trigger] self.parts[i]).fits_at(i)
    }

    /// Whether the path begins at the root directory.
    pub open spec fn is_absolute(self) -> bool {
        self.parts.len() > 0 && self.parts[0] is Root
    }

    /// The components as text.
    pub open spec fn part_texts(self) -> Seq<Seq<char>> {
        self.parts.map_values(|p: PartView| p.text())
    }
}

/// The place of a kind of component in the order of components.
pub open spec fn part_rank(key: PartKey) -> int {
    match key {
        PartKey::Root => 0,
        PartKey::Current => 1,
        PartKey::Parent => 2,
        PartKey::Normal(_) => 3,
    }
}

/// The order of components: root, current directory, parent directory, then names by their
/// bytes.
pub open spec fn part_before(a: PartKey, b: PartKey) -> bool {
    ||| part_rank(a) < part_rank(b)
    ||| a is Normal && b is Normal && bytes_before(a->Normal_0, b->Normal_0)
}

/// The order of components, as a relation.
pub open spec fn part_less() -> spec_fn(PartKey, PartKey) -> bool {
    |a: PartKey, b: PartKey| part_before(a, b)
}

/// The order of paths: component by component.
#[verifier::opaque]
pub open spec fn path_before(a: Seq<PartKey>, b: Seq<PartKey>) -> bool {
    comes_before(a, b, part_less())
}

proof fn part_less_is_an_order()
    ensures
        transitive(part_less()),
        irreflexive(part_less()),
{
    assert forall|x: PartKey, y: PartKey, z: PartKey| #[trigger]
        part_less()(x, y) && #[trigger] part_less()(y, z) implies part_less()(x, z) by {
        if part_rank(x) == part_rank(z) {
            comes_before_is_transitive(x->Normal_0, y->Normal_0, z->Normal_0, byte_less());
        }
    }
    assert forall|x: PartKey| !(#[trigger] part_less()(x, x)) by {
        if x is Normal {
            comes_before_is_irreflexive(x->Normal_0, byte_less());
        }
    }
}

/// The order of paths chains.
pub proof fn path_before_is_transitive(a: Seq<PartKey>, b: Seq<PartKey>, c: Seq<PartKey>)
    requires
        path_before(a, b),
        path_before(b, c),
    ensures
        path_before(a, c),
{
    reveal(path_before);
    part_less_is_an_order();
    comes_before_is_transitive(a, b, c, part_less());
}

/// No path comes before itself.
pub proof fn path_before_is_irreflexive(a: Seq<PartKey>)
    ensures
        !path_before(a, a),
{
    reveal(path_before);
    part_less_is_an_order();
    comes_before_is_irreflexive(a, part_less());
}

fn place_part(a: &PathPart, b: &PathPart) -> (res: Placement)
    ensures
        match res {
            Placement::Before => part_before(a@.key(), b@.key()),
            Placement::Same => a@.key() == b@.key(),
            Placement::After => part_before(b@.key(), a@.key()),
        },
{
    match (a, b) {
        (PathPart::Root, PathPart::Root) => Placement::Same,
        (PathPart::Root, _) => Placement::Before,
        (_, PathPart::Root) => Placement::After,
        (PathPart::Current, PathPart::Current) => Placement::Same,
        (PathPart::Current, _) => Placement::Before,
        (_, PathPart::Current) => Placement::After,
        (PathPart::Parent, PathPart::Parent) => Placement::Same,
        (PathPart::Parent, _) => Placement::Before,
        (_, PathPart::Parent) => Placement::After,
        (PathPart::Normal(x), PathPart::Normal(y)) => place_bytes(&x.bytes, &y.bytes),
    }
}

/// Places the path `a` with respect to the path `b`.
pub fn place_path(a: &WorkspacePath, b: &WorkspacePath) -> (res: Placement)
    ensures
        match res {
            Placement::Before => path_before(a@.key(), b@.key()),
            Placement::Same => a@.key() == b@.key(),
            Placement::After => path_before(b@.key(), a@.key()),
        },
{
    proof {
        reveal(path_before);
    }
    let ghost x = a@.key();
    let ghost y = b@.key();
    let mut i: usize = 0;
    while i < a.parts.len() && i < b.parts.len()
        invariant
            x == a@.key(),
            y == b@.key(),
            i <= a.parts@.len(),
            i <= b.parts@.len(),
            forall|j: int| 0 <= j < i ==> x[j] == y[j],
        decreases a.parts@.len() - i,
    {
        proof {
            reveal(path_before);
        }
        match place_part(&a.parts[i], &b.parts[i]) {
            Placement::Before => {
                assert(comes_before_at(x, y, part_less(), i as int));
                return Placement::Before;
            },
            Placement::Same => {},
            Placement::After => {
                assert(comes_before_at(y, x, part_less(), i as int));
                return Placement::After;
            },
        }
        i = i + 1;
    }
    if i < b.parts.len() {
        assert(comes_before_at(x, y, part_less(), i as int));
        Placement::Before
    } else if i < a.parts.len() {
        assert(comes_before_at(y, x, part_less(), i as int));
        Placement::After
    } else {
        assert(x =~= y);
        Placement::Same
    }
}

/// Whether two paths are equal, component by component.
pub fn same_path(a: &WorkspacePath, b: &WorkspacePath) -> (same: bool)
    ensures
        same == (a@.key() == b@.key()),
{
    match place_path(a, b) {
        Placement::Same => true,
        Placement::Before => {
            proof {
                path_before_is_irreflexive(a@.key());
            }
            false
        },
        Placement::After => {
            proof {
                path_before_is_irreflexive(a@.key());
            }
            false
        },
    }
}

fn same_bytes(a: &[u8], b: &Vec<u8>) -> (same: bool)
    ensures
        same == (a@ == b@),
{
    if a.len() != b.len() {
        return false;
    }
    for i in 0..a.len()
        invariant
            a@.len() == b@.len(),
            forall|j: int| 0 <= j < i ==> a@[j] == b@[j],
    {
        if a[i] != b[i] {
            return false;
        }
    }
    assert(a@ =~= b@);
    true
}

impl WorkspacePath {
    /// The last component, if it is a name.
    pub fn file_name(&self) -> (res: Option<&PathName>)
        ensures
            match res {
                Some(name) => self@.file_name() == Some(name@),
                None => self@.file_name() is None,
            },
    {
        let len = self.parts.len();
        if len == 0 {
            return None;
        }
        assert(self@.parts.last() == self.parts@[len - 1]@);
        match &self.parts[len - 1] {
            PathPart::Normal(name) => Some(name),
            _ => None,
        }
    }

    /// The last component as UTF-8 text, if it is a name and valid UTF-8.
    pub fn file_name_text(&self) -> (res: Option<String>)
        ensures
            crate::text::opt_text(res) == self@.file_name_text(),
    {
        match self.file_name() {
            Some(name) => {
                if same_bytes(name.text.as_str().as_bytes(), &name.bytes) {
                    Some(name.text.clone())
                } else {
                    None
                }
            },
            None => None,
        }
    }
}

} // verus!
