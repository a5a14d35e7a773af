//! How a path is shown relative to the current directory.

#[allow(unused_imports)]
use crate::paths::{PartKey, PathView};
use crate::paths::{PathPart, WorkspacePath};
use crate::text::{hex, join, same_text};
#[allow(unused_imports)]
use crate::text::{digit_char, hex_text, hex_text_is_injective, joined, texts};
use vstd::prelude::*;

verus! {

/// Whether a text is the name of one path component: not empty, without `/`, and neither `.`
/// nor `..`.
pub open spec fn single_component(text: Seq<char>) -> bool {
    &&& text.len() > 0
    &&& forall|i: int| 0 <= i < text.len() ==> text[i] != '/'
    &&& text != "."@
    &&& text != ".."@
}

/// Whether a text can be the component at position `i` of a path.
pub open spec fn component_at(text: Seq<char>, i: int) -> bool {
    ||| i == 0 && (text == "/"@ || text == "."@)
    ||| text == ".."@
    ||| single_component(text)
}

/// Whether a list of texts is the components of a path.
pub open spec fn is_path(parts: Seq<Seq<char>>) -> bool {
    forall|i: int| 0 <= i < parts.len() ==> component_at(#[trigger] parts[i], i)
}

/// Whether a list of components begins at the root directory.
pub open spec fn is_rooted(parts: Seq<Seq<char>>) -> bool {
    parts.len() > 0 && parts[0] == "/"@
}

/// How many components two lists have in common at their beginnings.
pub open spec fn shared<T>(a: Seq<T>, b: Seq<T>) -> nat
    decreases a.len(),
{
    if a.len() > 0 && b.len() > 0 && a[0] == b[0] {
        1 + shared(a.drop_first(), b.drop_first())
    } else {
        0
    }
}

/// The components of `path` as seen from the rooted directory `base`: a `..` for each component
/// of `base` that is not shared, then the components of `path` that are not shared. There is no
/// such view of a path that does not begin at the root, nor across a `..` in `base`.
pub open spec fn seen_from(path: Seq<Seq<char>>, base: Seq<Seq<char>>) -> Option<Seq<Seq<char>>> {
    let k = shared(path, base);
    if !is_rooted(path) {
        None
    } else if k < path.len() && k < base.len() && base[k as int] == ".."@ {
        None
    } else {
        Some(Seq::new((base.len() - k) as nat, |i: int| ".."@) + path.skip(k as int))
    }
}

/// The texts of an optional list of strings.
pub open spec fn opt_texts(list: Option<Vec<String>>) -> Option<Seq<Seq<char>>> {
    match list {
        Some(list) => Some(texts(list@)),
        None => None,
    }
}

/// Calls `pathdiff::diff_paths` on the paths with these components, in a path syntax where `/`
/// separates components and begins absolute paths. For an absolute `base`, it gives the path
/// from `base` to `path`: a `..` for each component of `base` past the common beginning, then
/// the rest of `path`. It gives none where `path` is relative, or where `path` goes on and the
/// first component of `base` past the common beginning is `..`.
#[verifier::external_body]
fn diff_paths(path: &Vec<String>, base: &Vec<String>) -> (res: Option<Vec<String>>)
    requires
        is_path(texts(path@)),
        is_path(texts(base@)),
        is_rooted(texts(base@)),
    ensures
        opt_texts(res) == seen_from(texts(path@), texts(base@)),
{
    let path: std::path::PathBuf = path.iter().collect();
    let base: std::path::PathBuf = base.iter().collect();
    let parts = pathdiff::diff_paths(path, base)?;
    Some(parts.components().map(|c| c.as_os_str().to_string_lossy().into_owned()).collect())
}

/// A component as a text of its own that `pathdiff` tells apart from every other: names by their
/// bytes in hexadecimal notation, since two names that are not UTF-8 can look the same.
pub open spec fn tag(key: PartKey) -> Seq<char> {
    match key {
        PartKey::Root => "/"@,
        PartKey::Current => "."@,
        PartKey::Parent => ".."@,
        PartKey::Normal(bytes) => hex_text(bytes),
    }
}

/// The tags of a list of components.
pub open spec fn tags(keys: Seq<PartKey>) -> Seq<Seq<char>> {
    keys.map_values(|k: PartKey| tag(k))
}

/// The components of `path` as seen from the directory `cwd`, as text: a `..` for each component
/// of `cwd` past the common beginning, then the rest of `path`. There is no such view of a
/// relative path, nor where `path` goes on and the first component of `cwd` past the common
/// beginning is the parent directory.
pub open spec fn path_from(path: PathView, cwd: PathView) -> Option<Seq<Seq<char>>> {
    let k = shared(path.key(), cwd.key());
    if !path.is_absolute() {
        None
    } else if k < path.parts.len() && k < cwd.parts.len() && cwd.parts[k as int] is Parent {
        None
    } else {
        Some(
            Seq::new((cwd.parts.len() - k) as nat, |i: int| ".."@) + path.part_texts().skip(
                k as int,
            ),
        )
    }
}

/// How a path is shown in the directory `cwd`: as seen from there, or as it is if it cannot be;
/// `cwd` itself is shown as `(here)`.
pub open spec fn path_label_text(path: PathView, cwd: PathView) -> Seq<char> {
    match path_from(path, cwd) {
        Some(parts) => {
            let text = joined(parts, "/"@);
            if text.len() == 0 || text == "."@ {
                "(here)"@
            } else {
                text
            }
        },
        None => path.text,
    }
}

proof fn hex_is_a_component(bytes: Seq<u8>)
    requires
        bytes.len() > 0,
    ensures
        single_component(hex_text(bytes)),
        hex_text(bytes)[0] != '.',
{
    reveal_strlit(".");
    reveal_strlit("..");
    let text = hex_text(bytes);
    assert(text.len() >= 2);
    assert forall|i: int| 0 <= i < text.len() implies text[i] != '/' && text[i] != '.' by {
        assert(text[i] == digit_char(bytes[i / 2] as nat / 16) || text[i] == digit_char(
            bytes[i / 2] as nat % 16,
        ));
    }
    assert(text[0] != '.');
}

proof fn tags_differ(a: PartKey, b: PartKey)
    requires
        tag(a) == tag(b),
        a matches PartKey::Normal(bytes) ==> bytes.len() > 0,
        b matches PartKey::Normal(bytes) ==> bytes.len() > 0,
    ensures
        a == b,
{
    reveal_strlit("/");
    reveal_strlit(".");
    reveal_strlit("..");
    assert("/"@[0] == '/' && "/"@.len() == 1);
    assert("."@[0] == '.' && "."@.len() == 1);
    assert(".."@[0] == '.' && ".."@.len() == 2);
    if a is Normal {
        hex_is_a_component(a->Normal_0);
        assert(tag(a)[0] != '/' && tag(a)[0] != '.');
    }
    if b is Normal {
        hex_is_a_component(b->Normal_0);
        assert(tag(b)[0] != '/' && tag(b)[0] != '.');
    }
    if a is Normal && b is Normal {
        hex_text_is_injective(a->Normal_0, b->Normal_0);
    }
}

spec fn taggable(keys: Seq<PartKey>) -> bool {
    forall|i: int|
        0 <= i < keys.len() ==> ((#[trigger] keys[i]) matches PartKey::Normal(bytes)
            ==> bytes.len() > 0)
}

proof fn tags_share_what_paths_share(a: Seq<PartKey>, b: Seq<PartKey>)
    requires
        taggable(a),
        taggable(b),
    ensures
        shared(tags(a), tags(b)) == shared(a, b),
    decreases a.len(),
{
    if a.len() > 0 && b.len() > 0 {
        if tag(a[0]) == tag(b[0]) {
            tags_differ(a[0], b[0]);
            assert(tags(a).drop_first() =~= tags(a.drop_first()));
            assert(tags(b).drop_first() =~= tags(b.drop_first()));
            assert forall|i: int| 0 <= i < a.drop_first().len() implies ((
            #[trigger] a.drop_first()[i]) matches PartKey::Normal(bytes) ==> bytes.len() > 0) by {
                assert(a.drop_first()[i] == a[i + 1]);
            }
            assert forall|i: int| 0 <= i < b.drop_first().len() implies ((
            #[trigger] b.drop_first()[i]) matches PartKey::Normal(bytes) ==> bytes.len() > 0) by {
                assert(b.drop_first()[i] == b[i + 1]);
            }
            tags_share_what_paths_share(a.drop_first(), b.drop_first());
        }
    }
}

proof fn shared_is_bounded<T>(a: Seq<T>, b: Seq<T>)
    ensures
        shared(a, b) <= a.len(),
        shared(a, b) <= b.len(),
    decreases a.len(),
{
    if a.len() > 0 && b.len() > 0 && a[0] == b[0] {
        shared_is_bounded(a.drop_first(), b.drop_first());
    }
}

proof fn tags_are_a_path(path: PathView)
    requires
        path.well_formed(),
    ensures
        taggable(path.key()),
        is_path(tags(path.key())),
        is_rooted(tags(path.key())) == path.is_absolute(),
{
    let keys = path.key();
    assert forall|i: int| 0 <= i < keys.len() implies ((#[trigger] keys[i]) matches PartKey::Normal(
        bytes,
    ) ==> bytes.len() > 0) by {
        assert(path.parts[i].fits_at(i));
    }
    assert forall|i: int| 0 <= i < tags(keys).len() implies component_at(
        #[trigger] tags(keys)[i],
        i,
    ) by {
        assert(path.parts[i].fits_at(i));
        if let PartKey::Normal(bytes) = keys[i] {
            hex_is_a_component(bytes);
        }
    }
    if path.parts.len() > 0 {
        assert(tags(keys)[0] == tag(keys[0]));
        if tags(keys)[0] == "/"@ {
            tags_differ(keys[0], PartKey::Root);
        }
    }
}

fn part_tag(part: &PathPart) -> (res: String)
    ensures
        res@ == tag(part@.key()),
{
    match part {
        PathPart::Root => "/".to_owned(),
        PathPart::Current => ".".to_owned(),
        PathPart::Parent => "..".to_owned(),
        PathPart::Normal(name) => hex(name.bytes.as_slice()),
    }
}

fn part_tags(path: &WorkspacePath) -> (res: Vec<String>)
    ensures
        texts(res@) == tags(path@.key()),
{
    let mut res: Vec<String> = Vec::new();
    for i in 0..path.parts.len()
        invariant
            res@.len() == i,
            forall|j: int| 0 <= j < i ==> (#[trigger] res@[j])@ == tag(path.parts@[j]@.key()),
    {
        res.push(part_tag(&path.parts[i]));
    }
    assert(texts(res@) =~= tags(path@.key()));
    res
}

fn part_text(part: &PathPart) -> (res: String)
    ensures
        res@ == part@.text(),
{
    match part {
        PathPart::Root => "/".to_owned(),
        PathPart::Current => ".".to_owned(),
        PathPart::Parent => "..".to_owned(),
        PathPart::Normal(name) => name.text.clone(),
    }
}

/// The components of `path` as seen from the directory `cwd`, as text.
pub fn seen_path(path: &WorkspacePath, cwd: &WorkspacePath) -> (res: Option<Vec<String>>)
    requires
        path@.well_formed(),
        cwd@.well_formed(),
        cwd@.is_absolute(),
    ensures
        opt_texts(res) == path_from(path@, cwd@),
{
    let to = part_tags(path);
    let from = part_tags(cwd);
    let ghost k = shared(path@.key(), cwd@.key());
    proof {
        tags_are_a_path(path@);
        tags_are_a_path(cwd@);
        tags_share_what_paths_share(path@.key(), cwd@.key());
        shared_is_bounded(path@.key(), cwd@.key());
        assert(texts(to@).len() == path@.parts.len());
        assert(texts(from@).len() == cwd@.parts.len());
        if k < cwd@.parts.len() {
            assert(tags(cwd@.key())[k as int] == tag(cwd@.key()[k as int]));
            if tag(cwd@.key()[k as int]) == ".."@ {
                tags_differ(cwd@.key()[k as int], PartKey::Parent);
            }
        }
    }
    let seen = match diff_paths(&to, &from) {
        Some(seen) => seen,
        None => {
            return None;
        },
    };
    let ghost ups = from@.len() - k;
    assert(texts(seen@) == seen_from(texts(to@), texts(from@))->0);
    assert(texts(seen@).len() == seen@.len());
    assert(seen@.len() == ups + to@.len() - k);
    let kept: usize = ((from.len() as u128 + to.len() as u128 - seen.len() as u128) / 2) as usize;
    assert(kept == k);
    let mut res: Vec<String> = Vec::new();
    for i in 0..(from.len() - kept)
        invariant
            kept <= from@.len(),
            res@.len() == i,
            forall|j: int| 0 <= j < i ==> (#[trigger] res@[j])@ == ".."@,
    {
        res.push("..".to_owned());
    }
    for i in kept..path.parts.len()
        invariant
            kept == k,
            ups == from@.len() - k,
            ups >= 0,
            res@.len() == ups + i - k,
            forall|j: int| 0 <= j < ups ==> (#[trigger] res@[j])@ == ".."@,
            forall|j: int|
                ups <= j < res@.len() ==> (#[trigger] res@[j])@ == path.parts@[k + j - ups]@.text(),
    {
        res.push(part_text(&path.parts[i]));
    }
    assert(texts(res@) =~= Seq::new((cwd@.parts.len() - k) as nat, |i: int| ".."@)
        + path@.part_texts().skip(k as int));
    Some(res)
}

/// Shows a path in the directory `cwd`.
pub fn path_label(path: &WorkspacePath, cwd: &WorkspacePath) -> (res: String)
    requires
        path@.well_formed(),
        cwd@.well_formed(),
        cwd@.is_absolute(),
    ensures
        res@ == path_label_text(path@, cwd@),
{
    match seen_path(path, cwd) {
        Some(parts) => {
            let text = join(&parts, "/");
            if text.as_str().is_empty() || same_text(text.as_str(), ".") {
                "(here)".to_owned()
            } else {
                text
            }
        },
        None => path.text.clone(),
    }
}

proof fn shares_all_with_itself<T>(a: Seq<T>)
    ensures
        shared(a, a) == a.len(),
    decreases a.len(),
{
    if a.len() > 0 {
        shares_all_with_itself(a.drop_first());
    }
}

/// The current directory is shown as `(here)`, however its path is spelled.
pub proof fn current_directory_is_here(path: PathView, cwd: PathView)
    requires
        cwd.is_absolute(),
        path.key() == cwd.key(),
    ensures
        path_label_text(path, cwd) == "(here)"@,
{
    shares_all_with_itself(cwd.key());
    assert(path.key().len() == path.parts.len());
    assert(cwd.key().len() == cwd.parts.len());
    assert(path.key()[0] == path.parts[0].key());
    assert(cwd.key()[0] == cwd.parts[0].key());
    assert(path_from(path, cwd)->0 =~= Seq::<Seq<char>>::empty());
}

impl WorkspacePath {
    /// Whether the components are those of a path.
    pub fn is_well_formed(&self) -> (res: bool)
        ensures
            res == self@.well_formed(),
    {
        for i in 0..self.parts.len()
            invariant
                forall|j: int| 0 <= j < i ==> (#[trigger] self@.parts[j]).fits_at(j),
        {
            let fits = match &self.parts[i] {
                PathPart::Root => i == 0,
                PathPart::Current => i == 0,
                PathPart::Parent => true,
                PathPart::Normal(name) => name.bytes.len() > 0,
            };
            assert(self@.parts[i as int] == self.parts@[i as int]@);
            if !fits {
                assert(!self@.parts[i as int].fits_at(i as int));
                return false;
            }
        }
        true
    }

    /// Whether the path begins at the root directory.
    pub fn is_absolute(&self) -> (res: bool)
        ensures
            res == self@.is_absolute(),
    {
        if self.parts.len() == 0 {
            return false;
        }
        assert(self@.parts[0] == self.parts@[0]@);
        match &self.parts[0] {
            PathPart::Root => true,
            _ => false,
        }
    }
}

/// The texts of a list that may be missing are those of its strings.
pub proof fn optional_texts_are_those_of_the_strings(list: Vec<String>, i: int)
    requires
        0 <= i < list@.len(),
    ensures
        opt_texts(None) is None,
        opt_texts(Some(list)) matches Some(held) && held.len() == list@.len() && held[i]
            == list@[i]@,
{
}

/// What two lists share is their longest common beginning.
pub proof fn shared_is_the_longest_common_beginning<T>(a: Seq<T>, b: Seq<T>)
    ensures
        shared(a, b) <= a.len(),
        shared(a, b) <= b.len(),
        forall|i: int| 0 <= i < shared(a, b) ==> a[i] == b[i],
        shared(a, b) < a.len() && shared(a, b) < b.len() ==> a[shared(a, b) as int] != b[shared(
            a,
            b,
        ) as int],
    decreases a.len(),
{
    if a.len() > 0 && b.len() > 0 && a[0] == b[0] {
        let x = a.drop_first();
        let y = b.drop_first();
        shared_is_the_longest_common_beginning(x, y);
        let k = shared(x, y) as int;
        assert forall|i: int| 0 <= i < k + 1 implies a[i] == b[i] by {
            if i > 0 {
                assert(a[i] == x[i - 1] && b[i] == y[i - 1]);
            }
        }
        if k < x.len() && k < y.len() {
            assert(a[k + 1] == x[k] && b[k + 1] == y[k]);
        }
    }
}

/// The way from `cwd` to `path` goes up from `cwd` by as many steps as it has components that
/// `path` does not begin with, then down along the rest of `path`. There is a way to every
/// absolute path, unless the first step up would leave a parent directory.
pub proof fn way_goes_up_then_down(path: PathView, cwd: PathView, k: int)
    requires
        0 <= k <= path.parts.len(),
        k <= cwd.parts.len(),
        forall|i: int| 0 <= i < k ==> (#[trigger] path.parts[i]).key() == cwd.parts[i].key(),
        k < path.parts.len() && k < cwd.parts.len() ==> path.parts[k].key() != cwd.parts[k].key(),
    ensures
        path_from(path, cwd) is Some <==> {
            &&& path.parts.len() > 0
            &&& path.parts[0] is Root
            &&& !(k < path.parts.len() && k < cwd.parts.len() && cwd.parts[k] is Parent)
        },
        path_from(path, cwd) matches Some(way) ==> {
            &&& way.len() == (cwd.parts.len() - k) + (path.parts.len() - k)
            &&& forall|i: int| 0 <= i < cwd.parts.len() - k ==> #[trigger] way[i] == ".."@
            &&& forall|i: int|
                k <= i < path.parts.len() ==> way[cwd.parts.len() - k + (i - k)] == (
                #[trigger] path.parts[i]).text()
        },
{
    let a = path.key();
    let b = cwd.key();
    shared_is_the_longest_common_beginning(a, b);
    assert(a.len() == path.parts.len() && b.len() == cwd.parts.len());
    assert forall|i: int| 0 <= i < k implies a[i] == b[i] by {
        assert(a[i] == path.parts[i].key() && b[i] == cwd.parts[i].key());
    }
    let s = shared(a, b) as int;
    if s < k {
        assert(a[s] == b[s]);
    } else if s > k {
        assert(a[k] == b[k]);
        assert(a[k] == path.parts[k].key() && b[k] == cwd.parts[k].key());
    }
}

/// A path is shown by the way to it from `cwd`, its steps separated by slashes; by itself where
/// there is no way; and as `(here)` where the way has no steps.
pub proof fn label_shows_the_way(path: PathView, cwd: PathView)
    ensures
        path_from(path, cwd) is None ==> path_label_text(path, cwd) == path.text,
        path_from(path, cwd) matches Some(way) ==> {
            let shown = joined(way, "/"@);
            &&& way.len() == 0 ==> path_label_text(path, cwd) == "(here)"@
            &&& shown.len() > 0 && shown != "."@ ==> path_label_text(path, cwd) == shown
            &&& shown.len() == 0 || shown == "."@ ==> path_label_text(path, cwd) == "(here)"@
        },
{
}

} // verus!
