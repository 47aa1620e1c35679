//! Directory listings: what the host found in a directory or below it, and
//! which of it an operation hands to the guest.

use crate::glob::{glob_match, is_match};
use crate::text::{chars_of, chars_of_each, ends_with, texts_of};
use vstd::prelude::*;

verus! {

/// One entry of a directory listing.
#[derive(Clone, Debug, PartialEq, Eq)]
pub struct ListedEntry {
    /// The entry's path below the directory that was listed, its parts
    /// separated by `/`.
    pub path: String,
    pub is_directory: bool,
}

/// A `ListedEntry` as a plain value.
pub struct ListedEntryView {
    pub path: Seq<char>,
    pub is_directory: bool,
}

impl View for ListedEntry {
    type V = ListedEntryView;

    open spec fn view(&self) -> ListedEntryView {
        ListedEntryView { path: self.path@, is_directory: self.is_directory }
    }
}

impl DeepView for ListedEntry {
    type V = ListedEntryView;

    open spec fn deep_view(&self) -> ListedEntryView {
        self@
    }
}

/// The filters of a reading of a directory tree, as plain values.
pub struct ReadDirectoryFilters {
    pub extensions: Option<Seq<Seq<char>>>,
    pub includes: Option<Seq<Seq<char>>>,
    pub exclude: Option<Seq<Seq<char>>>,
    pub depth: Option<u32>,
}

/// How many `/` the path holds.
pub open spec fn separators(path: Seq<char>) -> nat
    decreases path.len(),
{
    if path.len() == 0 {
        0
    } else {
        separators(path.drop_last()) + if path.last() == '/' {
            1nat
        } else {
            0nat
        }
    }
}

/// How deep an entry lies below the directory that was read: an entry of
/// the directory itself at depth one, an entry of a directory in it at depth
/// two, and so on.
pub open spec fn depth_of(path: Seq<char>) -> nat {
    separators(path) + 1
}

/// Whether the path ends with one of the extensions.
pub open spec fn any_suffix(path: Seq<char>, extensions: Seq<Seq<char>>) -> bool {
    exists|k: int| 0 <= k < extensions.len() && (#[trigger] extensions[k]).is_suffix_of(path)
}

/// Whether one of the patterns matches the path.
pub open spec fn any_match(path: Seq<char>, patterns: Seq<Seq<char>>) -> bool {
    exists|k: int| 0 <= k < patterns.len() && is_match(#[trigger] patterns[k], path)
}

/// Whether reading a directory tree yields the entry: it is a file; it lies
/// no deeper than the depth, where one is given; its path ends with one of
/// the extensions, where extensions are given; one of the patterns to
/// take in matches its path, where such patterns are given; and none of the
/// patterns to leave out does.
pub open spec fn selected(entry: ListedEntryView, filters: ReadDirectoryFilters) -> bool {
    &&& !entry.is_directory
    &&& (filters.depth matches Some(depth) ==> depth_of(entry.path) <= depth)
    &&& (filters.extensions matches Some(extensions) ==> any_suffix(entry.path, extensions))
    &&& (filters.includes matches Some(patterns) ==> any_match(entry.path, patterns))
    &&& (filters.exclude matches Some(patterns) ==> !any_match(entry.path, patterns))
}

/// The paths that reading a directory tree yields, in the order of the
/// listing.
pub open spec fn selection(listing: Seq<ListedEntryView>, filters: ReadDirectoryFilters) -> Seq<
    Seq<char>,
> {
    listing.filter(|e: ListedEntryView| selected(e, filters)).map_values(
        |e: ListedEntryView| e.path,
    )
}

/// Whether reading the tree has to look into a directory that lies `level`
/// directories below the one that is read (the one that is read lies at
/// level zero): it has to where the entries of that directory, which lie at
/// depth `level + 1`, are within the depth that the guest gave.
pub fn reads_below(depth: Option<u32>, level: u32) -> (r: bool)
    ensures
        r == (depth matches Some(limit) ==> level + 1 <= limit),
{
    match depth {
        Some(limit) => level < limit,
        None => true,
    }
}

/// The path of an entry called `name` in the directory with the path
/// `parent`, both taken below the directory that is read, whose own path is
/// empty.
pub open spec fn joined(parent: Seq<char>, name: Seq<char>) -> Seq<char> {
    if parent.len() == 0 {
        name
    } else {
        parent + seq!['/'] + name
    }
}

/// The path of an entry called `name` in the directory with the path
/// `parent`.
pub fn child_path(parent: &str, name: &str) -> (path: String)
    ensures
        path@ == joined(parent@, name@),
{
    if parent.is_empty() {
        String::from_str(name)
    } else {
        proof {
            reveal_strlit("/");
            assert("/"@ =~= seq!['/']);
        }
        String::from_str(parent).concat("/").concat(name)
    }
}

/// A path in two parts has the separators of both.
proof fn lemma_separators_add(a: Seq<char>, b: Seq<char>)
    ensures
        separators(a + b) == separators(a) + separators(b),
    decreases b.len(),
{
    if b.len() == 0 {
        assert(a + b =~= a);
    } else {
        lemma_separators_add(a, b.drop_last());
        assert((a + b).drop_last() =~= a + b.drop_last());
    }
}

/// An entry lies one deeper than the directory it is in: where its name
/// holds no `/`, the entries of the directory that is read lie at depth one,
/// and those of a directory at some depth lie at the next.
pub proof fn lemma_child_depth(parent: Seq<char>, name: Seq<char>)
    requires
        separators(name) == 0,
    ensures
        depth_of(joined(parent, name)) == if parent.len() == 0 {
            1
        } else {
            depth_of(parent) + 1
        },
{
    if parent.len() > 0 {
        lemma_separators_add(parent + seq!['/'], name);
        lemma_separators_add(parent, seq!['/']);
        assert(seq!['/'].drop_last() =~= Seq::<char>::empty());
        assert(separators(seq!['/']) == 1) by {
            reveal_with_fuel(separators, 2);
        }
    }
}

/// Whether the path lies no deeper than `depth`.
fn within_depth(path: &[char], depth: u32) -> (r: bool)
    ensures
        r == (depth_of(path@) <= depth),
{
    let mut count: usize = 0;
    let mut i: usize = 0;
    while i < path.len()
        invariant
            i <= path@.len(),
            count <= i,
            count == separators(path@.take(i as int)),
        decreases path@.len() - i,
    {
        proof {
            assert(path@.take(i + 1).drop_last() =~= path@.take(i as int));
            assert(path@.take(i + 1).last() == path@[i as int]);
        }
        if path[i] == '/' {
            count += 1;
        }
        i += 1;
    }
    assert(path@.take(i as int) =~= path@);
    count < depth as usize
}

/// Whether the path ends with one of the extensions.
fn ends_with_any(path: &[char], extensions: &Vec<Vec<char>>) -> (r: bool)
    ensures
        r == any_suffix(path@, texts_of(extensions@)),
{
    let mut i: usize = 0;
    while i < extensions.len()
        invariant
            i <= extensions@.len(),
            forall|k: int| 0 <= k < i ==> !(#[trigger] texts_of(extensions@)[k]).is_suffix_of(path@),
        decreases extensions@.len() - i,
    {
        assert(texts_of(extensions@)[i as int] == extensions@[i as int]@);
        if ends_with(path, extensions[i].as_slice()) {
            return true;
        }
        i += 1;
    }
    false
}

/// Whether one of the patterns matches the path.
fn matches_any(path: &[char], patterns: &Vec<Vec<char>>) -> (r: bool)
    ensures
        r == any_match(path@, texts_of(patterns@)),
{
    let mut i: usize = 0;
    while i < patterns.len()
        invariant
            i <= patterns@.len(),
            forall|k: int| 0 <= k < i ==> !is_match(#[trigger] texts_of(patterns@)[k], path@),
        decreases patterns@.len() - i,
    {
        assert(texts_of(patterns@)[i as int] == patterns@[i as int]@);
        if glob_match(patterns[i].as_slice(), path) {
            return true;
        }
        i += 1;
    }
    false
}

/// The characters of each text of a list that may be absent.
fn chars_of_list(texts: &Option<Vec<String>>) -> (lists: Option<Vec<Vec<char>>>)
    ensures
        match lists {
            Some(l) => Some(texts_of(l@)) == texts.deep_view(),
            None => texts.deep_view() is None,
        },
{
    match texts {
        Some(list) => Some(chars_of_each(list)),
        None => None,
    }
}

/// The paths of the files of a listing that pass the filters, in the order
/// of the listing.
pub fn select(
    listing: &Vec<ListedEntry>,
    extensions: &Option<Vec<String>>,
    includes: &Option<Vec<String>>,
    exclude: &Option<Vec<String>>,
    depth: Option<u32>,
) -> (paths: Vec<String>)
    ensures
        paths.deep_view() == selection(
            listing.deep_view(),
            ReadDirectoryFilters {
                extensions: extensions.deep_view(),
                includes: includes.deep_view(),
                exclude: exclude.deep_view(),
                depth,
            },
        ),
{
    let ghost filters = ReadDirectoryFilters {
        extensions: extensions.deep_view(),
        includes: includes.deep_view(),
        exclude: exclude.deep_view(),
        depth,
    };
    let extensions = chars_of_list(extensions);
    let includes = chars_of_list(includes);
    let exclude = chars_of_list(exclude);
    let ghost all = listing.deep_view();
    let ghost keep = |e: ListedEntryView| selected(e, filters);
    let ghost path_of = |e: ListedEntryView| e.path;
    let mut paths: Vec<String> = Vec::new();
    let mut i: usize = 0;
    proof {
        reveal(Seq::filter);
        assert(all.take(0).filter(keep).map_values(path_of) =~= paths.deep_view());
    }
    while i < listing.len()
        invariant
            i <= listing@.len(),
            all == listing.deep_view(),
            keep == |e: ListedEntryView| selected(e, filters),
            path_of == |e: ListedEntryView| e.path,
            filters.depth == depth,
            match extensions {
                Some(l) => Some(texts_of(l@)) == filters.extensions,
                None => filters.extensions is None,
            },
            match includes {
                Some(l) => Some(texts_of(l@)) == filters.includes,
                None => filters.includes is None,
            },
            match exclude {
                Some(l) => Some(texts_of(l@)) == filters.exclude,
                None => filters.exclude is None,
            },
            paths.deep_view() == all.take(i as int).filter(keep).map_values(path_of),
        decreases listing@.len() - i,
    {
        proof {
            reveal(Seq::filter);
            assert(all.take(i + 1).drop_last() =~= all.take(i as int));
            assert(all.take(i + 1).last() == listing@[i as int]@);
        }
        let entry = &listing[i];
        let ghost before = paths.deep_view();
        let mut take = !entry.is_directory;
        if take {
            let path = chars_of(entry.path.as_str());
            take = (match depth {
                Some(limit) => within_depth(path.as_slice(), limit),
                None => true,
            }) && (match &extensions {
                Some(list) => ends_with_any(path.as_slice(), list),
                None => true,
            }) && (match &includes {
                Some(list) => matches_any(path.as_slice(), list),
                None => true,
            }) && (match &exclude {
                Some(list) => !matches_any(path.as_slice(), list),
                None => true,
            });
        }
        assert(take == selected(entry@, filters));
        if take {
            paths.push(entry.path.clone());
            assert(paths.deep_view() =~= before.push(entry@.path));
            assert(all.take(i + 1).filter(keep).map_values(path_of) =~= before.push(entry@.path));
        }
        i += 1;
    }
    assert(all.take(i as int) =~= all);
    paths
}

/// The names of the directories among the entries of a directory, in the
/// order of the listing.
pub open spec fn directories_of(listing: Seq<ListedEntryView>) -> Seq<Seq<char>> {
    listing.filter(|e: ListedEntryView| e.is_directory).map_values(|e: ListedEntryView| e.path)
}

/// The names of the directories among the entries of a directory, in the
/// order of the listing.
pub fn directories(listing: &Vec<ListedEntry>) -> (names: Vec<String>)
    ensures
        names.deep_view() == directories_of(listing.deep_view()),
{
    let ghost all = listing.deep_view();
    let ghost is_dir = |e: ListedEntryView| e.is_directory;
    let ghost name = |e: ListedEntryView| e.path;
    let mut names: Vec<String> = Vec::new();
    let mut i: usize = 0;
    proof {
        reveal(Seq::filter);
        assert(all.take(0).filter(is_dir).map_values(name) =~= names.deep_view());
    }
    while i < listing.len()
        invariant
            i <= listing@.len(),
            all == listing.deep_view(),
            is_dir == |e: ListedEntryView| e.is_directory,
            name == |e: ListedEntryView| e.path,
            names.deep_view() == all.take(i as int).filter(is_dir).map_values(name),
        decreases listing@.len() - i,
    {
        proof {
            reveal(Seq::filter);
            assert(all.take(i + 1).drop_last() =~= all.take(i as int));
            assert(all.take(i + 1).last() == listing@[i as int]@);
        }
        let ghost before = names.deep_view();
        if listing[i].is_directory {
            names.push(listing[i].path.clone());
            assert(names.deep_view() =~= before.push(listing@[i as int]@.path));
            assert(all.take(i + 1).filter(is_dir).map_values(name) =~= before.push(
                listing@[i as int]@.path,
            ));
        }
        i += 1;
    }
    assert(all.take(i as int) =~= all);
    names
}

} // verus!
