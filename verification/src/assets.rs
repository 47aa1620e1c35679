//! The assets offered to the guest while a snapshot is built: the library
//! files of one directory, each under a URI of its own.

use crate::text::{chars_of, ends_with, same_text, starts_with};
use vstd::prelude::*;

verus! {

/// One file of the asset directory, as the host listed it.
#[derive(Clone, Debug, PartialEq, Eq)]
pub struct DirectoryEntry {
    /// The file's name, without its directory.
    pub file_name: String,
    /// Where the file is.
    pub path: String,
}

/// A `DirectoryEntry` as a plain value.
pub struct DirectoryEntryView {
    pub file_name: Seq<char>,
    pub path: Seq<char>,
}

impl View for DirectoryEntry {
    type V = DirectoryEntryView;

    open spec fn view(&self) -> DirectoryEntryView {
        DirectoryEntryView { file_name: self.file_name@, path: self.path@ }
    }
}

impl DeepView for DirectoryEntry {
    type V = DirectoryEntryView;

    open spec fn deep_view(&self) -> DirectoryEntryView {
        self@
    }
}

/// A library file and the URI under which the guest asks for it.
#[derive(Clone, Debug, PartialEq, Eq)]
pub struct Asset {
    pub uri: String,
    pub path: String,
}

/// An `Asset` as a plain value.
pub struct AssetView {
    pub uri: Seq<char>,
    pub path: Seq<char>,
}

impl View for Asset {
    type V = AssetView;

    open spec fn view(&self) -> AssetView {
        AssetView { uri: self.uri@, path: self.path@ }
    }
}

impl DeepView for Asset {
    type V = AssetView;

    open spec fn deep_view(&self) -> AssetView {
        self@
    }
}

/// A file is a library file when its name begins with `lib.` and ends with
/// `d.ts`, in exactly these letters.
pub open spec fn is_library_name(name: Seq<char>) -> bool {
    "lib."@.is_prefix_of(name) && "d.ts"@.is_suffix_of(name)
}

/// The URI of the asset with the given file name.
pub open spec fn uri_of(name: Seq<char>) -> Seq<char> {
    "asset:///"@ + name
}

/// Whether a file of this name is a library file.
pub fn is_library_file(name: &str) -> (r: bool)
    ensures
        r == is_library_name(name@),
{
    let chars = chars_of(name);
    let head = chars_of("lib.");
    let tail = chars_of("d.ts");
    starts_with(chars.as_slice(), head.as_slice()) && ends_with(chars.as_slice(), tail.as_slice())
}

/// The URI of the asset with the given file name.
pub fn asset_uri(name: &str) -> (uri: String)
    ensures
        uri@ == uri_of(name@),
{
    String::from_str("asset:///").concat(name)
}

/// Two file names with one URI are one name.
pub proof fn lemma_uri_injective(a: Seq<char>, b: Seq<char>)
    ensures
        uri_of(a) == uri_of(b) <==> a == b,
{
    let scheme = "asset:///"@;
    assert(uri_of(a).subrange(scheme.len() as int, uri_of(a).len() as int) =~= a);
    assert(uri_of(b).subrange(scheme.len() as int, uri_of(b).len() as int) =~= b);
}

/// The catalogue that a listing of assets stands for: each URI with its
/// path. Of two assets with one URI the later counts.
pub open spec fn listed(assets: Seq<AssetView>) -> Map<Seq<char>, Seq<char>>
    decreases assets.len(),
{
    if assets.len() == 0 {
        Map::empty()
    } else {
        listed(assets.drop_last()).insert(assets.last().uri, assets.last().path)
    }
}

/// The catalogue of a directory: the URI of each library file with the path
/// of that file. Files that are no library files are left out; of two entries
/// with one name the later counts.
pub open spec fn resolved(entries: Seq<DirectoryEntryView>) -> Map<Seq<char>, Seq<char>>
    decreases entries.len(),
{
    if entries.len() == 0 {
        Map::empty()
    } else {
        let earlier = resolved(entries.drop_last());
        let entry = entries.last();
        if is_library_name(entry.file_name) {
            earlier.insert(uri_of(entry.file_name), entry.path)
        } else {
            earlier
        }
    }
}

/// No two of the assets share a URI.
pub open spec fn distinct_uris(assets: Seq<AssetView>) -> bool {
    forall|i: int, j: int|
        0 <= i < assets.len() && 0 <= j < assets.len() && i != j ==> assets[i].uri != assets[j].uri
}

/// What `listed` holds: the URIs of the assets, and for each the path of the
/// asset that has it.
proof fn lemma_listed(assets: Seq<AssetView>)
    requires
        distinct_uris(assets),
    ensures
        listed(assets).dom().finite(),
        listed(assets).dom().len() == assets.len(),
        forall|uri: Seq<char>|
            listed(assets).contains_key(uri) <==> exists|i: int|
                0 <= i < assets.len() && #[trigger] assets[i].uri == uri,
        forall|i: int|
            0 <= i < assets.len() ==> listed(assets).contains_key(#[trigger] assets[i].uri)
                && listed(assets)[assets[i].uri] == assets[i].path,
    decreases assets.len(),
{
    if assets.len() > 0 {
        let front = assets.drop_last();
        let last = assets.last();
        lemma_listed(front);
        assert forall|uri: Seq<char>| listed(assets).contains_key(uri) implies exists|i: int|
            0 <= i < assets.len() && #[trigger] assets[i].uri == uri by {
            if uri == last.uri {
                assert(assets[assets.len() - 1].uri == uri);
            } else {
                let i = choose|i: int| 0 <= i < front.len() && #[trigger] front[i].uri == uri;
                assert(assets[i].uri == uri);
            }
        }
        assert forall|i: int| 0 <= i < assets.len() implies listed(assets).contains_key(
            #[trigger] assets[i].uri,
        ) && listed(assets)[assets[i].uri] == assets[i].path by {
            if i < front.len() {
                assert(front[i] == assets[i]);
                assert(assets[i].uri != assets[assets.len() - 1].uri);
            }
        }
        assert(!listed(front).contains_key(last.uri)) by {
            if listed(front).contains_key(last.uri) {
                let i = choose|i: int| 0 <= i < front.len() && #[trigger] front[i].uri == last.uri;
                assert(assets[i].uri == assets[assets.len() - 1].uri);
            }
        }
    }
}

/// Giving the asset at `at` another path puts that path under its URI.
proof fn lemma_listed_update(assets: Seq<AssetView>, at: int, path: Seq<char>)
    requires
        distinct_uris(assets),
        0 <= at < assets.len(),
    ensures
        distinct_uris(assets.update(at, AssetView { uri: assets[at].uri, path })),
        listed(assets.update(at, AssetView { uri: assets[at].uri, path })) == listed(assets).insert(
            assets[at].uri,
            path,
        ),
{
    let uri = assets[at].uri;
    let after = assets.update(at, AssetView { uri, path });
    assert(distinct_uris(after)) by {
        assert forall|i: int, j: int|
            0 <= i < after.len() && 0 <= j < after.len() && i != j implies after[i].uri
            != after[j].uri by {
            assert(after[i].uri == assets[i].uri);
            assert(after[j].uri == assets[j].uri);
        }
    }
    lemma_listed(assets);
    lemma_listed(after);
    let want = listed(assets).insert(uri, path);
    assert forall|k: Seq<char>| listed(after).contains_key(k) <==> want.contains_key(k) by {
        if listed(after).contains_key(k) {
            let i = choose|i: int| 0 <= i < after.len() && #[trigger] after[i].uri == k;
            assert(assets[i].uri == k);
        }
        if want.contains_key(k) && k != uri {
            let i = choose|i: int| 0 <= i < assets.len() && #[trigger] assets[i].uri == k;
            assert(after[i].uri == k);
        }
        if k == uri {
            assert(after[at].uri == k);
        }
    }
    assert forall|k: Seq<char>| listed(after).contains_key(k) implies listed(after)[k]
        == want[k] by {
        let i = choose|i: int| 0 <= i < after.len() && #[trigger] after[i].uri == k;
        assert(listed(after)[after[i].uri] == after[i].path);
        assert(listed(assets)[assets[i].uri] == assets[i].path);
    }
    assert(listed(after) =~= want);
}

/// No two of the entries share a file name, as in one directory.
pub open spec fn distinct_names(entries: Seq<DirectoryEntryView>) -> bool {
    forall|i: int, j: int|
        0 <= i < entries.len() && 0 <= j < entries.len() && i != j ==> entries[i].file_name
            != entries[j].file_name
}

/// In a directory, where no two files share a name, the catalogue has one
/// URI for each library file and no other: each library file is found under
/// the URI of its name, with its own path, so that loading that URI reads
/// that very file; each URI of the catalogue is that of a library file of
/// the directory; and there are as many URIs as library files.
pub proof fn lemma_one_uri_per_library_file(entries: Seq<DirectoryEntryView>)
    requires
        distinct_names(entries),
    ensures
        forall|i: int|
            0 <= i < entries.len() && is_library_name((#[trigger] entries[i]).file_name)
                ==> resolved(entries).contains_key(uri_of(entries[i].file_name)) && resolved(
                entries,
            )[uri_of(entries[i].file_name)] == entries[i].path,
        forall|uri: Seq<char>|
            resolved(entries).contains_key(uri) ==> exists|i: int|
                0 <= i < entries.len() && is_library_name((#[trigger] entries[i]).file_name) && uri
                    == uri_of(entries[i].file_name),
        resolved(entries).dom().finite(),
        resolved(entries).dom().len() == entries.filter(
            |e: DirectoryEntryView| is_library_name(e.file_name),
        ).len(),
    decreases entries.len(),
{
    reveal(Seq::filter);
    if entries.len() > 0 {
        let front = entries.drop_last();
        let last = entries.last();
        lemma_one_uri_per_library_file(front);
        assert forall|i: int|
            0 <= i < entries.len() && is_library_name(
                (#[trigger] entries[i]).file_name,
            ) implies resolved(entries).contains_key(uri_of(entries[i].file_name)) && resolved(
            entries,
        )[uri_of(entries[i].file_name)] == entries[i].path by {
            if i < front.len() {
                assert(front[i] == entries[i]);
                assert(entries[i].file_name != entries[entries.len() - 1].file_name);
                lemma_uri_injective(entries[i].file_name, last.file_name);
            }
        }
        assert forall|uri: Seq<char>| resolved(entries).contains_key(uri) implies exists|i: int|
            0 <= i < entries.len() && is_library_name((#[trigger] entries[i]).file_name) && uri
                == uri_of(entries[i].file_name) by {
            if is_library_name(last.file_name) && uri == uri_of(last.file_name) {
                assert(entries[entries.len() - 1] == last);
            } else {
                let i = choose|i: int|
                    0 <= i < front.len() && is_library_name((#[trigger] front[i]).file_name) && uri
                        == uri_of(front[i].file_name);
                assert(entries[i] == front[i]);
            }
        }
        if is_library_name(last.file_name) {
            assert(!resolved(front).contains_key(uri_of(last.file_name))) by {
                if resolved(front).contains_key(uri_of(last.file_name)) {
                    let i = choose|i: int|
                        0 <= i < front.len() && is_library_name((#[trigger] front[i]).file_name)
                            && uri_of(last.file_name) == uri_of(front[i].file_name);
                    lemma_uri_injective(last.file_name, front[i].file_name);
                    assert(entries[i].file_name == entries[entries.len() - 1].file_name);
                }
            }
        }
    }
}

/// The assets of one snapshot build: the library files of the asset
/// directory, each found under its URI.
#[derive(Debug)]
pub struct AssetCatalogue {
    assets: Vec<Asset>,
}

impl View for AssetCatalogue {
    type V = Map<Seq<char>, Seq<char>>;

    /// The path of each asset, by URI.
    closed spec fn view(&self) -> Map<Seq<char>, Seq<char>> {
        listed(self.assets.deep_view())
    }
}

impl AssetCatalogue {
    /// Each URI is held once.
    pub closed spec fn wf(&self) -> bool {
        distinct_uris(self.assets.deep_view())
    }

    /// Where the asset with the given URI is held, if it is.
    fn index_of(&self, uri: &str) -> (r: Option<usize>)
        ensures
            match r {
                Some(at) => at < self.assets@.len() && self.assets@[at as int].uri@ == uri@,
                None => forall|i: int| 0 <= i < self.assets@.len() ==> self.assets@[i].uri@ != uri@,
            },
    {
        let mut i: usize = 0;
        while i < self.assets.len()
            invariant
                i <= self.assets@.len(),
                forall|k: int| 0 <= k < i ==> self.assets@[k].uri@ != uri@,
            decreases self.assets@.len() - i,
        {
            if same_text(self.assets[i].uri.as_str(), uri) {
                return Some(i);
            }
            i += 1;
        }
        None
    }

    /// Puts `path` under `uri`, in place of what was there.
    fn insert(&mut self, uri: String, path: String)
        requires
            old(self).wf(),
        ensures
            final(self).wf(),
            final(self)@ == old(self)@.insert(uri@, path@),
    {
        let ghost before = self.assets.deep_view();
        match self.index_of(uri.as_str()) {
            Some(at) => {
                proof {
                    lemma_listed_update(before, at as int, path@);
                }
                self.assets.set(at, Asset { uri, path });
                assert(self.assets.deep_view() =~= before.update(
                    at as int,
                    AssetView { uri: before[at as int].uri, path: path@ },
                ));
            },
            None => {
                let ghost added = AssetView { uri: uri@, path: path@ };
                self.assets.push(Asset { uri, path });
                assert(self.assets.deep_view() =~= before.push(added));
                assert(before.push(added).drop_last() =~= before);
                assert(distinct_uris(before.push(added))) by {
                    assert forall|i: int, j: int|
                        0 <= i < before.len() + 1 && 0 <= j < before.len() + 1 && i != j implies before.push(
                            added,
                        )[i].uri != before.push(added)[j].uri by {
                        if i < before.len() {
                            assert(before[i] == old(self).assets@[i]@);
                        }
                        if j < before.len() {
                            assert(before[j] == old(self).assets@[j]@);
                        }
                    }
                }
            },
        }
    }

    /// The catalogue of the asset directory with the given entries.
    pub fn resolve(entries: &Vec<DirectoryEntry>) -> (r: AssetCatalogue)
        ensures
            r.wf(),
            r@ == resolved(entries.deep_view()),
    {
        let mut catalogue = AssetCatalogue { assets: Vec::new() };
        let ghost all = entries.deep_view();
        let mut i: usize = 0;
        while i < entries.len()
            invariant
                i <= entries@.len(),
                all == entries.deep_view(),
                catalogue.wf(),
                catalogue@ == resolved(all.take(i as int)),
            decreases entries@.len() - i,
        {
            let entry = &entries[i];
            proof {
                assert(all.take(i + 1).drop_last() =~= all.take(i as int));
                assert(all.take(i + 1).last() == entry@);
            }
            if is_library_file(entry.file_name.as_str()) {
                catalogue.insert(asset_uri(entry.file_name.as_str()), entry.path.clone());
            }
            i += 1;
        }
        assert(all.take(i as int) =~= all);
        catalogue
    }

    /// How many assets there are.
    pub fn len(&self) -> (n: usize)
        requires
            self.wf(),
        ensures
            self@.dom().finite(),
            n == self@.dom().len(),
    {
        proof {
            lemma_listed(self.assets.deep_view());
        }
        self.assets.len()
    }

    /// The URIs of the assets, each once, in no promised order.
    pub fn uris(&self) -> (r: Vec<String>)
        requires
            self.wf(),
        ensures
            r.deep_view().no_duplicates(),
            r.deep_view().to_set() == self@.dom(),
    {
        let ghost held = self.assets.deep_view();
        let mut uris: Vec<String> = Vec::new();
        let mut i: usize = 0;
        while i < self.assets.len()
            invariant
                i <= self.assets@.len(),
                held == self.assets.deep_view(),
                uris@.len() == i,
                forall|k: int| 0 <= k < i ==> uris@[k]@ == held[k].uri,
            decreases self.assets@.len() - i,
        {
            uris.push(self.assets[i].uri.clone());
            i += 1;
        }
        proof {
            lemma_listed(held);
            let texts = uris.deep_view();
            assert forall|a: int, b: int|
                0 <= a < texts.len() && 0 <= b < texts.len() && a != b implies texts[a]
                != texts[b] by {
                assert(texts[a] == held[a].uri && texts[b] == held[b].uri);
            }
            assert forall|uri: Seq<char>| texts.to_set().contains(uri) <==> self@.dom().contains(
                uri,
            ) by {
                if texts.to_set().contains(uri) {
                    let k = choose|k: int| 0 <= k < texts.len() && texts[k] == uri;
                    assert(held[k].uri == uri);
                }
                if self@.dom().contains(uri) {
                    let k = choose|k: int| 0 <= k < held.len() && #[trigger] held[k].uri == uri;
                    assert(texts[k] == uri);
                }
            }
            assert(texts.to_set() =~= self@.dom());
        }
        uris
    }

    /// The path of the asset with the given URI, if there is one.
    pub fn path_of(&self, uri: &str) -> (r: Option<&String>)
        requires
            self.wf(),
        ensures
            match r {
                Some(path) => self@.contains_key(uri@) && self@[uri@] == path@,
                None => !self@.contains_key(uri@),
            },
    {
        proof {
            lemma_listed(self.assets.deep_view());
        }
        match self.index_of(uri) {
            Some(at) => {
                assert(self.assets.deep_view()[at as int].uri == uri@);
                Some(&self.assets[at].path)
            },
            None => {
                assert forall|i: int| 0 <= i < self.assets.deep_view().len() implies (
                #[trigger] self.assets.deep_view()[i].uri) != uri@ by {
                    assert(self.assets.deep_view()[i] == self.assets@[i]@);
                }
                None
            },
        }
    }
}

} // verus!
