//! The record of one Arduino library as the interface shows it.
use vstd::prelude::*;

verus! {

/// One Arduino library: what the registry or the local installation says of it,
/// and whether it is installed.
#[derive(Debug, Clone)]
pub struct LibraryInfo {
    pub name: String,
    pub version: String,
    pub author: Option<String>,
    pub sentence: Option<String>,
    pub category: Option<String>,
    pub is_installed: bool,
}

/// The mathematical value of a [`LibraryInfo`]: its strings as sequences of characters.
pub struct LibraryView {
    pub name: Seq<char>,
    pub version: Seq<char>,
    pub author: Option<Seq<char>>,
    pub sentence: Option<Seq<char>>,
    pub category: Option<Seq<char>>,
    pub is_installed: bool,
}

/// The characters of an optional string.
pub open spec fn opt_chars(s: Option<String>) -> Option<Seq<char>> {
    match s {
        Some(t) => Some(t@),
        None => None,
    }
}

impl View for LibraryInfo {
    type V = LibraryView;

    open spec fn view(&self) -> LibraryView {
        LibraryView {
            name: self.name@,
            version: self.version@,
            author: opt_chars(self.author),
            sentence: opt_chars(self.sentence),
            category: opt_chars(self.category),
            is_installed: self.is_installed,
        }
    }
}

/// The views of a list of libraries, in order.
pub open spec fn libraries_view(libs: Seq<LibraryInfo>) -> Seq<LibraryView> {
    libs.map_values(|l: LibraryInfo| l@)
}

/// The view of a list has one library view per library, in the same order.
pub proof fn lemma_libraries_view(libs: Seq<LibraryInfo>)
    ensures
        libraries_view(libs).len() == libs.len(),
        forall|i: int| 0 <= i < libs.len() ==> #[trigger] libraries_view(libs)[i] == libs[i]@,
{
}

/// The newest release of a library as a registry search reports it.
pub struct SearchRelease {
    pub author: Option<String>,
    pub version: String,
    pub sentence: Option<String>,
    pub category: Option<String>,
}

/// One library in the reply to a registry search.
pub struct SearchLibrary {
    pub name: String,
    pub latest: SearchRelease,
}

/// The reply to a registry search.
pub struct SearchResult {
    pub libraries: Vec<SearchLibrary>,
}

/// What the listing of installed libraries says of one library.
pub struct ListLibraryData {
    pub name: String,
    pub version: String,
    pub author: Option<String>,
    pub sentence: Option<String>,
    pub category: Option<String>,
}

/// One entry of the listing of installed libraries.
pub struct ListInstalledLibrary {
    pub library: ListLibraryData,
}

/// The listing of installed libraries; the tool leaves the list out when
/// nothing is installed.
pub struct ListResult {
    pub installed_libraries: Option<Vec<ListInstalledLibrary>>,
}

/// The library that a search entry describes: its newest release, not installed.
pub open spec fn search_entry(l: SearchLibrary) -> LibraryView {
    LibraryView {
        name: l.name@,
        version: l.latest.version@,
        author: opt_chars(l.latest.author),
        sentence: opt_chars(l.latest.sentence),
        category: opt_chars(l.latest.category),
        is_installed: false,
    }
}

/// The library that an entry of the installed listing describes, installed.
pub open spec fn installed_entry(l: ListInstalledLibrary) -> LibraryView {
    LibraryView {
        name: l.library.name@,
        version: l.library.version@,
        author: opt_chars(l.library.author),
        sentence: opt_chars(l.library.sentence),
        category: opt_chars(l.library.category),
        is_installed: true,
    }
}

/// The entries of an installed listing; none when the listing has no list.
pub open spec fn installed_entries(r: ListResult) -> Seq<ListInstalledLibrary> {
    match r.installed_libraries {
        Some(v) => v@,
        None => Seq::empty(),
    }
}

/// The libraries a registry search found, in the order of the reply, each at
/// its newest release and marked as not installed.
pub fn libraries_from_search(result: SearchResult) -> (libs: Vec<LibraryInfo>)
    ensures
        libraries_view(libs@) == result.libraries@.map_values(|l: SearchLibrary| search_entry(l)),
        libs@.len() == result.libraries@.len(),
        forall|i: int|
            0 <= i < libs@.len() ==> {
                let entry = result.libraries@[i];
                &&& (#[trigger] libs@[i]).name == entry.name
                &&& libs@[i].version == entry.latest.version
                &&& libs@[i].author == entry.latest.author
                &&& libs@[i].sentence == entry.latest.sentence
                &&& libs@[i].category == entry.latest.category
                &&& !libs@[i].is_installed
            },
{
    let ghost src = result.libraries@;
    let mut libs: Vec<LibraryInfo> = Vec::new();
    for lib in it: result.libraries.into_iter()
        invariant
            it.seq() == src,
            libraries_view(libs@) == src.take(it.index() as int).map_values(
                |l: SearchLibrary| search_entry(l),
            ),
            libs@.len() == it.index(),
            forall|j: int|
                0 <= j < libs@.len() ==> {
                    &&& (#[trigger] libs@[j]).name == src[j].name
                    &&& libs@[j].version == src[j].latest.version
                    &&& libs@[j].author == src[j].latest.author
                    &&& libs@[j].sentence == src[j].latest.sentence
                    &&& libs@[j].category == src[j].latest.category
                    &&& !libs@[j].is_installed
                },
    {
        let ghost before = libs@;
        let SearchLibrary { name, latest } = lib;
        let SearchRelease { author, version, sentence, category } = latest;
        libs.push(
            LibraryInfo { name, version, author, sentence, category, is_installed: false },
        );
        assert(src.take(it.index() + 1) =~= src.take(it.index() as int).push(src[it.index() as int]));
        assert(libraries_view(libs@) =~= libraries_view(before).push(libs@.last()@));
    }
    assert(src.take(src.len() as int) =~= src);
    libs
}

/// The installed libraries a listing reports, in its order, each marked as
/// installed; no library when the listing has no list.
pub fn libraries_from_list(result: ListResult) -> (libs: Vec<LibraryInfo>)
    ensures
        libraries_view(libs@) == installed_entries(result).map_values(
            |l: ListInstalledLibrary| installed_entry(l),
        ),
        libs@.len() == installed_entries(result).len(),
        forall|i: int|
            0 <= i < libs@.len() ==> {
                let entry = installed_entries(result)[i].library;
                &&& (#[trigger] libs@[i]).name == entry.name
                &&& libs@[i].version == entry.version
                &&& libs@[i].author == entry.author
                &&& libs@[i].sentence == entry.sentence
                &&& libs@[i].category == entry.category
                &&& libs@[i].is_installed
            },
{
    let ghost src = installed_entries(result);
    let installed = match result.installed_libraries {
        Some(v) => v,
        None => Vec::new(),
    };
    let mut libs: Vec<LibraryInfo> = Vec::new();
    for entry in it: installed.into_iter()
        invariant
            it.seq() == src,
            libraries_view(libs@) == src.take(it.index() as int).map_values(
                |l: ListInstalledLibrary| installed_entry(l),
            ),
            libs@.len() == it.index(),
            forall|j: int|
                0 <= j < libs@.len() ==> {
                    &&& (#[trigger] libs@[j]).name == src[j].library.name
                    &&& libs@[j].version == src[j].library.version
                    &&& libs@[j].author == src[j].library.author
                    &&& libs@[j].sentence == src[j].library.sentence
                    &&& libs@[j].category == src[j].library.category
                    &&& libs@[j].is_installed
                },
    {
        let ghost before = libs@;
        let ListLibraryData { name, version, author, sentence, category } = entry.library;
        libs.push(
            LibraryInfo { name, version, author, sentence, category, is_installed: true },
        );
        assert(src.take(it.index() + 1) =~= src.take(it.index() as int).push(src[it.index() as int]));
        assert(libraries_view(libs@) =~= libraries_view(before).push(libs@.last()@));
    }
    assert(src.take(src.len() as int) =~= src);
    libs
}

} // verus!
