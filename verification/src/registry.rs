//! Version registry: which JDK majors the cache root holds, and the Java
//! version that each of them reports.

use vstd::hash_map::StringHashMap;
use vstd::prelude::*;
use vstd::seq_lib::{to_multiset_build, to_multiset_insert, to_multiset_remove};
use vstd::string::*;
use crate::error::{caused, ErrorKind, ErrorText, JdkError};
use crate::paths::{join_path, joined};
use crate::release::{read_release, release_version};
use crate::text::{
    decimal, decimal_text, lemma_decimal_text_distinct, lemma_parse_decimal_text, parse_u8,
    parse_unsigned,
};

verus! {

/// What is known of one directory under the cache root.
pub struct DirFacts {
    /// Whether the completion marker is present in it.
    pub marker: bool,
    /// The text of its `release` file, where there is one that can be read.
    pub release: Option<Seq<char>>,
}

/// The directories under the cache root, by name.
pub type Disk = Map<Seq<char>, DirFacts>;

/// What was found of one directory under the cache root.
#[derive(Debug, PartialEq, Eq)]
pub struct JdkDir {
    /// Whether the completion marker is present in it.
    pub marker: bool,
    /// The text of its `release` file, where there is one that can be read.
    pub release: Option<String>,
}

impl View for JdkDir {
    type V = DirFacts;

    open spec fn view(&self) -> DirFacts {
        DirFacts { marker: self.marker, release: self.release.deep_view() }
    }
}

/// The cache root as it was read: its path and the directories under it, by
/// name.
pub struct Cache {
    /// The path of the cache root.
    pub root: String,
    /// What was found of each directory, by the directory's name.
    pub dirs: StringHashMap<JdkDir>,
}

impl View for Cache {
    type V = Disk;

    open spec fn view(&self) -> Disk {
        self.dirs@.map_values(|dir: JdkDir| dir@)
    }
}

/// The name of the directory that holds the JDK of `major`.
pub open spec fn dir_name(major: u8) -> Seq<char> {
    decimal_text(major as nat)
}

/// The cache root, which holds one directory for each installed JDK, inside
/// the cache directory of the program.
pub open spec fn cache_root_in(cache_dir: Seq<char>) -> Seq<char> {
    joined(cache_dir, "jdks"@)
}

/// The name of the completion marker, an empty file in the directory of an
/// installed JDK.
pub open spec fn marker_name() -> Seq<char> {
    ".jdk_marker"@
}

/// The name of the file in which an unpacked JDK describes itself.
pub open spec fn release_name() -> Seq<char> {
    "release"@
}

/// The JDK major that a directory name stands for, where it stands for one.
pub open spec fn major_of(name: Seq<char>) -> Option<u8> {
    match parse_unsigned(name, 255) {
        Some(v) => Some(v as u8),
        None => None,
    }
}

/// Whether the directory of `major` exists and holds the completion marker.
pub open spec fn marked(disk: Disk, major: u8) -> bool {
    disk.contains_key(dir_name(major)) && disk[dir_name(major)].marker
}

/// The Java version that the installed JDK of `major` reports. There is none
/// where the completion marker is missing, whatever else the directory holds,
/// nor where the `release` file is missing, unreadable or without a version.
pub open spec fn version_of(disk: Disk, major: u8) -> Option<Seq<char>> {
    if marked(disk, major) {
        match disk[dir_name(major)].release {
            Some(text) => release_version(text),
            None => None,
        }
    } else {
        None
    }
}

/// One entry of a directory that was read.
#[derive(Debug, PartialEq, Eq)]
pub enum Entry {
    /// The entry's file name.
    Name(String),
    /// The entry could not be read; the message says why.
    Unreadable(String),
}

/// One entry of a directory, as text.
pub enum EntryText {
    Name(Seq<char>),
    Unreadable(Seq<char>),
}

impl View for Entry {
    type V = EntryText;

    open spec fn view(&self) -> EntryText {
        match self {
            Entry::Name(name) => EntryText::Name(name@),
            Entry::Unreadable(cause) => EntryText::Unreadable(cause@),
        }
    }
}

/// The entries as text, in their order.
pub open spec fn entry_texts(entries: Seq<Entry>) -> Seq<EntryText> {
    Seq::new(entries.len(), |i: int| entries[i]@)
}

/// The outcome of reading a directory.
#[derive(Debug, PartialEq, Eq)]
pub enum Listing {
    /// The directory does not exist.
    Missing,
    /// The directory could not be read; the message says why.
    Failed(String),
    /// The entries of the directory, in the order in which they were read.
    Entries(Vec<Entry>),
}

/// The outcome of reading a directory, as text.
pub enum ListingText {
    Missing,
    Failed(Seq<char>),
    Entries(Seq<EntryText>),
}

impl View for Listing {
    type V = ListingText;

    open spec fn view(&self) -> ListingText {
        match self {
            Listing::Missing => ListingText::Missing,
            Listing::Failed(cause) => ListingText::Failed(cause@),
            Listing::Entries(entries) => ListingText::Entries(entry_texts(entries@)),
        }
    }
}

/// The message of the first entry that could not be read, where there is one.
pub open spec fn first_unreadable(entries: Seq<EntryText>) -> Option<Seq<char>>
    decreases entries.len(),
{
    if entries.len() == 0 {
        None
    } else {
        match entries[0] {
            EntryText::Unreadable(cause) => Some(cause),
            EntryText::Name(_) => first_unreadable(entries.drop_first()),
        }
    }
}

/// The JDK major that an entry names, where it names one.
pub open spec fn entry_major(entry: EntryText) -> Option<u8> {
    match entry {
        EntryText::Name(name) => major_of(name),
        EntryText::Unreadable(_) => None,
    }
}

/// The JDK majors that the entries name, each once, in the order in which
/// they are first named. Entries whose names are no major are passed over.
pub open spec fn majors_among(entries: Seq<EntryText>) -> Seq<u8>
    decreases entries.len(),
{
    if entries.len() == 0 {
        Seq::empty()
    } else {
        let before = majors_among(entries.drop_last());
        match entry_major(entries.last()) {
            Some(major) => if before.contains(major) {
                before
            } else {
                before.push(major)
            },
            None => before,
        }
    }
}

/// Whether one of the entries names `major`.
pub open spec fn names_major(entries: Seq<EntryText>, major: u8) -> bool {
    exists|i: int| 0 <= i < entries.len() && entry_major(#[trigger] entries[i]) == Some(major)
}

/// The majors among the entries are a set: none occurs twice, and a major is
/// among them if and only if one of the entries names it.
pub proof fn lemma_majors_are_a_set(entries: Seq<EntryText>)
    ensures
        majors_among(entries).no_duplicates(),
        forall|major: u8|
            majors_among(entries).contains(major) <==> #[trigger] names_major(entries, major),
    decreases entries.len(),
{
    let majors = majors_among(entries);
    if entries.len() == 0 {
        assert forall|major: u8| majors.contains(major) <==> #[trigger] names_major(
            entries,
            major,
        ) by {}
    } else {
        let rest = entries.drop_last();
        let before = majors_among(rest);
        lemma_majors_are_a_set(rest);
        assert forall|major: u8| majors.contains(major) <==> #[trigger] names_major(
            entries,
            major,
        ) by {
            if names_major(rest, major) {
                let i = choose|i: int|
                    0 <= i < rest.len() && entry_major(#[trigger] rest[i]) == Some(major);
                assert(entries[i] == rest[i]);
                assert(before.contains(major));
                let k = choose|k: int| 0 <= k < before.len() && before[k] == major;
                assert(majors[k] == major);
            }
            if entry_major(entries.last()) == Some(major) {
                assert(entry_major(entries[entries.len() - 1]) == Some(major));
                if !before.contains(major) {
                    assert(majors[before.len() as int] == major);
                }
            }
            if majors.contains(major) {
                let k = choose|k: int| 0 <= k < majors.len() && majors[k] == major;
                if k < before.len() {
                    assert(before[k] == major);
                    assert(before.contains(major));
                    assert(names_major(rest, major));
                    let i = choose|i: int|
                        0 <= i < rest.len() && entry_major(#[trigger] rest[i]) == Some(major);
                    assert(entries[i] == rest[i]);
                } else {
                    assert(entry_major(entries[entries.len() - 1]) == Some(major));
                }
            }
            if names_major(entries, major) && !names_major(rest, major) {
                let i = choose|i: int|
                    0 <= i < entries.len() && entry_major(#[trigger] entries[i]) == Some(major);
                if i < rest.len() {
                    assert(rest[i] == entries[i]);
                }
            }
        }
        assert forall|a: int, b: int| 0 <= a < majors.len() && 0 <= b < majors.len() && a
            != b implies majors[a] != majors[b] by {
            if a < before.len() && b < before.len() {
                assert(majors[a] == before[a] && majors[b] == before[b]);
            } else if a < before.len() {
                assert(before[a] == majors[a]);
                assert(before.contains(majors[a]));
            } else if b < before.len() {
                assert(before[b] == majors[b]);
                assert(before.contains(majors[b]));
            }
        }
    }
}

/// The JDK majors that a reading of the cache root shows, as a set. A cache
/// root that does not exist holds none; any other failure to read it, or one
/// of its entries, is an error.
pub open spec fn listed_majors(listing: ListingText) -> Result<Seq<u8>, ErrorText> {
    match listing {
        ListingText::Missing => Ok(Seq::empty()),
        ListingText::Failed(cause) => Err(caused(ErrorKind::ReadCache, cause)),
        ListingText::Entries(entries) => match first_unreadable(entries) {
            Some(cause) => Err(caused(ErrorKind::ReadCacheEntry, cause)),
            None => Ok(majors_among(entries)),
        },
    }
}

/// The installed JDKs among `majors` with the versions they report, in the
/// order of `majors`.
pub open spec fn available(disk: Disk, majors: Seq<u8>) -> Seq<(u8, Seq<char>)> {
    majors.filter_map(
        |major: u8|
            match version_of(disk, major) {
                Some(version) => Some((major, version)),
                None => None,
            },
    )
}

/// Whether the pairs stand in ascending order of their majors.
pub open spec fn ascending(pairs: Seq<(u8, Seq<char>)>) -> bool {
    forall|i: int, j: int| 0 <= i < j < pairs.len() ==> pairs[i].0 <= pairs[j].0
}

/// A directory is reported as an installed JDK only if it holds the
/// completion marker: without the marker it is not installed, whatever else
/// it holds, and no listing shows it.
pub proof fn lemma_unmarked_is_not_installed(disk: Disk, majors: Seq<u8>, major: u8)
    requires
        !marked(disk, major),
    ensures
        version_of(disk, major) is None,
        forall|version: Seq<char>| !available(disk, majors).contains((major, version)),
{
    assert forall|version: Seq<char>| !available(disk, majors).contains((major, version)) by {
        lemma_available_members(disk, majors, major, version);
    }
}

/// Where the `release` file of a directory gives a Java version, the
/// directory is reported as an installed JDK if and only if it holds the
/// completion marker.
pub proof fn lemma_marker_decides_installed(disk: Disk, major: u8)
    requires
        disk.contains_key(dir_name(major)),
        disk[dir_name(major)].release matches Some(text) && release_version(text) is Some,
    ensures
        version_of(disk, major) is Some <==> disk[dir_name(major)].marker,
{
}

/// A listing shows a major with a version exactly where the major was asked
/// for and its installed JDK reports that version.
pub proof fn lemma_available_members(
    disk: Disk,
    majors: Seq<u8>,
    major: u8,
    version: Seq<char>,
)
    ensures
        available(disk, majors).contains((major, version)) <==> (majors.contains(major)
            && version_of(disk, major) == Some(version)),
    decreases majors.len(),
{
    let pair = (major, version);
    if majors.len() > 0 {
        let rest = majors.drop_last();
        let last = majors.last();
        lemma_available_members(disk, rest, major, version);
        let shown = available(disk, rest);
        if majors.contains(major) && !rest.contains(major) {
            let k = choose|k: int| 0 <= k < majors.len() && majors[k] == major;
            if k < rest.len() {
                assert(rest[k] == major);
            }
            assert(last == major);
        }
        if rest.contains(major) {
            let k = choose|k: int| 0 <= k < rest.len() && rest[k] == major;
            assert(majors[k] == major);
        }
        match version_of(disk, last) {
            Some(found) => {
                let whole = shown + seq![(last, found)];
                assert(available(disk, majors) == whole);
                if shown.contains(pair) {
                    let k = choose|k: int| 0 <= k < shown.len() && shown[k] == pair;
                    assert(whole[k] == pair);
                }
                if (last, found) == pair {
                    assert(whole[shown.len() as int] == pair);
                    assert(majors[majors.len() - 1] == major);
                }
                if whole.contains(pair) {
                    let k = choose|k: int| 0 <= k < whole.len() && whole[k] == pair;
                    if k < shown.len() {
                        assert(shown[k] == pair);
                    }
                }
            },
            None => {
                assert(available(disk, majors) == shown);
            },
        }
    }
}

/// Whether pairs of the same major are the same pair.
pub open spec fn one_version_each(pairs: Seq<(u8, Seq<char>)>) -> bool {
    forall|i: int, j: int|
        0 <= i < pairs.len() && 0 <= j < pairs.len() && pairs[i].0 == pairs[j].0 ==> pairs[i]
            == pairs[j]
}

/// Two ascending sequences of the same pairs, each major with one version,
/// are the same sequence.
pub proof fn lemma_ascending_is_unique(a: Seq<(u8, Seq<char>)>, b: Seq<(u8, Seq<char>)>)
    requires
        ascending(a),
        ascending(b),
        one_version_each(a),
        a.to_multiset() == b.to_multiset(),
    ensures
        a == b,
    decreases a.len(),
{
    a.to_multiset_ensures();
    b.to_multiset_ensures();
    if a.len() == 0 {
        assert(a =~= b);
    } else {
        assert(a.contains(a[0]));
        assert(b.contains(b[0]));
        assert(b.to_multiset().count(a[0]) > 0);
        assert(a.to_multiset().count(b[0]) > 0);
        let j = choose|j: int| 0 <= j < a.len() && a[j] == b[0];
        let k = choose|k: int| 0 <= k < b.len() && b[k] == a[0];
        assert(a[0].0 <= a[j].0);
        assert(b[0].0 <= b[k].0);
        assert(a[0] == b[0]);
        let rest_a = a.drop_first();
        let rest_b = b.drop_first();
        assert(rest_a =~= a.remove(0));
        assert(rest_b =~= b.remove(0));
        to_multiset_remove(a, 0);
        to_multiset_remove(b, 0);
        assert(ascending(rest_a)) by {
            assert forall|x: int, y: int| 0 <= x < y < rest_a.len() implies rest_a[x].0
                <= rest_a[y].0 by {
                assert(rest_a[x] == a[x + 1] && rest_a[y] == a[y + 1]);
            }
        }
        assert(ascending(rest_b)) by {
            assert forall|x: int, y: int| 0 <= x < y < rest_b.len() implies rest_b[x].0
                <= rest_b[y].0 by {
                assert(rest_b[x] == b[x + 1] && rest_b[y] == b[y + 1]);
            }
        }
        assert(one_version_each(rest_a)) by {
            assert forall|x: int, y: int|
                0 <= x < rest_a.len() && 0 <= y < rest_a.len() && rest_a[x].0
                    == rest_a[y].0 implies rest_a[x] == rest_a[y] by {
                assert(rest_a[x] == a[x + 1] && rest_a[y] == a[y + 1]);
            }
        }
        lemma_ascending_is_unique(rest_a, rest_b);
        assert(a =~= seq![a[0]] + rest_a);
        assert(b =~= seq![b[0]] + rest_b);
    }
}

/// The listing of the installed JDKs is determined: any two ascending
/// sequences that hold the available pairs, each as often as it is
/// available, are the same sequence.
pub proof fn lemma_listing_is_determined(
    disk: Disk,
    majors: Seq<u8>,
    a: Seq<(u8, Seq<char>)>,
    b: Seq<(u8, Seq<char>)>,
)
    requires
        ascending(a),
        ascending(b),
        a.to_multiset() == available(disk, majors).to_multiset(),
        b.to_multiset() == available(disk, majors).to_multiset(),
    ensures
        a == b,
{
    let shown = available(disk, majors);
    a.to_multiset_ensures();
    shown.to_multiset_ensures();
    assert forall|i: int, j: int|
        0 <= i < a.len() && 0 <= j < a.len() && a[i].0 == a[j].0 implies a[i] == a[j] by {
        assert(a.contains(a[i]));
        assert(a.contains(a[j]));
        assert(shown.to_multiset().count(a[i]) > 0);
        assert(shown.to_multiset().count(a[j]) > 0);
        lemma_available_members(disk, majors, a[i].0, a[i].1);
        lemma_available_members(disk, majors, a[j].0, a[j].1);
    }
    lemma_ascending_is_unique(a, b);
}

/// The directory of a major is named by the major's number, which reads back
/// as that major; different majors have different directories.
pub proof fn lemma_dir_names(a: u8, b: u8)
    ensures
        major_of(dir_name(a)) == Some(a),
        a != b ==> dir_name(a) != dir_name(b),
{
    lemma_parse_decimal_text(a as nat, 255);
    if a != b {
        lemma_decimal_text_distinct(a as nat, b as nat);
    }
}

impl Cache {
    /// The cache root at `root`, without directories.
    pub fn new(root: String) -> (r: Cache)
        ensures
            r.root == root,
            r@ == Map::<Seq<char>, DirFacts>::empty(),
    {
        let r = Cache { root, dirs: StringHashMap::new() };
        assert(r@ =~= Map::<Seq<char>, DirFacts>::empty());
        r
    }

    /// Records what was found of the directory `name`, in place of what was
    /// recorded of it before.
    pub fn record(&mut self, name: String, marker: bool, release: Option<String>)
        ensures
            final(self).root == old(self).root,
            final(self)@ == old(self)@.insert(
                name@,
                DirFacts { marker, release: release.deep_view() },
            ),
    {
        let dir = JdkDir { marker, release };
        self.dirs.insert(name, dir);
        assert(self@ =~= old(self)@.insert(name@, dir@));
    }
}

/// The path of the cache root inside the cache directory of the program.
pub fn cache_root(cache_dir: &str) -> (r: String)
    ensures
        r@ == cache_root_in(cache_dir@),
{
    join_path(cache_dir, "jdks")
}

/// The path of the completion marker of the JDK directory at `dir`.
pub fn marker_path(dir: &str) -> (r: String)
    ensures
        r@ == joined(dir@, marker_name()),
{
    join_path(dir, ".jdk_marker")
}

/// The path of the `release` file of the JDK directory at `dir`.
pub fn release_path(dir: &str) -> (r: String)
    ensures
        r@ == joined(dir@, release_name()),
{
    join_path(dir, "release")
}

/// The Java version that the installed JDK of `major` reports, or `None`
/// where no usable JDK of that major is installed.
pub fn get_jdk_version(cache: &Cache, major: u8) -> (r: Option<String>)
    ensures
        r.deep_view() == version_of(cache@, major),
{
    let name: String = decimal(major);
    match cache.dirs.get(name.as_str()) {
        None => None,
        Some(dir) => {
            if !dir.marker {
                return None;
            }
            match &dir.release {
                None => None,
                Some(text) => read_release(text.as_str()),
            }
        },
    }
}

/// The JDK major that a directory name stands for, where it stands for one.
pub fn parse_major(name: &str) -> (r: Option<u8>)
    ensures
        r == major_of(name@),
{
    parse_u8(name)
}

/// Whether `major` is among `majors`.
fn holds_major(majors: &Vec<u8>, major: u8) -> (r: bool)
    ensures
        r == majors@.contains(major),
{
    let mut i: usize = 0;
    while i < majors.len()
        invariant
            i <= majors.len(),
            forall|k: int| 0 <= k < i ==> majors@[k] != major,
        decreases majors.len() - i,
    {
        if majors[i] == major {
            return true;
        }
        i = i + 1;
    }
    false
}

/// The JDK majors that a reading of the cache root shows: each major that
/// some entry names, once, in the order in which the entries first name it.
pub fn get_all_jdk_majors(listing: &Listing) -> (r: Result<Vec<u8>, JdkError>)
    ensures
        match r {
            Ok(majors) => listed_majors(listing@) == Ok::<Seq<u8>, ErrorText>(majors@),
            Err(e) => listed_majors(listing@) == Err::<Seq<u8>, ErrorText>(e@),
        },
        r matches Ok(majors) ==> majors@.no_duplicates(),
        r matches Ok(majors) ==> (listing@ matches ListingText::Entries(entries) ==> forall|
            major: u8,
        |
            majors@.contains(major) <==> #[trigger] names_major(entries, major)),
{
    match listing {
        Listing::Missing => {
            let majors: Vec<u8> = Vec::new();
            assert(majors@.no_duplicates());
            Ok(majors)
        },
        Listing::Failed(cause) => Err(JdkError::with_cause(ErrorKind::ReadCache, cause.as_str())),
        Listing::Entries(entries) => {
            let ghost texts: Seq<EntryText> = entry_texts(entries@);
            let mut majors: Vec<u8> = Vec::new();
            let mut i: usize = 0;
            assert(texts.skip(0) =~= texts);
            assert(texts.take(0) =~= Seq::<EntryText>::empty());
            while i < entries.len()
                invariant
                    i <= entries.len(),
                    listing@ == ListingText::Entries(texts),
                    texts.len() == entries@.len(),
                    forall|k: int| 0 <= k < texts.len() ==> texts[k] == entries@[k]@,
                    first_unreadable(texts) == first_unreadable(texts.skip(i as int)),
                    majors@ == majors_among(texts.take(i as int)),
                decreases entries.len() - i,
            {
                let ghost rest: Seq<EntryText> = texts.skip(i as int);
                assert(rest[0] == texts[i as int]);
                assert(rest.drop_first() =~= texts.skip(i + 1));
                assert(texts.take(i + 1).drop_last() =~= texts.take(i as int));
                match &entries[i] {
                    Entry::Unreadable(cause) => {
                        return Err(
                            JdkError::with_cause(ErrorKind::ReadCacheEntry, cause.as_str()),
                        );
                    },
                    Entry::Name(name) => {
                        match parse_major(name.as_str()) {
                            Some(major) => {
                                if !holds_major(&majors, major) {
                                    majors.push(major);
                                }
                            },
                            None => {},
                        }
                    },
                }
                i = i + 1;
            }
            assert(texts.take(i as int) =~= texts);
            assert(texts.skip(i as int) =~= Seq::<EntryText>::empty());
            proof {
                lemma_majors_are_a_set(texts);
            }
            Ok(majors)
        },
    }
}

/// The installed JDKs among `majors`, each with the version it reports, in
/// ascending order of the majors.
pub fn map_available_jdk_versions(cache: &Cache, majors: &Vec<u8>) -> (r: Vec<(u8, String)>)
    ensures
        ascending(r.deep_view()),
        r.deep_view().to_multiset() == available(cache@, majors@).to_multiset(),
        r@.len() == available(cache@, majors@).len(),
        forall|i: int|
            0 <= i < r@.len() ==> available(cache@, majors@).contains(#[trigger] r.deep_view()[i]),
{
    let mut out: Vec<(u8, String)> = Vec::new();
    let mut i: usize = 0;
    assert(majors@.take(0) =~= Seq::<u8>::empty());
    assert(out.deep_view() =~= available(cache@, majors@.take(0)));
    while i < majors.len()
        invariant
            i <= majors.len(),
            ascending(out.deep_view()),
            out.deep_view().to_multiset() == available(
                cache@,
                majors@.take(i as int),
            ).to_multiset(),
        decreases majors.len() - i,
    {
        let major: u8 = majors[i];
        let ghost seen: Seq<(u8, Seq<char>)> = available(cache@, majors@.take(i as int));
        let ghost next: Seq<u8> = majors@.take(i + 1);
        assert(next.drop_last() =~= majors@.take(i as int));
        assert(next.last() == major);
        match get_jdk_version(cache, major) {
            None => {
                assert(available(cache@, next) == seen);
            },
            Some(version) => {
                let mut at: usize = 0;
                while at < out.len() && out[at].0 <= major
                    invariant
                        at <= out.len(),
                        forall|k: int| 0 <= k < at ==> out@[k].0 <= major,
                    decreases out.len() - at,
                {
                    at = at + 1;
                }
                let ghost before: Seq<(u8, Seq<char>)> = out.deep_view();
                let ghost pair: (u8, Seq<char>) = (major, version@);
                out.insert(at, (major, version));
                proof {
                    let after = out.deep_view();
                    assert(after =~= before.insert(at as int, pair));
                    to_multiset_insert(before, at as int, pair);
                    assert(available(cache@, next) =~= seen.push(pair));
                    to_multiset_build(seen, pair);
                    assert forall|a: int, b: int| 0 <= a < b < after.len() implies after[a].0
                        <= after[b].0 by {
                        if b < at {
                            assert(after[a] == before[a] && after[b] == before[b]);
                        } else if b == at {
                            assert(after[a] == before[a]);
                        } else if a < at {
                            assert(after[a] == before[a] && after[b] == before[b - 1]);
                        } else if a == at {
                            assert(after[b] == before[b - 1]);
                            assert(before[at as int].0 > major);
                            assert(before[at as int].0 <= before[b - 1].0);
                        } else {
                            assert(after[a] == before[a - 1] && after[b] == before[b - 1]);
                        }
                    }
                }
            },
        }
        i = i + 1;
    }
    assert(majors@.take(i as int) =~= majors@);
    proof {
        let listed = out.deep_view();
        let shown = available(cache@, majors@);
        listed.to_multiset_ensures();
        shown.to_multiset_ensures();
        assert forall|k: int| 0 <= k < listed.len() implies shown.contains(
            #[trigger] listed[k],
        ) by {
            assert(listed.contains(listed[k]));
            assert(listed.to_multiset().count(listed[k]) > 0);
            assert(shown.to_multiset().count(listed[k]) > 0);
        }
        assert(listed.len() == shown.len());
    }
    out
}

} // verus!
