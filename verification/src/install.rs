//! Download and extraction pipeline: the steps that turn a remote archive
//! into an installed JDK, as a machine that is told the outcome of each step
//! and says which step comes next. The completion marker is written last.

use vstd::prelude::*;
use vstd::string::*;
use crate::error::{ErrorKind, ErrorText, JdkError};
use crate::paths::{join_path, joined};
use crate::registry::{
    dir_name, entry_texts, first_unreadable, marked, marker_name, marker_path, Cache, Disk, Entry,
    EntryText, Listing, ListingText,
};
use crate::text::{decimal, ends_with, parse_u64, parse_unsigned, same_text, starts_with};

verus! {

/// The prefix of the name of a staging directory. A name that begins so is
/// the name of no major, so the registry passes a staging directory over.
pub const STAGING_PREFIX: &'static str = "jdk-download";

/// The platform whose layout of an unpacked JDK applies.
#[derive(Clone, Copy, Debug, PartialEq, Eq, Structural)]
pub enum Platform {
    /// The JDK lies in `Contents/Home` inside the archive's top-level folder.
    MacOs,
    /// The JDK lies in the archive's top-level folder.
    Other,
}

/// What the answer of the archive catalog says of the file's name.
#[derive(Debug, PartialEq, Eq)]
pub enum Disposition {
    /// The answer has no `Content-Disposition` header.
    Absent,
    /// The header holds no file name that can be read; the message says why.
    Unreadable(String),
    /// The file name that the header gives.
    FileName(String),
}

/// `Disposition` as text.
pub enum DispositionText {
    Absent,
    Unreadable(Seq<char>),
    FileName(Seq<char>),
}

impl View for Disposition {
    type V = DispositionText;

    open spec fn view(&self) -> DispositionText {
        match self {
            Disposition::Absent => DispositionText::Absent,
            Disposition::Unreadable(cause) => DispositionText::Unreadable(cause@),
            Disposition::FileName(name) => DispositionText::FileName(name@),
        }
    }
}

/// The answer of the archive catalog, without its body.
#[derive(Debug, PartialEq, Eq)]
pub struct Response {
    /// Whether the status reports success.
    pub success: bool,
    /// What the answer says of the file's name.
    pub disposition: Disposition,
    /// The `Content-Length` header, where there is one that is text.
    pub content_length: Option<String>,
}

/// `Response` as text.
pub struct ResponseText {
    pub success: bool,
    pub disposition: DispositionText,
    pub content_length: Option<Seq<char>>,
}

impl View for Response {
    type V = ResponseText;

    open spec fn view(&self) -> ResponseText {
        ResponseText {
            success: self.success,
            disposition: self.disposition@,
            content_length: self.content_length.deep_view(),
        }
    }
}

/// The directory of the staged tree that becomes the install directory.
#[derive(Debug, PartialEq, Eq)]
pub enum InstallRoot {
    /// The staging directory itself.
    Staging,
    /// The one visible top-level entry of the staging directory.
    Entry(String),
    /// `Contents/Home` inside the one visible top-level entry.
    EntryHome(String),
}

/// `InstallRoot` as text.
pub enum RootText {
    Staging,
    Entry(Seq<char>),
    EntryHome(Seq<char>),
}

impl View for InstallRoot {
    type V = RootText;

    open spec fn view(&self) -> RootText {
        match self {
            InstallRoot::Staging => RootText::Staging,
            InstallRoot::Entry(name) => RootText::Entry(name@),
            InstallRoot::EntryHome(name) => RootText::EntryHome(name@),
        }
    }
}

/// Where the JDK of a major lies, and whether it is installed there.
#[derive(Debug, PartialEq, Eq)]
pub enum Resolution {
    /// The JDK is installed in this directory.
    Installed(String),
    /// No JDK is installed in this directory yet: `update_jdk` installs it.
    Absent(String),
}

/// `Resolution` as text.
pub enum ResolutionText {
    Installed(Seq<char>),
    Absent(Seq<char>),
}

impl View for Resolution {
    type V = ResolutionText;

    open spec fn view(&self) -> ResolutionText {
        match self {
            Resolution::Installed(path) => ResolutionText::Installed(path@),
            Resolution::Absent(path) => ResolutionText::Absent(path@),
        }
    }
}

/// What the machine waits for.
#[derive(Clone, Copy, Debug, PartialEq, Eq, Structural)]
pub enum Phase {
    /// The answer of the archive catalog.
    Fetching,
    /// Whether a former attempt left an install directory.
    CheckingInstallDir,
    /// The removal of what a former attempt left.
    RemovingInstallDir,
    /// The creation of the install directory.
    CreatingInstallDir,
    /// The creation of the staging directory.
    CreatingStaging,
    /// The unpacking of the archive into the staging directory.
    Unpacking,
    /// The top-level entries of the staging directory.
    Listing,
    /// The move of the staged tree to the install directory.
    Promoting,
    /// The writing of the completion marker.
    WritingMarker,
    /// Whether the staging directory is still there.
    CheckingStaging,
    /// The removal of the staging directory.
    RemovingStaging,
    /// Nothing: the attempt is over.
    Finished,
}

/// The outcome of the step that was asked for, of an install or of an
/// activation.
#[derive(Debug, PartialEq, Eq)]
pub enum Event {
    /// The archive catalog answered.
    Fetched(Response),
    /// Whether the directory that was asked about exists.
    Exists(bool),
    /// What reading the staging directory gave.
    Listed(Listing),
    /// The step was carried out.
    Done,
    /// The step failed; the message says why.
    Failed(String),
}

/// `Event` as text.
pub enum EventText {
    Fetched(ResponseText),
    Exists(bool),
    Listed(ListingText),
    Done,
    Failed(Seq<char>),
}

impl View for Event {
    type V = EventText;

    open spec fn view(&self) -> EventText {
        match self {
            Event::Fetched(response) => EventText::Fetched(response@),
            Event::Exists(found) => EventText::Exists(*found),
            Event::Listed(listing) => EventText::Listed(listing@),
            Event::Done => EventText::Done,
            Event::Failed(cause) => EventText::Failed(cause@),
        }
    }
}

/// The step that the holder of the machine carries out next. The install
/// directory is the machine's `path`; the staging directory is the holder's.
#[derive(Debug, PartialEq, Eq)]
pub enum Action {
    /// Ask the archive catalog for the latest archive of the major.
    Fetch,
    /// Find out whether the install directory exists.
    CheckInstallDir,
    /// Remove the install directory with all that it holds.
    RemoveInstallDir,
    /// Create the install directory and the directories above it.
    CreateInstallDir,
    /// Create a fresh staging directory inside the cache root, under a name
    /// that begins with `STAGING_PREFIX`.
    CreateStaging,
    /// Unpack the body of the answer into the staging directory.
    Unpack { archive: String, expected_size: Option<u64> },
    /// Read the top-level entries of the staging directory.
    ListStaging,
    /// Move the given directory of the staged tree to the install directory.
    Promote(InstallRoot),
    /// Create the empty completion marker in the install directory.
    WriteMarker,
    /// Find out whether the staging directory still exists.
    CheckStaging,
    /// Remove the staging directory.
    RemoveStaging,
    /// Stop, with this result. A staging directory that is left is removed.
    Finish(Result<(), JdkError>),
}

/// `Action` as text.
pub enum ActionText {
    Fetch,
    CheckInstallDir,
    RemoveInstallDir,
    CreateInstallDir,
    CreateStaging,
    Unpack { archive: Seq<char>, expected_size: Option<u64> },
    ListStaging,
    Promote(RootText),
    WriteMarker,
    CheckStaging,
    RemoveStaging,
    Finish(Result<(), ErrorText>),
}

impl View for Action {
    type V = ActionText;

    open spec fn view(&self) -> ActionText {
        match self {
            Action::Fetch => ActionText::Fetch,
            Action::CheckInstallDir => ActionText::CheckInstallDir,
            Action::RemoveInstallDir => ActionText::RemoveInstallDir,
            Action::CreateInstallDir => ActionText::CreateInstallDir,
            Action::CreateStaging => ActionText::CreateStaging,
            Action::Unpack { archive, expected_size } => ActionText::Unpack {
                archive: archive@,
                expected_size: *expected_size,
            },
            Action::ListStaging => ActionText::ListStaging,
            Action::Promote(root) => ActionText::Promote(root@),
            Action::WriteMarker => ActionText::WriteMarker,
            Action::CheckStaging => ActionText::CheckStaging,
            Action::RemoveStaging => ActionText::RemoveStaging,
            Action::Finish(Ok(())) => ActionText::Finish(Ok(())),
            Action::Finish(Err(e)) => ActionText::Finish(Err(e@)),
        }
    }
}

/// One attempt to install the JDK of a major.
#[derive(Debug, PartialEq, Eq)]
pub struct Install {
    /// The major that is installed.
    pub major: u8,
    /// The install directory.
    pub path: String,
    /// The platform whose layout applies.
    pub platform: Platform,
    /// What the machine waits for.
    pub phase: Phase,
    /// The archive's file name, once the catalog has answered.
    pub archive: String,
    /// The archive's size in bytes, where the catalog gave it.
    pub expected_size: Option<u64>,
}

/// `Install` as text.
pub struct InstallText {
    pub major: u8,
    pub path: Seq<char>,
    pub platform: Platform,
    pub phase: Phase,
    pub archive: Seq<char>,
    pub expected_size: Option<u64>,
}

impl View for Install {
    type V = InstallText;

    open spec fn view(&self) -> InstallText {
        InstallText {
            major: self.major,
            path: self.path@,
            platform: self.platform,
            phase: self.phase,
            archive: self.archive@,
            expected_size: self.expected_size,
        }
    }
}

/// The path of the install directory of `major` under the cache root.
pub open spec fn install_path(root: Seq<char>, major: u8) -> Seq<char> {
    joined(root, dir_name(major))
}

/// Where the JDK of `major` lies under the cache root. It counts as installed
/// if and only if its directory holds the completion marker.
pub open spec fn resolved(disk: Disk, root: Seq<char>, major: u8) -> ResolutionText {
    if marked(disk, major) {
        ResolutionText::Installed(install_path(root, major))
    } else {
        ResolutionText::Absent(install_path(root, major))
    }
}

/// The directory of the installed JDK, once `get_jdk_path` has answered and
/// the install that it asked for has ended as `outcome` says: the path where
/// the JDK was installed already or the install succeeded, else the failure
/// of the install. Without an install, a JDK that was absent stays absent.
pub open spec fn ensured(
    resolution: ResolutionText,
    outcome: Option<Result<(), ErrorText>>,
) -> Result<Seq<char>, ErrorText> {
    match resolution {
        ResolutionText::Installed(path) => Ok(path),
        ResolutionText::Absent(path) => match outcome {
            Some(Ok(())) => Ok(path),
            Some(Err(e)) => Err(e),
            None => Err(
                ErrorText { kind: ErrorKind::NotInstalled, subject: path, cause: Seq::empty() },
            ),
        },
    }
}

/// The platform that an operating system of this name stands for.
pub open spec fn platform_named(os: Seq<char>) -> Platform {
    if os == "macos"@ {
        Platform::MacOs
    } else {
        Platform::Other
    }
}

/// Whether an archive of this file name can be unpacked: only gzip-compressed
/// tar archives can, and they are known by their suffix alone.
pub open spec fn supported(archive: Seq<char>) -> bool {
    ".tar.gz"@.is_suffix_of(archive)
}

/// The size in bytes that a `Content-Length` header gives, where there is a
/// header and it is a number.
pub open spec fn expected_size(content_length: Option<Seq<char>>) -> Option<u64> {
    match content_length {
        Some(text) => match parse_unsigned(text, u64::MAX as nat) {
            Some(size) => Some(size as u64),
            None => None,
        },
        None => None,
    }
}

/// Whether an entry is hidden: its name begins with a dot.
pub open spec fn hidden(name: Seq<char>) -> bool {
    name.len() > 0 && name[0] == '.'
}

/// The names of the entries, in their order.
pub open spec fn entry_names(entries: Seq<EntryText>) -> Seq<Seq<char>> {
    entries.filter_map(
        |entry: EntryText|
            match entry {
                EntryText::Name(name) => Some(name),
                EntryText::Unreadable(_) => None,
            },
    )
}

/// The names that are not hidden, in their order.
pub open spec fn visible(names: Seq<Seq<char>>) -> Seq<Seq<char>> {
    names.filter(|name: Seq<char>| !hidden(name))
}

/// The directory of the staged tree that holds the JDK. Where the staging
/// directory has exactly one visible top-level entry, it is that entry, or
/// `Contents/Home` inside it on the platform that nests the JDK so; with no
/// visible entry or with several, it is the staging directory itself.
pub open spec fn install_root(names: Seq<Seq<char>>, platform: Platform) -> RootText {
    let shown = visible(names);
    if shown.len() == 1 {
        match platform {
            Platform::MacOs => RootText::EntryHome(shown[0]),
            Platform::Other => RootText::Entry(shown[0]),
        }
    } else {
        RootText::Staging
    }
}

/// The path of an install root inside the staging directory.
pub open spec fn root_path(staging: Seq<char>, root: RootText) -> Seq<char> {
    match root {
        RootText::Staging => staging,
        RootText::Entry(name) => joined(staging, name),
        RootText::EntryHome(name) => joined(joined(staging, name), "Contents/Home"@),
    }
}

/// The machine stopped with a failure.
pub open spec fn failed(
    state: InstallText,
    kind: ErrorKind,
    subject: Seq<char>,
    cause: Seq<char>,
) -> (InstallText, ActionText) {
    (
        InstallText { phase: Phase::Finished, ..state },
        ActionText::Finish(Err(ErrorText { kind, subject, cause })),
    )
}

/// The machine goes on to `phase` and asks for `action`.
pub open spec fn proceed(state: InstallText, phase: Phase, action: ActionText) -> (
    InstallText,
    ActionText,
) {
    (InstallText { phase, ..state }, action)
}

/// What the machine does once the catalog has answered: it stops unless the
/// answer reports success and names a gzip-compressed tar archive.
pub open spec fn after_fetch(state: InstallText, response: ResponseText) -> (
    InstallText,
    ActionText,
) {
    if !response.success {
        failed(state, ErrorKind::BadResponse, Seq::empty(), Seq::empty())
    } else {
        match response.disposition {
            DispositionText::Absent => failed(
                state,
                ErrorKind::NoContentDisposition,
                Seq::empty(),
                Seq::empty(),
            ),
            DispositionText::Unreadable(cause) => failed(
                state,
                ErrorKind::BadFileName,
                Seq::empty(),
                cause,
            ),
            DispositionText::FileName(name) => if supported(name) {
                (
                    InstallText {
                        phase: Phase::CheckingInstallDir,
                        archive: name,
                        expected_size: expected_size(response.content_length),
                        ..state
                    },
                    ActionText::CheckInstallDir,
                )
            } else {
                failed(state, ErrorKind::UnsupportedArchive, name, Seq::empty())
            },
        }
    }
}

/// What the machine does once the staging directory has been read.
pub open spec fn after_listing(state: InstallText, listing: ListingText) -> (
    InstallText,
    ActionText,
) {
    match listing {
        ListingText::Missing => failed(state, ErrorKind::ReadStaging, Seq::empty(), Seq::empty()),
        ListingText::Failed(cause) => failed(state, ErrorKind::ReadStaging, Seq::empty(), cause),
        ListingText::Entries(entries) => match first_unreadable(entries) {
            Some(cause) => failed(state, ErrorKind::ReadStagingEntry, Seq::empty(), cause),
            None => proceed(
                state,
                Phase::Promoting,
                ActionText::Promote(install_root(entry_names(entries), state.platform)),
            ),
        },
    }
}

/// Whether the phase belongs to the first half of an attempt, up to the
/// creation of the staging directory.
pub open spec fn first_half(phase: Phase) -> bool {
    phase == Phase::Fetching || phase == Phase::CheckingInstallDir || phase
        == Phase::RemovingInstallDir || phase == Phase::CreatingInstallDir || phase
        == Phase::CreatingStaging
}

/// Whether the phase belongs to the second half of an attempt, from the
/// unpacking on.
pub open spec fn second_half(phase: Phase) -> bool {
    phase == Phase::Unpacking || phase == Phase::Listing || phase == Phase::Promoting || phase
        == Phase::WritingMarker || phase == Phase::CheckingStaging || phase
        == Phase::RemovingStaging
}

/// The machine's rule: the state and the step that follow on `event`.
pub open spec fn step(state: InstallText, event: EventText) -> (InstallText, ActionText) {
    let unexpected = failed(state, ErrorKind::UnexpectedEvent, Seq::empty(), Seq::empty());
    match state.phase {
        Phase::Fetching => match event {
            EventText::Fetched(response) => after_fetch(state, response),
            EventText::Failed(cause) => failed(state, ErrorKind::Fetch, Seq::empty(), cause),
            _ => unexpected,
        },
        Phase::CheckingInstallDir => match event {
            EventText::Exists(true) => proceed(
                state,
                Phase::RemovingInstallDir,
                ActionText::RemoveInstallDir,
            ),
            EventText::Exists(false) => proceed(
                state,
                Phase::CreatingInstallDir,
                ActionText::CreateInstallDir,
            ),
            _ => unexpected,
        },
        Phase::RemovingInstallDir => match event {
            EventText::Done => proceed(
                state,
                Phase::CreatingInstallDir,
                ActionText::CreateInstallDir,
            ),
            EventText::Failed(cause) => failed(
                state,
                ErrorKind::CleanInstallDir,
                state.path,
                cause,
            ),
            _ => unexpected,
        },
        Phase::CreatingInstallDir => match event {
            EventText::Done => proceed(state, Phase::CreatingStaging, ActionText::CreateStaging),
            EventText::Failed(cause) => failed(
                state,
                ErrorKind::CreateInstallDir,
                state.path,
                cause,
            ),
            _ => unexpected,
        },
        Phase::CreatingStaging => match event {
            EventText::Done => proceed(
                state,
                Phase::Unpacking,
                ActionText::Unpack { archive: state.archive, expected_size: state.expected_size },
            ),
            EventText::Failed(cause) => failed(
                state,
                ErrorKind::CreateStaging,
                Seq::empty(),
                cause,
            ),
            _ => unexpected,
        },
        Phase::Unpacking => match event {
            EventText::Done => proceed(state, Phase::Listing, ActionText::ListStaging),
            EventText::Failed(cause) => failed(state, ErrorKind::Unpack, state.archive, cause),
            _ => unexpected,
        },
        Phase::Listing => match event {
            EventText::Listed(listing) => after_listing(state, listing),
            _ => unexpected,
        },
        Phase::Promoting => match event {
            EventText::Done => proceed(state, Phase::WritingMarker, ActionText::WriteMarker),
            EventText::Failed(cause) => failed(state, ErrorKind::Promote, state.path, cause),
            _ => unexpected,
        },
        Phase::WritingMarker => match event {
            EventText::Done => proceed(state, Phase::CheckingStaging, ActionText::CheckStaging),
            EventText::Failed(cause) => failed(
                state,
                ErrorKind::WriteMarker,
                Seq::empty(),
                cause,
            ),
            _ => unexpected,
        },
        Phase::CheckingStaging => match event {
            EventText::Exists(true) => proceed(
                state,
                Phase::RemovingStaging,
                ActionText::RemoveStaging,
            ),
            EventText::Exists(false) => proceed(state, Phase::Finished, ActionText::Finish(Ok(()))),
            _ => unexpected,
        },
        Phase::RemovingStaging => match event {
            EventText::Done => proceed(state, Phase::Finished, ActionText::Finish(Ok(()))),
            EventText::Failed(cause) => failed(
                state,
                ErrorKind::CleanStaging,
                Seq::empty(),
                cause,
            ),
            _ => unexpected,
        },
        Phase::Finished => unexpected,
    }
}

/// The state in which an attempt to install `major` under `root` begins. Its
/// first step is to ask the archive catalog.
pub open spec fn started(root: Seq<char>, major: u8, platform: Platform) -> InstallText {
    InstallText {
        major,
        path: install_path(root, major),
        platform,
        phase: Phase::Fetching,
        archive: Seq::empty(),
        expected_size: None,
    }
}

/// The platform that an operating system of this name stands for.
pub fn platform_of(os: &str) -> (r: Platform)
    ensures
        r == platform_named(os@),
{
    if same_text(os, "macos") {
        Platform::MacOs
    } else {
        Platform::Other
    }
}

/// The path of the install directory of `major` under the cache root.
pub fn jdk_dir(root: &str, major: u8) -> (r: String)
    ensures
        r@ == install_path(root@, major),
{
    let name: String = decimal(major);
    join_path(root, name.as_str())
}

/// Whether an archive of this file name can be unpacked.
pub fn is_supported(archive: &str) -> (r: bool)
    ensures
        r == supported(archive@),
{
    ends_with(archive, ".tar.gz")
}

/// The size in bytes that a `Content-Length` header gives.
pub fn size_from(content_length: &Option<String>) -> (r: Option<u64>)
    ensures
        r == expected_size(content_length.deep_view()),
{
    match content_length {
        Some(text) => parse_u64(text.as_str()),
        None => None,
    }
}

/// The names of the entries of a directory, or the message of the first
/// entry that could not be read.
pub fn names_of(entries: &Vec<Entry>) -> (r: Result<Vec<String>, String>)
    ensures
        match r {
            Ok(names) => first_unreadable(entry_texts(entries@)) is None && names.deep_view()
                == entry_names(entry_texts(entries@)),
            Err(cause) => first_unreadable(entry_texts(entries@)) == Some(cause@),
        },
{
    let ghost texts: Seq<EntryText> = entry_texts(entries@);
    let mut names: Vec<String> = Vec::new();
    let mut i: usize = 0;
    assert(texts.skip(0) =~= texts);
    assert(texts.take(0) =~= Seq::<EntryText>::empty());
    assert(names.deep_view() =~= entry_names(texts.take(0)));
    while i < entries.len()
        invariant
            i <= entries.len(),
            texts == entry_texts(entries@),
            first_unreadable(texts) == first_unreadable(texts.skip(i as int)),
            names.deep_view() == entry_names(texts.take(i as int)),
        decreases entries.len() - i,
    {
        let ghost rest: Seq<EntryText> = texts.skip(i as int);
        assert(rest[0] == texts[i as int]);
        assert(rest.drop_first() =~= texts.skip(i + 1));
        assert(texts.take(i + 1).drop_last() =~= texts.take(i as int));
        assert(texts.take(i + 1).last() == entries@[i as int]@);
        match &entries[i] {
            Entry::Unreadable(cause) => {
                return Err(cause.clone());
            },
            Entry::Name(name) => {
                let ghost before: Seq<Seq<char>> = names.deep_view();
                names.push(name.clone());
                assert(names.deep_view() =~= before + seq![name@]);
            },
        }
        i = i + 1;
    }
    assert(texts.take(i as int) =~= texts);
    assert(texts.skip(i as int) =~= Seq::<EntryText>::empty());
    Ok(names)
}

/// Finds the directory of the staged tree that holds the JDK, from the
/// names of the top-level entries of the staging directory.
pub fn locate_jdk_root(names: &Vec<String>, platform: Platform) -> (r: InstallRoot)
    ensures
        r@ == install_root(names.deep_view(), platform),
{
    let ghost texts: Seq<Seq<char>> = names.deep_view();
    let mut count: usize = 0;
    let mut first: usize = 0;
    let mut i: usize = 0;
    proof {
        reveal(Seq::filter);
        assert(texts.take(0) =~= Seq::<Seq<char>>::empty());
    }
    while i < names.len()
        invariant
            i <= names.len(),
            texts == names.deep_view(),
            count <= i,
            count == visible(texts.take(i as int)).len(),
            count > 0 ==> first < i && texts[first as int] == visible(texts.take(i as int))[0],
        decreases names.len() - i,
    {
        proof {
            reveal(Seq::filter);
            assert(texts.take(i + 1).drop_last() =~= texts.take(i as int));
            assert(texts.take(i + 1).last() == names@[i as int]@);
        }
        let dotted: bool = starts_with(names[i].as_str(), ".");
        proof {
            reveal_strlit(".");
            let name = names@[i as int]@;
            let dot = "."@;
            assert(dot.len() == 1 && dot[0] == '.');
            if name.len() > 0 {
                let head = name.subrange(0, 1);
                assert(head.len() == 1 && head[0] == name[0]);
                if name[0] == '.' {
                    assert(dot =~= head);
                }
            }
            assert(dotted == hidden(name));
        }
        if !dotted {
            if count == 0 {
                first = i;
            }
            count = count + 1;
        }
        i = i + 1;
    }
    assert(texts.take(i as int) =~= texts);
    if count == 1 {
        let name: String = names[first].clone();
        match platform {
            Platform::MacOs => InstallRoot::EntryHome(name),
            Platform::Other => InstallRoot::Entry(name),
        }
    } else {
        InstallRoot::Staging
    }
}

impl InstallRoot {
    /// The path of this directory, for the staging directory at `staging`.
    pub fn path_in(&self, staging: &str) -> (r: String)
        ensures
            r@ == root_path(staging@, self@),
    {
        match self {
            InstallRoot::Staging => staging.to_owned(),
            InstallRoot::Entry(name) => join_path(staging, name.as_str()),
            InstallRoot::EntryHome(name) => {
                let entry: String = join_path(staging, name.as_str());
                join_path(entry.as_str(), "Contents/Home")
            },
        }
    }
}

impl Install {
    /// The path of the completion marker of the install directory.
    pub fn marker_path(&self) -> (r: String)
        ensures
            r@ == joined(self.path@, marker_name()),
    {
        marker_path(self.path.as_str())
    }

    /// Stops with a failure.
    fn fail(self, kind: ErrorKind, subject: String, cause: String) -> (r: (Install, Action))
        ensures
            (r.0@, r.1@) == failed(self@, kind, subject@, cause@),
    {
        let state = Install {
            major: self.major,
            path: self.path,
            platform: self.platform,
            phase: Phase::Finished,
            archive: self.archive,
            expected_size: self.expected_size,
        };
        (state, Action::Finish(Err(JdkError { kind, subject, cause })))
    }

    /// Stops because the event does not answer the step that was asked for.
    fn unexpected(self) -> (r: (Install, Action))
        ensures
            (r.0@, r.1@) == failed(
                self@,
                ErrorKind::UnexpectedEvent,
                Seq::empty(),
                Seq::empty(),
            ),
    {
        self.fail(ErrorKind::UnexpectedEvent, String::new(), String::new())
    }

    /// Goes on to `phase` and asks for `action`.
    fn go(self, phase: Phase, action: Action) -> (r: (Install, Action))
        ensures
            (r.0@, r.1@) == proceed(self@, phase, action@),
    {
        let state = Install {
            major: self.major,
            path: self.path,
            platform: self.platform,
            phase,
            archive: self.archive,
            expected_size: self.expected_size,
        };
        (state, action)
    }

    /// Takes the answer of the archive catalog.
    fn fetched(self, response: Response) -> (r: (Install, Action))
        ensures
            (r.0@, r.1@) == after_fetch(self@, response@),
    {
        if !response.success {
            return self.fail(ErrorKind::BadResponse, String::new(), String::new());
        }
        let size: Option<u64> = size_from(&response.content_length);
        match response.disposition {
            Disposition::Absent => self.fail(
                ErrorKind::NoContentDisposition,
                String::new(),
                String::new(),
            ),
            Disposition::Unreadable(cause) => self.fail(
                ErrorKind::BadFileName,
                String::new(),
                cause,
            ),
            Disposition::FileName(name) => {
                if is_supported(name.as_str()) {
                    let state = Install {
                        major: self.major,
                        path: self.path,
                        platform: self.platform,
                        phase: Phase::CheckingInstallDir,
                        archive: name,
                        expected_size: size,
                    };
                    (state, Action::CheckInstallDir)
                } else {
                    self.fail(ErrorKind::UnsupportedArchive, name, String::new())
                }
            },
        }
    }

    /// Takes what reading the staging directory gave.
    fn listed(self, listing: Listing) -> (r: (Install, Action))
        ensures
            (r.0@, r.1@) == after_listing(self@, listing@),
    {
        match listing {
            Listing::Missing => self.fail(ErrorKind::ReadStaging, String::new(), String::new()),
            Listing::Failed(cause) => self.fail(ErrorKind::ReadStaging, String::new(), cause),
            Listing::Entries(entries) => {
                match names_of(&entries) {
                    Err(cause) => self.fail(ErrorKind::ReadStagingEntry, String::new(), cause),
                    Ok(names) => {
                        let root: InstallRoot = locate_jdk_root(&names, self.platform);
                        self.go(Phase::Promoting, Action::Promote(root))
                    },
                }
            },
        }
    }

    /// The first half of an attempt, up to the staging directory: asks the
    /// catalog, clears what a former attempt left and creates the
    /// directories. A machine that is not in its first half is stopped.
    pub fn prepare(self, event: Event) -> (r: (Install, Action))
        ensures
            (r.0@, r.1@) == if first_half(self.phase) {
                step(self@, event@)
            } else {
                failed(self@, ErrorKind::UnexpectedEvent, Seq::empty(), Seq::empty())
            },
    {
        match self.phase {
            Phase::Fetching => match event {
                Event::Fetched(response) => self.fetched(response),
                Event::Failed(cause) => self.fail(ErrorKind::Fetch, String::new(), cause),
                _ => self.unexpected(),
            },
            Phase::CheckingInstallDir => match event {
                Event::Exists(true) => self.go(Phase::RemovingInstallDir, Action::RemoveInstallDir),
                Event::Exists(false) => self.go(
                    Phase::CreatingInstallDir,
                    Action::CreateInstallDir,
                ),
                _ => self.unexpected(),
            },
            Phase::RemovingInstallDir => match event {
                Event::Done => self.go(Phase::CreatingInstallDir, Action::CreateInstallDir),
                Event::Failed(cause) => {
                    let path: String = self.path.clone();
                    self.fail(ErrorKind::CleanInstallDir, path, cause)
                },
                _ => self.unexpected(),
            },
            Phase::CreatingInstallDir => match event {
                Event::Done => self.go(Phase::CreatingStaging, Action::CreateStaging),
                Event::Failed(cause) => {
                    let path: String = self.path.clone();
                    self.fail(ErrorKind::CreateInstallDir, path, cause)
                },
                _ => self.unexpected(),
            },
            Phase::CreatingStaging => match event {
                Event::Done => {
                    let archive: String = self.archive.clone();
                    let expected_size: Option<u64> = self.expected_size;
                    self.go(Phase::Unpacking, Action::Unpack { archive, expected_size })
                },
                Event::Failed(cause) => self.fail(ErrorKind::CreateStaging, String::new(), cause),
                _ => self.unexpected(),
            },
            _ => self.unexpected(),
        }
    }

    /// The second half of an attempt, from the unpacking on: finds the JDK
    /// in the staged tree, moves it to the install directory, writes the
    /// completion marker and, last of all, clears the staging directory. A
    /// machine that is not in its second half is stopped.
    pub fn finish_extract(self, event: Event) -> (r: (Install, Action))
        ensures
            (r.0@, r.1@) == if second_half(self.phase) {
                step(self@, event@)
            } else {
                failed(self@, ErrorKind::UnexpectedEvent, Seq::empty(), Seq::empty())
            },
    {
        match self.phase {
            Phase::Unpacking => match event {
                Event::Done => self.go(Phase::Listing, Action::ListStaging),
                Event::Failed(cause) => {
                    let archive: String = self.archive.clone();
                    self.fail(ErrorKind::Unpack, archive, cause)
                },
                _ => self.unexpected(),
            },
            Phase::Listing => match event {
                Event::Listed(listing) => self.listed(listing),
                _ => self.unexpected(),
            },
            Phase::Promoting => match event {
                Event::Done => self.go(Phase::WritingMarker, Action::WriteMarker),
                Event::Failed(cause) => {
                    let path: String = self.path.clone();
                    self.fail(ErrorKind::Promote, path, cause)
                },
                _ => self.unexpected(),
            },
            Phase::WritingMarker => match event {
                Event::Done => self.go(Phase::CheckingStaging, Action::CheckStaging),
                Event::Failed(cause) => self.fail(ErrorKind::WriteMarker, String::new(), cause),
                _ => self.unexpected(),
            },
            Phase::CheckingStaging => match event {
                Event::Exists(true) => self.go(Phase::RemovingStaging, Action::RemoveStaging),
                Event::Exists(false) => self.go(Phase::Finished, Action::Finish(Ok(()))),
                _ => self.unexpected(),
            },
            Phase::RemovingStaging => match event {
                Event::Done => self.go(Phase::Finished, Action::Finish(Ok(()))),
                Event::Failed(cause) => self.fail(ErrorKind::CleanStaging, String::new(), cause),
                _ => self.unexpected(),
            },
            _ => self.unexpected(),
        }
    }

    /// Takes the outcome of the step that was asked for last, and says which
    /// step comes next.
    pub fn advance(self, event: Event) -> (r: (Install, Action))
        ensures
            (r.0@, r.1@) == step(self@, event@),
    {
        match self.phase {
            Phase::Fetching
            | Phase::CheckingInstallDir
            | Phase::RemovingInstallDir
            | Phase::CreatingInstallDir
            | Phase::CreatingStaging => self.prepare(event),
            Phase::Finished => self.unexpected(),
            _ => self.finish_extract(event),
        }
    }
}

/// Begins an attempt to install the JDK of `major` under the cache root at
/// `root`, whatever the cache holds of that major.
pub fn update_jdk(root: &str, major: u8, platform: Platform) -> (r: (Install, Action))
    ensures
        r.0@ == started(root@, major, platform),
        r.1@ == ActionText::Fetch,
{
    let state = Install {
        major,
        path: jdk_dir(root, major),
        platform,
        phase: Phase::Fetching,
        archive: String::new(),
        expected_size: None,
    };
    (state, Action::Fetch)
}

/// The directory of the installed JDK, or why there is none, once
/// `get_jdk_path` has answered with `resolution` and the install that it
/// asked for, if any, has ended with `outcome`.
pub fn installed_path(resolution: Resolution, outcome: Option<Result<(), JdkError>>) -> (r: Result<
    String,
    JdkError,
>)
    ensures
        match r {
            Ok(path) => ensured(
                resolution@,
                match outcome {
                    Some(Ok(())) => Some(Ok(())),
                    Some(Err(e)) => Some(Err(e@)),
                    None => None,
                },
            ) == Ok::<Seq<char>, ErrorText>(path@),
            Err(failure) => ensured(
                resolution@,
                match outcome {
                    Some(Ok(())) => Some(Ok(())),
                    Some(Err(e)) => Some(Err(e@)),
                    None => None,
                },
            ) == Err::<Seq<char>, ErrorText>(failure@),
        },
{
    match resolution {
        Resolution::Installed(path) => Ok(path),
        Resolution::Absent(path) => match outcome {
            Some(Ok(())) => Ok(path),
            Some(Err(e)) => Err(e),
            None => Err(
                JdkError { kind: ErrorKind::NotInstalled, subject: path, cause: String::new() },
            ),
        },
    }
}

/// The install directory of `major`, and whether the JDK is installed there.
/// An installed JDK is found without any step of the pipeline.
pub fn get_jdk_path(cache: &Cache, major: u8) -> (r: Resolution)
    ensures
        r@ == resolved(cache@, cache.root@, major),
{
    let name: String = decimal(major);
    let path: String = join_path(cache.root.as_str(), name.as_str());
    match cache.dirs.get(name.as_str()) {
        Some(dir) => {
            if dir.marker {
                Resolution::Installed(path)
            } else {
                Resolution::Absent(path)
            }
        },
        None => Resolution::Absent(path),
    }
}

} // verus!
