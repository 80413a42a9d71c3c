//! A model of what the steps of the pipeline do to the cache root, and the
//! laws of the pipeline over it: nothing counts as installed before the
//! completion marker is written, and what was installed is found again.

use vstd::prelude::*;
use crate::install::{
    entry_names, install_path, install_root, resolved, started, step, visible, ActionText,
    EventText, InstallText, Phase, Platform, ResolutionText, RootText, STAGING_PREFIX,
};
use crate::registry::{
    dir_name, first_unreadable, lemma_dir_names, major_of, marked, version_of, DirFacts, Disk,
    EntryText, ListingText,
};
use crate::release::release_version;
use crate::text::is_digit;

verus! {

/// The cache root once `action` has been carried out for the install of
/// `major`; `staged` is what the directory that is moved holds. Steps that
/// only ask leave the cache root as it is. The staging directory is left out
/// of the model: its name is the name of no major.
pub open spec fn performed(disk: Disk, major: u8, action: ActionText, staged: DirFacts) -> Disk {
    let name = dir_name(major);
    match action {
        ActionText::RemoveInstallDir => disk.remove(name),
        ActionText::CreateInstallDir => if disk.contains_key(name) {
            disk
        } else {
            disk.insert(name, DirFacts { marker: false, release: None })
        },
        ActionText::Promote(_) => disk.insert(name, staged),
        ActionText::WriteMarker => if disk.contains_key(name) {
            disk.insert(name, DirFacts { marker: true, release: disk[name].release })
        } else {
            disk
        },
        _ => disk,
    }
}

/// Marker invariant. The JDK of a major is found as installed if and only if
/// its directory holds the completion marker, whatever else it holds.
pub proof fn lemma_marker_decides_found(disk: Disk, root: Seq<char>, major: u8)
    ensures
        resolved(disk, root, major) is Installed <==> marked(disk, major),
        !marked(disk, major) ==> version_of(disk, major) is None,
{
}

/// A directory whose name begins with the prefix of staging directories is
/// the directory of no major.
pub proof fn lemma_staging_is_no_major(name: Seq<char>)
    requires
        STAGING_PREFIX@.is_prefix_of(name),
    ensures
        major_of(name) is None,
{
    reveal_strlit("jdk-download");
    let prefix = STAGING_PREFIX@;
    assert(prefix[0] == 'j');
    assert(name.subrange(0, prefix.len() as int)[0] == name[0]);
    assert(!is_digit(name[0]));
}

/// A point in an attempt to install a major: the machine's state, the step
/// that it asked for last, the cache root before that step, whether the
/// staged tree has been moved to the install directory, and whether the
/// completion marker has been written.
pub struct Run {
    pub state: InstallText,
    pub action: ActionText,
    pub disk: Disk,
    pub moved: bool,
    pub marker_written: bool,
}

/// The point that an attempt reaches from the cache root `disk` when the
/// steps it asks for end as `events` say, one event for each step. A step
/// that fails is taken to leave the cache root as it was.
pub open spec fn run(
    root: Seq<char>,
    major: u8,
    platform: Platform,
    disk: Disk,
    staged: DirFacts,
    events: Seq<EventText>,
) -> Run
    decreases events.len(),
{
    if events.len() == 0 {
        Run {
            state: started(root, major, platform),
            action: ActionText::Fetch,
            disk,
            moved: false,
            marker_written: false,
        }
    } else {
        let before = run(root, major, platform, disk, staged, events.drop_last());
        let event = events.last();
        let next = step(before.state, event);
        if event is Failed {
            Run { state: next.0, action: next.1, ..before }
        } else {
            Run {
                state: next.0,
                action: next.1,
                disk: performed(before.disk, major, before.action, staged),
                moved: before.moved || before.action is Promote,
                marker_written: before.marker_written || before.action is WriteMarker,
            }
        }
    }
}

/// Whether the phase comes before the staged tree has been moved.
pub open spec fn before_move(phase: Phase) -> bool {
    before_marker(phase) && phase != Phase::WritingMarker
}

/// Whether the phase comes before the completion marker has been written.
pub open spec fn before_marker(phase: Phase) -> bool {
    phase != Phase::CheckingStaging && phase != Phase::RemovingStaging && phase != Phase::Finished
}

/// The step that the machine asks for in each phase.
pub open spec fn asks(phase: Phase, action: ActionText) -> bool {
    match phase {
        Phase::Fetching => action == ActionText::Fetch,
        Phase::CheckingInstallDir => action == ActionText::CheckInstallDir,
        Phase::RemovingInstallDir => action == ActionText::RemoveInstallDir,
        Phase::CreatingInstallDir => action == ActionText::CreateInstallDir,
        Phase::CreatingStaging => action == ActionText::CreateStaging,
        Phase::Unpacking => action is Unpack,
        Phase::Listing => action == ActionText::ListStaging,
        Phase::Promoting => action is Promote,
        Phase::WritingMarker => action == ActionText::WriteMarker,
        Phase::CheckingStaging => action == ActionText::CheckStaging,
        Phase::RemovingStaging => action == ActionText::RemoveStaging,
        Phase::Finished => action is Finish,
    }
}

/// What holds at every point of an attempt: the machine keeps its major and
/// its paths, only the directory of that major changes, and the completion
/// marker is written after all else. Where the attempt began without an
/// installed JDK of the major and stages a tree without a marker of its own,
/// the directory holds the marker only once the machine has written it.
pub open spec fn coherent(
    r: Run,
    root: Seq<char>,
    major: u8,
    platform: Platform,
    disk: Disk,
    staged: DirFacts,
) -> bool {
    let name = dir_name(major);
    &&& r.state.major == major
    &&& r.state.path == install_path(root, major)
    &&& r.state.platform == platform
    &&& asks(r.state.phase, r.action)
    &&& r.disk.remove(name) =~= disk.remove(name)
    &&& r.marker_written ==> marked(r.disk, major) && r.disk[name].release == staged.release
    &&& (!marked(disk, major) && !staged.marker) ==> (marked(r.disk, major) ==> r.marker_written)
    &&& (!marked(disk, major) && !r.moved) ==> !marked(r.disk, major)
    &&& r.marker_written ==> r.moved
    &&& before_move(r.state.phase) ==> !r.moved
    &&& (before_marker(r.state.phase) && !before_move(r.state.phase)) ==> r.moved
    &&& before_marker(r.state.phase) ==> !r.marker_written
    &&& r.state.phase == Phase::WritingMarker ==> r.disk.contains_key(name)
        && r.disk[name].release == staged.release
    &&& (r.state.phase == Phase::CheckingStaging || r.state.phase == Phase::RemovingStaging)
        ==> r.marker_written
    &&& r.action == ActionText::Finish(Ok(())) ==> r.marker_written
}

/// Every point of an attempt is coherent.
pub proof fn lemma_run_coherent(
    root: Seq<char>,
    major: u8,
    platform: Platform,
    disk: Disk,
    staged: DirFacts,
    events: Seq<EventText>,
)
    ensures
        coherent(
            run(root, major, platform, disk, staged, events),
            root,
            major,
            platform,
            disk,
            staged,
        ),
    decreases events.len(),
{
    if events.len() > 0 {
        lemma_run_coherent(root, major, platform, disk, staged, events.drop_last());
    }
}

/// Crash safety, up to the move. An attempt that is cut short at any point
/// before the staged tree is moved to the install directory leaves every
/// major as the registry saw it before the attempt, whatever the archive
/// holds: the major that was being installed is still not installed, and no
/// other major has changed. This covers an answer without success, a
/// missing or unreadable file name, an archive of another kind, and every
/// failure to clear, create, unpack or read. It is stated for an attempt
/// that begins where the major is not installed.
pub proof fn lemma_nothing_installed_before_move(
    root: Seq<char>,
    major: u8,
    platform: Platform,
    disk: Disk,
    staged: DirFacts,
    events: Seq<EventText>,
)
    requires
        !marked(disk, major),
    ensures
        ({
            let r = run(root, major, platform, disk, staged, events);
            &&& !r.moved ==> forall|other: u8|
                version_of(r.disk, other) == version_of(disk, other)
            &&& !r.moved ==> !r.marker_written && !marked(r.disk, major)
            &&& before_move(r.state.phase) ==> !r.moved
            &&& (r.action is Finish && !r.moved) ==> r.action != ActionText::Finish(Ok(()))
        }),
{
    let r = run(root, major, platform, disk, staged, events);
    lemma_run_coherent(root, major, platform, disk, staged, events);
    if !r.moved {
        assert forall|other: u8| version_of(r.disk, other) == version_of(disk, other) by {
            lemma_dir_names(other, major);
            if other != major {
                let name = dir_name(major);
                let there = dir_name(other);
                assert(r.disk.remove(name).contains_key(there) == r.disk.contains_key(there));
                assert(disk.remove(name).contains_key(there) == disk.contains_key(there));
                if disk.contains_key(there) {
                    assert(r.disk.remove(name)[there] == r.disk[there]);
                    assert(disk.remove(name)[there] == disk[there]);
                }
            }
        }
    }
}

/// Crash safety, up to the marker. An attempt that is cut short at any point
/// before the completion marker is written leaves every major as the
/// registry saw it before the attempt. It is stated for an attempt that
/// begins where the major is not installed, and for a staged tree that
/// brings no completion marker of its own: a tree that brings one counts as
/// installed from the move on.
pub proof fn lemma_nothing_installed_before_marker(
    root: Seq<char>,
    major: u8,
    platform: Platform,
    disk: Disk,
    staged: DirFacts,
    events: Seq<EventText>,
)
    requires
        !marked(disk, major),
        !staged.marker,
    ensures
        ({
            let r = run(root, major, platform, disk, staged, events);
            !r.marker_written ==> forall|other: u8|
                version_of(r.disk, other) == version_of(disk, other)
        }),
{
    let r = run(root, major, platform, disk, staged, events);
    lemma_run_coherent(root, major, platform, disk, staged, events);
    if !r.marker_written {
        assert forall|other: u8| version_of(r.disk, other) == version_of(disk, other) by {
            lemma_dir_names(other, major);
            if other != major {
                let name = dir_name(major);
                let there = dir_name(other);
                assert(r.disk.remove(name).contains_key(there) == r.disk.contains_key(there));
                assert(disk.remove(name).contains_key(there) == disk.contains_key(there));
                if disk.contains_key(there) {
                    assert(r.disk.remove(name)[there] == r.disk[there]);
                    assert(disk.remove(name)[there] == disk[there]);
                }
            }
        }
    }
}

/// The completion marker is written last: an attempt reports success only
/// after the marker has been written, and the marker is written only into an
/// install directory that the staged tree was moved to. From then on the
/// registry reports the version that the staged tree gives.
pub proof fn lemma_success_means_installed(
    root: Seq<char>,
    major: u8,
    platform: Platform,
    disk: Disk,
    staged: DirFacts,
    events: Seq<EventText>,
)
    ensures
        ({
            let r = run(root, major, platform, disk, staged, events);
            &&& r.action == ActionText::Finish(Ok(())) ==> r.marker_written
            &&& r.marker_written ==> marked(r.disk, major)
            &&& r.marker_written ==> version_of(r.disk, major) == match staged.release {
                Some(text) => release_version(text),
                None => None,
            }
            &&& r.action == ActionText::WriteMarker ==> r.disk.contains_key(dir_name(major))
        }),
{
    lemma_run_coherent(root, major, platform, disk, staged, events);
}

/// Idempotence. Once an attempt has reported success, the JDK is found at
/// the attempt's install directory without a further attempt, so without
/// asking the archive catalog again.
pub proof fn lemma_installed_is_found_again(
    root: Seq<char>,
    major: u8,
    platform: Platform,
    disk: Disk,
    staged: DirFacts,
    events: Seq<EventText>,
)
    ensures
        ({
            let r = run(root, major, platform, disk, staged, events);
            r.action == ActionText::Finish(Ok(())) ==> resolved(r.disk, root, major)
                == ResolutionText::Installed(r.state.path)
        }),
{
    lemma_run_coherent(root, major, platform, disk, staged, events);
}

/// Normalization. Once the staging directory has been read, the machine
/// asks for the move of the directory that holds the JDK: with exactly one
/// visible top-level entry it is that entry, or `Contents/Home` inside it on
/// the platform that nests the JDK so; with none or with several it is the
/// staging directory itself, hidden entries included.
pub proof fn lemma_the_root_is_moved(state: InstallText, entries: Seq<EntryText>)
    requires
        state.phase == Phase::Listing,
        first_unreadable(entries) is None,
    ensures
        ({
            let asked = step(state, EventText::Listed(ListingText::Entries(entries)));
            let shown = visible(entry_names(entries));
            &&& asked.0.phase == Phase::Promoting
            &&& asked.1 == ActionText::Promote(install_root(entry_names(entries), state.platform))
            &&& (shown.len() == 1 && state.platform == Platform::Other) ==> asked.1
                == ActionText::Promote(RootText::Entry(shown[0]))
            &&& (shown.len() == 1 && state.platform == Platform::MacOs) ==> asked.1
                == ActionText::Promote(RootText::EntryHome(shown[0]))
            &&& shown.len() != 1 ==> asked.1 == ActionText::Promote(RootText::Staging)
        }),
{
}

} // verus!
