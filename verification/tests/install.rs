use jpre::error::{ErrorKind, JdkError};
use jpre::install::{
    get_jdk_path, installed_path, is_supported, locate_jdk_root, names_of, size_from, update_jdk,
    Action,
    Disposition, Event, Install, InstallRoot, Phase, Platform, Resolution, Response,
    STAGING_PREFIX,
};
use jpre::registry::{get_jdk_version, parse_major, Cache, Entry, Listing};

fn answer(name: &str, length: Option<&str>) -> Event {
    Event::Fetched(Response {
        success: true,
        disposition: Disposition::FileName(name.to_string()),
        content_length: length.map(|text| text.to_string()),
    })
}

fn listed(names: &[&str]) -> Event {
    Event::Listed(Listing::Entries(
        names.iter().map(|name| Entry::Name(name.to_string())).collect(),
    ))
}

fn strings(names: &[&str]) -> Vec<String> {
    names.iter().map(|name| name.to_string()).collect()
}

/// Feeds the events to a fresh attempt and returns the steps it asked for.
fn drive(platform: Platform, events: Vec<Event>) -> (Install, Vec<Action>) {
    let (mut state, first) = update_jdk("/cache/jdks", 17, platform);
    let mut actions = vec![first];
    for event in events {
        let (next, action) = state.advance(event);
        state = next;
        actions.push(action);
    }
    (state, actions)
}

fn failure(action: &Action) -> (ErrorKind, String, String) {
    match action {
        Action::Finish(Err(e)) => (e.kind, e.subject.clone(), e.cause.clone()),
        other => panic!("no failure: {:?}", other),
    }
}

fn up_to_unpacking() -> Vec<Event> {
    vec![
        answer("OpenJDK17U-jdk_x64_linux_hotspot_17.0.2_8.tar.gz", Some("193853281")),
        Event::Exists(false),
        Event::Done,
        Event::Done,
    ]
}

#[test]
fn attempt_begins_by_asking_the_catalog() {
    let (state, action) = update_jdk("/cache/jdks", 17, Platform::Other);
    assert_eq!(action, Action::Fetch);
    assert_eq!(state.major, 17);
    assert_eq!(state.path, "/cache/jdks/17");
    assert_eq!(state.phase, Phase::Fetching);
    assert_eq!(state.platform, Platform::Other);
    assert_eq!(state.marker_path(), "/cache/jdks/17/.jdk_marker");
}

#[test]
fn attempt_on_a_clean_cache_takes_the_steps_in_order() {
    let mut events = up_to_unpacking();
    events.extend(vec![
        Event::Done,
        listed(&["jdk-17.0.2+8"]),
        Event::Done,
        Event::Done,
        Event::Exists(true),
        Event::Done,
    ]);
    let (state, actions) = drive(Platform::Other, events);
    assert_eq!(
        actions,
        vec![
            Action::Fetch,
            Action::CheckInstallDir,
            Action::CreateInstallDir,
            Action::CreateStaging,
            Action::Unpack {
                archive: "OpenJDK17U-jdk_x64_linux_hotspot_17.0.2_8.tar.gz".to_string(),
                expected_size: Some(193853281),
            },
            Action::ListStaging,
            Action::Promote(InstallRoot::Entry("jdk-17.0.2+8".to_string())),
            Action::WriteMarker,
            Action::CheckStaging,
            Action::RemoveStaging,
            Action::Finish(Ok(())),
        ]
    );
    assert_eq!(state.phase, Phase::Finished);
    assert_eq!(state.path, "/cache/jdks/17");
}

#[test]
fn leftover_install_directory_is_removed_first() {
    let events = vec![answer("jdk.tar.gz", None), Event::Exists(true), Event::Done];
    let (_, actions) = drive(Platform::Other, events);
    assert_eq!(
        actions,
        vec![
            Action::Fetch,
            Action::CheckInstallDir,
            Action::RemoveInstallDir,
            Action::CreateInstallDir,
        ]
    );
}

#[test]
fn staging_directory_that_was_moved_needs_no_removal() {
    let mut events = up_to_unpacking();
    events.extend(vec![
        Event::Done,
        listed(&["bin", "lib", "release"]),
        Event::Done,
        Event::Done,
        Event::Exists(false),
    ]);
    let (_, actions) = drive(Platform::Other, events);
    assert_eq!(actions[6], Action::Promote(InstallRoot::Staging));
    assert_eq!(actions[8], Action::CheckStaging);
    assert_eq!(actions[9], Action::Finish(Ok(())));
}

#[test]
fn marker_is_written_only_after_the_move_succeeded() {
    let mut events = up_to_unpacking();
    events.extend(vec![Event::Done, listed(&["jdk-17"]), Event::Done]);
    let (_, actions) = drive(Platform::Other, events);
    let at = actions.iter().position(|action| *action == Action::WriteMarker).unwrap();
    assert_eq!(at, actions.len() - 1);
    assert!(matches!(actions[at - 1], Action::Promote(_)));
}

#[test]
fn failure_at_any_step_before_the_marker_writes_no_marker() {
    let mut events = up_to_unpacking();
    events.extend(vec![Event::Done, listed(&["jdk-17"]), Event::Done]);
    for cut in 0..events.len() {
        let mut cut_short: Vec<Event> = Vec::new();
        for event in events.iter().take(cut) {
            cut_short.push(match event {
                Event::Fetched(r) => answer(
                    match &r.disposition {
                        Disposition::FileName(name) => name,
                        _ => unreachable!(),
                    },
                    r.content_length.as_deref(),
                ),
                Event::Exists(found) => Event::Exists(*found),
                Event::Listed(_) => listed(&["jdk-17"]),
                Event::Done => Event::Done,
                Event::Failed(cause) => Event::Failed(cause.clone()),
            });
        }
        cut_short.push(Event::Failed("boom".to_string()));
        let (state, actions) = drive(Platform::Other, cut_short);
        assert!(!actions.contains(&Action::WriteMarker), "cut at {}", cut);
        assert!(matches!(actions.last(), Some(Action::Finish(Err(_)))), "cut at {}", cut);
        assert_eq!(state.phase, Phase::Finished);
    }
}

#[test]
fn catalog_that_cannot_be_asked_is_an_error() {
    let (_, actions) = drive(Platform::Other, vec![Event::Failed("timed out".to_string())]);
    assert_eq!(
        failure(&actions[1]),
        (ErrorKind::Fetch, String::new(), "timed out".to_string())
    );
}

#[test]
fn answer_without_success_is_an_error() {
    let event = Event::Fetched(Response {
        success: false,
        disposition: Disposition::FileName("jdk.tar.gz".to_string()),
        content_length: None,
    });
    let (state, actions) = drive(Platform::Other, vec![event]);
    assert_eq!(failure(&actions[1]), (ErrorKind::BadResponse, String::new(), String::new()));
    assert_eq!(state.phase, Phase::Finished);
}

#[test]
fn answer_without_content_disposition_is_an_error() {
    let event = Event::Fetched(Response {
        success: true,
        disposition: Disposition::Absent,
        content_length: Some("12".to_string()),
    });
    let (_, actions) = drive(Platform::Other, vec![event]);
    assert_eq!(
        failure(&actions[1]),
        (ErrorKind::NoContentDisposition, String::new(), String::new())
    );
}

#[test]
fn answer_with_unreadable_file_name_is_an_error() {
    let event = Event::Fetched(Response {
        success: true,
        disposition: Disposition::Unreadable("no filename parameter".to_string()),
        content_length: None,
    });
    let (_, actions) = drive(Platform::Other, vec![event]);
    assert_eq!(
        failure(&actions[1]),
        (ErrorKind::BadFileName, String::new(), "no filename parameter".to_string())
    );
}

#[test]
fn archive_of_another_kind_is_refused_before_anything_is_touched() {
    let (state, actions) = drive(Platform::Other, vec![answer("jdk-17.zip", Some("5"))]);
    assert_eq!(actions.len(), 2);
    assert_eq!(
        failure(&actions[1]),
        (ErrorKind::UnsupportedArchive, "jdk-17.zip".to_string(), String::new())
    );
    assert_eq!(state.phase, Phase::Finished);
}

#[test]
fn each_failing_step_gives_its_own_error() {
    let path = "/cache/jdks/17".to_string();
    let archive = "jdk.tar.gz".to_string();
    let boom = || Event::Failed("boom".to_string());
    let cases: Vec<(Vec<Event>, ErrorKind, String)> = vec![
        (
            vec![answer("jdk.tar.gz", None), Event::Exists(true), boom()],
            ErrorKind::CleanInstallDir,
            path.clone(),
        ),
        (
            vec![answer("jdk.tar.gz", None), Event::Exists(false), boom()],
            ErrorKind::CreateInstallDir,
            path.clone(),
        ),
        (
            vec![answer("jdk.tar.gz", None), Event::Exists(false), Event::Done, boom()],
            ErrorKind::CreateStaging,
            String::new(),
        ),
        (
            vec![
                answer("jdk.tar.gz", None),
                Event::Exists(false),
                Event::Done,
                Event::Done,
                boom(),
            ],
            ErrorKind::Unpack,
            archive.clone(),
        ),
        (
            vec![
                answer("jdk.tar.gz", None),
                Event::Exists(false),
                Event::Done,
                Event::Done,
                Event::Done,
                Event::Listed(Listing::Failed("boom".to_string())),
            ],
            ErrorKind::ReadStaging,
            String::new(),
        ),
        (
            vec![
                answer("jdk.tar.gz", None),
                Event::Exists(false),
                Event::Done,
                Event::Done,
                Event::Done,
                Event::Listed(Listing::Entries(vec![
                    Entry::Name("jdk-17".to_string()),
                    Entry::Unreadable("boom".to_string()),
                ])),
            ],
            ErrorKind::ReadStagingEntry,
            String::new(),
        ),
        (
            vec![
                answer("jdk.tar.gz", None),
                Event::Exists(false),
                Event::Done,
                Event::Done,
                Event::Done,
                listed(&["jdk-17"]),
                boom(),
            ],
            ErrorKind::Promote,
            path.clone(),
        ),
        (
            vec![
                answer("jdk.tar.gz", None),
                Event::Exists(false),
                Event::Done,
                Event::Done,
                Event::Done,
                listed(&["jdk-17"]),
                Event::Done,
                boom(),
            ],
            ErrorKind::WriteMarker,
            String::new(),
        ),
        (
            vec![
                answer("jdk.tar.gz", None),
                Event::Exists(false),
                Event::Done,
                Event::Done,
                Event::Done,
                listed(&["jdk-17"]),
                Event::Done,
                Event::Done,
                Event::Exists(true),
                boom(),
            ],
            ErrorKind::CleanStaging,
            String::new(),
        ),
    ];
    for (events, kind, subject) in cases {
        let (state, actions) = drive(Platform::Other, events);
        assert_eq!(failure(actions.last().unwrap()), (kind, subject, "boom".to_string()));
        assert_eq!(state.phase, Phase::Finished);
    }
}

#[test]
fn staging_directory_that_is_missing_is_an_error() {
    let mut events = up_to_unpacking();
    events.extend(vec![Event::Done, Event::Listed(Listing::Missing)]);
    let (_, actions) = drive(Platform::Other, events);
    assert_eq!(
        failure(actions.last().unwrap()),
        (ErrorKind::ReadStaging, String::new(), String::new())
    );
}

#[test]
fn event_that_answers_no_step_stops_the_attempt() {
    let (_, actions) = drive(Platform::Other, vec![Event::Done]);
    assert_eq!(failure(&actions[1]).0, ErrorKind::UnexpectedEvent);
    let (_, actions) = drive(Platform::Other, vec![answer("jdk.tar.gz", None), Event::Done]);
    assert_eq!(failure(&actions[2]).0, ErrorKind::UnexpectedEvent);
    let (_, actions) = drive(
        Platform::Other,
        vec![answer("jdk.tar.gz", None), Event::Exists(false), Event::Exists(true)],
    );
    assert_eq!(failure(&actions[3]).0, ErrorKind::UnexpectedEvent);
}

#[test]
fn finished_attempt_takes_no_further_event() {
    let (state, actions) = drive(Platform::Other, vec![answer("jdk.zip", None)]);
    assert!(matches!(actions[1], Action::Finish(Err(_))));
    let (state, action) = state.advance(Event::Done);
    assert_eq!(failure(&action).0, ErrorKind::UnexpectedEvent);
    assert_eq!(state.phase, Phase::Finished);
}

#[test]
fn only_gzip_compressed_tar_archives_are_supported() {
    assert!(is_supported("OpenJDK17U-jdk_x64_linux_hotspot_17.0.2_8.tar.gz"));
    assert!(is_supported(".tar.gz"));
    assert!(!is_supported("jdk.zip"));
    assert!(!is_supported("jdk.tar"));
    assert!(!is_supported("jdk.tgz"));
    assert!(!is_supported("jdk.tar.gz.sha256"));
    assert!(!is_supported("jdk.TAR.GZ"));
    assert!(!is_supported(""));
}

#[test]
fn expected_size_is_the_content_length_where_it_is_a_number() {
    assert_eq!(size_from(&Some("193853281".to_string())), Some(193853281));
    assert_eq!(size_from(&Some("0".to_string())), Some(0));
    assert_eq!(size_from(&None), None);
    assert_eq!(size_from(&Some("".to_string())), None);
    assert_eq!(size_from(&Some("12 bytes".to_string())), None);
    assert_eq!(size_from(&Some("-1".to_string())), None);
    assert_eq!(size_from(&Some("18446744073709551616".to_string())), None);
}

#[test]
fn unknown_size_is_handed_on_as_unknown() {
    let mut events = vec![answer("jdk.tar.gz", Some("many"))];
    events.extend(vec![Event::Exists(false), Event::Done, Event::Done]);
    let (_, actions) = drive(Platform::Other, events);
    assert_eq!(
        actions[4],
        Action::Unpack { archive: "jdk.tar.gz".to_string(), expected_size: None }
    );
}

#[test]
fn single_visible_entry_is_the_root() {
    assert_eq!(
        locate_jdk_root(&strings(&["foo"]), Platform::Other),
        InstallRoot::Entry("foo".to_string())
    );
}

#[test]
fn single_visible_entry_holds_the_root_in_contents_home_on_macos() {
    assert_eq!(
        locate_jdk_root(&strings(&["foo"]), Platform::MacOs),
        InstallRoot::EntryHome("foo".to_string())
    );
}

#[test]
fn hidden_entries_do_not_count() {
    assert_eq!(
        locate_jdk_root(&strings(&[".DS_Store", "foo", "._foo"]), Platform::Other),
        InstallRoot::Entry("foo".to_string())
    );
    assert_eq!(
        locate_jdk_root(&strings(&[".a", ".b", "jdk-21", ".c"]), Platform::MacOs),
        InstallRoot::EntryHome("jdk-21".to_string())
    );
}

#[test]
fn no_visible_entry_or_several_leave_the_staging_directory_as_root() {
    for platform in [Platform::Other, Platform::MacOs] {
        assert_eq!(locate_jdk_root(&strings(&[]), platform), InstallRoot::Staging);
        assert_eq!(locate_jdk_root(&strings(&[".hidden"]), platform), InstallRoot::Staging);
        assert_eq!(locate_jdk_root(&strings(&["a", "b"]), platform), InstallRoot::Staging);
        assert_eq!(
            locate_jdk_root(&strings(&["bin", ".x", "lib", "release"]), platform),
            InstallRoot::Staging
        );
        assert_eq!(locate_jdk_root(&strings(&["foo", "foo"]), platform), InstallRoot::Staging);
    }
}

#[test]
fn root_path_lies_inside_the_staging_directory() {
    let staging = "/cache/jdks/jdk-download.x1";
    assert_eq!(InstallRoot::Staging.path_in(staging), staging);
    assert_eq!(
        InstallRoot::Entry("foo".to_string()).path_in(staging),
        "/cache/jdks/jdk-download.x1/foo"
    );
    assert_eq!(
        InstallRoot::EntryHome("foo".to_string()).path_in(staging),
        "/cache/jdks/jdk-download.x1/foo/Contents/Home"
    );
}

#[test]
fn names_of_entries_stop_at_the_first_unreadable() {
    let entries = vec![Entry::Name("a".to_string()), Entry::Name(".b".to_string())];
    assert_eq!(names_of(&entries), Ok(strings(&["a", ".b"])));
    let entries = vec![
        Entry::Name("a".to_string()),
        Entry::Unreadable("first".to_string()),
        Entry::Unreadable("second".to_string()),
    ];
    assert_eq!(names_of(&entries), Err("first".to_string()));
    assert_eq!(names_of(&Vec::new()), Ok(Vec::new()));
}

#[test]
fn macos_attempt_promotes_contents_home() {
    let mut events = up_to_unpacking();
    events.extend(vec![Event::Done, listed(&[".hidden", "jdk-17.0.2+8"])]);
    let (_, actions) = drive(Platform::MacOs, events);
    assert_eq!(
        actions.last(),
        Some(&Action::Promote(InstallRoot::EntryHome("jdk-17.0.2+8".to_string())))
    );
}

#[test]
fn installed_jdk_is_found_without_an_attempt() {
    let mut cache = Cache::new("/cache/jdks".to_string());
    cache.record("17".to_string(), true, None);
    assert_eq!(get_jdk_path(&cache, 17), Resolution::Installed("/cache/jdks/17".to_string()));
}

#[test]
fn jdk_without_marker_is_absent() {
    let mut cache = Cache::new("/cache/jdks".to_string());
    cache.record("17".to_string(), false, Some("JAVA_VERSION=\"17\"".to_string()));
    assert_eq!(get_jdk_path(&cache, 17), Resolution::Absent("/cache/jdks/17".to_string()));
    assert_eq!(get_jdk_path(&cache, 21), Resolution::Absent("/cache/jdks/21".to_string()));
}

/// A directory under the cache root, as the steps of an attempt change it.
fn carry_out(dir: &mut Option<(bool, Option<String>)>, action: &Action, staged: &Option<String>) {
    match action {
        Action::RemoveInstallDir => *dir = None,
        Action::CreateInstallDir => {
            if dir.is_none() {
                *dir = Some((false, None));
            }
        },
        Action::Promote(_) => *dir = Some((false, staged.clone())),
        Action::WriteMarker => {
            if let Some((marker, _)) = dir {
                *marker = true;
            }
        },
        _ => {},
    }
}

fn snapshot(dir: &Option<(bool, Option<String>)>) -> Cache {
    let mut cache = Cache::new("/cache/jdks".to_string());
    cache.record("21".to_string(), true, Some("JAVA_VERSION=\"21.0.1\"".to_string()));
    if let Some((marker, release)) = dir {
        cache.record("17".to_string(), *marker, release.clone());
    }
    cache
}

#[test]
fn nothing_counts_as_installed_until_the_marker_is_written() {
    let staged = Some("JAVA_VERSION=\"17.0.2\"".to_string());
    let mut dir: Option<(bool, Option<String>)> = Some((false, Some("junk".to_string())));
    let events = vec![
        answer("jdk.tar.gz", None),
        Event::Exists(true),
        Event::Done,
        Event::Done,
        Event::Done,
        Event::Done,
        listed(&["jdk-17"]),
        Event::Done,
        Event::Done,
        Event::Exists(true),
        Event::Done,
    ];
    let (mut state, mut action) = update_jdk("/cache/jdks", 17, Platform::Other);
    let mut written = false;
    for event in events {
        let cache = snapshot(&dir);
        if !written {
            assert_eq!(get_jdk_version(&cache, 17), None);
            assert!(matches!(get_jdk_path(&cache, 17), Resolution::Absent(_)));
        }
        assert_eq!(get_jdk_version(&cache, 21), Some("21.0.1".to_string()));
        carry_out(&mut dir, &action, &staged);
        written = written || action == Action::WriteMarker;
        let (next, asked) = state.advance(event);
        state = next;
        action = asked;
    }
    assert_eq!(action, Action::Finish(Ok(())));
    let cache = snapshot(&dir);
    assert_eq!(get_jdk_version(&cache, 17), Some("17.0.2".to_string()));
}

#[test]
fn second_request_for_an_installed_jdk_asks_no_catalog() {
    let staged = Some("JAVA_VERSION=\"17.0.2\"".to_string());
    let mut dir: Option<(bool, Option<String>)> = None;
    let first = match get_jdk_path(&snapshot(&dir), 17) {
        Resolution::Absent(path) => path,
        other => panic!("installed already: {:?}", other),
    };
    let events = vec![
        answer("jdk.tar.gz", None),
        Event::Exists(false),
        Event::Done,
        Event::Done,
        Event::Done,
        listed(&["jdk-17"]),
        Event::Done,
        Event::Done,
        Event::Exists(true),
        Event::Done,
    ];
    let (mut state, mut action) = update_jdk("/cache/jdks", 17, Platform::Other);
    for event in events {
        carry_out(&mut dir, &action, &staged);
        let (next, asked) = state.advance(event);
        state = next;
        action = asked;
    }
    assert_eq!(action, Action::Finish(Ok(())));
    assert_eq!(state.path, first);
    assert_eq!(get_jdk_path(&snapshot(&dir), 17), Resolution::Installed(first));
}

#[test]
fn staging_directory_is_passed_over_by_the_registry() {
    assert_eq!(STAGING_PREFIX, "jdk-download");
    for suffix in ["", ".x1Yz", "17", ".17"] {
        let name = format!("{}{}", STAGING_PREFIX, suffix);
        assert_eq!(parse_major(&name), None);
    }
}

#[test]
fn installed_jdk_needs_no_install() {
    let found = Resolution::Installed("/cache/jdks/17".to_string());
    assert_eq!(installed_path(found, None), Ok("/cache/jdks/17".to_string()));
    let found = Resolution::Installed("/cache/jdks/17".to_string());
    let ignored = Some(Err(JdkError::new(ErrorKind::Fetch)));
    assert_eq!(installed_path(found, ignored), Ok("/cache/jdks/17".to_string()));
}

#[test]
fn absent_jdk_is_there_after_a_successful_install() {
    let absent = Resolution::Absent("/cache/jdks/17".to_string());
    assert_eq!(installed_path(absent, Some(Ok(()))), Ok("/cache/jdks/17".to_string()));
}

#[test]
fn absent_jdk_stays_absent_after_a_failed_install() {
    let absent = Resolution::Absent("/cache/jdks/17".to_string());
    let failed = Some(Err(JdkError::with_cause(ErrorKind::Unpack, "truncated")));
    assert_eq!(
        installed_path(absent, failed),
        Err(JdkError::with_cause(ErrorKind::Unpack, "truncated"))
    );
    let absent = Resolution::Absent("/cache/jdks/17".to_string());
    assert_eq!(
        installed_path(absent, None),
        Err(JdkError::on(ErrorKind::NotInstalled, "/cache/jdks/17", ""))
    );
}

#[test]
fn halves_of_an_attempt_take_only_their_own_phases() {
    let (state, _) = update_jdk("/cache/jdks", 17, Platform::Other);
    let (state, action) = state.finish_extract(Event::Done);
    assert_eq!(failure(&action).0, ErrorKind::UnexpectedEvent);
    assert_eq!(state.phase, Phase::Finished);
    let (state, _) = update_jdk("/cache/jdks", 17, Platform::Other);
    let (state, action) = state.prepare(answer("jdk.tar.gz", None));
    assert_eq!(action, Action::CheckInstallDir);
    let (state, _) = state.prepare(Event::Exists(false));
    let (state, _) = state.prepare(Event::Done);
    let (state, action) = state.prepare(Event::Done);
    assert!(matches!(action, Action::Unpack { .. }));
    let (state, action) = state.finish_extract(Event::Done);
    assert_eq!(action, Action::ListStaging);
    let (state, action) = state.prepare(Event::Done);
    assert_eq!(failure(&action).0, ErrorKind::UnexpectedEvent);
    assert_eq!(state.phase, Phase::Finished);
}

#[test]
fn truncated_archive_writes_no_marker() {
    let mut events = up_to_unpacking();
    events.push(Event::Failed("unexpected end of file".to_string()));
    let (state, actions) = drive(Platform::Other, events);
    assert_eq!(
        failure(actions.last().unwrap()),
        (
            ErrorKind::Unpack,
            "OpenJDK17U-jdk_x64_linux_hotspot_17.0.2_8.tar.gz".to_string(),
            "unexpected end of file".to_string()
        )
    );
    assert!(!actions.contains(&Action::WriteMarker));
    assert!(!actions.iter().any(|action| matches!(action, Action::Promote(_))));
    assert_eq!(state.phase, Phase::Finished);
}
