use jpre::activation::{
    get_current_jdk, get_symlink_location, link_name, selected_version, spare_name,
    symlink_jdk_path, Activation, LinkAction, LinkPhase, Links, Terminal,
};
use jpre::error::{ErrorKind, JdkError};
use jpre::install::Event;
use jpre::registry::Cache;
use std::collections::HashMap;

const LINK_DIR: &str = "/tmp/jpre-by-tty";

fn attached(device: &str) -> Terminal {
    Terminal::Attached { device: device.to_string(), link_dir_failure: None }
}

fn cache_with(majors: &[(u8, &str)]) -> Cache {
    let mut cache = Cache::new("/cache/jdks".to_string());
    for (major, version) in majors {
        cache.record(major.to_string(), true, Some(format!("JAVA_VERSION=\"{}\"", version)));
    }
    cache
}

fn links_of(map: &HashMap<String, String>) -> Links {
    let mut links = Links::new();
    for (link, target) in map {
        links.record(link.clone(), target.clone());
    }
    links
}

fn begin(target: &str, terminal: &Terminal) -> (Activation, LinkAction) {
    symlink_jdk_path(Ok(target.to_string()), LINK_DIR, terminal)
}

/// Carries a step out on the links, as the file system would.
fn carry_out(map: &mut HashMap<String, String>, state: &Activation, action: &LinkAction) -> Event {
    match action {
        LinkAction::CheckSpare => Event::Exists(map.contains_key(&state.spare)),
        LinkAction::RemoveSpare => {
            map.remove(&state.spare);
            Event::Done
        },
        LinkAction::LinkSpare => {
            if map.contains_key(&state.spare) {
                Event::Failed("File exists".to_string())
            } else {
                map.insert(state.spare.clone(), state.target.clone());
                Event::Done
            }
        },
        LinkAction::Replace => match map.remove(&state.spare) {
            Some(target) => {
                map.insert(state.link.clone(), target);
                Event::Done
            },
            None => Event::Failed("No such file or directory".to_string()),
        },
        LinkAction::Finish(_) => panic!("finished"),
    }
}

#[test]
fn link_name_replaces_separators_by_hyphens() {
    assert_eq!(link_name("/dev/pts/3"), "-dev-pts-3");
    assert_eq!(link_name("/dev/ttys001"), "-dev-ttys001");
    assert_eq!(link_name("/dev/tty"), "/dev/tty".replace('/', "-"));
    assert_eq!(link_name("/dev/ttyUSB_0"), "-dev-ttyUSB_0");
    assert_eq!(link_name(""), "");
    assert_eq!(link_name("//"), "--");
    assert_eq!(link_name("/d\u{e9}v/\u{e9}"), "-d\u{e9}v-\u{e9}");
}

#[test]
fn hyphen_of_the_device_path_is_marked() {
    assert_eq!(link_name("/dev/pts-1"), "-dev-pts%-1");
    assert_eq!(link_name("nothing-to-do"), "nothing%-to%-do");
    assert_eq!(link_name("-"), "%-");
    assert_eq!(link_name("%"), "%%");
    assert_eq!(link_name("/%-/-%"), "-%%%--%-%%");
}

#[test]
fn devices_that_differ_in_separator_and_hyphen_have_different_links() {
    let devices = [
        "/dev/pts/1", "/dev/pts-1", "-dev-pts-1", "-dev/pts/1", "/dev/pts%-1", "/dev/pts%1",
        "/dev/pts%/1", "/-", "-/", "--", "//", "%-", "-%", "%/", "/%", "%%", "%", "-", "/", "",
    ];
    for a in devices {
        for b in devices {
            assert_eq!(link_name(a) == link_name(b), a == b, "{:?} {:?}", a, b);
            assert_ne!(spare_name(a), link_name(b), "{:?} {:?}", a, b);
            let la = get_symlink_location(LINK_DIR, &attached(a)).unwrap();
            let lb = get_symlink_location(LINK_DIR, &attached(b)).unwrap();
            assert_eq!(la == lb, a == b, "{:?} {:?}", a, b);
        }
        assert!(!link_name(a).contains('/'));
    }
}

#[test]
fn spare_name_is_the_link_name_behind_a_percent_sign_and_a_dot() {
    assert_eq!(spare_name("/dev/pts/3"), "%.-dev-pts-3");
}

#[test]
fn session_link_lies_in_the_link_directory() {
    assert_eq!(
        get_symlink_location(LINK_DIR, &attached("/dev/pts/3")).unwrap(),
        "/tmp/jpre-by-tty/-dev-pts-3"
    );
}

#[test]
fn session_without_terminal_has_no_link() {
    let e = get_symlink_location(LINK_DIR, &Terminal::Detached).unwrap_err();
    assert_eq!(e.kind, ErrorKind::NotATty);
    assert_eq!(e.message(), "Not a TTY");
}

#[test]
fn link_directory_that_cannot_be_created_is_an_error() {
    let terminal = Terminal::Attached {
        device: "/dev/pts/3".to_string(),
        link_dir_failure: Some("Read-only file system".to_string()),
    };
    let e = get_symlink_location(LINK_DIR, &terminal).unwrap_err();
    assert_eq!(e.kind, ErrorKind::LinkDirectory);
    assert_eq!(e.cause, "Read-only file system");
    assert_eq!(e.message(), "Failed to create by-tty directory: Read-only file system");
}

#[test]
fn distinct_devices_have_distinct_links() {
    let devices = ["/dev/pts/1", "/dev/pts/2", "/dev/pts/11", "/dev/tty1", "/dev/ttys001"];
    for a in devices {
        for b in devices {
            let la = get_symlink_location(LINK_DIR, &attached(a)).unwrap();
            let lb = get_symlink_location(LINK_DIR, &attached(b)).unwrap();
            assert_eq!(la == lb, a == b);
        }
    }
}

#[test]
fn current_jdk_is_the_version_of_the_linked_major() {
    let cache = cache_with(&[(17, "17.0.2"), (21, "21.0.1")]);
    let mut links = Links::new();
    links.record("/tmp/jpre-by-tty/-dev-pts-3".to_string(), "/cache/jdks/17".to_string());
    assert_eq!(
        get_current_jdk(&cache, &links, LINK_DIR, &attached("/dev/pts/3")),
        Ok("17.0.2".to_string())
    );
}

#[test]
fn current_jdk_without_terminal_is_an_error() {
    let cache = cache_with(&[(17, "17.0.2")]);
    let mut links = Links::new();
    links.record("/tmp/jpre-by-tty/-dev-pts-3".to_string(), "/cache/jdks/17".to_string());
    let e = get_current_jdk(&cache, &links, LINK_DIR, &Terminal::Detached).unwrap_err();
    assert_eq!(e.kind, ErrorKind::NotATty);
}

#[test]
fn every_other_failure_is_the_same_no_current_jdk() {
    let cache = cache_with(&[(17, "17.0.2")]);
    let terminal = attached("/dev/pts/3");
    let link = "/tmp/jpre-by-tty/-dev-pts-3";
    let targets = [
        None,
        Some("/cache/jdks/notanumber"),
        Some("/cache/jdks/21"),
        Some("/cache/jdks/17/.."),
        Some("/"),
        Some(""),
        Some("/cache/jdks/300"),
    ];
    for target in targets {
        let mut links = Links::new();
        if let Some(target) = target {
            links.record(link.to_string(), target.to_string());
        }
        let e = get_current_jdk(&cache, &links, LINK_DIR, &terminal).unwrap_err();
        assert_eq!(e.kind, ErrorKind::NoCurrentJdk);
        assert_eq!(e.subject, "");
        assert_eq!(e.cause, "");
        assert_eq!(e.message(), "No current JDK");
    }
}

#[test]
fn link_of_another_session_is_not_this_session_s() {
    let cache = cache_with(&[(17, "17.0.2")]);
    let mut links = Links::new();
    links.record("/tmp/jpre-by-tty/-dev-pts-4".to_string(), "/cache/jdks/17".to_string());
    let e = get_current_jdk(&cache, &links, LINK_DIR, &attached("/dev/pts/3")).unwrap_err();
    assert_eq!(e.kind, ErrorKind::NoCurrentJdk);
}

#[test]
fn link_target_is_read_by_its_trailing_component() {
    let cache = cache_with(&[(17, "17.0.2")]);
    for target in ["/cache/jdks/17", "/elsewhere/17/", "17", "/cache/jdks/+17", "/x/017/."] {
        let mut links = Links::new();
        links.record("link".to_string(), target.to_string());
        assert_eq!(selected_version(&cache, &links, "link"), Ok("17.0.2".to_string()));
    }
}

#[test]
fn activation_makes_the_new_link_aside_and_renames_it() {
    let (state, action) = begin("/cache/jdks/17", &attached("/dev/pts/3"));
    assert_eq!(action, LinkAction::CheckSpare);
    assert_eq!(state.target, "/cache/jdks/17");
    assert_eq!(state.link, "/tmp/jpre-by-tty/-dev-pts-3");
    assert_eq!(state.spare, "/tmp/jpre-by-tty/%.-dev-pts-3");
    let (state, action) = state.advance(Event::Exists(false));
    assert_eq!(action, LinkAction::LinkSpare);
    let (state, action) = state.advance(Event::Done);
    assert_eq!(action, LinkAction::Replace);
    let (state, action) = state.advance(Event::Done);
    assert_eq!(action, LinkAction::Finish(Ok(())));
    assert_eq!(state.phase, LinkPhase::Finished);
}

#[test]
fn leftover_spare_link_is_removed_first() {
    let (state, _) = begin("/cache/jdks/17", &attached("/dev/pts/3"));
    let (state, action) = state.advance(Event::Exists(true));
    assert_eq!(action, LinkAction::RemoveSpare);
    let (_, action) = state.advance(Event::Done);
    assert_eq!(action, LinkAction::LinkSpare);
}

#[test]
fn activation_without_terminal_stops_at_once() {
    let (state, action) = begin("/cache/jdks/17", &Terminal::Detached);
    assert_eq!(state.phase, LinkPhase::Finished);
    match action {
        LinkAction::Finish(Err(e)) => assert_eq!(e.kind, ErrorKind::NotATty),
        other => panic!("{:?}", other),
    }
}

#[test]
fn each_failing_link_step_gives_its_own_error() {
    let link = "/tmp/jpre-by-tty/-dev-pts-3".to_string();
    let spare = "/tmp/jpre-by-tty/%.-dev-pts-3".to_string();
    let boom = || Event::Failed("boom".to_string());
    let cases: Vec<(Vec<Event>, ErrorKind, String)> = vec![
        (vec![Event::Exists(true), boom()], ErrorKind::RemoveLink, spare.clone()),
        (vec![Event::Exists(false), boom()], ErrorKind::MakeLink, spare.clone()),
        (vec![Event::Exists(false), Event::Done, boom()], ErrorKind::ReplaceLink, link.clone()),
        (vec![Event::Done], ErrorKind::UnexpectedEvent, String::new()),
        (
            vec![Event::Exists(false), Event::Exists(false)],
            ErrorKind::UnexpectedEvent,
            String::new(),
        ),
    ];
    for (events, kind, subject) in cases {
        let (mut state, mut action) = begin("/cache/jdks/17", &attached("/dev/pts/3"));
        for event in events {
            let (next, asked) = state.advance(event);
            state = next;
            action = asked;
        }
        assert_eq!(state.phase, LinkPhase::Finished);
        match action {
            LinkAction::Finish(Err(e)) => {
                assert_eq!(e.kind, kind);
                assert_eq!(e.subject, subject);
            },
            other => panic!("{:?}", other),
        }
    }
}

#[test]
fn old_link_stays_until_the_new_one_takes_its_place() {
    let cache = cache_with(&[(17, "17.0.2"), (21, "21.0.1")]);
    let terminal = attached("/dev/pts/3");
    let mut map: HashMap<String, String> = HashMap::new();
    map.insert("/tmp/jpre-by-tty/-dev-pts-3".to_string(), "/cache/jdks/17".to_string());
    map.insert("/tmp/jpre-by-tty/%.-dev-pts-3".to_string(), "/cache/jdks/8".to_string());
    let (mut state, mut action) = begin("/cache/jdks/21", &terminal);
    loop {
        let seen = get_current_jdk(&cache, &links_of(&map), LINK_DIR, &terminal);
        if let LinkAction::Finish(result) = &action {
            assert_eq!(*result, Ok(()));
            assert_eq!(seen, Ok("21.0.1".to_string()));
            break;
        }
        assert_eq!(seen, Ok("17.0.2".to_string()));
        let event = carry_out(&mut map, &state, &action);
        let (next, asked) = state.advance(event);
        state = next;
        action = asked;
    }
    assert!(!map.contains_key("/tmp/jpre-by-tty/%.-dev-pts-3"));
}

#[test]
fn sessions_side_by_side_each_see_their_own_jdk() {
    let cache = cache_with(&[(17, "17.0.2"), (21, "21.0.1")]);
    let one = attached("/dev/pts/1");
    let two = attached("/dev/pts/2");
    for order in [[true, false], [false, true]] {
        let mut map: HashMap<String, String> = HashMap::new();
        let (mut a, mut a_action) = begin("/cache/jdks/17", &one);
        let (mut b, mut b_action) = begin("/cache/jdks/21", &two);
        for _ in 0..4 {
            for first in order {
                if first {
                    if !matches!(a_action, LinkAction::Finish(_)) {
                        let event = carry_out(&mut map, &a, &a_action);
                        let (next, asked) = a.advance(event);
                        a = next;
                        a_action = asked;
                    }
                } else if !matches!(b_action, LinkAction::Finish(_)) {
                    let event = carry_out(&mut map, &b, &b_action);
                    let (next, asked) = b.advance(event);
                    b = next;
                    b_action = asked;
                }
            }
        }
        assert_eq!(a_action, LinkAction::Finish(Ok(())));
        assert_eq!(b_action, LinkAction::Finish(Ok(())));
        let links = links_of(&map);
        assert_eq!(get_current_jdk(&cache, &links, LINK_DIR, &one), Ok("17.0.2".to_string()));
        assert_eq!(get_current_jdk(&cache, &links, LINK_DIR, &two), Ok("21.0.1".to_string()));
    }
}

#[test]
fn activation_of_one_session_leaves_the_other_s_link_alone() {
    let cache = cache_with(&[(17, "17.0.2"), (21, "21.0.1")]);
    let one = attached("/dev/pts/1");
    let two = attached("/dev/pts/2");
    let mut map: HashMap<String, String> = HashMap::new();
    map.insert("/tmp/jpre-by-tty/-dev-pts-1".to_string(), "/cache/jdks/17".to_string());
    let (mut state, mut action) = begin("/cache/jdks/21", &two);
    while !matches!(action, LinkAction::Finish(_)) {
        let event = carry_out(&mut map, &state, &action);
        let (next, asked) = state.advance(event);
        state = next;
        action = asked;
        assert_eq!(
            get_current_jdk(&cache, &links_of(&map), LINK_DIR, &one),
            Ok("17.0.2".to_string())
        );
    }
    assert_eq!(
        get_current_jdk(&cache, &links_of(&map), LINK_DIR, &two),
        Ok("21.0.1".to_string())
    );
}

#[test]
fn failed_install_stops_the_activation_and_leaves_the_link() {
    let cache = cache_with(&[(17, "17.0.2")]);
    let terminal = attached("/dev/pts/3");
    let mut map: HashMap<String, String> = HashMap::new();
    map.insert("/tmp/jpre-by-tty/-dev-pts-3".to_string(), "/cache/jdks/17".to_string());
    let failure = JdkError::new(ErrorKind::BadResponse);
    let (state, action) = symlink_jdk_path(Err(failure), LINK_DIR, &terminal);
    assert_eq!(state.phase, LinkPhase::Finished);
    assert_eq!(state.link, "/tmp/jpre-by-tty/-dev-pts-3");
    assert_eq!(action, LinkAction::Finish(Err(JdkError::new(ErrorKind::BadResponse))));
    assert_eq!(
        get_current_jdk(&cache, &links_of(&map), LINK_DIR, &terminal),
        Ok("17.0.2".to_string())
    );
    let (state, action) = state.advance(Event::Done);
    assert_eq!(state.phase, LinkPhase::Finished);
    assert!(matches!(action, LinkAction::Finish(Err(_))));
}

#[test]
fn failed_install_comes_before_a_missing_terminal() {
    let failure = JdkError::with_cause(ErrorKind::Unpack, "truncated");
    let (_, action) = symlink_jdk_path(Err(failure), LINK_DIR, &Terminal::Detached);
    match action {
        LinkAction::Finish(Err(e)) => assert_eq!(e.kind, ErrorKind::Unpack),
        other => panic!("{:?}", other),
    }
}

#[test]
fn sessions_whose_devices_differ_in_separator_and_hyphen_keep_apart() {
    let cache = cache_with(&[(17, "17.0.2"), (21, "21.0.1")]);
    let one = attached("/dev/pts/1");
    let two = attached("/dev/pts-1");
    let mut map: HashMap<String, String> = HashMap::new();
    let (mut a, mut a_action) = begin("/cache/jdks/17", &one);
    let (mut b, mut b_action) = begin("/cache/jdks/21", &two);
    for _ in 0..4 {
        if !matches!(b_action, LinkAction::Finish(_)) {
            let event = carry_out(&mut map, &b, &b_action);
            let (next, asked) = b.advance(event);
            b = next;
            b_action = asked;
        }
        if !matches!(a_action, LinkAction::Finish(_)) {
            let event = carry_out(&mut map, &a, &a_action);
            let (next, asked) = a.advance(event);
            a = next;
            a_action = asked;
        }
    }
    assert_eq!(a_action, LinkAction::Finish(Ok(())));
    assert_eq!(b_action, LinkAction::Finish(Ok(())));
    let links = links_of(&map);
    assert_eq!(get_current_jdk(&cache, &links, LINK_DIR, &one), Ok("17.0.2".to_string()));
    assert_eq!(get_current_jdk(&cache, &links, LINK_DIR, &two), Ok("21.0.1".to_string()));
}
