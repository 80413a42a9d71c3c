use jpre::error::ErrorKind;
use jpre::registry::{
    get_all_jdk_majors, get_jdk_version, map_available_jdk_versions, parse_major, Cache, Entry,
    Listing,
};

fn release_of(version: &str) -> Option<String> {
    Some(format!("IMPLEMENTOR=\"Eclipse Adoptium\"\nJAVA_VERSION=\"{}\"\n", version))
}

fn names(list: &[&str]) -> Listing {
    Listing::Entries(list.iter().map(|name| Entry::Name(name.to_string())).collect())
}

#[test]
fn missing_cache_root_holds_no_majors() {
    let majors = get_all_jdk_majors(&Listing::Missing).unwrap();
    assert!(majors.is_empty());
}

#[test]
fn empty_cache_root_holds_no_majors() {
    assert_eq!(get_all_jdk_majors(&names(&[])).unwrap(), Vec::<u8>::new());
}

#[test]
fn names_that_are_no_major_are_skipped() {
    let listing = names(&["17", "21", "notanumber", "README"]);
    assert_eq!(get_all_jdk_majors(&listing).unwrap(), vec![17u8, 21u8]);
}

#[test]
fn majors_come_in_the_order_in_which_they_are_first_named() {
    let listing = names(&["21", "jdk-download.abc", "8", "300", "17", "+11", "011"]);
    assert_eq!(get_all_jdk_majors(&listing).unwrap(), vec![21u8, 8, 17, 11]);
}

#[test]
fn major_that_several_entries_name_is_listed_once() {
    assert_eq!(get_all_jdk_majors(&names(&["17", "017"])).unwrap(), vec![17u8]);
    assert_eq!(get_all_jdk_majors(&names(&["+17", "17", "017", "0017"])).unwrap(), vec![17u8]);
    assert_eq!(
        get_all_jdk_majors(&names(&["08", "17", "8", "017", "21", "+8"])).unwrap(),
        vec![8u8, 17, 21]
    );
}

#[test]
fn cache_root_that_cannot_be_read_is_an_error() {
    let e = get_all_jdk_majors(&Listing::Failed("Permission denied".to_string())).unwrap_err();
    assert_eq!(e.kind, ErrorKind::ReadCache);
    assert_eq!(e.cause, "Permission denied");
    assert_eq!(e.subject, "");
}

#[test]
fn first_unreadable_entry_is_the_error() {
    let listing = Listing::Entries(vec![
        Entry::Name("17".to_string()),
        Entry::Unreadable("first".to_string()),
        Entry::Name("21".to_string()),
        Entry::Unreadable("second".to_string()),
    ]);
    let e = get_all_jdk_majors(&listing).unwrap_err();
    assert_eq!(e.kind, ErrorKind::ReadCacheEntry);
    assert_eq!(e.cause, "first");
}

#[test]
fn parse_major_reads_directory_names() {
    assert_eq!(parse_major("17"), Some(17));
    assert_eq!(parse_major("255"), Some(255));
    assert_eq!(parse_major("256"), None);
    assert_eq!(parse_major("jdk17"), None);
}

#[test]
fn marked_directory_with_release_reports_its_version() {
    let mut cache = Cache::new("/cache/jdks".to_string());
    cache.record("17".to_string(), true, release_of("17.0.2"));
    assert_eq!(get_jdk_version(&cache, 17), Some("17.0.2".to_string()));
}

#[test]
fn directory_without_marker_is_not_installed_whatever_it_holds() {
    let mut cache = Cache::new("/cache/jdks".to_string());
    cache.record("17".to_string(), false, release_of("17.0.2"));
    assert_eq!(get_jdk_version(&cache, 17), None);
    let majors = vec![17u8];
    assert!(map_available_jdk_versions(&cache, &majors).is_empty());
}

#[test]
fn marker_alone_decides_for_a_directory_with_a_usable_release() {
    for marker in [false, true] {
        let mut cache = Cache::new("/cache/jdks".to_string());
        cache.record("21".to_string(), marker, release_of("21.0.1"));
        assert_eq!(get_jdk_version(&cache, 21).is_some(), marker);
    }
}

#[test]
fn directory_that_is_not_there_is_not_installed() {
    let cache = Cache::new("/cache/jdks".to_string());
    assert_eq!(get_jdk_version(&cache, 17), None);
}

#[test]
fn marked_directory_without_release_reports_no_version() {
    let mut cache = Cache::new("/cache/jdks".to_string());
    cache.record("17".to_string(), true, None);
    assert_eq!(get_jdk_version(&cache, 17), None);
}

#[test]
fn marked_directory_with_unusable_release_reports_no_version() {
    let mut cache = Cache::new("/cache/jdks".to_string());
    cache.record("17".to_string(), true, Some("not a release file".to_string()));
    cache.record("18".to_string(), true, Some("IMPLEMENTOR=\"x\"".to_string()));
    assert_eq!(get_jdk_version(&cache, 17), None);
    assert_eq!(get_jdk_version(&cache, 18), None);
}

#[test]
fn version_is_looked_up_under_the_plain_spelling_of_the_major() {
    let mut cache = Cache::new("/cache/jdks".to_string());
    cache.record("017".to_string(), true, release_of("17.0.2"));
    assert_eq!(get_jdk_version(&cache, 17), None);
    cache.record("17".to_string(), true, release_of("17.0.9"));
    assert_eq!(get_jdk_version(&cache, 17), Some("17.0.9".to_string()));
}

#[test]
fn later_record_of_a_directory_replaces_the_earlier() {
    let mut cache = Cache::new("/cache/jdks".to_string());
    cache.record("17".to_string(), true, release_of("17.0.2"));
    cache.record("17".to_string(), false, release_of("17.0.2"));
    assert_eq!(get_jdk_version(&cache, 17), None);
}

#[test]
fn cache_root_with_two_jdks_and_stray_entries() {
    let listing = names(&["17", "21", "notanumber", "README"]);
    let majors = get_all_jdk_majors(&listing).unwrap();
    let mut both = Cache::new("/cache/jdks".to_string());
    both.record("17".to_string(), true, release_of("17.0.2"));
    both.record("21".to_string(), true, release_of("21.0.1"));
    both.record("notanumber".to_string(), true, release_of("1.0"));
    assert_eq!(
        map_available_jdk_versions(&both, &majors),
        vec![(17u8, "17.0.2".to_string()), (21u8, "21.0.1".to_string())]
    );
    let mut one = Cache::new("/cache/jdks".to_string());
    one.record("17".to_string(), true, release_of("17.0.2"));
    one.record("21".to_string(), false, release_of("21.0.1"));
    assert_eq!(map_available_jdk_versions(&one, &majors), vec![(17u8, "17.0.2".to_string())]);
    let mut none = Cache::new("/cache/jdks".to_string());
    none.record("17".to_string(), false, release_of("17.0.2"));
    none.record("21".to_string(), false, release_of("21.0.1"));
    assert!(map_available_jdk_versions(&none, &majors).is_empty());
}

#[test]
fn available_versions_come_in_ascending_order_of_the_majors() {
    let mut cache = Cache::new("/cache/jdks".to_string());
    for major in [8u8, 11, 17, 21] {
        cache.record(major.to_string(), true, release_of(&format!("{}.0.1", major)));
    }
    let majors = vec![21u8, 8, 17, 11, 9, 17];
    assert_eq!(
        map_available_jdk_versions(&cache, &majors),
        vec![
            (8u8, "8.0.1".to_string()),
            (11u8, "11.0.1".to_string()),
            (17u8, "17.0.1".to_string()),
            (17u8, "17.0.1".to_string()),
            (21u8, "21.0.1".to_string()),
        ]
    );
}

#[test]
fn available_versions_of_no_majors_are_none() {
    let mut cache = Cache::new("/cache/jdks".to_string());
    cache.record("17".to_string(), true, release_of("17.0.2"));
    assert!(map_available_jdk_versions(&cache, &Vec::new()).is_empty());
}
