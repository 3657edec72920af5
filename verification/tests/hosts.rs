use connectx::failure::Failure;
use connectx::hosts::{is_mentioned, Host, HostDirectory};

fn names(hosts: &Vec<Host>) -> Vec<String> {
    hosts.iter().map(|host| host.hostname.clone()).collect()
}

fn sample() -> HostDirectory {
    let mut directory = HostDirectory::new();
    directory.upsert(Host::new("web01", "App")).unwrap();
    directory.upsert(Host::new("db01", "Webserver")).unwrap();
    directory.upsert(Host::new("mail", "Exchange")).unwrap();
    directory
}

#[test]
fn a_new_directory_is_empty() {
    let directory = HostDirectory::new();
    assert_eq!(directory.len(), 0);
    assert!(directory.list().is_empty());
}

#[test]
fn upsert_twice_keeps_one_record() {
    let mut directory = HostDirectory::new();
    assert_eq!(directory.upsert(Host::new("a", "x")), Ok(()));
    assert_eq!(directory.upsert(Host::new("a", "y")), Ok(()));
    assert_eq!(directory.list(), vec![Host::new("a", "y")]);
}

#[test]
fn upsert_replaces_in_place_and_appends_at_the_end() {
    let mut directory = sample();
    directory.upsert(Host::new("db01", "Database")).unwrap();
    directory.upsert(Host::new("new", "Fresh")).unwrap();
    assert_eq!(
        directory.list(),
        vec![
            Host::new("web01", "App"),
            Host::new("db01", "Database"),
            Host::new("mail", "Exchange"),
            Host::new("new", "Fresh"),
        ]
    );
}

#[test]
fn upsert_replaces_only_the_first_of_a_name() {
    let mut directory = HostDirectory {
        hosts: vec![Host::new("a", "1"), Host::new("b", "2"), Host::new("a", "3")],
    };
    directory.upsert(Host::new("a", "new")).unwrap();
    assert_eq!(
        directory.list(),
        vec![Host::new("a", "new"), Host::new("b", "2"), Host::new("a", "3")]
    );
}

#[test]
fn upsert_refuses_an_empty_or_blank_name() {
    let mut directory = sample();
    let before = directory.list();
    assert_eq!(directory.upsert(Host::new("", "x")), Err(Failure::EmptyHostname));
    assert_eq!(directory.upsert(Host::new("   ", "x")), Err(Failure::EmptyHostname));
    assert_eq!(directory.upsert(Host::new("\t\n", "x")), Err(Failure::EmptyHostname));
    assert_eq!(directory.list(), before);
    assert_eq!(directory.upsert(Host::new(" a ", "x")), Ok(()));
    assert_eq!(directory.len(), 4);
}

#[test]
fn delete_on_an_empty_directory_changes_nothing() {
    let mut directory = HostDirectory::new();
    directory.delete("a");
    assert_eq!(directory.len(), 0);
    assert!(directory.list().is_empty());
}

#[test]
fn delete_removes_the_named_host() {
    let mut directory = sample();
    directory.delete("db01");
    assert_eq!(names(&directory.list()), vec!["web01", "mail"]);
    directory.delete("absent");
    assert_eq!(names(&directory.list()), vec!["web01", "mail"]);
    directory.delete("WEB01");
    assert_eq!(names(&directory.list()), vec!["web01", "mail"]);
}

#[test]
fn delete_removes_every_host_of_the_name() {
    let mut directory = HostDirectory {
        hosts: vec![Host::new("a", "1"), Host::new("b", "2"), Host::new("a", "3")],
    };
    directory.delete("a");
    assert_eq!(directory.list(), vec![Host::new("b", "2")]);
}

#[test]
fn search_matches_name_or_description_in_any_case() {
    let directory = HostDirectory {
        hosts: vec![Host::new("web01", "App"), Host::new("db01", "Webserver")],
    };
    assert_eq!(
        directory.search("WEB"),
        vec![Host::new("web01", "App"), Host::new("db01", "Webserver")]
    );
}

#[test]
fn search_keeps_the_order_and_drops_the_rest() {
    let directory = sample();
    assert_eq!(names(&directory.search("01")), vec!["web01", "db01"]);
    assert_eq!(names(&directory.search("exchange")), vec!["mail"]);
    assert_eq!(names(&directory.search("MAIL")), vec!["mail"]);
    assert!(directory.search("nothing").is_empty());
    assert!(directory.search("web01x").is_empty());
}

#[test]
fn search_with_an_empty_query_finds_all() {
    let directory = sample();
    assert_eq!(directory.search(""), directory.list());
    assert!(HostDirectory::new().search("").is_empty());
}

#[test]
fn search_folds_letters_beyond_ascii() {
    let directory = HostDirectory { hosts: vec![Host::new("münchen", "Büro ÄÖÜ")] };
    assert_eq!(directory.search("MÜNCHEN").len(), 1);
    assert_eq!(directory.search("äöü").len(), 1);
    assert!(directory.search("munchen").is_empty());
}

#[test]
fn duplicate_equals_the_host() {
    let host = Host::new("web01", "App");
    assert_eq!(host.duplicate(), host);
    assert_eq!(host.hostname, "web01");
    assert_eq!(host.description, "App");
}

#[test]
fn put_places_a_host_at_the_first_place_of_its_name() {
    let mut directory = HostDirectory::new();
    directory.put(Host::new("a", "x"));
    directory.put(Host::new("b", "y"));
    directory.put(Host::new("a", "z"));
    assert_eq!(directory.list(), vec![Host::new("a", "z"), Host::new("b", "y")]);
    assert_eq!(directory.len(), 2);
}

#[test]
fn names_stay_distinct_through_saves_and_deletes() {
    let mut directory = HostDirectory::new();
    for name in ["a", "b", "a", "c", "b", "d", "a"] {
        directory.upsert(Host::new(name, "x")).unwrap();
    }
    directory.delete("c");
    directory.upsert(Host::new("d", "y")).unwrap();
    let listed = names(&directory.list());
    assert_eq!(listed, vec!["a", "b", "d"]);
}

#[test]
fn a_query_is_mentioned_in_the_name_or_in_the_description() {
    assert!(is_mentioned("web01", "app", "web"));
    assert!(is_mentioned("db01", "webserver", "web"));
    assert!(is_mentioned("db01", "webserver", ""));
    assert!(is_mentioned("", "", ""));
    assert!(!is_mentioned("db01", "database", "web"));
    assert!(!is_mentioned("web01", "app", "WEB"));
    assert!(!is_mentioned("we", "b01", "web"));
}
