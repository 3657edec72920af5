use connectx::failure::Failure;
use connectx::hosts::{Host, HostDirectory};

fn row(fields: &[&str]) -> Vec<String> {
    fields.iter().map(|field| field.to_string()).collect()
}

#[test]
fn parse_reads_the_records_after_the_header() {
    let directory = HostDirectory::parse("hostname,description\nweb01,App\ndb01,Webserver\n").unwrap();
    assert_eq!(directory.list(), vec![Host::new("web01", "App"), Host::new("db01", "Webserver")]);
}

#[test]
fn parse_of_a_header_alone_is_empty() {
    assert_eq!(HostDirectory::parse("hostname,description\n").unwrap().len(), 0);
    assert_eq!(HostDirectory::parse("").unwrap().len(), 0);
}

#[test]
fn parse_takes_the_first_two_fields() {
    let directory = HostDirectory::parse("a,b,c\nweb01,App,extra\n").unwrap();
    assert_eq!(directory.list(), vec![Host::new("web01", "App")]);
}

#[test]
fn parse_passes_over_records_of_one_field() {
    let directory = HostDirectory::parse("hostname\nweb01\ndb01\n").unwrap();
    assert_eq!(directory.len(), 0);
}

#[test]
fn parse_reads_quoted_fields() {
    let directory =
        HostDirectory::parse("\"hostname\",\"description\"\n\"web01\",\"App, main\"\n").unwrap();
    assert_eq!(directory.list(), vec![Host::new("web01", "App, main")]);
}

#[test]
fn parse_fails_on_records_of_unequal_length() {
    match HostDirectory::parse("hostname,description\nweb01\n") {
        Err(Failure::Malformed(words)) => assert!(!words.is_empty()),
        other => panic!("expected a malformed table, got {:?}", other),
    }
}

#[test]
fn malformed_table_is_told_with_the_readers_words() {
    let failure = HostDirectory::parse("hostname,description\nweb01\n").unwrap_err();
    let reader = csv::ReaderBuilder::new()
        .has_headers(true)
        .from_reader("hostname,description\nweb01\n".as_bytes())
        .records()
        .next()
        .unwrap()
        .unwrap_err();
    assert_eq!(failure.message(), format!("Failed to parse CSV record: {}", reader));
}

#[test]
fn load_without_a_file_is_empty() {
    assert_eq!(HostDirectory::load(None).unwrap().len(), 0);
    let directory = HostDirectory::load(Some("hostname,description\nweb01,App\n")).unwrap();
    assert_eq!(directory.list(), vec![Host::new("web01", "App")]);
    assert!(HostDirectory::load(Some("a,b\nc\n")).is_err());
}

#[test]
fn from_records_keeps_records_of_two_fields_or_more() {
    let rows = vec![
        row(&["web01", "App"]),
        row(&["lonely"]),
        row(&[]),
        row(&["db01", "Webserver", "extra"]),
    ];
    let directory = HostDirectory::from_records(&rows);
    assert_eq!(directory.list(), vec![Host::new("web01", "App"), Host::new("db01", "Webserver")]);
    assert_eq!(HostDirectory::from_records(&Vec::new()).len(), 0);
}

#[test]
fn rows_start_with_the_header() {
    let directory = HostDirectory { hosts: vec![Host::new("web01", "App")] };
    assert_eq!(directory.rows(), vec![row(&["hostname", "description"]), row(&["web01", "App"])]);
    assert_eq!(HostDirectory::new().rows(), vec![row(&["hostname", "description"])]);
}

#[test]
fn render_writes_the_header_and_the_records() {
    let directory = HostDirectory {
        hosts: vec![Host::new("web01", "App"), Host::new("db01", "Webserver")],
    };
    let bytes = directory.render().unwrap();
    assert_eq!(
        String::from_utf8(bytes).unwrap(),
        "hostname,description\nweb01,App\ndb01,Webserver\n"
    );
    assert_eq!(
        String::from_utf8(HostDirectory::new().render().unwrap()).unwrap(),
        "hostname,description\n"
    );
}

#[test]
fn render_quotes_what_needs_quoting() {
    let directory = HostDirectory { hosts: vec![Host::new("web01", "App, \"main\"")] };
    let text = String::from_utf8(directory.render().unwrap()).unwrap();
    assert_eq!(text, "hostname,description\nweb01,\"App, \"\"main\"\"\"\n");
}

#[test]
fn what_is_rendered_is_parsed_back() {
    let mut directory = HostDirectory::new();
    directory.upsert(Host::new("web01", "App, with comma")).unwrap();
    directory.upsert(Host::new("db01", "line\nbreak")).unwrap();
    directory.upsert(Host::new("mail", "")).unwrap();
    let text = String::from_utf8(directory.render().unwrap()).unwrap();
    assert_eq!(HostDirectory::parse(&text).unwrap(), directory);
}

#[test]
fn saved_twice_and_stored_lists_one_record() {
    let mut directory = HostDirectory::load(None).unwrap();
    directory.upsert(Host::new("a", "x")).unwrap();
    let stored = String::from_utf8(directory.render().unwrap()).unwrap();
    let mut directory = HostDirectory::load(Some(&stored)).unwrap();
    directory.upsert(Host::new("a", "y")).unwrap();
    let stored = String::from_utf8(directory.render().unwrap()).unwrap();
    assert_eq!(HostDirectory::load(Some(&stored)).unwrap().list(), vec![Host::new("a", "y")]);
}

#[test]
fn a_malformed_table_reads_the_same_twice() {
    let text = "hostname,description\nweb01,App\nlonely\n";
    let first = HostDirectory::parse(text);
    let second = HostDirectory::parse(text);
    assert!(first.is_err());
    assert_eq!(first, second);
    assert_eq!(HostDirectory::load(Some(text)), first);
}

#[test]
fn render_never_fails() {
    let mut directory = HostDirectory::new();
    assert!(directory.render().is_ok());
    for number in 0..50 {
        directory.put(Host::new(&format!("host{}", number), "x,\"y\"\n"));
        assert!(directory.render().is_ok());
    }
    directory.put(Host::new("", ""));
    let text = String::from_utf8(directory.render().unwrap()).unwrap();
    assert_eq!(HostDirectory::parse(&text).unwrap(), directory);
}

#[test]
fn saved_looks_at_the_name_first() {
    assert_eq!(HostDirectory::saved(None, Host::new("", "x")), Err(Failure::EmptyHostname));
    assert_eq!(HostDirectory::saved(None, Host::new(" \t", "x")), Err(Failure::EmptyHostname));
    assert_eq!(
        HostDirectory::saved(Some("a,b\nc\n"), Host::new("", "x")),
        Err(Failure::EmptyHostname)
    );
    match HostDirectory::saved(Some("a,b\nc\n"), Host::new("web01", "x")) {
        Err(Failure::Malformed(words)) => {
            assert_eq!(Err(Failure::Malformed(words)), HostDirectory::parse("a,b\nc\n"))
        }
        other => panic!("expected a malformed table, got {:?}", other),
    }
}

#[test]
fn saved_puts_the_host_into_what_was_stored() {
    let directory = HostDirectory::saved(None, Host::new("a", "x")).unwrap();
    assert_eq!(directory.list(), vec![Host::new("a", "x")]);
    let stored = String::from_utf8(directory.render().unwrap()).unwrap();
    let directory = HostDirectory::saved(Some(&stored), Host::new("b", "y")).unwrap();
    let stored = String::from_utf8(directory.render().unwrap()).unwrap();
    let directory = HostDirectory::saved(Some(&stored), Host::new("a", "z")).unwrap();
    assert_eq!(directory.list(), vec![Host::new("a", "z"), Host::new("b", "y")]);
}

#[test]
fn removed_deletes_from_what_was_stored() {
    assert_eq!(HostDirectory::removed(None, "a").unwrap().len(), 0);
    let stored = "hostname,description\na,x\nb,y\na,z\n";
    assert_eq!(HostDirectory::removed(Some(stored), "a").unwrap().list(), vec![Host::new("b", "y")]);
    assert_eq!(HostDirectory::removed(Some(stored), "c").unwrap().len(), 3);
    assert_eq!(HostDirectory::removed(Some("a,b\nc\n"), "a"), HostDirectory::parse("a,b\nc\n"));
}
