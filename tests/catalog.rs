use xivar::fetch::{FetchEvent, FetchState};
use xivar::hits::LocalPaper;
use xivar::library::{decode_catalog, encode_catalog, CatalogError, LibReq, Library};
use xivar::paper::{PaperInfo, PaperTitle, Venue};
use xivar::query::Query;

fn entry(title: &str, location: &str) -> LocalPaper {
    LocalPaper {
        metadata: PaperInfo {
            id: None,
            title: PaperTitle::new(title.to_string()),
            venue: Venue::Conf("ICML".to_string()),
            authors: vec!["Ada Lovelace".to_string()],
            year: "2019".to_string(),
            summary: None,
        },
        location: location.to_string(),
        ees: vec![],
    }
}

#[test]
fn clean_removes_missing_file() {
    let mut lib = Library::new("/tmp".to_string());
    lib.add(entry("A Paper", "/tmp/xivar-test-surely-missing/foo.pdf"));
    let removed = lib.clean();
    assert_eq!(removed.len(), 1);
    assert_eq!(removed[0].location, "/tmp/xivar-test-surely-missing/foo.pdf");
    assert_eq!(lib.size(), 0);
}

#[test]
fn clean_keeps_existing_file() {
    let mut lib = Library::new("/tmp".to_string());
    lib.add(entry("Here", "/"));
    lib.add(entry("Gone", "/tmp/xivar-test-surely-missing/bar.pdf"));
    let removed = lib.clean();
    assert_eq!(removed.len(), 1);
    assert_eq!(lib.size(), 1);
    assert_eq!(lib.papers[0].location, "/");
}

#[test]
fn add_same_work_relinks() {
    let mut lib = Library::new("/tmp".to_string());
    lib.add(entry("A Paper", "/one.pdf"));
    lib.add(entry("a paper", "/two.pdf"));
    assert_eq!(lib.size(), 1);
    assert_eq!(lib.papers[0].location, "/two.pdf");
    lib.add(entry("Another Paper", "/three.pdf"));
    assert_eq!(lib.size(), 2);
    assert!(lib.modified);
}

#[test]
fn query_caps_hits() {
    let mut lib = Library::new("/tmp".to_string());
    lib.add(entry("Deep Learning", "/1.pdf"));
    lib.add(entry("Deep Nets", "/2.pdf"));
    lib.add(entry("Shallow Nets", "/3.pdf"));
    let q = Query::parse("deep");
    assert_eq!(lib.iter_matches(&q, 10).len(), 2);
    assert_eq!(lib.iter_matches(&q, 1).len(), 1);
    assert_eq!(lib.iter_matches(&q, 1)[0].location, "/1.pdf");
    match lib.handle(LibReq::Query { query: Query::parse("nets"), max_hits: 5 }) {
        Some(found) => assert_eq!(found.len(), 2),
        None => panic!("a query is answered"),
    }
    assert!(lib.handle(LibReq::Save { paper: entry("New", "/4.pdf") }).is_none());
    assert_eq!(lib.size(), 4);
    assert!(lib.find_paper_by_path(&"/2.pdf".to_string()).is_some());
    assert!(lib.find_paper_by_path(&"/9.pdf".to_string()).is_none());
    assert_eq!(lib.clear().len(), 4);
    assert_eq!(lib.size(), 0);
}

#[test]
fn catalog_file_round_trip() {
    let body = vec![9u8, 8, 7];
    let file = encode_catalog(&body);
    assert_eq!(file, vec![1, 0, 0, 0, 9, 8, 7]);
    assert_eq!(decode_catalog(&file), Ok(body));
}

#[test]
fn catalog_file_errors() {
    assert_eq!(decode_catalog(&vec![1, 0]), Err(CatalogError::Truncated));
    assert_eq!(decode_catalog(&vec![2, 0, 0, 0, 5]), Err(CatalogError::Version(2)));
}

#[test]
fn fetch_burst_collapses_to_latest() {
    let (s, c) = FetchState::new().on_event(FetchEvent::QueryChanged("a".to_string()));
    assert_eq!(c.start.as_deref(), Some("a"));
    let (s, c) = s.on_event(FetchEvent::QueryChanged("ab".to_string()));
    assert!(c.start.is_none());
    let (s, c) = s.on_event(FetchEvent::QueryChanged("abc".to_string()));
    assert!(c.start.is_none());
    let (s, c) = s.on_event(FetchEvent::Completed);
    assert!(c.forward);
    assert_eq!(c.start.as_deref(), Some("abc"));
    let (s, c) = s.on_event(FetchEvent::Completed);
    assert!(c.forward && c.start.is_none());
    assert!(matches!(s, FetchState::Idle));
}

#[test]
fn fetch_empty_term_drops_pending() {
    let (s, _) = FetchState::new().on_event(FetchEvent::QueryChanged("a".to_string()));
    let (s, _) = s.on_event(FetchEvent::QueryChanged("ab".to_string()));
    let (s, c) = s.on_event(FetchEvent::QueryChanged(String::new()));
    assert!(c.start.is_none());
    let (s, c) = s.on_event(FetchEvent::Completed);
    assert!(c.forward && c.start.is_none());
    assert!(matches!(s, FetchState::Idle));
}

#[test]
fn remove_first_same_work() {
    let mut lib = Library::new("/tmp".to_string());
    lib.add(entry("Kept", "/1.pdf"));
    lib.add(entry("Dropped", "/2.pdf"));
    lib.modified = false;
    assert!(lib.remove(&entry("dropped", "/elsewhere.pdf").metadata));
    assert_eq!(lib.size(), 1);
    assert!(lib.modified);
    assert!(!lib.remove(&entry("Missing", "/3.pdf").metadata));
    assert_eq!(lib.papers[0].location, "/1.pdf");
}

#[test]
fn file_presence() {
    assert!(entry("Root", "/").file_exists());
    assert!(!entry("Gone", "/tmp/xivar-test-surely-missing/x.pdf").file_exists());
}

#[test]
fn save_request_relinks_or_appends() {
    let mut lib = Library::new("/tmp".to_string());
    assert!(lib.handle(LibReq::Save { paper: entry("One", "/1.pdf") }).is_none());
    assert!(lib.handle(LibReq::Save { paper: entry("one", "/moved.pdf") }).is_none());
    assert_eq!(lib.size(), 1);
    assert_eq!(lib.papers[0].location, "/moved.pdf");
    assert!(lib.handle(LibReq::Save { paper: entry("Two", "/2.pdf") }).is_none());
    assert_eq!(lib.size(), 2);
    match lib.handle(LibReq::Query { query: Query::parse("two$"), max_hits: 3 }) {
        Some(found) => assert_eq!(found[0].location, "/2.pdf"),
        None => panic!("a query is answered"),
    }
}

#[test]
fn info_equality_follows_identity() {
    let a = entry("Same Title", "/a.pdf").metadata;
    let b = entry("same title", "/b.pdf").metadata;
    assert!(a == b);
    let c = entry("Other Title", "/c.pdf").metadata;
    assert!(a != c);
}
