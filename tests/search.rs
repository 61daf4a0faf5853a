use xivar::hits::{ArxivPaper, DBLPPaper, LocalPaper, Paper, PaperHit};
use xivar::identifier::{ArxivIdentifier, Doi, Identifier};
use xivar::merge::{merge_papers, merge_to_papers, FetchResult};
use xivar::paper::{PaperInfo, PaperTitle, PaperUrl, Venue};
use xivar::query::{Query, QueryTerm};
use xivar::remotes::{Arxiv, ArxivEntry, Dblp, DblpEntry};
use xivar::session::{Action, Key, State, StateData};

fn info(title: &str, authors: &[&str], year: &str) -> PaperInfo {
    PaperInfo {
        id: None,
        title: PaperTitle::new(title.to_string()),
        venue: Venue::Conf("NeurIPS".to_string()),
        authors: authors.iter().map(|a| a.to_string()).collect(),
        year: year.to_string(),
        summary: None,
    }
}

fn arxiv_hit(title: &str, year: &str) -> PaperHit {
    let mut i = info(title, &["Ashish Vaswani"], year);
    i.venue = Venue::Journal("CoRR".to_string());
    i.id = Some(Identifier::Arxiv(ArxivIdentifier { year: 17, month: 6, number: "03762".to_string() }));
    PaperHit::Arxiv(ArxivPaper { metadata: i, ee: PaperUrl::new("http://arxiv.org/abs/1706.03762v5".to_string()) })
}

fn dblp_hit(title: &str, year: &str) -> PaperHit {
    PaperHit::Dblp(DBLPPaper {
        metadata: info(title, &["Ashish Vaswani"], year),
        url: PaperUrl::new("https://dblp.org/rec/conf/nips/VaswaniSPUJGKP17".to_string()),
        ee: PaperUrl::new("https://proceedings.neurips.cc/paper/7181".to_string()),
    })
}

fn local_hit(title: &str, year: &str, location: &str) -> PaperHit {
    PaperHit::Local(LocalPaper {
        metadata: info(title, &["Ashish Vaswani"], year),
        location: location.to_string(),
        ees: vec![],
    })
}

fn ranks(p: &Paper) -> Vec<u8> {
    p.hits().iter().map(|h| h.source_rank()).collect()
}

fn terms(q: &Query) -> Vec<(bool, String)> {
    q.terms
        .iter()
        .map(|t| match t {
            QueryTerm::Exact(w) => (true, w.clone()),
            QueryTerm::Prefix(w) => (false, w.clone()),
        })
        .collect()
}

#[test]
fn parse_exact_and_prefix_terms() {
    let q = Query::parse("Smith$ learning");
    assert_eq!(terms(&q), vec![(true, "smith".to_string()), (false, "learning".to_string())]);
}

#[test]
fn exact_term_needs_an_equal_token() {
    let q = Query::parse("Smith$ learning");
    let smithson = info("Deep learning", &["John Smithson"], "2015");
    assert!(!smithson.matches(&q));
    let theory = info("Smith learning theory", &["Jane Doe"], "2015");
    assert!(theory.matches(&q));
}

#[test]
fn empty_query_matches_everything() {
    let q = Query::parse("   ");
    assert!(q.is_empty());
    assert!(Query::empty().is_empty());
    assert!(info("Anything", &["A B"], "2000").matches(&q));
}

#[test]
fn prefix_term_matches_start_of_token() {
    let q = Query::parse("VASW atten");
    assert!(info("Attention Is All You Need", &["Ashish Vaswani"], "2017").matches(&q));
    let q2 = Query::parse("ttention");
    assert!(!info("Attention Is All You Need", &["Ashish Vaswani"], "2017").matches(&q2));
}

#[test]
fn title_drops_dots_and_dollars_and_normalizes() {
    let t = PaperTitle::new("Deep  Learning. For $N$ Things".to_string());
    assert_eq!(t.words, vec!["Deep", "Learning", "For", "N", "Things"]);
    assert_eq!(t.normalized(), "deep learning for n things");
    let p = PaperTitle::new("Attention, please: (a) state-of-the-art \"view\" ; !".to_string());
    assert_eq!(p.words, vec!["Attention", "please", "a", "stateoftheart", "view"]);
    assert_eq!(PaperTitle::new("a,".to_string()).words, vec!["a"]);
}

#[test]
fn merge_two_sources_into_one_paper() {
    let hits = vec![dblp_hit("Attention is all you need", "2017"), arxiv_hit("Attention Is All You Need", "2017")];
    let papers = merge_papers(hits);
    assert_eq!(papers.len(), 1);
    assert_eq!(ranks(&papers[0]), vec![1, 2]);
}

#[test]
fn merge_same_hit_twice_keeps_one() {
    let mut papers = merge_papers(vec![arxiv_hit("Attention Is All You Need", "2017")]);
    merge_to_papers(&mut papers, vec![arxiv_hit("attention is all you need", "2017")]);
    assert_eq!(papers.len(), 1);
    assert_eq!(ranks(&papers[0]), vec![1]);
}

#[test]
fn merge_orders_sources_whatever_the_arrival() {
    let hits = vec![
        dblp_hit("Attention Is All You Need", "2017"),
        arxiv_hit("Attention Is All You Need", "2017"),
        local_hit("Attention Is All You Need", "2017", "/tmp/a.pdf"),
    ];
    let papers = merge_papers(hits);
    assert_eq!(papers.len(), 1);
    assert_eq!(ranks(&papers[0]), vec![0, 1, 2]);
    assert_eq!(papers[0].metadata().year, "2017");
}

#[test]
fn merge_sorts_papers_newest_first() {
    let hits = vec![
        arxiv_hit("Old Paper", "2009"),
        dblp_hit("New Paper", "2021"),
        dblp_hit("Middle Paper", "2015"),
        dblp_hit("No Year", "n/a"),
    ];
    let papers = merge_papers(hits);
    let years: Vec<String> = papers.iter().map(|p| p.metadata().year.clone()).collect();
    assert_eq!(years, vec!["2021", "2015", "2009", "n/a"]);
}

#[test]
fn stale_result_is_not_shown() {
    let mut data = StateData::new();
    for c in "B".chars() {
        data.state_transition(Key::Char(c));
    }
    let stale = FetchResult { query: Query::parse("A"), hits: vec![arxiv_hit("Some Paper", "2020")] };
    assert!(!data.record_result(stale, 0, 3));
    assert!(data.papers().is_empty());
    let fresh = FetchResult { query: Query::parse("b"), hits: vec![arxiv_hit("Some Paper", "2020")] };
    assert!(data.record_result(fresh, 0, 2));
    assert!(matches!(data.state, State::Searching));
    let again = FetchResult { query: Query::parse("b"), hits: vec![] };
    assert!(data.record_result(again, 0, 2));
    assert!(matches!(data.state, State::Searching));
    let other = FetchResult { query: Query::parse("b"), hits: vec![] };
    assert!(data.record_result(other, 1, 2));
    assert_eq!(data.papers().len(), 1);
    assert!(matches!(data.state, State::Idle));
}

#[test]
fn arxiv_identifier_from_abstract_address() {
    let id = ArxivIdentifier::parse_string("http://arxiv.org/abs/2101.00001v1").unwrap();
    assert_eq!((id.year, id.month, id.number.as_str()), (21, 1, "00001v1"));
    assert_eq!(id.text(), "2101.00001v1");
    assert!(ArxivIdentifier::parse_string("http://arxiv.org/abs/x").is_err());
}

#[test]
fn doi_parse_and_text() {
    let d = Doi::parse_doi("10.1145/3386569").unwrap();
    assert_eq!((d.organization, d.id.as_str()), (1145, "3386569"));
    assert_eq!(d.text(), "10.1145/3386569");
    assert!(Doi::parse_doi("not a doi").is_err());
}

#[test]
fn download_and_bib_addresses() {
    match arxiv_hit("T", "2017") {
        PaperHit::Arxiv(p) => assert_eq!(p.download_url().raw(), "https://arxiv.org/pdf/1706.03762.pdf"),
        _ => unreachable!(),
    }
    match dblp_hit("T", "2017") {
        PaperHit::Dblp(p) => assert_eq!(
            p.bib_url().raw(),
            "https://dblp.org/rec/conf/nips/VaswaniSPUJGKP17.bib?param=0"
        ),
        _ => unreachable!(),
    }
}

#[test]
fn request_addresses() {
    let q = Query::parse("attention$ Need");
    assert_eq!(
        Arxiv::get_url(&q, 30),
        "http://export.arxiv.org/api/query?search_query=attention+AND+need&max_results=30"
    );
    assert_eq!(Dblp::get_url(&q, 7), "https://dblp.org/search/publ/api?q=attention$+need&h=7");
}

#[test]
fn arxiv_entry_decoding() {
    let e = ArxivEntry {
        title: Some("Attention Is All You Need.".to_string()),
        summary: Some("We propose".to_string()),
        published: Some("2017-06-12T17:57:34Z".to_string()),
        authors: vec!["Ashish Vaswani 0001 ".to_string()],
        id: Some("http://arxiv.org/abs/1706.03762v5".to_string()),
    };
    match Arxiv::entry_to_hit(&e) {
        PaperHit::Arxiv(p) => {
            assert_eq!(p.metadata.year, "2017");
            assert_eq!(p.metadata.authors, vec!["Ashish Vaswani"]);
            assert_eq!(p.metadata.title.normalized(), "attention is all you need");
            assert_eq!(p.metadata.id.as_ref().unwrap().text(), "1706.03762v5");
        }
        _ => unreachable!(),
    }
}

#[test]
fn arxiv_entry_missing_fields() {
    let e = ArxivEntry { title: None, summary: None, published: None, authors: vec![], id: None };
    match Arxiv::entry_to_hit(&e) {
        PaperHit::Arxiv(p) => {
            assert!(p.metadata.id.is_none());
            assert_eq!(p.ee.raw(), "None");
            assert_eq!(p.metadata.year, "");
        }
        _ => unreachable!(),
    }
}

#[test]
fn dblp_entry_decoding_and_venues() {
    let e = DblpEntry {
        title: Some("Attention is All you Need.".to_string()),
        venue: Some("CoRR".to_string()),
        key: Some("journals/corr/VaswaniSPUJGKP17".to_string()),
        year: Some("2017".to_string()),
        authors: vec!["Ashish Vaswani".to_string()],
        ee: Some("http://arxiv.org/abs/1706.03762".to_string()),
        url: Some("https://dblp.org/rec/journals/corr/arxiv-1706".to_string()),
        doi: None,
    };
    match Dblp::entry_to_hit(&e) {
        PaperHit::Dblp(p) => {
            assert!(matches!(p.metadata.venue, Venue::Arxiv(_)));
            assert!(p.metadata.id.is_none());
        }
        _ => unreachable!(),
    }
    assert!(matches!(Dblp::classify_venue("journals/jmlr/X", "JMLR".to_string()), Venue::Journal(_)));
    assert!(matches!(Dblp::classify_venue("conf/nips/X", "NeurIPS".to_string()), Venue::Conf(_)));
    let with_doi = DblpEntry { doi: Some("10.5555/3295222".to_string()), ..e };
    match Dblp::entry_to_hit(&with_doi) {
        PaperHit::Dblp(p) => assert_eq!(p.metadata.id.as_ref().unwrap().text(), "10.5555/3295222"),
        _ => unreachable!(),
    }
}

#[test]
fn typing_and_backspace() {
    let mut data = StateData::new();
    assert!(matches!(data.state_transition(Key::Char('a')), Some(Action::UpdateSearch)));
    assert!(matches!(data.state, State::Searching));
    assert_eq!(data.term(), "a");
    assert!(data.state_transition(Key::Char('\n')).is_none());
    assert!(matches!(data.state_transition(Key::Backspace), Some(Action::UpdateSearch)));
    assert_eq!(data.term(), "");
    assert!(matches!(data.state, State::Idle));
    assert!(matches!(data.state_transition(Key::Ctrl('c')), Some(Action::Quit)));
}

#[test]
fn down_on_empty_list_does_nothing() {
    let mut data = StateData::new();
    assert!(data.state_transition(Key::Down).is_none());
    assert!(matches!(data.state, State::Idle));
}

#[test]
fn scroll_select_and_back() {
    let mut data = StateData::new();
    data.merge_to_papers(vec![
        arxiv_hit("First", "2020"),
        dblp_hit("First", "2020"),
        dblp_hit("Second", "2019"),
    ]);
    assert!(matches!(data.state_transition(Key::Down), Some(Action::Reprint)));
    assert!(matches!(data.state, State::Scrolling(0)));
    data.state_transition(Key::Down);
    data.state_transition(Key::Down);
    assert!(matches!(data.state, State::Scrolling(1)));
    data.state_transition(Key::Up);
    assert!(matches!(data.state, State::Scrolling(0)));
    assert!(data.state_transition(Key::Char('7')).is_none());
    assert!(matches!(data.state_transition(Key::Char('2')), Some(Action::Reprint)));
    assert!(matches!(data.state, State::SelectedHit { index: 0, hit: PaperHit::Dblp(_) }));
    match data.state_transition(Key::Char('3')) {
        Some(Action::FetchToClip(u)) => assert!(u.raw().ends_with(".bib?param=0")),
        _ => panic!("expected a clipboard fetch"),
    }
    data.state_transition(Key::Esc);
    assert!(matches!(data.state, State::Scrolling(0)));
    data.state_transition(Key::Char('1'));
    match data.state_transition(Key::Char('1')) {
        Some(Action::Download(i, u)) => {
            assert_eq!(i.year, "2020");
            assert_eq!(u.raw(), "https://arxiv.org/pdf/1706.03762.pdf");
        }
        _ => panic!("expected a download"),
    }
    data.state_transition(Key::Char('s'));
    assert!(matches!(data.state, State::Scrolling(0)));
    match data.state_transition(Key::Char('\n')) {
        Some(Action::Open(t)) => assert_eq!(t, "http://arxiv.org/abs/1706.03762v5"),
        _ => panic!("expected an open"),
    }
    data.state_transition(Key::Esc);
    assert!(matches!(data.state, State::Searching));
}

#[test]
fn source_tags() {
    assert_eq!(arxiv_hit("T", "2017").remote_tag(), "arXiv(2017)");
    assert_eq!(dblp_hit("T", "2017").remote_tag(), "DBLP(2017 NeurIPS)");
    assert_eq!(local_hit("T", "2016", "/x.pdf").remote_tag(), "Local(2016 NeurIPS)");
}

#[test]
fn default_file_name() {
    let mut i = info("Attention is all you need", &["Ashish Vaswani", "noam Shazeer", "", "Niki Parmar"], "2017");
    assert_eq!(i.default_filename(), "vaswaniNN17attentionis");
    i.year = "1/2/3".to_string();
    assert_eq!(i.default_filename(), "vaswaniNN2-3attentionis");
    let german = info("Straße Netz Modelle", &["Ashish Vaswani"], "2017");
    assert_eq!(german.default_filename(), "vaswani17strassenetz");
}

#[test]
fn paper_text_shows_metadata_and_tags() {
    let papers = merge_papers(vec![dblp_hit("Attention Is All You Need.", "2017"), arxiv_hit("Attention Is All You Need", "2017")]);
    assert_eq!(
        papers[0].text(),
        "Attention Is All You Need. [Ashish Vaswani] arXiv(2017) DBLP(2017 NeurIPS) "
    );
}

#[test]
fn punctuation_does_not_split_a_paper() {
    let papers = merge_papers(vec![arxiv_hit("Attention, please!", "2020"), dblp_hit("Attention please", "2020")]);
    assert_eq!(papers.len(), 1);
    assert_eq!(ranks(&papers[0]), vec![1, 2]);
}

#[test]
fn lowered_word_to_term() {
    assert!(matches!(QueryTerm::from_lowered("smith$".to_string()), QueryTerm::Exact(w) if w == "smith"));
    assert!(matches!(QueryTerm::from_lowered("$".to_string()), QueryTerm::Exact(w) if w.is_empty()));
    assert!(matches!(QueryTerm::from_lowered("learn".to_string()), QueryTerm::Prefix(w) if w == "learn"));
}

#[test]
fn identifiers_from_groups() {
    let g = Some(vec!["2101.00001".to_string(), "21".to_string(), "01".to_string(), "00001".to_string()]);
    let a = ArxivIdentifier::from_groups(g).unwrap();
    assert_eq!((a.year, a.month, a.number.as_str()), (21, 1, "00001"));
    assert!(ArxivIdentifier::from_groups(None).is_err());
    assert!(ArxivIdentifier::from_groups(Some(vec!["x".to_string(), "2".to_string()])).is_err());
    let d = Doi::from_groups(Some(vec!["10.1/x".to_string(), "1".to_string(), "x".to_string()])).unwrap();
    assert_eq!((d.organization, d.id.as_str()), (1, "x"));
    assert!(Doi::from_groups(Some(vec!["".to_string(), "99999999999".to_string(), "x".to_string()])).is_err());
}
