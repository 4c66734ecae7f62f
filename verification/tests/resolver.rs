//! Book resolution against fixed fake search pages.

use calibre_bot::errors::ResolveError;
use calibre_bot::resolver::{
    build_search_url, finish_search_url, parse_search_results, record_document_request,
    search_response, strip_record_prefix, BookResolution, Candidate,
};

fn page_with_anchors(hrefs: &[Option<&str>]) -> String {
    let mut rows = String::new();
    for href in hrefs {
        match href {
            Some(h) => rows.push_str(&format!("<div><a href=\"{}\">A book</a></div>", h)),
            None => rows.push_str("<div><a>A book without a link</a></div>"),
        }
    }
    format!(
        "<html><body><main><div>junk</div><form action=\"/search\"></form><div>{}</div></main></body></html>",
        rows
    )
}

fn no_results_page() -> String {
    String::from(
        "<html><body><main><div>junk</div><div><span>No results</span></div></main></body></html>",
    )
}

#[test]
fn search_url_is_the_escaped_template() {
    let url = build_search_url("Harry Potter").unwrap();
    assert_eq!(url, "https://annas-archive.org/search?q=Harry%20Potter");
}

#[test]
fn search_url_escapes_what_the_parser_would_keep() {
    // The URL parser leaves a backtick in a query untouched, so only the
    // fragment escaping can put the `%60` here.
    let url = build_search_url("wizard`s guide").unwrap();
    assert_eq!(url, "https://annas-archive.org/search?q=wizard%60s%20guide");
}

#[test]
fn an_empty_query_still_searches_the_template() {
    let url = build_search_url("").unwrap();
    assert_eq!(url, "https://annas-archive.org/search?q=");
}

#[test]
fn unparsable_search_text_is_invalid_url() {
    let r = finish_search_url(String::from("ht tp://bad"), None);
    match r {
        Err(ResolveError::InvalidUrl { url }) => assert_eq!(url, "ht tp://bad"),
        other => panic!("expected InvalidUrl, got {:?}", other),
    }
}

#[test]
fn missing_search_body_is_request_failed() {
    let r = search_response("https://annas-archive.org/search?q=x", None);
    match r {
        Err(ResolveError::RequestFailed { url }) => {
            assert_eq!(url, "https://annas-archive.org/search?q=x");
        }
        other => panic!("expected RequestFailed, got {:?}", other),
    }
    let ok = search_response("u", Some(String::from("<html></html>"))).unwrap();
    assert_eq!(ok, "<html></html>");
}

#[test]
fn zero_anchors_is_no_results() {
    let r = parse_search_results("Harry Potter", "u", no_results_page().as_str());
    match r {
        Err(ResolveError::NoResults { query }) => assert_eq!(query, "Harry Potter"),
        other => panic!("expected NoResults, got {:?}", other),
    }
}

#[test]
fn anchors_are_capped_at_two() {
    let page = page_with_anchors(&[Some("/md5/aaa"), Some("/md5/bbb"), Some("/md5/ccc")]);
    let cands = parse_search_results("q", "u", page.as_str()).unwrap();
    assert_eq!(cands.len(), 2);
    assert_eq!(cands[0].record_id, "aaa");
    assert_eq!(cands[1].record_id, "bbb");
}

#[test]
fn one_anchor_yields_one_candidate() {
    let page = page_with_anchors(&[Some("/md5/only")]);
    let cands = parse_search_results("q", "u", page.as_str()).unwrap();
    assert_eq!(cands.len(), 1);
    assert_eq!(cands[0].record_id, "only");
    assert_eq!(cands[0].link, "https://anna-archive.org/md5/only");
}

#[test]
fn an_anchor_without_a_link_is_a_parse_error() {
    let page = page_with_anchors(&[None, Some("/md5/bbb")]);
    let r = parse_search_results("q", "the-url", page.as_str());
    match r {
        Err(ResolveError::ParseError { url }) => assert_eq!(url, "the-url"),
        other => panic!("expected ParseError, got {:?}", other),
    }
}

#[test]
fn record_ids_strip_the_known_prefix() {
    assert_eq!(strip_record_prefix("/md5/abc123"), "abc123");
    assert_eq!(strip_record_prefix("no-prefix"), "no-prefix");
    assert_eq!(strip_record_prefix("/md5"), "/md5");
    assert_eq!(strip_record_prefix(""), "");
}

#[test]
fn metadata_requests_address_the_record_document() {
    let c = Candidate {
        record_id: String::from("abc"),
        link: String::from("https://anna-archive.org/md5/abc"),
    };
    assert_eq!(
        record_document_request(&c),
        "https://anna-archive.org/db/aarecords/md5:abc.json"
    );
}

#[test]
fn a_failed_metadata_fetch_fails_with_the_search_url() {
    let page = page_with_anchors(&[Some("/md5/aaa")]);
    let cands = parse_search_results("q", "u", page.as_str()).unwrap();
    let mut session = BookResolution::new(
        String::from("q"),
        String::from("https://annas-archive.org/search?q=q"),
        cands,
    );
    assert!(session.next_request().is_some());
    let r = session.record_fetched(false);
    match r {
        Err(ResolveError::RequestFailed { url }) => {
            assert_eq!(url, "https://annas-archive.org/search?q=q");
        }
        other => panic!("expected RequestFailed, got {:?}", other),
    }
}

#[test]
fn three_result_anchors_resolve_to_two_books() {
    let query = "Harry Potter";
    let page = page_with_anchors(&[Some("/md5/hp1"), Some("/md5/hp2"), Some("/md5/hp3")]);
    let url = build_search_url(query).unwrap();
    let body = search_response(url.as_str(), Some(page)).unwrap();
    let cands = parse_search_results(query, url.as_str(), body.as_str()).unwrap();
    let mut session = BookResolution::new(String::from(query), url, cands);

    let mut fetched = Vec::new();
    while let Some(request) = session.next_request() {
        fetched.push(request);
        session.record_fetched(true).unwrap();
    }
    assert_eq!(
        fetched,
        vec![
            String::from("https://anna-archive.org/db/aarecords/md5:hp1.json"),
            String::from("https://anna-archive.org/db/aarecords/md5:hp2.json"),
        ]
    );

    let books = session.into_books();
    assert_eq!(books.len(), 2);
    assert_eq!(books[0].link, "https://anna-archive.org/md5/hp1");
    assert_eq!(books[1].link, "https://anna-archive.org/md5/hp2");
    for b in &books {
        assert_eq!(b.title, "");
        assert_eq!(b.author, "");
        assert_eq!(b.isbn, "");
        assert!(b.description.is_none());
        assert!(b.download_links.is_empty());
        assert!(b.cover_url.is_none());
    }
}
