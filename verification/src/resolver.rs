//! Finding book candidates for a query against the archive.
//!
//! A resolution is a small conversation: build the search URL, have the
//! caller fetch it (through the shared throttle), read the result anchors out
//! of the page, keep at most the first two candidates, and have the caller
//! fetch one metadata document per kept candidate. Every step's decision is
//! verified; the caller only moves bytes.
//!
//! The metadata document of a candidate is fetched and must decode, but none
//! of its fields are carried into the returned book: all fields but the link
//! stay empty, as the workflow this serves leaves them.

use vstd::prelude::*;

use crate::errors::ResolveError;
use crate::web::{
    encode_query_fragment, fragment_encoded, opt_view, parse_url_parts, parsed_url,
    selected_hrefs, selector_compiles, selector_is_valid, select_hrefs,
};

verus! {

/// The text handed to the URL parser for a query: the fixed search endpoint
/// with the percent-encoded query.
pub open spec fn search_input(query: Seq<char>) -> Seq<char> {
    "https://annas-archive.org/search?q="@ + fragment_encoded(query)
}

/// Whether an anchor link starts with the known record path prefix `/md5/`.
pub open spec fn has_record_prefix(href: Seq<char>) -> bool {
    href.len() >= 5 && href[0] == '/' && href[1] == 'm' && href[2] == 'd' && href[3] == '5'
        && href[4] == '/'
}

/// The record identifier of an anchor link: the link with the known record
/// path prefix stripped, or the link itself when the prefix is absent.
pub open spec fn spec_strip_record_prefix(href: Seq<char>) -> Seq<char> {
    if has_record_prefix(href) {
        href.skip(5)
    } else {
        href
    }
}

/// The page link a record identifier derives to.
pub open spec fn record_page_link(id: Seq<char>) -> Seq<char> {
    "https://anna-archive.org/md5/"@ + id
}

/// The metadata document URL of a record identifier.
pub open spec fn record_document_url(id: Seq<char>) -> Seq<char> {
    "https://anna-archive.org/db/aarecords/md5:"@ + id + ".json"@
}

/// How many of `n` matched anchors are kept: at most the first two.
pub open spec fn cap_two(n: int) -> int {
    if n < 2 {
        n
    } else {
        2
    }
}

/// The selector matching a result anchor on the search page: inside `main`,
/// a result row's div holds one anchor per result.
pub fn result_selector() -> (r: &'static str)
    ensures
        r@ == "main > div > div > a"@,
{
    "main > div > div > a"
}

/// Builds the search URL for a query, or reports the constructed text when it
/// does not parse as a URL. No request can be made before this succeeds.
pub fn build_search_url(query: &str) -> (r: Result<String, ResolveError>)
    ensures
        parsed_url(search_input(query@)) matches Some(u) ==> (r matches Ok(ru) && ru@ == u),
        parsed_url(search_input(query@)) is None ==> (r matches Err(
            ResolveError::InvalidUrl { url },
        ) && url@ == search_input(query@)),
{
    let encoded = encode_query_fragment(query);
    let input = String::from_str("https://annas-archive.org/search?q=").concat(encoded.as_str());
    let parsed = parse_url_parts(input.as_str());
    finish_search_url(input, match parsed {
        Option::Some(p) => Option::Some(p.text),
        Option::None => Option::None,
    })
}

/// Settles what the resolver does with the parser's verdict on the
/// constructed search text: the parsed URL when there is one, `InvalidUrl`
/// carrying the constructed text when there is none.
pub fn finish_search_url(input: String, parsed: Option<String>) -> (r: Result<
    String,
    ResolveError,
>)
    ensures
        parsed matches Some(u) ==> (r matches Ok(ru) && ru@ == u@),
        parsed is None ==> (r matches Err(ResolveError::InvalidUrl { url }) && url@ == input@),
{
    match parsed {
        Option::Some(u) => Result::Ok(u),
        Option::None => Result::Err(ResolveError::InvalidUrl { url: input }),
    }
}

/// Settles what the resolver does with the search response: the body when one
/// arrived as text, `RequestFailed` carrying the search URL otherwise.
pub fn search_response(search_url: &str, body: Option<String>) -> (r: Result<
    String,
    ResolveError,
>)
    ensures
        body matches Some(b) ==> (r matches Ok(rb) && rb@ == b@),
        body is None ==> (r matches Err(ResolveError::RequestFailed { url }) && url@
            == search_url@),
{
    match body {
        Option::Some(b) => Result::Ok(b),
        Option::None => Result::Err(
            ResolveError::RequestFailed { url: String::from_str(search_url) },
        ),
    }
}

/// One search result kept for metadata resolution.
#[derive(Debug)]
pub struct Candidate {
    /// The record identifier extracted from the result anchor's link.
    pub record_id: String,
    /// The record's page link, derived from the identifier.
    pub link: String,
}

impl Candidate {
    /// The link is the one its record identifier derives to.
    pub open spec fn wf(self) -> bool {
        self.link@ == record_page_link(self.record_id@)
    }
}

/// Strips the known record path prefix from an anchor link.
pub fn strip_record_prefix(href: &str) -> (r: String)
    ensures
        r@ == spec_strip_record_prefix(href@),
{
    let n = href.unicode_len();
    if n >= 5 {
        if href.get_char(0) == '/' && href.get_char(1) == 'm' && href.get_char(2) == 'd'
            && href.get_char(3) == '5' && href.get_char(4) == '/' {
            let rest = href.substring_char(5, n);
            let r = String::from_str(rest);
            proof {
                assert(r@ =~= href@.skip(5));
            }
            return r;
        }
    }
    String::from_str(href)
}

/// The metadata document request URL for a candidate.
pub fn record_document_request(c: &Candidate) -> (r: String)
    ensures
        r@ == record_document_url(c.record_id@),
{
    String::from_str("https://anna-archive.org/db/aarecords/md5:").concat(
        c.record_id.as_str(),
    ).concat(".json")
}

/// Reads the kept candidates out of a search page.
///
/// The result selector is validated first; a selector that does not compile
/// is a parse error, never a silent empty result. Zero matched anchors mean
/// no results. Otherwise the first two anchors (at most) are kept, and each
/// must carry a link; the kept candidates are never empty.
pub fn parse_search_results(query: &str, search_url: &str, body: &str) -> (r: Result<
    Vec<Candidate>,
    ResolveError,
>)
    ensures
        !selector_compiles("main > div > div > a"@) ==> (r matches Err(
            ResolveError::ParseError { url },
        ) && url@ == search_url@),
        ({
            let hrefs = selected_hrefs(body@, "main > div > div > a"@);
            &&& (selector_compiles("main > div > div > a"@) && hrefs.len() == 0) ==> (r matches Err(
                ResolveError::NoResults { query: q },
            ) && q@ == query@)
            &&& (selector_compiles("main > div > div > a"@) && hrefs.len() > 0 && (exists|j: int|
                0 <= j < cap_two(hrefs.len() as int) && (#[trigger] hrefs[j]) is None)) ==> (
            r matches Err(ResolveError::ParseError { url }) && url@ == search_url@)
            &&& (selector_compiles("main > div > div > a"@) && hrefs.len() > 0 && (forall|j: int|
                0 <= j < cap_two(hrefs.len() as int) ==> (#[trigger] hrefs[j]) is Some)) ==> (
            r matches Ok(cands) && cands@.len() == cap_two(hrefs.len() as int) && (forall|j: int|
                0 <= j < cands@.len() ==> (#[trigger] cands@[j]).wf() && cands@[j].record_id@
                    == spec_strip_record_prefix(hrefs[j]->Some_0)))
        }),
        r matches Ok(cands) ==> 1 <= cands@.len() <= 2,
{
    let selector = result_selector();
    if !selector_is_valid(selector) {
        return Result::Err(ResolveError::ParseError { url: String::from_str(search_url) });
    }
    let hrefs = select_hrefs(body, selector);
    let ghost hviews = selected_hrefs(body@, "main > div > div > a"@);
    proof {
        assert(hviews == hrefs@.map_values(|o: Option<String>| opt_view(o)));
        assert(hviews.len() == hrefs@.len());
    }
    if hrefs.len() == 0 {
        return Result::Err(ResolveError::NoResults { query: String::from_str(query) });
    }
    let limit: usize = if hrefs.len() < 2 {
        hrefs.len()
    } else {
        2
    };
    let mut cands: Vec<Candidate> = Vec::new();
    let mut i: usize = 0;
    while i < limit
        invariant
            hviews == selected_hrefs(body@, "main > div > div > a"@),
            selector_compiles("main > div > div > a"@),
            limit == cap_two(hviews.len() as int),
            0 < limit <= hrefs@.len(),
            i <= limit,
            hviews == hrefs@.map_values(|o: Option<String>| opt_view(o)),
            cands@.len() == i,
            forall|j: int| 0 <= j < i ==> (#[trigger] hviews[j]) is Some,
            forall|j: int|
                0 <= j < i ==> (#[trigger] cands@[j]).wf() && cands@[j].record_id@
                    == spec_strip_record_prefix(hviews[j]->Some_0),
        decreases limit - i,
    {
        proof {
            assert(opt_view(hrefs@[i as int]) == hviews[i as int]);
        }
        let entry = &hrefs[i];
        match entry {
            Option::Some(href) => {
                proof {
                    assert(hviews[i as int] == Option::Some(href@));
                }
                let id = strip_record_prefix(href.as_str());
                let link = String::from_str("https://anna-archive.org/md5/").concat(id.as_str());
                let cand = Candidate { record_id: id, link };
                proof {
                    assert(cand.wf());
                    assert(cand.record_id@ == spec_strip_record_prefix(hviews[i as int]->Some_0));
                }
                cands.push(cand);
            },
            Option::None => {
                proof {
                    assert(hviews[i as int] is None);
                }
                return Result::Err(
                    ResolveError::ParseError { url: String::from_str(search_url) },
                );
            },
        }
        i = i + 1;
    }
    Result::Ok(cands)
}

/// The book returned for a resolved candidate: its derived link, and every
/// other field left empty, as the workflow this serves leaves them.
#[derive(Debug)]
pub struct Book {
    /// Left empty.
    pub title: String,
    /// Left empty.
    pub author: String,
    /// Left empty.
    pub isbn: String,
    /// The candidate's derived page link.
    pub link: String,
    /// Left absent.
    pub description: Option<String>,
    /// Left empty.
    pub download_links: Vec<String>,
    /// Left absent.
    pub cover_url: Option<String>,
}

/// The book a record identifier resolves to: the derived link and nothing
/// else filled in.
pub open spec fn placeholder_book(b: Book, id: Seq<char>) -> bool {
    &&& b.title@ == Seq::<char>::empty()
    &&& b.author@ == Seq::<char>::empty()
    &&& b.isbn@ == Seq::<char>::empty()
    &&& b.link@ == record_page_link(id)
    &&& b.description is None
    &&& b.download_links@ == Seq::<String>::empty()
    &&& b.cover_url is None
}

/// Builds the returned book for a candidate whose metadata document arrived.
pub fn book_from_candidate(c: &Candidate) -> (r: Book)
    ensures
        placeholder_book(r, c.record_id@),
        c.wf() ==> r.link@ == c.link@,
{
    Book {
        title: String::new(),
        author: String::new(),
        isbn: String::new(),
        link: String::from_str("https://anna-archive.org/md5/").concat(c.record_id.as_str()),
        description: Option::None,
        download_links: Vec::new(),
        cover_url: Option::None,
    }
}

/// One resolution in progress: the kept candidates, how many metadata
/// documents have been fetched, and the books built so far.
pub struct BookResolution {
    /// The query being resolved.
    pub query: String,
    /// The search URL the resolution went through; failures carry it.
    pub search_url: String,
    /// The kept candidates, at most two, never none.
    pub candidates: Vec<Candidate>,
    /// How many candidates' metadata documents have been fetched.
    pub fetched: usize,
    /// One book per fetched candidate.
    pub books: Vec<Book>,
}

impl BookResolution {
    /// Every book so far is the placeholder book of its candidate, in order.
    pub open spec fn wf(self) -> bool {
        &&& 1 <= self.candidates@.len() <= 2
        &&& self.fetched <= self.candidates@.len()
        &&& self.books@.len() == self.fetched
        &&& forall|j: int|
            0 <= j < self.books@.len() ==> placeholder_book(
                #[trigger] self.books@[j],
                self.candidates@[j].record_id@,
            )
    }

    /// Starts a resolution over the candidates a search page yielded.
    pub fn new(query: String, search_url: String, candidates: Vec<Candidate>) -> (r: Self)
        requires
            1 <= candidates@.len() <= 2,
        ensures
            r.wf(),
            r.query@ == query@,
            r.search_url@ == search_url@,
            r.candidates@ == candidates@,
            r.fetched == 0,
    {
        BookResolution { query, search_url, candidates, fetched: 0, books: Vec::new() }
    }

    /// The metadata document to fetch next, if a candidate is still waiting.
    pub fn next_request(&self) -> (r: Option<String>)
        ensures
            r is Some <==> self.fetched < self.candidates@.len(),
            r matches Some(u) ==> u@ == record_document_url(
                self.candidates@[self.fetched as int].record_id@,
            ),
    {
        if self.fetched < self.candidates.len() {
            Option::Some(record_document_request(&self.candidates[self.fetched]))
        } else {
            Option::None
        }
    }

    /// Takes in whether the pending candidate's metadata document arrived and
    /// decoded. A fetched document adds the candidate's book; a failure ends
    /// the resolution with `RequestFailed` carrying the search URL.
    pub fn record_fetched(&mut self, ok: bool) -> (r: Result<(), ResolveError>)
        requires
            old(self).wf(),
            old(self).fetched < old(self).candidates@.len(),
        ensures
            final(self).query@ == old(self).query@,
            final(self).search_url@ == old(self).search_url@,
            final(self).candidates@ == old(self).candidates@,
            ok ==> r is Ok && final(self).wf() && final(self).fetched == old(self).fetched + 1
                && final(self).books@.len() == old(self).books@.len() + 1 && placeholder_book(
                final(self).books@.last(),
                old(self).candidates@[old(self).fetched as int].record_id@,
            ),
            !ok ==> (r matches Err(ResolveError::RequestFailed { url }) && url@ == old(
                self,
            ).search_url@) && final(self).fetched == old(self).fetched && final(self).books@
                == old(self).books@,
    {
        if ok {
            let book = book_from_candidate(&self.candidates[self.fetched]);
            self.books.push(book);
            self.fetched = self.fetched + 1;
            Result::Ok(())
        } else {
            Result::Err(
                ResolveError::RequestFailed { url: String::from_str(self.search_url.as_str()) },
            )
        }
    }

    /// The resolved books, once every kept candidate's document has been
    /// fetched: never empty, at most two, one placeholder book per candidate
    /// in order.
    pub fn into_books(self) -> (r: Vec<Book>)
        requires
            self.wf(),
            self.fetched == self.candidates@.len(),
        ensures
            r@.len() == self.candidates@.len(),
            1 <= r@.len() <= 2,
            forall|j: int|
                0 <= j < r@.len() ==> placeholder_book(
                    #[trigger] r@[j],
                    self.candidates@[j].record_id@,
                ),
    {
        self.books
    }
}

} // verus!
