//! The add workflow: three container commands, best-effort, one log.
//!
//! Given one accepted URL, the workflow runs exactly three commands inside
//! the target container — download the resource to a staging path, ingest the
//! staged file into the library, remove the staged file — in that order,
//! never skipping a step because an earlier one failed. Each step's outcome,
//! success output or error message, is appended to one accumulated log, which
//! the caller publishes afterwards.

use vstd::prelude::*;

use crate::web::UrlParts;

verus! {

/// Whether a scheme is of the http family: it starts with `http`.
pub open spec fn scheme_is_http_family(s: Seq<char>) -> bool {
    s.len() >= 4 && s[0] == 'h' && s[1] == 't' && s[2] == 't' && s[3] == 'p'
}

/// Whether a parsed URL is accepted by the add workflow: an http-family
/// scheme, and path segments to stage a file name from.
pub open spec fn spec_url_accepted(p: UrlParts) -> bool {
    scheme_is_http_family(p.scheme@) && p.last_segment is Some
}

/// Decides whether the add workflow accepts a parsed URL.
pub fn url_accepted(p: &UrlParts) -> (r: bool)
    ensures
        r == spec_url_accepted(*p),
{
    let s = p.scheme.as_str();
    let scheme_ok = s.unicode_len() >= 4 && s.get_char(0) == 'h' && s.get_char(1) == 't'
        && s.get_char(2) == 't' && s.get_char(3) == 'p';
    scheme_ok && p.last_segment.is_some()
}

/// The staging path of a file name: under the fixed staging directory.
pub open spec fn spec_staging_path(file_name: Seq<char>) -> Seq<char> {
    "/tmp/"@ + file_name
}

/// The staging path for an accepted URL: its last path segment under the
/// fixed staging directory.
pub fn staging_path(p: &UrlParts) -> (r: String)
    requires
        p.last_segment is Some,
    ensures
        r@ == spec_staging_path(p.last_segment->Some_0@),
{
    match &p.last_segment {
        Option::Some(seg) => String::from_str("/tmp/").concat(seg.as_str()),
        Option::None => String::new(),
    }
}

/// The name of the container every step runs in.
pub fn target_container() -> (r: &'static str)
    ensures
        r@ == "calibre-web"@,
{
    "calibre-web"
}

/// The download step's command: fetch the URL into the staging path.
pub open spec fn download_command(url: Seq<char>, path: Seq<char>) -> Seq<Seq<char>> {
    seq!["curl"@, "-o"@, path, url]
}

/// The ingest step's command: add the staged file to the fixed library path.
pub open spec fn ingest_command(path: Seq<char>) -> Seq<Seq<char>> {
    seq!["/usr/bin/calibredb"@, "add"@, "--library"@, "/books"@, path]
}

/// The removal step's command: delete the staged file.
pub open spec fn remove_command(path: Seq<char>) -> Seq<Seq<char>> {
    seq!["rm"@, path]
}

/// The command of the step after `steps_done` recorded outcomes: download,
/// then ingest, then removal, then nothing. Which command runs depends only
/// on how many steps are done, never on what the earlier steps returned.
pub open spec fn workflow_command(url: Seq<char>, path: Seq<char>, steps_done: int) -> Option<
    Seq<Seq<char>>,
> {
    if steps_done == 0 {
        Option::Some(download_command(url, path))
    } else if steps_done == 1 {
        Option::Some(ingest_command(path))
    } else if steps_done == 2 {
        Option::Some(remove_command(path))
    } else {
        Option::None
    }
}

/// The text one step outcome contributes to the log: the step's output on
/// success, the error's message on failure — a step is logged either way.
pub open spec fn outcome_text(outcome: Result<Seq<char>, Seq<char>>) -> Seq<char> {
    match outcome {
        Result::Ok(o) => o,
        Result::Err(e) => e,
    }
}

/// The removal step runs in every workflow, exactly once: whatever the
/// earlier outcomes were, the removal command is asked for after exactly two
/// recorded outcomes, and at no other point. (Outcomes cannot enter at all:
/// the pending command is a function of the count of recorded outcomes
/// alone, and the three commands are pairwise distinct.)
pub proof fn lemma_removal_runs_exactly_once(url: Seq<char>, path: Seq<char>)
    ensures
        forall|steps_done: int|
            #[trigger] workflow_command(url, path, steps_done) == Option::Some(
                remove_command(path),
            ) <==> steps_done == 2,
{
    assert(download_command(url, path).len() == 4);
    assert(ingest_command(path).len() == 5);
    assert(remove_command(path).len() == 2);
}

/// One add workflow in progress: the accepted URL, its staging path, how many
/// steps have run, and the accumulated log.
pub struct AddWorkflow {
    /// The accepted URL, as the download step receives it.
    pub url: String,
    /// The staging path every step works on.
    pub file_path: String,
    /// How many step outcomes have been recorded.
    pub steps_done: usize,
    /// Every step's outcome so far, concatenated in step order.
    pub log: String,
}

impl AddWorkflow {
    /// Starts the workflow for an accepted URL.
    pub fn new(parts: &UrlParts) -> (r: Self)
        requires
            spec_url_accepted(*parts),
        ensures
            r.url@ == parts.text@,
            r.file_path@ == spec_staging_path(parts.last_segment->Some_0@),
            r.steps_done == 0,
            r.log@ == Seq::<char>::empty(),
    {
        AddWorkflow {
            url: String::from_str(parts.text.as_str()),
            file_path: staging_path(parts),
            steps_done: 0,
            log: String::new(),
        }
    }

    /// The command of the pending step, or nothing once all three steps have
    /// recorded an outcome.
    pub fn next_command(&self) -> (r: Option<Vec<String>>)
        ensures
            r is Some <==> self.steps_done < 3,
            r matches Some(c) ==> Option::Some(c@.map_values(|s: String| s@)) == workflow_command(
                self.url@,
                self.file_path@,
                self.steps_done as int,
            ),
    {
        if self.steps_done == 0 {
            let mut c: Vec<String> = Vec::new();
            c.push(String::from_str("curl"));
            c.push(String::from_str("-o"));
            c.push(String::from_str(self.file_path.as_str()));
            c.push(String::from_str(self.url.as_str()));
            proof {
                assert(c@.map_values(|s: String| s@) =~= download_command(
                    self.url@,
                    self.file_path@,
                ));
            }
            Option::Some(c)
        } else if self.steps_done == 1 {
            let mut c: Vec<String> = Vec::new();
            c.push(String::from_str("/usr/bin/calibredb"));
            c.push(String::from_str("add"));
            c.push(String::from_str("--library"));
            c.push(String::from_str("/books"));
            c.push(String::from_str(self.file_path.as_str()));
            proof {
                assert(c@.map_values(|s: String| s@) =~= ingest_command(self.file_path@));
            }
            Option::Some(c)
        } else if self.steps_done == 2 {
            let mut c: Vec<String> = Vec::new();
            c.push(String::from_str("rm"));
            c.push(String::from_str(self.file_path.as_str()));
            proof {
                assert(c@.map_values(|s: String| s@) =~= remove_command(self.file_path@));
            }
            Option::Some(c)
        } else {
            Option::None
        }
    }

    /// Records the pending step's outcome: its text joins the log, and the
    /// workflow moves to the next step whether the step succeeded or failed.
    pub fn record_outcome(&mut self, outcome: Result<String, String>)
        requires
            old(self).steps_done < 3,
        ensures
            final(self).url@ == old(self).url@,
            final(self).file_path@ == old(self).file_path@,
            final(self).steps_done == old(self).steps_done + 1,
            final(self).log@ == old(self).log@ + outcome_text(
                match outcome {
                    Result::Ok(o) => Result::Ok(o@),
                    Result::Err(e) => Result::Err(e@),
                },
            ),
    {
        match outcome {
            Result::Ok(o) => self.log.append(o.as_str()),
            Result::Err(e) => self.log.append(e.as_str()),
        }
        self.steps_done = self.steps_done + 1;
    }

    /// Whether all three steps have recorded an outcome.
    pub fn finished(&self) -> (r: bool)
        ensures
            r == (self.steps_done == 3),
    {
        self.steps_done == 3
    }

    /// The accumulated log, to be published once the workflow is finished.
    pub fn into_log(self) -> (r: String)
        ensures
            r@ == self.log@,
    {
        self.log
    }
}

/// Where an uploaded log can be read, given the key the paste service
/// answered with: under the paste service's base URL, or nothing when the
/// answer carried no key.
pub open spec fn spec_haste_url(key: Seq<char>) -> Seq<char> {
    "https://paste.developerden.org/"@ + key
}

/// The endpoint a log is uploaded to: the paste service's document store.
pub fn haste_documents_endpoint() -> (r: &'static str)
    ensures
        r@ == "https://paste.developerden.org/documents"@,
{
    "https://paste.developerden.org/documents"
}

/// Turns the paste service's answer into the URL of the uploaded log.
pub fn haste_success_url(key: Option<String>) -> (r: Option<String>)
    ensures
        r is Some <==> key is Some,
        r matches Some(u) ==> u@ == spec_haste_url(key->Some_0@),
{
    match key {
        Option::Some(k) => Option::Some(
            String::from_str("https://paste.developerden.org/").concat(k.as_str()),
        ),
        Option::None => Option::None,
    }
}

/// The user-facing line about the published log: where to read it, or that
/// publishing failed.
pub fn upload_result_message(upload: Option<String>) -> (r: String)
    ensures
        upload matches Some(u) ==> r@ == "Command output: "@ + u@,
        upload is None ==> r@ == "Error whilst uploading or fetching command output"@,
{
    match upload {
        Option::Some(u) => String::from_str("Command output: ").concat(u.as_str()),
        Option::None => String::from_str("Error whilst uploading or fetching command output"),
    }
}

} // verus!
