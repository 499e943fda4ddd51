use vstd::prelude::*;

use crate::content_type::{calculate_content_type, content_type_of};
use crate::outcome::{HttpResult, Outcome};
use crate::request::ParsedRequest;
use crate::text::same_chars;

verus! {

/// What `str::to_uppercase` makes of `s`.
pub uninterp spec fn upper_of(s: Seq<char>) -> Seq<char>;

/// Relies on `str::to_uppercase`: the upper-case form of `s`, which depends
/// on its characters alone.
#[verifier::external_body]
fn uppercase(s: &str) -> (r: String)
    ensures
        r@ == upper_of(s@),
{
    s.to_uppercase()
}

/// The file that a GET of `path` asks for: the path as sent, or
/// `index.html` for an empty path.
pub open spec fn requested_name(path: Seq<char>) -> Seq<char> {
    if path.len() == 0 {
        "index.html"@
    } else {
        path
    }
}

/// The outcome of a GET of `path`, given what reading the requested file
/// gave: its text, or nothing when it could not be read.
pub open spec fn get_outcome(path: Seq<char>, contents: Option<Seq<char>>) -> Outcome {
    match contents {
        Some(text) => Outcome::served(content_type_of(requested_name(path)), text),
        None => Outcome::not_found(),
    }
}

/// The outcome of a request whose method, upper-cased, is `upper_method`.
pub open spec fn outcome_for(
    upper_method: Seq<char>,
    path: Seq<char>,
    contents: Option<Seq<char>>,
) -> Outcome {
    if upper_method == "GET"@ {
        get_outcome(path, contents)
    } else {
        Outcome::method_not_allowed()
    }
}

/// Names the file that a GET of `path` reads.
pub fn requested_file<'a>(path: &'a str) -> (r: &'a str)
    ensures
        r@ == requested_name(path@),
{
    if path.is_empty() {
        "index.html"
    } else {
        path
    }
}

/// Answers a GET of `path`; `contents` is what reading
/// `requested_file(path)` gave.
pub fn handle_get(path: &str, contents: Option<String>) -> (r: HttpResult)
    ensures
        r@ == get_outcome(path@, contents.deep_view()),
{
    let filename = requested_file(path);
    let content_type = calculate_content_type(filename);
    match contents {
        Some(text) => HttpResult::ok(content_type, text),
        None => HttpResult::not_found(),
    }
}

/// Answers a request whose method is already upper-cased.
pub fn dispatch(upper_method: &str, path: &str, contents: Option<String>) -> (r: HttpResult)
    ensures
        r@ == outcome_for(upper_method@, path@, contents.deep_view()),
{
    if same_chars(upper_method, "GET") {
        handle_get(path, contents)
    } else {
        HttpResult::method_not_allowed()
    }
}

impl ParsedRequest {
    /// Whether the method is GET, in any case.
    pub fn is_get(&self) -> (r: bool)
        ensures
            r == (upper_of(self.method@) == "GET"@),
    {
        let upper = uppercase(self.method.as_str());
        same_chars(upper.as_str(), "GET")
    }

    /// The file that answering this request reads, if any.
    pub fn file_to_read(&self) -> (r: Option<&str>)
        ensures
            r.deep_view() == (if upper_of(self.method@) == "GET"@ {
                Some(requested_name(self.path@))
            } else {
                None
            }),
    {
        if self.is_get() {
            Some(requested_file(self.path.as_str()))
        } else {
            None
        }
    }

    /// Answers this request; `contents` is what reading `file_to_read` gave.
    pub fn resolve(&self, contents: Option<String>) -> (r: HttpResult)
        ensures
            r@ == outcome_for(upper_of(self.method@), self.path@, contents.deep_view()),
    {
        let upper = uppercase(self.method.as_str());
        dispatch(upper.as_str(), self.path.as_str(), contents)
    }
}

/// Any method other than GET, in whatever case, is refused with status 405,
/// an empty body and no media type, whatever the path and the files.
pub proof fn other_methods_are_refused(
    upper_method: Seq<char>,
    path: Seq<char>,
    contents: Option<Seq<char>>,
)
    requires
        upper_method != "GET"@,
    ensures
        outcome_for(upper_method, path, contents).status == 405,
        outcome_for(upper_method, path, contents).body.len() == 0,
        outcome_for(upper_method, path, contents).content_type is None,
{
}

/// A GET of a file that could be read is answered with status 200, the
/// file's exact text, and the media type of the file's name.
pub proof fn readable_file_is_served(path: Seq<char>, text: Seq<char>)
    ensures
        outcome_for("GET"@, path, Some(text)).status == 200,
        outcome_for("GET"@, path, Some(text)).body == text,
        outcome_for("GET"@, path, Some(text)).content_type == Some(
            content_type_of(requested_name(path)),
        ),
{
}

/// A GET of a file that could not be read, for whatever reason, is answered
/// with status 404 and an empty body.
pub proof fn unreadable_file_is_not_found(path: Seq<char>)
    ensures
        outcome_for("GET"@, path, None).status == 404,
        outcome_for("GET"@, path, None).body.len() == 0,
{
}

/// A GET of the empty path reads the same file as a GET of `index.html`
/// and is answered the same way.
pub proof fn empty_path_is_index(upper_method: Seq<char>, contents: Option<Seq<char>>)
    ensures
        requested_name(Seq::empty()) == requested_name("index.html"@),
        outcome_for(upper_method, Seq::empty(), contents) == outcome_for(
            upper_method,
            "index.html"@,
            contents,
        ),
{
    reveal_strlit("index.html");
}

/// Every request is answered with one of the three outcomes: a media type
/// comes with status 200 and only with it, and only a served file has a body.
pub proof fn outcomes_are_well_formed(
    upper_method: Seq<char>,
    path: Seq<char>,
    contents: Option<Seq<char>>,
)
    ensures
        outcome_for(upper_method, path, contents).well_formed(),
{
    if upper_method == "GET"@ {
        if let Some(text) = contents {
            let t = content_type_of(requested_name(path));
            assert(outcome_for(upper_method, path, contents) == Outcome::served(t, text));
        }
    }
}

} // verus!
