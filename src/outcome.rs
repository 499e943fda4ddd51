use vstd::prelude::*;

verus! {

/// What a request's outcome means: the status, its reason phrase, the body
/// and the media type, all as plain sequences.
pub struct Outcome {
    pub status: u16,
    pub msg: Seq<char>,
    pub body: Seq<char>,
    pub content_type: Option<Seq<char>>,
}

impl Outcome {
    /// A file was served.
    pub open spec fn served(content_type: Seq<char>, body: Seq<char>) -> Outcome {
        Outcome { status: 200, msg: "OK"@, body, content_type: Some(content_type) }
    }

    /// No readable file was found.
    pub open spec fn not_found() -> Outcome {
        Outcome { status: 404, msg: "Not Found"@, body: Seq::empty(), content_type: None }
    }

    /// The method is not served.
    pub open spec fn method_not_allowed() -> Outcome {
        Outcome {
            status: 405,
            msg: "Method not allowed"@,
            body: Seq::empty(),
            content_type: None,
        }
    }

    /// One of the three outcomes that requests lead to.
    pub open spec fn well_formed(self) -> bool {
        (exists|t: Seq<char>, b: Seq<char>| self == #[trigger] Outcome::served(t, b))
            || self == Outcome::not_found() || self == Outcome::method_not_allowed()
    }
}

/// The decided result of handling one request.
pub struct HttpResult {
    pub status: u16,
    pub msg: &'static str,
    pub body: String,
    pub content_type: Option<&'static str>,
}

impl View for HttpResult {
    type V = Outcome;

    open spec fn view(&self) -> Outcome {
        Outcome {
            status: self.status,
            msg: self.msg@,
            body: self.body@,
            content_type: match self.content_type {
                Some(c) => Some(c@),
                None => None,
            },
        }
    }
}

impl HttpResult {
    /// Status 200, carrying `body` with the media type `content_type`.
    pub fn ok(content_type: &'static str, body: String) -> (r: HttpResult)
        ensures
            r@ == Outcome::served(content_type@, body@),
    {
        HttpResult { status: 200, msg: "OK", body: body, content_type: Some(content_type) }
    }

    /// Status 404, with an empty body.
    pub fn not_found() -> (r: HttpResult)
        ensures
            r@ == Outcome::not_found(),
    {
        HttpResult { status: 404, msg: "Not Found", body: String::new(), content_type: None }
    }

    /// Status 405, with an empty body.
    pub fn method_not_allowed() -> (r: HttpResult)
        ensures
            r@ == Outcome::method_not_allowed(),
    {
        HttpResult {
            status: 405,
            msg: "Method not allowed",
            body: String::new(),
            content_type: None,
        }
    }
}

} // verus!
