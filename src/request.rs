use vstd::prelude::*;
use vstd::slice::slice_subrange;

verus! {

/// How many bytes of a connection are read and looked at.
pub const REQUEST_BUFFER_SIZE: usize = 512;

/// Why no request could be taken from what a client sent.
#[derive(Clone, Copy, Debug, PartialEq, Eq, Structural)]
pub enum RequestError {
    /// The text holds no line at all.
    NoRequestLine,
    /// The first line is not `<method> /<path> <rest>`.
    MalformedRequestLine,
}

/// The method and path of a request line; the path is taken as sent,
/// without its leading `'/'`.
pub struct ParsedRequest {
    pub method: String,
    pub path: String,
}

/// What `String::from_utf8_lossy` makes of `bytes`.
pub uninterp spec fn lossy_text(bytes: Seq<u8>) -> Seq<char>;

/// Relies on `String::from_utf8_lossy`: the text that `bytes` encode, with
/// each invalid sequence replaced; the result depends on the bytes alone.
#[verifier::external_body]
fn decode_lossy(bytes: &[u8]) -> (r: Vec<char>)
    ensures
        r@ == lossy_text(bytes@),
{
    String::from_utf8_lossy(bytes).chars().collect()
}

/// Relies on `String`'s `FromIterator<&char>`: the string of those characters.
#[verifier::external_body]
fn text_from(chars: &[char]) -> (r: String)
    ensures
        r@ == chars@,
{
    chars.iter().collect()
}

/// Index of the first `'\n'` at or after `i`, or the length of `s`.
pub open spec fn line_end(s: Seq<char>, i: int) -> int
    decreases s.len() - i,
{
    if i < 0 || i >= s.len() || s[i] == '\n' {
        i
    } else {
        line_end(s, i + 1)
    }
}

/// The first line of `text`, without its terminator (`"\n"` or `"\r\n"`);
/// none for an empty text.
pub open spec fn first_line(text: Seq<char>) -> Option<Seq<char>> {
    if text.len() == 0 {
        None
    } else {
        let e = line_end(text, 0);
        if 0 < e < text.len() && text[e - 1] == '\r' {
            Some(text.subrange(0, e - 1))
        } else {
            Some(text.subrange(0, e))
        }
    }
}

/// End of the run of non-space characters that starts at `i`.
pub open spec fn token_end(s: Seq<char>, i: int) -> int
    decreases s.len() - i,
{
    if i < 0 || i >= s.len() || s[i] == ' ' {
        i
    } else {
        token_end(s, i + 1)
    }
}

/// A request line starts at `i`: a non-empty method token, a space, a
/// `'/'`, a path token (maybe empty), and a space.
pub open spec fn shape_at(s: Seq<char>, i: int) -> bool {
    &&& 0 <= i < s.len()
    &&& s[i] != ' '
    &&& token_end(s, i) + 1 < s.len()
    &&& s[token_end(s, i) + 1] == '/'
    &&& token_end(s, token_end(s, i) + 2) < s.len()
}

/// The first position at or after `i` where a request line starts.
pub open spec fn first_shape(s: Seq<char>, i: int) -> Option<int>
    decreases s.len() - i,
{
    if i < 0 || i >= s.len() {
        None
    } else if shape_at(s, i) {
        Some(i)
    } else {
        first_shape(s, i + 1)
    }
}

/// Method and path of a request line, taken where the shape first holds.
pub open spec fn request_line_parts(line: Seq<char>) -> Option<(Seq<char>, Seq<char>)> {
    match first_shape(line, 0) {
        Some(i) => {
            let m = token_end(line, i);
            Some((line.subrange(i, m), line.subrange(m + 2, token_end(line, m + 2))))
        },
        None => None,
    }
}

/// What parsing `text` gives: its first line's method and path, or why not.
pub open spec fn parse_spec(text: Seq<char>) -> Result<(Seq<char>, Seq<char>), RequestError> {
    match first_line(text) {
        None => Err(RequestError::NoRequestLine),
        Some(line) => match request_line_parts(line) {
            Some(parts) => Ok(parts),
            None => Err(RequestError::MalformedRequestLine),
        },
    }
}

impl ParsedRequest {
    /// The method and path, as sequences.
    pub open spec fn parts(&self) -> (Seq<char>, Seq<char>) {
        (self.method@, self.path@)
    }
}

/// Whether `r` is what `parse_spec` says of `text`.
pub open spec fn parsed_as(
    r: Result<ParsedRequest, RequestError>,
    text: Seq<char>,
) -> bool {
    match r {
        Ok(req) => parse_spec(text) == Ok::<_, RequestError>(req.parts()),
        Err(e) => parse_spec(text) == Err::<(Seq<char>, Seq<char>), _>(e),
    }
}

fn find_line_end(s: &Vec<char>) -> (r: usize)
    ensures
        r == line_end(s@, 0),
        r <= s@.len(),
{
    let mut i: usize = 0;
    while i < s.len() && s[i] != '\n'
        invariant
            i <= s@.len(),
            line_end(s@, i as int) == line_end(s@, 0),
        decreases s.len() - i,
    {
        i = i + 1;
    }
    i
}

fn find_token_end(s: &Vec<char>, start: usize) -> (r: usize)
    requires
        start <= s@.len(),
    ensures
        r == token_end(s@, start as int),
        start <= r <= s@.len(),
{
    let mut i: usize = start;
    while i < s.len() && s[i] != ' '
        invariant
            start <= i <= s@.len(),
            token_end(s@, i as int) == token_end(s@, start as int),
        decreases s.len() - i,
    {
        i = i + 1;
    }
    i
}

fn check_shape_at(s: &Vec<char>, i: usize) -> (r: bool)
    requires
        i < s@.len(),
    ensures
        r == shape_at(s@, i as int),
{
    if s[i] == ' ' {
        return false;
    }
    let m = find_token_end(s, i);
    if m >= s.len() - 1 || s[m + 1] != '/' {
        return false;
    }
    find_token_end(s, m + 2) < s.len()
}

/// Takes the method and path out of a request line.
pub fn parse_request_line(line: &Vec<char>) -> (r: Option<ParsedRequest>)
    ensures
        match r {
            Some(req) => request_line_parts(line@) == Some(req.parts()),
            None => request_line_parts(line@) is None,
        },
{
    let mut i: usize = 0;
    while i < line.len()
        invariant
            i <= line@.len(),
            first_shape(line@, i as int) == first_shape(line@, 0),
        decreases line.len() - i,
    {
        if check_shape_at(line, i) {
            let m = find_token_end(line, i);
            let p = find_token_end(line, m + 2);
            let method = text_from(slice_subrange(line.as_slice(), i, m));
            let path = text_from(slice_subrange(line.as_slice(), m + 2, p));
            return Some(ParsedRequest { method, path });
        }
        i = i + 1;
    }
    None
}

/// Parses the first line of a request's text.
pub fn parse_request_text(text: &Vec<char>) -> (r: Result<ParsedRequest, RequestError>)
    ensures
        parsed_as(r, text@),
{
    if text.len() == 0 {
        return Err(RequestError::NoRequestLine);
    }
    let e = find_line_end(text);
    let end = if 0 < e && e < text.len() && text[e - 1] == '\r' {
        e - 1
    } else {
        e
    };
    let mut line: Vec<char> = Vec::new();
    let mut k: usize = 0;
    while k < end
        invariant
            end <= text@.len(),
            k <= end,
            line@ == text@.subrange(0, k as int),
        decreases end - k,
    {
        line.push(text[k]);
        k = k + 1;
        assert(line@ =~= text@.subrange(0, k as int));
    }
    match parse_request_line(&line) {
        Some(req) => Ok(req),
        None => Err(RequestError::MalformedRequestLine),
    }
}

/// Parses the request that a client sent: the bytes are read as text, with
/// invalid sequences replaced, and its first line is parsed.
pub fn parse_request(buffer: &[u8]) -> (r: Result<ParsedRequest, RequestError>)
    ensures
        parsed_as(r, lossy_text(buffer@)),
{
    let text = decode_lossy(buffer);
    parse_request_text(&text)
}

} // verus!
