use vstd::prelude::*;
use vstd::string::*;

use crate::text::same_chars;

verus! {

/// Index of the last `'.'` in `s`, or -1 when `s` holds none.
pub open spec fn last_dot(s: Seq<char>) -> int
    decreases s.len(),
{
    if s.len() == 0 {
        -1
    } else if s.last() == '.' {
        s.len() - 1
    } else {
        last_dot(s.drop_last())
    }
}

/// The extension of a file name: what follows its last `'.'`, if it has one.
pub open spec fn extension(name: Seq<char>) -> Option<Seq<char>> {
    let d = last_dot(name);
    if d < 0 {
        None
    } else {
        Some(name.subrange(d + 1, name.len() as int))
    }
}

/// The media type served for a file with extension `ext`.
pub open spec fn mime_for(ext: Seq<char>) -> Seq<char> {
    if ext == "html"@ {
        "text/html"@
    } else if ext == "png"@ {
        "image/png"@
    } else if ext == "txt"@ {
        "text/plain"@
    } else if ext == "js"@ {
        "text/javascript"@
    } else if ext == "css"@ {
        "text/css"@
    } else {
        "application/octet-stream"@
    }
}

/// The media type served for the file `name`.
pub open spec fn content_type_of(name: Seq<char>) -> Seq<char> {
    match extension(name) {
        Some(ext) => mime_for(ext),
        None => "application/octet-stream"@,
    }
}

/// `k` is the last dot of `s` (or -1) when no dot follows it.
proof fn lemma_last_dot_at(s: Seq<char>, k: int)
    requires
        -1 <= k < s.len(),
        k >= 0 ==> s[k] == '.',
        forall|j: int| k < j < s.len() ==> s[j] != '.',
    ensures
        last_dot(s) == k,
    decreases s.len(),
{
    if s.len() > 0 && s.last() != '.' {
        let t = s.drop_last();
        assert forall|j: int| k < j < t.len() implies t[j] != '.' by {
            assert(t[j] == s[j]);
        }
        lemma_last_dot_at(t, k);
    }
}

/// A name made of a stem, a dot and an extension without dots is served with
/// the media type of that extension, whatever the stem holds.
pub proof fn content_type_by_extension(stem: Seq<char>, ext: Seq<char>)
    requires
        !ext.contains('.'),
    ensures
        content_type_of(stem + "."@ + ext) == mime_for(ext),
{
    reveal_strlit(".");
    let s = stem + "."@ + ext;
    assert forall|j: int| stem.len() < j < s.len() implies s[j] != '.' by {
        assert(s[j] == ext[j - stem.len() - 1]);
    }
    lemma_last_dot_at(s, stem.len() as int);
    assert(s.subrange(stem.len() as int + 1, s.len() as int) =~= ext);
}

/// A name without any dot is served as `application/octet-stream`.
pub proof fn content_type_without_extension(name: Seq<char>)
    requires
        !name.contains('.'),
    ensures
        content_type_of(name) == "application/octet-stream"@,
{
    lemma_last_dot_at(name, -1);
}

/// Position just after the last `'.'` of `s`, if `s` holds one.
fn extension_start(s: &str) -> (r: Option<usize>)
    ensures
        last_dot(s@) < s@.len(),
        last_dot(s@) < 0 ==> r is None,
        last_dot(s@) >= 0 ==> r == Some((last_dot(s@) + 1) as usize),
{
    let n = s.unicode_len();
    let mut i: usize = n;
    while i > 0
        invariant
            n == s@.len(),
            i <= n,
            forall|j: int| i <= j < n ==> s@[j] != '.',
        decreases i,
    {
        if s.get_char(i - 1) == '.' {
            proof {
                lemma_last_dot_at(s@, i - 1);
            }
            return Some(i);
        }
        i = i - 1;
    }
    proof {
        lemma_last_dot_at(s@, -1);
    }
    None
}

/// Infers the media type of a file from the extension of its name.
pub fn calculate_content_type(filename: &str) -> (r: &'static str)
    ensures
        r@ == content_type_of(filename@),
{
    match extension_start(filename) {
        None => "application/octet-stream",
        Some(start) => {
            let ext = filename.substring_char(start, filename.unicode_len());
            if same_chars(ext, "html") {
                "text/html"
            } else if same_chars(ext, "png") {
                "image/png"
            } else if same_chars(ext, "txt") {
                "text/plain"
            } else if same_chars(ext, "js") {
                "text/javascript"
            } else if same_chars(ext, "css") {
                "text/css"
            } else {
                "application/octet-stream"
            }
        },
    }
}

} // verus!
