//! Paths of HTML artifacts as they turn up in a conversation: quoted,
//! bracketed, prefixed, or buried in a scrap of JSON.

use vstd::prelude::*;
use crate::text::{
    find_from,
    first_match,
    from_chars,
    stands_at,
    to_chars,
    trim_range,
    trimmed,
};

verus! {

/// The largest artifact that is read, in bytes.
pub const MAX_HTML_ARTIFACT_SIZE: u64 = 2097152;

/// Whether a character is a letter of the ASCII alphabet.
pub open spec fn is_ascii_letter(c: char) -> bool {
    ('A' <= c && c <= 'Z') || ('a' <= c && c <= 'z')
}

/// A capital letter of the ASCII alphabet as its small letter; any other
/// character as it is.
pub open spec fn lower_ascii(c: char) -> char {
    if 'A' <= c && c <= 'Z' {
        ((c as u32) + 32) as char
    } else {
        c
    }
}

fn char_is_ascii_letter(c: char) -> (r: bool)
    ensures
        r == is_ascii_letter(c),
{
    ('A' <= c && c <= 'Z') || ('a' <= c && c <= 'z')
}

/// `char::to_ascii_lowercase`: `A` to `Z` become `a` to `z`, and every other
/// character stays as it is.
#[verifier::external_body]
fn char_lower_ascii(c: char) -> (r: char)
    ensures
        r == lower_ascii(c),
{
    c.to_ascii_lowercase()
}

/// Whether a path begins like an absolute path on Windows: a drive letter,
/// a colon, and a slash of either kind.
pub open spec fn windows_absolute_like(path: Seq<char>) -> bool {
    &&& path.len() >= 3
    &&& is_ascii_letter(path[0])
    &&& path[1] == ':'
    &&& (path[2] == '\\' || path[2] == '/')
}

fn windows_like(chars: &Vec<char>, from: usize) -> (r: bool)
    requires
        from <= chars.len(),
    ensures
        r == windows_absolute_like(chars@.skip(from as int)),
{
    if chars.len() - from < 3 {
        return false;
    }
    char_is_ascii_letter(chars[from]) && chars[from + 1] == ':' && (chars[from + 2] == '\\'
        || chars[from + 2] == '/')
}

/// Whether a path begins like an absolute path on Windows.
pub fn is_windows_absolute_like(path: &str) -> (r: bool)
    ensures
        r == windows_absolute_like(path@),
{
    let chars = to_chars(path);
    proof {
        assert(chars@.skip(0) =~= chars@);
    }
    windows_like(&chars, 0)
}

/// Whether a character is one of those that wrap a path in running text:
/// quotes, brackets and punctuation, Latin and Chinese.
pub open spec fn is_wrapper(c: char) -> bool {
    c == '"' || c == '\'' || c == '`' || c == '(' || c == ')' || c == '[' || c == ']' || c == '{'
        || c == '}' || c == '<' || c == '>' || c == ',' || c == '.' || c == ';' || c == ':' || c
        == '!' || c == '?' || c == '，' || c == '。' || c == '；' || c == '：' || c == '！' || c
        == '？' || c == '、' || c == '「' || c == '」' || c == '『' || c == '』' || c == '【' || c
        == '】'
}

fn wrapper(c: char) -> (r: bool)
    ensures
        r == is_wrapper(c),
{
    c == '"' || c == '\'' || c == '`' || c == '(' || c == ')' || c == '[' || c == ']' || c == '{'
        || c == '}' || c == '<' || c == '>' || c == ',' || c == '.' || c == ';' || c == ':' || c
        == '!' || c == '?' || c == '，' || c == '。' || c == '；' || c == '：' || c == '！' || c
        == '？' || c == '、' || c == '「' || c == '」' || c == '『' || c == '』' || c == '【' || c
        == '】'
}

/// `s` without the wrappers at its front.
pub open spec fn skip_wrappers(s: Seq<char>) -> Seq<char>
    decreases s.len(),
{
    if s.len() > 0 && is_wrapper(s[0]) {
        skip_wrappers(s.drop_first())
    } else {
        s
    }
}

/// `s` without the wrappers at its end.
pub open spec fn drop_wrappers(s: Seq<char>) -> Seq<char>
    decreases s.len(),
{
    if s.len() > 0 && is_wrapper(s.last()) {
        drop_wrappers(s.drop_last())
    } else {
        s
    }
}

/// A path without what wraps it: first the whitespace, then the wrappers,
/// at either end.
pub open spec fn unwrapped(s: Seq<char>) -> Seq<char> {
    drop_wrappers(skip_wrappers(trimmed(s)))
}

/// The bounds of `chars[from..to]` without what wraps it.
fn unwrap_range(chars: &Vec<char>, from: usize, to: usize) -> (r: (usize, usize))
    requires
        from <= to <= chars.len(),
    ensures
        from <= r.0 <= r.1 <= to,
        chars@.subrange(r.0 as int, r.1 as int) == unwrapped(chars@.subrange(from as int, to as int)),
{
    let (a, b) = trim_range(chars, from, to);
    let mut i: usize = a;
    while i < b && wrapper(chars[i])
        invariant
            a <= i <= b <= chars.len(),
            skip_wrappers(chars@.subrange(a as int, b as int)) == skip_wrappers(
                chars@.subrange(i as int, b as int),
            ),
        decreases b - i,
    {
        assert(chars@.subrange(i as int, b as int).drop_first() =~= chars@.subrange(i + 1, b as int));
        i = i + 1;
    }
    let mut j: usize = b;
    while j > i && wrapper(chars[j - 1])
        invariant
            i <= j <= b <= chars.len(),
            drop_wrappers(chars@.subrange(i as int, b as int)) == drop_wrappers(
                chars@.subrange(i as int, j as int),
            ),
        decreases j - i,
    {
        assert(chars@.subrange(i as int, j as int).drop_last() =~= chars@.subrange(i as int, j - 1));
        j = j - 1;
    }
    (i, j)
}

/// Takes off what wraps a path in running text.
pub fn trim_artifact_path_wrappers(path: &str) -> (out: String)
    ensures
        out@ == unwrapped(path@),
{
    let chars = to_chars(path);
    let (a, b) = unwrap_range(&chars, 0, chars.len());
    proof {
        assert(chars@.subrange(0, chars.len() as int) =~= chars@);
    }
    from_chars(&chars, a, b)
}

/// `s` with its ASCII capitals as small letters.
pub open spec fn lowered(s: Seq<char>) -> Seq<char> {
    Seq::new(s.len(), |i: int| lower_ascii(s[i]))
}

/// What follows `marker` and the next colon in `path`, unwrapped; nothing
/// where the marker, in capitals or small letters, does not occur, or where
/// no colon follows its first occurrence.
pub open spec fn after_marker(path: Seq<char>, marker: Seq<char>) -> Option<Seq<char>> {
    match first_match(lowered(path), marker, 0) {
        None => None,
        Some(at) => {
            let rest = path.skip(at + marker.len());
            match first_match(rest, seq![':'], 0) {
                None => None,
                Some(colon) => Some(unwrapped(rest.skip(colon + 1))),
            }
        },
    }
}

/// A path without a JSON-like lead such as `"file_path": `: what follows
/// the first of the markers `file_path`, `absolute_path` and `path` that is
/// followed by a colon; the path itself where there is none.
pub open spec fn json_prefix_stripped(path: Seq<char>) -> Seq<char> {
    match after_marker(path, "file_path"@) {
        Some(r) => r,
        None => match after_marker(path, "absolute_path"@) {
            Some(r) => r,
            None => match after_marker(path, "path"@) {
                Some(r) => r,
                None => path,
            },
        },
    }
}

fn to_lowered(chars: &Vec<char>) -> (out: Vec<char>)
    ensures
        out@ == lowered(chars@),
{
    let mut out: Vec<char> = Vec::new();
    let mut i: usize = 0;
    while i < chars.len()
        invariant
            0 <= i <= chars.len(),
            out@ == lowered(chars@).take(i as int),
        decreases chars.len() - i,
    {
        out.push(char_lower_ascii(chars[i]));
        proof {
            let l = lowered(chars@);
            assert(l.take(i + 1) =~= l.take(i as int).push(l[i as int]));
        }
        i = i + 1;
    }
    proof {
        assert(lowered(chars@).take(chars.len() as int) =~= lowered(chars@));
    }
    out
}

fn find_after_marker(chars: &Vec<char>, low: &Vec<char>, marker: &str) -> (r: Option<(usize, usize)>)
    requires
        low@ == lowered(chars@),
    ensures
        match r {
            Some(range) => range.0 <= range.1 <= chars.len() && after_marker(chars@, marker@) == Some(
                chars@.subrange(range.0 as int, range.1 as int),
            ),
            None => after_marker(chars@, marker@) is None,
        },
{
    let pattern = to_chars(marker);
    match find_from(low, &pattern, 0) {
        None => None,
        Some(at) => {
            let start: usize = at + pattern.len();
            let ghost rest = chars@.skip(start as int);
            let mut i: usize = start;
            proof {
                assert(rest.skip(0) =~= rest);
            }
            while i < chars.len()
                invariant
                    start <= i <= chars.len(),
                    rest == chars@.skip(start as int),
                    start == at + marker@.len(),
                    first_match(lowered(chars@), marker@, 0) == Some(at as int),
                    first_match(rest, seq![':'], 0) == first_match(rest, seq![':'], i - start),
                decreases chars.len() - i,
            {
                proof {
                    assert(rest.subrange(i - start, i - start + 1) =~= seq![chars@[i as int]]);
                }
                if chars[i] == ':' {
                    let (a, b) = unwrap_range(chars, i + 1, chars.len());
                    proof {
                        assert(rest.skip(i - start + 1) =~= chars@.subrange(
                            i + 1,
                            chars.len() as int,
                        ));
                    }
                    return Some((a, b));
                }
                proof {
                    assert(seq![chars@[i as int]] != seq![':']) by {
                        assert(seq![chars@[i as int]][0] != seq![':'][0]);
                    }
                }
                i = i + 1;
            }
            None
        },
    }
}

/// Takes a JSON-like lead such as `"file_path": ` off a path.
pub fn strip_json_like_artifact_prefix(path: &str) -> (out: String)
    ensures
        out@ == json_prefix_stripped(path@),
{
    let chars = to_chars(path);
    let low = to_lowered(&chars);
    match find_after_marker(&chars, &low, "file_path") {
        Some(range) => {
            return from_chars(&chars, range.0, range.1);
        },
        None => {},
    }
    match find_after_marker(&chars, &low, "absolute_path") {
        Some(range) => {
            return from_chars(&chars, range.0, range.1);
        },
        None => {},
    }
    match find_after_marker(&chars, &low, "path") {
        Some(range) => {
            return from_chars(&chars, range.0, range.1);
        },
        None => {},
    }
    path.to_owned()
}

/// `s` without `prefix` at its front, where it begins with it.
pub open spec fn without_prefix(s: Seq<char>, prefix: Seq<char>) -> Seq<char> {
    if prefix.is_prefix_of(s) {
        s.skip(prefix.len() as int)
    } else {
        s
    }
}

/// The path that a request for an artifact means: unwrapped, without a
/// leading `file://` and without a JSON-like lead, unwrapped again; and
/// without a leading `@` where what follows it is a path by its looks.
pub open spec fn artifact_request_path(file_path: Seq<char>) -> Seq<char> {
    let normalized = unwrapped(
        json_prefix_stripped(without_prefix(unwrapped(file_path), "file://"@)),
    );
    if "@"@.is_prefix_of(normalized) && looks_like_path(without_prefix(normalized, "@"@)) {
        without_prefix(normalized, "@"@)
    } else {
        normalized
    }
}

/// Whether a text begins like a path: with `/`, `./`, `../`, `~/` or a
/// drive letter.
pub open spec fn looks_like_path(s: Seq<char>) -> bool {
    "/"@.is_prefix_of(s) || "./"@.is_prefix_of(s) || "../"@.is_prefix_of(s) || "~/"@.is_prefix_of(s)
        || windows_absolute_like(s)
}

fn strip_prefix(s: String, prefix: &str) -> (out: String)
    ensures
        out@ == without_prefix(s@, prefix@),
{
    if crate::text::starts_with(s.as_str(), prefix) {
        let chars = to_chars(s.as_str());
        let p = to_chars(prefix);
        proof {
            assert(chars@.subrange(p.len() as int, chars.len() as int) =~= chars@.skip(
                p.len() as int,
            ));
        }
        from_chars(&chars, p.len(), chars.len())
    } else {
        s
    }
}

/// Works out the path that a request for an artifact means.
pub fn normalize_artifact_request_path(file_path: &str) -> (out: String)
    ensures
        out@ == artifact_request_path(file_path@),
{
    let trimmed = trim_artifact_path_wrappers(file_path);
    let without_file_prefix = strip_prefix(trimmed, "file://");
    let stripped = strip_json_like_artifact_prefix(without_file_prefix.as_str());
    let normalized = trim_artifact_path_wrappers(stripped.as_str());
    if crate::text::starts_with(normalized.as_str(), "@") {
        let rest = strip_prefix(normalized.clone(), "@");
        if crate::text::starts_with(rest.as_str(), "/") || crate::text::starts_with(
            rest.as_str(),
            "./",
        ) || crate::text::starts_with(rest.as_str(), "../") || crate::text::starts_with(
            rest.as_str(),
            "~/",
        ) || is_windows_absolute_like(rest.as_str()) {
            return rest;
        }
    }
    normalized
}

/// The path that a request for an artifact names. A request of which
/// nothing is left is refused.
pub fn requested_artifact_path(file_path: &str) -> (r: Result<String, String>)
    ensures
        match r {
            Ok(path) => path@ == artifact_request_path(file_path@) && path@.len() > 0,
            Err(message) => artifact_request_path(file_path@).len() == 0 && message@
                == "Artifact file path cannot be empty"@,
        },
{
    let path = normalize_artifact_request_path(file_path);
    if path.as_str().unicode_len() == 0 {
        Err("Artifact file path cannot be empty".to_owned())
    } else {
        Ok(path)
    }
}

/// Whether an extension is that of an HTML file, in capitals or small
/// letters.
pub open spec fn is_html_extension(extension: Seq<char>) -> bool {
    lowered(extension) == "html"@ || lowered(extension) == "htm"@
}

/// Why the file that a request resolves to is not served, if it is not: a
/// path given relative to the workspace must stay inside it, and the file
/// must be an HTML file by its name.
pub open spec fn target_refusal(
    absolute_request: bool,
    inside_workspace: bool,
    extension: Seq<char>,
) -> Option<Seq<char>> {
    if !absolute_request && !inside_workspace {
        Some("Artifact path is outside workspace"@)
    } else if !is_html_extension(extension) {
        Some("Only .html/.htm artifacts are supported"@)
    } else {
        None
    }
}

/// Checks the file that a request resolves to. `extension` is empty for a
/// file that has none.
pub fn check_artifact_target(absolute_request: bool, inside_workspace: bool, extension: &str) -> (r:
    Result<(), String>)
    ensures
        match r {
            Ok(_) => target_refusal(absolute_request, inside_workspace, extension@) is None,
            Err(message) => target_refusal(absolute_request, inside_workspace, extension@) == Some(
                message@,
            ),
        },
{
    if !absolute_request && !inside_workspace {
        return Err("Artifact path is outside workspace".to_owned());
    }
    let low = to_lowered(&to_chars(extension));
    let html = to_chars("html");
    let htm = to_chars("htm");
    let is_html = low.len() == html.len() && stands_at(&low, &html, 0);
    let is_htm = low.len() == htm.len() && stands_at(&low, &htm, 0);
    proof {
        assert(low@.subrange(0, low@.len() as int) =~= low@);
    }
    if !is_html && !is_htm {
        return Err("Only .html/.htm artifacts are supported".to_owned());
    }
    Ok(())
}

/// Why a file is not served as an artifact, if it is not: it must be a
/// regular file of at most two mebibytes.
pub open spec fn file_refusal(is_file: bool, size: u64) -> Option<Seq<char>> {
    if !is_file {
        Some("Artifact path is not a file"@)
    } else if size > MAX_HTML_ARTIFACT_SIZE {
        Some("Artifact is too large (>2097152 bytes)"@)
    } else {
        None
    }
}

/// Checks what the file system says of the file behind an artifact.
pub fn validate_html_artifact_file(is_file: bool, size: u64) -> (r: Result<(), String>)
    ensures
        match r {
            Ok(_) => file_refusal(is_file, size) is None,
            Err(message) => file_refusal(is_file, size) == Some(message@),
        },
{
    if !is_file {
        return Err("Artifact path is not a file".to_owned());
    }
    if size > MAX_HTML_ARTIFACT_SIZE {
        return Err("Artifact is too large (>2097152 bytes)".to_owned());
    }
    Ok(())
}

} // verus!
