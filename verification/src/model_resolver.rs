//! The models an agent offers, as its bundle lists them: where the bundle may
//! lie next to the executable, and what its text says.

use vstd::prelude::*;
use crate::models::ModelOption;
use crate::text::{find_from, first_match, from_chars, push_char, to_chars, trim_range, trimmed};

verus! {

/// Whether two texts are the same path to `std::path::Path`, which compares
/// paths by their components.
pub uninterp spec fn path_same(a: Seq<char>, b: Seq<char>) -> bool;

/// The parent of a path, as `std::path::Path::parent` gives it.
pub uninterp spec fn path_parent(path: Seq<char>) -> Option<Seq<char>>;

/// A path with one more name, as `std::path::Path::join` makes it.
pub uninterp spec fn path_joined(dir: Seq<char>, name: Seq<char>) -> Seq<char>;

/// `==` on the two texts as `Path`s. Equal texts are the same path.
#[verifier::external_body]
fn same_path(a: &str, b: &str) -> (r: bool)
    ensures
        r == path_same(a@, b@),
        a@ == b@ ==> r,
{
    std::path::Path::new(a) == std::path::Path::new(b)
}

/// `Path::parent` of the text as a `Path`.
#[verifier::external_body]
fn parent_path(path: &str) -> (r: Option<String>)
    ensures
        crate::text::opt_text(r) == path_parent(path@),
{
    std::path::Path::new(path).parent().map(|p| p.to_string_lossy().into_owned())
}

/// `Path::join` of the text as a `Path` with a name.
#[verifier::external_body]
fn join_path(dir: &str, name: &str) -> (r: String)
    ensures
        r@ == path_joined(dir@, name@),
{
    std::path::Path::new(dir).join(name).to_string_lossy().into_owned()
}

/// Whether two texts name the same place: they are equal, or the same as
/// paths.
pub open spec fn same_place(a: Seq<char>, b: Seq<char>) -> bool {
    a == b || path_same(a, b)
}

/// Whether the list holds the place that `candidate` names.
pub open spec fn holds_place(candidates: Seq<Seq<char>>, candidate: Seq<char>) -> bool {
    exists|i: int| 0 <= i < candidates.len() && same_place(#[trigger] candidates[i], candidate)
}

/// The list with `candidate` at its end, unless it holds that place already.
pub open spec fn with_candidate(candidates: Seq<Seq<char>>, candidate: Seq<char>) -> Seq<Seq<char>> {
    if holds_place(candidates, candidate) {
        candidates
    } else {
        candidates.push(candidate)
    }
}

/// The places where the bundle is looked for, best first: `iflow.js` and
/// `entry.js` beside the executable's target, then that target itself; none
/// of them twice.
pub open spec fn bundle_candidates(executable_entry: Seq<char>) -> Seq<Seq<char>> {
    let beside = match path_parent(executable_entry) {
        Some(parent) => with_candidate(
            with_candidate(Seq::empty(), path_joined(parent, "iflow.js"@)),
            path_joined(parent, "entry.js"@),
        ),
        None => Seq::empty(),
    };
    with_candidate(beside, executable_entry)
}

/// Puts a candidate at the end of the list, unless the list holds the same
/// place already.
pub fn push_candidate(candidates: &mut Vec<String>, candidate: String)
    ensures
        crate::text::texts(final(candidates)@) == with_candidate(
            crate::text::texts(old(candidates)@),
            candidate@,
        ),
{
    let ghost before = crate::text::texts(candidates@);
    let mut i: usize = 0;
    while i < candidates.len()
        invariant
            0 <= i <= candidates.len(),
            *candidates == *old(candidates),
            before == crate::text::texts(candidates@),
            forall|k: int| 0 <= k < i ==> !same_place(#[trigger] before[k], candidate@),
        decreases candidates.len() - i,
    {
        if same_path(candidates[i].as_str(), candidate.as_str()) {
            assert(same_place(before[i as int], candidate@));
            return ;
        }
        i = i + 1;
    }
    let ghost c = candidate@;
    candidates.push(candidate);
    assert(crate::text::texts(candidates@) =~= before.push(c));
}

/// Lists the places where the bundle is looked for, best first.
pub fn build_bundle_entry_candidates(executable_entry: &str) -> (candidates: Vec<String>)
    ensures
        crate::text::texts(candidates@) == bundle_candidates(executable_entry@),
{
    let mut candidates: Vec<String> = Vec::new();
    assert(crate::text::texts(candidates@) =~= Seq::empty());
    match parent_path(executable_entry) {
        Some(parent) => {
            // Newer releases keep the model list in iflow.js, older ones in entry.js.
            push_candidate(&mut candidates, join_path(parent.as_str(), "iflow.js"));
            push_candidate(&mut candidates, join_path(parent.as_str(), "entry.js"));
        },
        None => {},
    }
    push_candidate(&mut candidates, executable_entry.to_owned());
    candidates
}

/// Where the block that opens at `from` ends: behind the `]` that closes
/// its first `[`. Brackets inside a string in double quotes do not count,
/// and a character behind a backslash counts for nothing.
pub open spec fn block_end(s: Seq<char>, from: int, depth: int, in_string: bool, escaped: bool) -> Option<
    int,
>
    decreases s.len() - from,
{
    if from < 0 || from >= s.len() {
        None
    } else if escaped {
        block_end(s, from + 1, depth, in_string, false)
    } else if s[from] == '\\' {
        block_end(s, from + 1, depth, in_string, true)
    } else if s[from] == '"' {
        block_end(s, from + 1, depth, !in_string, false)
    } else if in_string {
        block_end(s, from + 1, depth, in_string, false)
    } else if s[from] == '[' {
        block_end(s, from + 1, depth + 1, in_string, false)
    } else if s[from] == ']' && depth == 1 {
        Some(from + 1)
    } else if s[from] == ']' {
        block_end(s, from + 1, depth - 1, in_string, false)
    } else {
        block_end(s, from + 1, depth, in_string, false)
    }
}

/// The bracketed block that the anchor opens: from the last character of
/// the first occurrence of `anchor` up to the `]` that closes the first `[`
/// from there on.
pub open spec fn bracket_block(source: Seq<char>, anchor: Seq<char>) -> Option<Seq<char>> {
    match first_match(source, anchor, 0) {
        None => None,
        Some(at) => {
            let start = if anchor.len() == 0 {
                at
            } else {
                at + anchor.len() - 1
            };
            match block_end(source, start, 0, false, false) {
                Some(end) => Some(source.subrange(start, end)),
                None => None,
            }
        },
    }
}

/// Cuts the bracketed block that an anchor opens out of a text.
pub fn extract_bracket_block(source: &str, anchor: &str) -> (block: Option<String>)
    ensures
        crate::text::opt_text(block) == bracket_block(source@, anchor@),
{
    let chars = to_chars(source);
    let pattern = to_chars(anchor);
    let at = match find_from(&chars, &pattern, 0) {
        Some(at) => at,
        None => {
            return None;
        },
    };
    let start: usize = if pattern.len() == 0 {
        at
    } else {
        at + pattern.len() - 1
    };
    let mut depth: i128 = 0;
    let mut in_string = false;
    let mut escaped = false;
    let mut i: usize = start;
    while i < chars.len()
        invariant
            start <= i <= chars.len(),
            chars@ == source@,
            pattern@ == anchor@,
            first_match(source@, anchor@, 0) == Some(at as int),
            start == if pattern.len() == 0 {
                at as int
            } else {
                at + pattern.len() - 1
            },
            -(i - start) <= depth <= i - start,
            block_end(chars@, start as int, 0, false, false) == block_end(
                chars@,
                i as int,
                depth as int,
                in_string,
                escaped,
            ),
        decreases chars.len() - i,
    {
        let ch = chars[i];
        if escaped {
            escaped = false;
        } else if ch == '\\' {
            escaped = true;
        } else if ch == '"' {
            in_string = !in_string;
        } else if in_string {
        } else if ch == '[' {
            depth = depth + 1;
        } else if ch == ']' {
            if depth == 1 {
                return Some(from_chars(&chars, start, i + 1));
            }
            depth = depth - 1;
        }
        i = i + 1;
    }
    None
}

/// `s` with every `\"` turned into `"`, from the left.
pub open spec fn unescaped(s: Seq<char>) -> Seq<char>
    decreases s.len(),
{
    if s.len() == 0 {
        Seq::empty()
    } else if s.len() >= 2 && s[0] == '\\' && s[1] == '"' {
        seq!['"'] + unescaped(s.skip(2))
    } else {
        seq![s[0]] + unescaped(s.skip(1))
    }
}

/// What opens an entry of the model list.
pub open spec fn label_prefix() -> Seq<char> {
    "{label:\""@
}

/// What stands between the label and the value of an entry.
pub open spec fn value_separator() -> Seq<char> {
    "\",value:\""@
}

/// The entries of a model list from `cursor` on, each as its label and its
/// value: an entry opens with `{label:"`, its label ends where `",value:"`
/// begins, and its value where the next `"` stands. An entry whose value is
/// blank is left out. The list ends where no further entry is complete.
/// (A value never ends before the cursor or behind the text; saying so lets
/// the definition be seen to come to an end.)
pub open spec fn model_entries(block: Seq<char>, cursor: int) -> Seq<(Seq<char>, Seq<char>)>
    decreases block.len() - cursor,
{
    match first_match(block, label_prefix(), cursor) {
        None => Seq::empty(),
        Some(start) => {
            let label_start = start + label_prefix().len();
            match first_match(block, value_separator(), label_start) {
                None => Seq::empty(),
                Some(label_end) => {
                    let value_start = label_end + value_separator().len();
                    match first_match(block, seq!['"'], value_start) {
                        None => Seq::empty(),
                        Some(value_end) => {
                            if value_end < cursor || value_end >= block.len() {
                                Seq::empty()
                            } else {
                                let label = unescaped(block.subrange(label_start, label_end));
                                let value = unescaped(block.subrange(value_start, value_end));
                                let rest = model_entries(block, value_end + 1);
                                if trimmed(value).len() == 0 {
                                    rest
                                } else {
                                    seq![(label, value)] + rest
                                }
                            }
                        },
                    }
                },
            }
        },
    }
}

/// The labels and values of a list of model options.
pub open spec fn options_view(options: Seq<ModelOption>) -> Seq<(Seq<char>, Seq<char>)> {
    Seq::new(options.len(), |i: int| (options[i].label@, options[i].value@))
}

fn unescape(chars: &Vec<char>, from: usize, to: usize) -> (out: String)
    requires
        from <= to <= chars.len(),
    ensures
        out@ == unescaped(chars@.subrange(from as int, to as int)),
{
    let mut out = String::new();
    let mut i: usize = from;
    let ghost all = unescaped(chars@.subrange(from as int, to as int));
    while i < to
        invariant
            from <= i <= to <= chars.len(),
            all == out@ + unescaped(chars@.subrange(i as int, to as int)),
        decreases to - i,
    {
        let ghost cur = chars@.subrange(i as int, to as int);
        if to - i >= 2 && chars[i] == '\\' && chars[i + 1] == '"' {
            proof {
                assert(cur.skip(2) =~= chars@.subrange(i + 2, to as int));
                assert(out@ + (seq!['"'] + unescaped(cur.skip(2))) =~= out@.push('"') + unescaped(
                    cur.skip(2),
                ));
            }
            push_char(&mut out, '"');
            i = i + 2;
        } else {
            proof {
                assert(cur.skip(1) =~= chars@.subrange(i + 1, to as int));
                assert(out@ + (seq![cur[0]] + unescaped(cur.skip(1))) =~= out@.push(cur[0])
                    + unescaped(cur.skip(1)));
            }
            push_char(&mut out, chars[i]);
            i = i + 1;
        }
    }
    proof {
        assert(chars@.subrange(to as int, to as int) =~= Seq::<char>::empty());
        assert(out@ + Seq::<char>::empty() =~= out@);
    }
    out
}

/// Reads the entries of a model list.
pub fn parse_model_entries_from_array_block(block: &str) -> (options: Vec<ModelOption>)
    ensures
        options_view(options@) == model_entries(block@, 0),
{
    let chars = to_chars(block);
    let label_prefix = to_chars("{label:\"");
    let value_separator = to_chars("\",value:\"");
    let quote: Vec<char> = vec!['"'];
    let mut options: Vec<ModelOption> = Vec::new();
    let mut cursor: usize = 0;
    proof {
        assert(options_view(options@) =~= Seq::empty());
        assert(quote@ =~= seq!['"']);
    }
    loop
        invariant
            cursor <= chars.len(),
            chars@ == block@,
            label_prefix@ == self::label_prefix(),
            value_separator@ == self::value_separator(),
            quote@ == seq!['"'],
            model_entries(block@, 0) == options_view(options@) + model_entries(
                block@,
                cursor as int,
            ),
        decreases chars.len() - cursor,
    {
        let ghost sofar = options_view(options@);
        proof {
            assert(sofar + Seq::<(Seq<char>, Seq<char>)>::empty() =~= sofar);
        }
        let start = match find_from(&chars, &label_prefix, cursor) {
            Some(start) => start,
            None => {
                return options;
            },
        };
        let label_start: usize = start + label_prefix.len();
        let label_end = match find_from(&chars, &value_separator, label_start) {
            Some(label_end) => label_end,
            None => {
                return options;
            },
        };
        let value_start: usize = label_end + value_separator.len();
        let value_end = match find_from(&chars, &quote, value_start) {
            Some(value_end) => value_end,
            None => {
                return options;
            },
        };
        let label = unescape(&chars, label_start, label_end);
        let value = unescape(&chars, value_start, value_end);
        let value_chars = to_chars(value.as_str());
        let (a, b) = trim_range(&value_chars, 0, value_chars.len());
        proof {
            assert(value_chars@.subrange(0, value_chars.len() as int) =~= value_chars@);
        }
        if a < b {
            let ghost entry = (label@, value@);
            options.push(ModelOption { label, value });
            proof {
                assert(options_view(options@) =~= sofar + seq![entry]);
                assert(sofar + (seq![entry] + model_entries(block@, value_end + 1)) =~= (sofar
                    + seq![entry]) + model_entries(block@, value_end + 1));
            }
        }
        cursor = value_end + 1;
    }
}

/// The models that the text of a bundle lists: the entries of the first
/// block that one of the anchors `CAe=[`, `modelOptions=[` and `models=[`
/// opens.
pub open spec fn bundle_block(text: Seq<char>) -> Option<Seq<char>> {
    match bracket_block(text, "CAe=["@) {
        Some(b) => Some(b),
        None => match bracket_block(text, "modelOptions=["@) {
            Some(b) => Some(b),
            None => bracket_block(text, "models=["@),
        },
    }
}

/// Reads the models out of the text of a bundle. It fails where the text
/// has no model list, and where the list has no entry.
pub fn extract_model_options_from_bundle(bundle_text: &str) -> (r: Result<Vec<ModelOption>, String>)
    ensures
        match r {
            Ok(models) => bundle_block(bundle_text@) matches Some(block) && options_view(models@)
                == model_entries(block, 0) && models@.len() > 0,
            Err(message) => match bundle_block(bundle_text@) {
                None => message@ == "Failed to locate model list in iflow bundle"@,
                Some(block) => model_entries(block, 0).len() == 0 && message@
                    == "No model entries found in iflow bundle"@,
            },
        },
{
    let block = match extract_bracket_block(bundle_text, "CAe=[") {
        Some(b) => Some(b),
        None => match extract_bracket_block(bundle_text, "modelOptions=[") {
            Some(b) => Some(b),
            None => extract_bracket_block(bundle_text, "models=["),
        },
    };
    let block = match block {
        Some(b) => b,
        None => {
            return Err("Failed to locate model list in iflow bundle".to_owned());
        },
    };
    let models = parse_model_entries_from_array_block(block.as_str());
    if models.len() == 0 {
        return Err("No model entries found in iflow bundle".to_owned());
    }
    Ok(models)
}

/// The executable that is asked for: its path or name, trimmed. A blank
/// one is refused.
pub fn requested_executable(iflow_path: &str) -> (r: Result<String, String>)
    ensures
        match r {
            Ok(path) => path@ == trimmed(iflow_path@) && path@.len() > 0,
            Err(message) => trimmed(iflow_path@).len() == 0 && message@
                == "iflow path cannot be empty"@,
        },
{
    let path = crate::text::trim(iflow_path);
    if path.as_str().unicode_len() == 0 {
        Err("iflow path cannot be empty".to_owned())
    } else {
        Ok(path)
    }
}

/// Checks that what the executable resolves to is a script: its extension
/// must be `js`. `shown` is the path as it is reported.
pub fn check_executable_target(extension: Option<&str>, shown: &str) -> (r: Result<(), String>)
    ensures
        match r {
            Ok(_) => extension matches Some(e) && e@ == "js"@,
            Err(message) => !(extension matches Some(e) && e@ == "js"@) && message@
                == "Unsupported iflow executable target: "@ + shown@,
        },
{
    let is_script = match extension {
        Some(e) => crate::text::str_eq(e, "js"),
        None => false,
    };
    if is_script {
        Ok(())
    } else {
        Err(crate::text::concat("Unsupported iflow executable target: ", shown))
    }
}

} // verus!
