//! Extraction of one JSON object from conversational text: from a fenced
//! block first, else from anywhere in the text. An object is recognised
//! through at most one level of nested braces.

use crate::extract::{fence, ExtractError, ExtractFailure};
use crate::text::{
    chars_of, matches_at, occurs_at, skip_whitespace, skip_whitespace_from, slice, text_of,
};
use vstd::prelude::*;

verus! {

/// Behind the whitespace that starts at `from` stands a fence.
pub open spec fn fence_behind_gap(s: Seq<char>, from: int) -> bool {
    occurs_at(s, fence(), skip_whitespace(s, from))
}

/// The first `}` at or after `from` behind which only whitespace and a
/// fence follow.
pub open spec fn closing_brace(s: Seq<char>, from: int) -> Option<int>
    decreases s.len() - from,
{
    if from < 0 || from >= s.len() {
        None
    } else if s[from] == '}' && fence_behind_gap(s, from + 1) {
        Some(from)
    } else {
        closing_brace(s, from + 1)
    }
}

/// Where the tag of the fence at `p` ends: behind `json` where the fence
/// carries it, else directly behind the fence.
pub open spec fn json_tag_end(s: Seq<char>, p: int) -> int {
    if occurs_at(s, "json"@, p + fence().len()) {
        p + fence().len() + "json"@.len()
    } else {
        p + fence().len()
    }
}

/// The object of the fenced block that opens at `p`, by the positions of
/// its first and last brace: behind the fence, the tag `json` that it may
/// carry, and whitespace, stands `{`; the object ends with the first `}`
/// behind which only whitespace and the closing fence follow.
pub open spec fn fenced_json_at(s: Seq<char>, p: int) -> Option<(int, int)> {
    if occurs_at(s, fence(), p) {
        let open = skip_whitespace(s, json_tag_end(s, p));
        if 0 <= open < s.len() && s[open] == '{' {
            match closing_brace(s, open + 1) {
                Some(close) => Some((open, close)),
                None => None,
            }
        } else {
            None
        }
    } else {
        None
    }
}

/// The object of the first fenced block, at or after `from`, that holds
/// one.
pub open spec fn fenced_json(s: Seq<char>, from: int) -> Option<Seq<char>>
    decreases s.len() - from,
{
    if from < 0 || from >= s.len() {
        None
    } else {
        match fenced_json_at(s, from) {
            Some((open, close)) => Some(s.subrange(open, close + 1)),
            None => fenced_json(s, from + 1),
        }
    }
}

/// The end of an object whose text is read from `i` on: the `}` that
/// closes it. Inside, braces may open once more, but not twice; `nested`
/// says whether the text at `i` lies inside such an inner pair.
pub open spec fn flat_object_end(s: Seq<char>, i: int, nested: bool) -> Option<int>
    decreases s.len() - i,
{
    if i < 0 || i >= s.len() {
        None
    } else if s[i] == '{' {
        if nested {
            None
        } else {
            flat_object_end(s, i + 1, true)
        }
    } else if s[i] == '}' {
        if nested {
            flat_object_end(s, i + 1, false)
        } else {
            Some(i)
        }
    } else {
        flat_object_end(s, i + 1, nested)
    }
}

/// The end of the object that opens at `p`.
pub open spec fn raw_object_at(s: Seq<char>, p: int) -> Option<int> {
    if 0 <= p < s.len() && s[p] == '{' {
        flat_object_end(s, p + 1, false)
    } else {
        None
    }
}

/// The first object, at or after `from`, with at most one level of
/// nested braces.
pub open spec fn raw_object(s: Seq<char>, from: int) -> Option<Seq<char>>
    decreases s.len() - from,
{
    if from < 0 || from >= s.len() {
        None
    } else {
        match raw_object_at(s, from) {
            Some(close) => Some(s.subrange(from, close + 1)),
            None => raw_object(s, from + 1),
        }
    }
}

/// The JSON object of a text: that of a fenced block first, else the
/// first raw object.
pub open spec fn json_payload(s: Seq<char>) -> Option<Seq<char>> {
    match fenced_json(s, 0) {
        Some(object) => Some(object),
        None => raw_object(s, 0),
    }
}

/// Where a JSON object was found.
#[derive(Debug, Clone, Copy, PartialEq, Eq, Structural)]
pub enum JsonSource {
    /// In a fenced block.
    FencedBlock,
    /// Anywhere in the text.
    RawObject,
}

/// The JSON object of a text and where it was found: that of a fenced
/// block first, else the first raw object; without one, the error
/// `JsonNotFound`.
pub open spec fn traced_json_extraction(input: Seq<char>) -> Result<
    (Seq<char>, JsonSource),
    ExtractFailure,
> {
    match fenced_json(input, 0) {
        Some(object) => Ok((object, JsonSource::FencedBlock)),
        None => match raw_object(input, 0) {
            Some(object) => Ok((object, JsonSource::RawObject)),
            None => Err(ExtractFailure::JsonNotFound),
        },
    }
}

/// The JSON object of a text, or the error `JsonNotFound`.
pub open spec fn json_extraction(input: Seq<char>) -> Result<Seq<char>, ExtractFailure> {
    match json_payload(input) {
        Some(object) => Ok(object),
        None => Err(ExtractFailure::JsonNotFound),
    }
}

proof fn lemma_no_brace_no_fenced_json(s: Seq<char>, from: int)
    requires
        forall|i: int| 0 <= i < s.len() ==> s[i] != '{',
    ensures
        fenced_json(s, from) is None,
    decreases s.len() - from,
{
    if 0 <= from < s.len() {
        lemma_no_brace_no_fenced_json(s, from + 1);
    }
}

proof fn lemma_no_brace_no_raw_object(s: Seq<char>, from: int)
    requires
        forall|i: int| 0 <= i < s.len() ==> s[i] != '{',
    ensures
        raw_object(s, from) is None,
    decreases s.len() - from,
{
    if 0 <= from < s.len() {
        lemma_no_brace_no_raw_object(s, from + 1);
    }
}

/// A text without an opening brace holds no JSON object.
pub proof fn lemma_no_brace_no_json(input: Seq<char>)
    requires
        forall|i: int| 0 <= i < input.len() ==> input[i] != '{',
    ensures
        json_extraction(input) == Err::<Seq<char>, ExtractFailure>(ExtractFailure::JsonNotFound),
{
    lemma_no_brace_no_fenced_json(input, 0);
    lemma_no_brace_no_raw_object(input, 0);
}

fn fence_follows(v: &Vec<char>, mark: &Vec<char>, from: usize) -> (b: bool)
    requires
        from <= v.len(),
        mark@ == fence(),
    ensures
        b == fence_behind_gap(v@, from as int),
{
    let at = skip_whitespace_from(v, from);
    matches_at(v, mark, at)
}

fn find_closing_brace(v: &Vec<char>, mark: &Vec<char>, from: usize) -> (r: Option<usize>)
    requires
        mark@ == fence(),
    ensures
        match r {
            Some(close) => closing_brace(v@, from as int) == Some(close as int) && from <= close
                < v.len(),
            None => closing_brace(v@, from as int) is None,
        },
{
    let mut i: usize = from;
    while i < v.len()
        invariant
            from <= i,
            mark@ == fence(),
            closing_brace(v@, from as int) == closing_brace(v@, i as int),
        decreases v.len() - i,
    {
        if v[i] == '}' && fence_follows(v, mark, i + 1) {
            return Some(i);
        }
        i += 1;
    }
    None
}

fn find_fenced_json_at(v: &Vec<char>, mark: &Vec<char>, word: &Vec<char>, p: usize) -> (r: Option<
    (usize, usize),
>)
    requires
        p < v.len(),
        mark@ == fence(),
        word@ == "json"@,
    ensures
        match r {
            Some(span) => fenced_json_at(v@, p as int) == Some((span.0 as int, span.1 as int))
                && span.0 <= span.1 < v.len(),
            None => fenced_json_at(v@, p as int) is None,
        },
{
    if !matches_at(v, mark, p) {
        return None;
    }
    assert(p + mark.len() <= v.len());
    let behind_fence: usize = p + mark.len();
    let tag_end: usize = if matches_at(v, word, behind_fence) {
        assert(behind_fence + word.len() <= v.len());
        behind_fence + word.len()
    } else {
        behind_fence
    };
    let open = skip_whitespace_from(v, tag_end);
    if open < v.len() && v[open] == '{' {
        match find_closing_brace(v, mark, open + 1) {
            Some(close) => Some((open, close)),
            None => None,
        }
    } else {
        None
    }
}

fn find_fenced_json(v: &Vec<char>) -> (r: Option<Vec<char>>)
    ensures
        match r {
            Some(object) => fenced_json(v@, 0) == Some(object@),
            None => fenced_json(v@, 0) is None,
        },
{
    let mark = chars_of("```");
    let word = chars_of("json");
    let mut p: usize = 0;
    while p < v.len()
        invariant
            p <= v.len(),
            mark@ == fence(),
            word@ == "json"@,
            fenced_json(v@, 0) == fenced_json(v@, p as int),
        decreases v.len() - p,
    {
        match find_fenced_json_at(v, &mark, &word, p) {
            Some(span) => {
                return Some(slice(v, span.0, span.1 + 1));
            },
            None => {},
        }
        p += 1;
    }
    None
}

fn find_flat_object_end(v: &Vec<char>, from: usize) -> (r: Option<usize>)
    ensures
        match r {
            Some(close) => flat_object_end(v@, from as int, false) == Some(close as int) && from
                <= close < v.len(),
            None => flat_object_end(v@, from as int, false) is None,
        },
{
    let mut i: usize = from;
    let mut nested = false;
    while i < v.len()
        invariant
            from <= i,
            flat_object_end(v@, from as int, false) == flat_object_end(v@, i as int, nested),
        decreases v.len() - i,
    {
        let c = v[i];
        if c == '{' {
            if nested {
                return None;
            }
            nested = true;
        } else if c == '}' {
            if !nested {
                return Some(i);
            }
            nested = false;
        }
        i += 1;
    }
    None
}

fn find_raw_object(v: &Vec<char>) -> (r: Option<Vec<char>>)
    ensures
        match r {
            Some(object) => raw_object(v@, 0) == Some(object@),
            None => raw_object(v@, 0) is None,
        },
{
    let mut p: usize = 0;
    while p < v.len()
        invariant
            p <= v.len(),
            raw_object(v@, 0) == raw_object(v@, p as int),
        decreases v.len() - p,
    {
        if v[p] == '{' {
            match find_flat_object_end(v, p + 1) {
                Some(close) => {
                    return Some(slice(v, p, close + 1));
                },
                None => {},
            }
        }
        p += 1;
    }
    None
}

/// Extracts one JSON object from `input`, and says where it was found:
/// the object of the first fenced block that holds one (the fence may
/// carry the tag `json`), else the first object that stands anywhere in
/// the text. Braces are followed through one level of nesting, not
/// further.
pub fn extract_json_traced(input: &str) -> (r: Result<(String, JsonSource), ExtractError>)
    ensures
        match r {
            Ok(found) => traced_json_extraction(input@) == Ok::<
                (Seq<char>, JsonSource),
                ExtractFailure,
            >((found.0@, found.1)),
            Err(e) => traced_json_extraction(input@) == Err::<
                (Seq<char>, JsonSource),
                ExtractFailure,
            >(e@),
        },
{
    let v = chars_of(input);
    match find_fenced_json(&v) {
        Some(object) => {
            return Ok((text_of(&object), JsonSource::FencedBlock));
        },
        None => {},
    }
    match find_raw_object(&v) {
        Some(object) => Ok((text_of(&object), JsonSource::RawObject)),
        None => Err(ExtractError::JsonNotFound),
    }
}

/// Extracts one JSON object from `input`: the object of the first fenced
/// block that holds one, else the first object that stands anywhere in
/// the text.
pub fn extract_json(input: &str) -> (r: Result<String, ExtractError>)
    ensures
        match r {
            Ok(object) => json_extraction(input@) == Ok::<Seq<char>, ExtractFailure>(object@),
            Err(e) => json_extraction(input@) == Err::<Seq<char>, ExtractFailure>(e@),
        },
{
    match extract_json_traced(input) {
        Ok(found) => Ok(found.0),
        Err(e) => Err(e),
    }
}

} // verus!
