//! The whole path from conversational text to what is printed: choose
//! the extractor, and where JSON is asked for, check the payload and
//! write it back in one of two forms.

use crate::extract::{extract_code_block, extraction, ExtractError, ExtractFailure};
use crate::json::{compact_json, json_of, parse_tree, pretty_json, write_compact, write_pretty};
use crate::json_extract::{extract_json, json_extraction};
use crate::log_entry::borrowed_view;
use vstd::prelude::*;

verus! {

/// What the caller asks for.
#[derive(Debug, Clone, Copy, PartialEq, Eq)]
pub struct CleanOptions {
    /// Check the payload as JSON and write it back.
    pub validate_json: bool,
    /// Write the JSON on one line between `::` markers.
    pub kestra_log: bool,
}

/// A result as plain values.
pub open spec fn result_view(r: Result<String, ExtractError>) -> Result<Seq<char>, ExtractFailure> {
    match r {
        Ok(text) => Ok(text@),
        Err(e) => Err(e@),
    }
}

/// Which extractor decides: with a language, the code extractor for that
/// language; else, where JSON is asked for, the JSON extractor; else the
/// code extractor for any language.
pub open spec fn selected_extraction(
    input: Seq<char>,
    lang: Option<Seq<char>>,
    validate_json: bool,
) -> Result<Seq<char>, ExtractFailure> {
    match lang {
        Some(tag) => extraction(input, Some(tag)),
        None => if validate_json {
            json_extraction(input)
        } else {
            extraction(input, None)
        },
    }
}

/// Written JSON as it is printed: on one line between `::` markers, or
/// as it is; each with a line feed behind it.
pub open spec fn framed(written: Seq<char>, kestra_log: bool) -> Seq<char> {
    if kestra_log {
        "::"@ + written + "::\n"@
    } else {
        written + "\n"@
    }
}

/// The JSON text of a value in the form that the options ask for.
pub open spec fn written_json(v: crate::value::JsonValue, kestra_log: bool) -> Seq<char> {
    if kestra_log {
        compact_json(v)
    } else {
        pretty_json(v)
    }
}

/// Frames written JSON for printing; without written JSON the payload
/// counts as malformed.
pub fn frame_json(written: Option<&str>, kestra_log: bool) -> (r: Result<String, ExtractError>)
    ensures
        result_view(r) == (match written {
            Some(w) => Ok::<Seq<char>, ExtractFailure>(framed(w@, kestra_log)),
            None => Err::<Seq<char>, ExtractFailure>(ExtractFailure::MalformedJson),
        }),
{
    match written {
        Some(w) => {
            if kestra_log {
                let mut out = String::from_str("::");
                out.append(w);
                out.append("::\n");
                Ok(out)
            } else {
                let mut out = String::from_str(w);
                out.append("\n");
                Ok(out)
            }
        },
        None => Err(ExtractError::MalformedJson),
    }
}

/// What is printed for a payload that is to be JSON: the payload
/// written back in the form asked for, or the error `MalformedJson`
/// where it is not JSON.
pub open spec fn validated(payload: Seq<char>, kestra_log: bool) -> Result<
    Seq<char>,
    ExtractFailure,
> {
    match json_of(payload) {
        Some(v) => Ok(framed(written_json(v, kestra_log), kestra_log)),
        None => Err(ExtractFailure::MalformedJson),
    }
}

/// What is printed for a text: the payload that the options select, as
/// it is, or checked and written back where JSON is asked for.
pub open spec fn cleaned(input: Seq<char>, lang: Option<Seq<char>>, options: CleanOptions) -> Result<
    Seq<char>,
    ExtractFailure,
> {
    match selected_extraction(input, lang, options.validate_json) {
        Ok(payload) => if options.validate_json {
            validated(payload, options.kestra_log)
        } else {
            Ok(payload)
        },
        Err(e) => Err(e),
    }
}

/// Checks a payload as JSON and writes it back for printing. A payload
/// that is not JSON is the error `MalformedJson`.
pub fn validated_output(payload: &str, kestra_log: bool) -> (r: Result<String, ExtractError>)
    ensures
        result_view(r) == validated(payload@, kestra_log),
{
    match parse_tree(payload) {
        Ok(tree) => {
            let written = if kestra_log {
                write_compact(&tree)
            } else {
                write_pretty(&tree)
            };
            match written {
                Ok(w) => frame_json(Some(w.as_str()), kestra_log),
                Err(_) => frame_json(None, kestra_log),
            }
        },
        Err(_) => Err(ExtractError::MalformedJson),
    }
}

/// Extracts the payload that the options select.
pub fn extract_selected(input: &str, lang: Option<&str>, validate_json: bool) -> (r: Result<
    String,
    ExtractError,
>)
    ensures
        result_view(r) == selected_extraction(input@, borrowed_view(lang), validate_json),
{
    match lang {
        Some(tag) => extract_code_block(input, Some(tag)),
        None => {
            if validate_json {
                extract_json(input)
            } else {
                extract_code_block(input, None)
            }
        },
    }
}

/// What is printed for `input`: the extracted payload as it is, or,
/// where JSON is asked for, the payload checked and written back.
pub fn clean(input: &str, lang: Option<&str>, options: CleanOptions) -> (r: Result<
    String,
    ExtractError,
>)
    ensures
        result_view(r) == cleaned(input@, borrowed_view(lang), options),
{
    match extract_selected(input, lang, options.validate_json) {
        Ok(payload) => {
            if options.validate_json {
                validated_output(payload.as_str(), options.kestra_log)
            } else {
                Ok(payload)
            }
        },
        Err(e) => Err(e),
    }
}

} // verus!
