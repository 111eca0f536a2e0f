//! The first quality stage for generated code: what the outcome of the
//! syntax and type tools means. The tools themselves run outside; each
//! reports whether it passed, or nothing where it could not be run.

use crate::text::{chars_of, equals, join_texts, joined, texts_view};
use vstd::prelude::*;

verus! {

/// The verdict on a piece of code.
#[derive(Debug, Clone, PartialEq, Eq)]
pub struct Gate1Output {
    pub passed: bool,
    pub syntax_ok: bool,
    pub lint_ok: bool,
    pub type_ok: bool,
    pub errors: Vec<String>,
    pub was_dry_run: bool,
}

/// A verdict as plain values.
pub ghost struct Gate1View {
    pub passed: bool,
    pub syntax_ok: bool,
    pub lint_ok: bool,
    pub type_ok: bool,
    pub errors: Seq<Seq<char>>,
    pub was_dry_run: bool,
}

impl View for Gate1Output {
    type V = Gate1View;

    open spec fn view(&self) -> Gate1View {
        Gate1View {
            passed: self.passed,
            syntax_ok: self.syntax_ok,
            lint_ok: self.lint_ok,
            type_ok: self.type_ok,
            errors: texts_view(self.errors@),
            was_dry_run: self.was_dry_run,
        }
    }
}

/// The languages whose code can be judged.
#[derive(Debug, Clone, Copy, PartialEq, Eq, Structural)]
pub enum Language {
    Rust,
    Python,
    TypeScript,
    Go,
}

/// The language that a name or its short form stands for.
pub open spec fn language_named(name: Seq<char>) -> Option<Language> {
    if name == "rust"@ || name == "rs"@ {
        Some(Language::Rust)
    } else if name == "python"@ || name == "py"@ {
        Some(Language::Python)
    } else if name == "typescript"@ || name == "ts"@ {
        Some(Language::TypeScript)
    } else if name == "go"@ {
        Some(Language::Go)
    } else {
        None
    }
}

/// What a check reported, or `default` where it could not be run.
pub open spec fn outcome_or(outcome: Option<bool>, default: bool) -> bool {
    match outcome {
        Some(passed) => passed,
        None => default,
    }
}

/// The verdict for Rust: a formatter that could not be run counts as
/// passed, a type check that could not be run as failed. Of two failures
/// the one of the syntax is reported.
pub open spec fn rust_verdict(syntax: Option<bool>, types: Option<bool>) -> Gate1View {
    let syntax_ok = outcome_or(syntax, true);
    let type_ok = outcome_or(types, false);
    Gate1View {
        passed: syntax_ok && type_ok,
        syntax_ok,
        lint_ok: true,
        type_ok,
        errors: if !syntax_ok {
            seq!["Rust syntax check failed"@]
        } else if !type_ok {
            seq!["Rust type check failed"@]
        } else {
            Seq::empty()
        },
        was_dry_run: false,
    }
}

/// The verdict for a language with one check: a check that could not be
/// run counts as failed.
pub open spec fn single_verdict(outcome: Option<bool>, complaint: Seq<char>) -> Gate1View {
    let passed = outcome_or(outcome, false);
    Gate1View {
        passed,
        syntax_ok: passed,
        lint_ok: true,
        type_ok: true,
        errors: if !passed {
            seq![complaint]
        } else {
            Seq::empty()
        },
        was_dry_run: false,
    }
}

/// The verdict for a language that cannot be judged.
pub open spec fn unsupported_verdict(name: Seq<char>) -> Gate1View {
    Gate1View {
        passed: false,
        syntax_ok: false,
        lint_ok: false,
        type_ok: false,
        errors: seq!["Unsupported language: "@ + name],
        was_dry_run: false,
    }
}

/// The verdict of a dry run: everything passes, nothing was checked.
pub open spec fn dry_run_verdict() -> Gate1View {
    Gate1View {
        passed: true,
        syntax_ok: true,
        lint_ok: true,
        type_ok: true,
        errors: Seq::empty(),
        was_dry_run: true,
    }
}

/// The report of a failed stage: its errors, separated by `; `.
pub open spec fn failure_report(errors: Seq<Seq<char>>) -> Seq<char> {
    "Gate 1 validation failed: "@ + joined(errors, "; "@)
}

/// The field that a request lacks: the path of the code first.
pub open spec fn missing_field(code_path: Seq<char>, language: Seq<char>) -> Option<Seq<char>> {
    if code_path.len() == 0 {
        Some("code_path is required"@)
    } else if language.len() == 0 {
        Some("language is required"@)
    } else {
        None
    }
}

fn outcome_or_default(outcome: Option<bool>, default: bool) -> (r: bool)
    ensures
        r == outcome_or(outcome, default),
{
    match outcome {
        Some(passed) => passed,
        None => default,
    }
}

fn one_error(text: String) -> (r: Vec<String>)
    ensures
        texts_view(r@) == seq![text@],
{
    let mut errors: Vec<String> = Vec::new();
    errors.push(text);
    errors
}

fn no_errors() -> (r: Vec<String>)
    ensures
        texts_view(r@) == Seq::<Seq<char>>::empty(),
{
    let errors: Vec<String> = Vec::new();
    errors
}

fn single_check(outcome: Option<bool>, complaint: &str) -> (r: Gate1Output)
    ensures
        r@ == single_verdict(outcome, complaint@),
{
    let passed = outcome_or_default(outcome, false);
    Gate1Output {
        passed,
        syntax_ok: passed,
        lint_ok: true,
        type_ok: true,
        errors: if !passed {
            one_error(String::from_str(complaint))
        } else {
            no_errors()
        },
        was_dry_run: false,
    }
}

/// The language that `name` stands for; `None` for any other name.
pub fn language_of(name: &str) -> (r: Option<Language>)
    ensures
        r == language_named(name@),
{
    let v = chars_of(name);
    if equals(&v, "rust") || equals(&v, "rs") {
        Some(Language::Rust)
    } else if equals(&v, "python") || equals(&v, "py") {
        Some(Language::Python)
    } else if equals(&v, "typescript") || equals(&v, "ts") {
        Some(Language::TypeScript)
    } else if equals(&v, "go") {
        Some(Language::Go)
    } else {
        None
    }
}

/// The verdict for Rust code, from the outcome of the formatter and of
/// the type check.
pub fn check_rust(syntax: Option<bool>, types: Option<bool>) -> (r: Gate1Output)
    ensures
        r@ == rust_verdict(syntax, types),
{
    let syntax_ok = outcome_or_default(syntax, true);
    let type_ok = outcome_or_default(types, false);
    Gate1Output {
        passed: syntax_ok && type_ok,
        syntax_ok,
        lint_ok: true,
        type_ok,
        errors: if !syntax_ok {
            one_error(String::from_str("Rust syntax check failed"))
        } else if !type_ok {
            one_error(String::from_str("Rust type check failed"))
        } else {
            no_errors()
        },
        was_dry_run: false,
    }
}

/// The verdict for Python code, from the outcome of the compile check.
pub fn check_python(outcome: Option<bool>) -> (r: Gate1Output)
    ensures
        r@ == single_verdict(outcome, "Python syntax check failed"@),
{
    single_check(outcome, "Python syntax check failed")
}

/// The verdict for TypeScript code, from the outcome of the compiler.
pub fn check_typescript(outcome: Option<bool>) -> (r: Gate1Output)
    ensures
        r@ == single_verdict(outcome, "TypeScript syntax check failed"@),
{
    single_check(outcome, "TypeScript syntax check failed")
}

/// The verdict for Go code, from the outcome of the formatter.
pub fn check_go(outcome: Option<bool>) -> (r: Gate1Output)
    ensures
        r@ == single_verdict(outcome, "Go syntax check failed"@),
{
    single_check(outcome, "Go syntax check failed")
}

/// The verdict for a language that cannot be judged.
pub fn unsupported_language(name: &str) -> (r: Gate1Output)
    ensures
        r@ == unsupported_verdict(name@),
{
    let mut complaint = String::from_str("Unsupported language: ");
    complaint.append(name);
    Gate1Output {
        passed: false,
        syntax_ok: false,
        lint_ok: false,
        type_ok: false,
        errors: one_error(complaint),
        was_dry_run: false,
    }
}

/// The verdict of a dry run.
pub fn dry_run_output() -> (r: Gate1Output)
    ensures
        r@ == dry_run_verdict(),
{
    Gate1Output {
        passed: true,
        syntax_ok: true,
        lint_ok: true,
        type_ok: true,
        errors: no_errors(),
        was_dry_run: true,
    }
}

/// The report of a failed stage.
pub fn failure_message(output: &Gate1Output) -> (r: String)
    ensures
        r@ == failure_report(output@.errors),
{
    let list = join_texts(&output.errors, "; ");
    let mut out = String::from_str("Gate 1 validation failed: ");
    out.append(list.as_str());
    out
}

/// Names the field that a request lacks.
pub fn required_field_error(code_path: &str, language: &str) -> (r: Option<&'static str>)
    ensures
        match r {
            Some(text) => missing_field(code_path@, language@) == Some(text@),
            None => missing_field(code_path@, language@) is None,
        },
{
    if chars_of(code_path).len() == 0 {
        Some("code_path is required")
    } else if chars_of(language).len() == 0 {
        Some("language is required")
    } else {
        None
    }
}

} // verus!
