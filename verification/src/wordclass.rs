//! The Unicode word characters, decided by the `regex` crate.

use vstd::prelude::*;

verus! {

/// `regex::Regex`, carried through as it is.
#[verifier::external_type_specification]
#[verifier::external_body]
pub struct ExRegex(regex::Regex);

/// Whether the `regex` crate compiles a pattern.
pub uninterp spec fn regex_compiles(pattern: Seq<char>) -> bool;

/// Whether a pattern, compiled by the `regex` crate, matches somewhere in
/// a text.
pub uninterp spec fn regex_matches(pattern: Seq<char>, text: Seq<char>) -> bool;

/// The pattern from which a compiled expression was made.
pub uninterp spec fn pattern_of(re: regex::Regex) -> Seq<char>;

/// `regex::Regex::new`. Whether a pattern compiles depends on the
/// pattern alone, and the compiled expression stands for its pattern.
/// The pattern `^\w$` compiles: the anchors and the class `\w` belong to
/// the syntax that the crate documents.
#[verifier::external_body]
fn compile(pattern: &str) -> (r: Option<regex::Regex>)
    ensures
        r is Some <==> regex_compiles(pattern@),
        r matches Some(re) ==> pattern_of(re) == pattern@,
        pattern@ == word_pattern() ==> r is Some,
{
    regex::Regex::new(pattern).ok()
}

/// `regex::Regex::is_match`. Whether the expression matches depends on
/// its pattern and on the text alone.
#[verifier::external_body]
fn matches(re: &regex::Regex, text: &str) -> (b: bool)
    ensures
        b == regex_matches(pattern_of(*re), text@),
{
    re.is_match(text)
}

/// The pattern that matches a text made of one word character.
pub open spec fn word_pattern() -> Seq<char> {
    "^\\w$"@
}

/// A character of ASCII.
pub open spec fn is_ascii(c: char) -> bool {
    c <= '\u{7f}'
}

/// The word characters of ASCII: the letters, the digits and `_`.
pub open spec fn is_ascii_word_char(c: char) -> bool {
    ('a' <= c && c <= 'z') || ('A' <= c && c <= 'Z') || ('0' <= c && c <= '9') || c == '_'
}

/// `c` is a word character. Of the characters of ASCII these are the
/// letters, the digits and `_`, which is what the class `\w` of the
/// `regex` crate holds of them; of every other character that class
/// decides: the pattern `^\w$` matches the text that holds `c` alone.
pub open spec fn is_word_char(c: char) -> bool {
    if is_ascii(c) {
        is_ascii_word_char(c)
    } else {
        regex_matches(word_pattern(), seq![c])
    }
}

/// The class of word characters, compiled once.
pub struct WordClass {
    re: Option<regex::Regex>,
}

impl WordClass {
    /// The class holds the compiled word pattern.
    #[verifier::type_invariant]
    closed spec fn well_formed(&self) -> bool {
        self.re matches Some(re) && pattern_of(re) == word_pattern()
    }

    /// Compiles the class: it holds the compiled word pattern.
    pub fn new() -> (r: Self)
        ensures
            r.compiled_pattern() == Some(word_pattern()),
    {
        WordClass { re: compile("^\\w$") }
    }

    /// The pattern of the compiled expression that the class holds, where
    /// it holds one.
    pub closed spec fn compiled_pattern(&self) -> Option<Seq<char>> {
        match self.re {
            Some(re) => Some(pattern_of(re)),
            None => None,
        }
    }

    /// Decides whether `c` is a word character.
    pub fn contains(&self, c: char) -> (b: bool)
        ensures
            b == is_word_char(c),
    {
        proof {
            use_type_invariant(self);
        }
        if c <= '\u{7f}' {
            ('a' <= c && c <= 'z') || ('A' <= c && c <= 'Z') || ('0' <= c && c <= '9') || c == '_'
        } else {
            match &self.re {
                Some(re) => {
                    let mut text = String::new();
                    text.push(c);
                    assert(text@ =~= seq![c]);
                    matches(re, text.as_str())
                },
                None => false,
            }
        }
    }
}

/// Decides whether `c` is a word character.
pub fn word_char(c: char) -> (b: bool)
    ensures
        b == is_word_char(c),
{
    let class = WordClass::new();
    class.contains(c)
}

} // verus!
