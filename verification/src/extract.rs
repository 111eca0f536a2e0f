//! Extraction of one code payload from conversational text, by a fixed
//! list of heuristics of which the first that matches decides.

use crate::log_entry::borrowed_view;
use crate::text::{
    begins_with, chars_of, find, find_char, first_char, first_occurrence, is_whitespace,
    is_whitespace_char, lemma_first_char, lemma_first_char_is, lemma_first_occurrence,
    lemma_first_occurrence_skips, lemma_occurs_behind_prefix, lemma_occurs_in_prefix,
    lemma_skip_whitespace, lemma_trim_end_prefix, lemma_trim_ignores_margin, matches_at,
    occurs_at, push_range, skip_whitespace, slice, starts_with, text_of, trim, trim_bounds,
    trim_end, trim_vec,
};
use crate::wordclass::{is_word_char, WordClass};
use vstd::prelude::*;

verus! {

/// Why nothing was extracted.
#[derive(Debug, Clone, PartialEq, Eq)]
pub enum ExtractError {
    /// No heuristic matched. Carries the first hundred characters of the
    /// input.
    ExtractionNotFound { preview: String },
    /// A fenced block matched and held nothing but whitespace.
    EmptyBlock,
    /// The input holds no JSON object.
    JsonNotFound,
    /// The extracted text is not valid JSON.
    MalformedJson,
}

/// An [`ExtractError`] as plain values.
pub ghost enum ExtractFailure {
    ExtractionNotFound { preview: Seq<char> },
    EmptyBlock,
    JsonNotFound,
    MalformedJson,
}

impl View for ExtractError {
    type V = ExtractFailure;

    open spec fn view(&self) -> ExtractFailure {
        match self {
            ExtractError::ExtractionNotFound { preview } => ExtractFailure::ExtractionNotFound {
                preview: preview@,
            },
            ExtractError::EmptyBlock => ExtractFailure::EmptyBlock,
            ExtractError::JsonNotFound => ExtractFailure::JsonNotFound,
            ExtractError::MalformedJson => ExtractFailure::MalformedJson,
        }
    }
}

impl ExtractFailure {
    /// The failure in words.
    pub open spec fn description(self) -> Seq<char> {
        match self {
            ExtractFailure::ExtractionNotFound { preview } =>
                "No code block found in input. Input preview: "@ + preview + "..."@,
            ExtractFailure::EmptyBlock => "Code block was empty"@,
            ExtractFailure::JsonNotFound => "No JSON found in input"@,
            ExtractFailure::MalformedJson => "Extracted text was not valid JSON"@,
        }
    }
}

impl ExtractError {
    /// The failure in words, with the preview of the input where it
    /// carries one.
    pub fn describe(&self) -> (r: String)
        ensures
            r@ == self@.description(),
    {
        match self {
            ExtractError::ExtractionNotFound { preview } => {
                let mut out = String::from_str("No code block found in input. Input preview: ");
                out.append(preview.as_str());
                out.append("...");
                out
            },
            ExtractError::EmptyBlock => String::from_str("Code block was empty"),
            ExtractError::JsonNotFound => String::from_str("No JSON found in input"),
            ExtractError::MalformedJson => String::from_str("Extracted text was not valid JSON"),
        }
    }
}

/// The heuristic that found a payload.
#[derive(Debug, Clone, Copy, PartialEq, Eq, Structural)]
pub enum Heuristic {
    /// The content of a fenced block.
    FencedBlock,
    /// The whole input, trimmed: its first line opens code.
    RawCode,
    /// The lines from the one with this index (from zero) onward.
    CodeLine(usize),
    /// What follows a conversational announcement.
    AfterPrefix,
}

/// The delimiter of a fenced block: three backticks.
pub open spec fn fence() -> Seq<char> {
    "```"@
}

/// The text begins like code: a shebang, a declaration keyword, a
/// comment marker, or an opening brace or bracket.
pub open spec fn opens_code(t: Seq<char>) -> bool {
    ||| starts_with(t, "#!/"@)
    ||| starts_with(t, "def "@)
    ||| starts_with(t, "fn "@)
    ||| starts_with(t, "func "@)
    ||| starts_with(t, "function "@)
    ||| starts_with(t, "let "@)
    ||| starts_with(t, "const "@)
    ||| starts_with(t, "import "@)
    ||| starts_with(t, "use "@)
    ||| starts_with(t, "from "@)
    ||| starts_with(t, "{"@)
    ||| starts_with(t, "["@)
    ||| starts_with(t, "//"@)
    ||| starts_with(t, "#!"@)
    ||| starts_with(t, "# "@)
    ||| starts_with(t, "def main"@)
    ||| starts_with(t, "export def"@)
    ||| starts_with(t, "module "@)
}

/// What stands before the first line feed; the whole text without one.
pub open spec fn first_line(text: Seq<char>) -> Seq<char> {
    match first_char(text, '\n', 0) {
        Some(i) => text.take(i),
        None => text,
    }
}

/// The first line of the text, trimmed, begins like code.
pub open spec fn is_code_like(text: Seq<char>) -> bool {
    opens_code(trim(first_line(text)))
}

/// A line without the carriage return that ended it.
pub open spec fn strip_cr(line: Seq<char>) -> Seq<char> {
    if line.len() > 0 && line.last() == '\r' {
        line.drop_last()
    } else {
        line
    }
}

/// The lines of `s` from position `from` on. A line ends at a line feed,
/// or at a carriage return directly before one; neither belongs to the
/// line. A last line needs no line ending, and a line ending at the very
/// end opens no further line.
pub open spec fn lines_from(s: Seq<char>, from: int) -> Seq<Seq<char>>
    decreases s.len() - from,
    via lines_from_decreases
{
    if from < 0 || from >= s.len() {
        Seq::empty()
    } else {
        match first_char(s, '\n', from) {
            Some(end) => seq![strip_cr(s.subrange(from, end))] + lines_from(s, end + 1),
            None => seq![s.subrange(from, s.len() as int)],
        }
    }
}

#[via_fn]
proof fn lines_from_decreases(s: Seq<char>, from: int) {
    if 0 <= from < s.len() {
        lemma_first_char(s, '\n', from);
    }
}

/// The lines of `s`.
pub open spec fn lines(s: Seq<char>) -> Seq<Seq<char>> {
    lines_from(s, 0)
}

/// The lines, with a line feed between each two.
pub open spec fn join_lines(ls: Seq<Seq<char>>) -> Seq<char>
    decreases ls.len(),
{
    if ls.len() == 0 {
        Seq::empty()
    } else if ls.len() == 1 {
        ls[0]
    } else {
        join_lines(ls.drop_last()) + "\n"@ + ls.last()
    }
}

/// The index of the first line at or after `from` that looks like code.
pub open spec fn first_code_line(ls: Seq<Seq<char>>, from: int) -> Option<int>
    decreases ls.len() - from,
{
    if from < 0 || from >= ls.len() {
        None
    } else if is_code_like(ls[from]) {
        Some(from)
    } else {
        first_code_line(ls, from + 1)
    }
}

/// A character of a language tag: a word character.
pub open spec fn is_tag_char(c: char) -> bool {
    is_word_char(c)
}

/// The end of the run of tag characters that starts at `from`.
pub open spec fn tag_end(s: Seq<char>, from: int) -> int
    decreases s.len() - from,
{
    if 0 <= from < s.len() && is_tag_char(s[from]) {
        tag_end(s, from + 1)
    } else {
        from
    }
}

/// The tag of a fence is over at `q`: the text ends there, or
/// whitespace stands there.
pub open spec fn tag_is_over(s: Seq<char>, q: int) -> bool {
    q == s.len() || (0 <= q < s.len() && is_whitespace(s[q]))
}

/// At `p` stands an opening fence that names exactly `tag`: the fence,
/// the tag, and nothing more of a tag behind it.
pub open spec fn opens_block(s: Seq<char>, tag: Seq<char>, p: int) -> bool {
    occurs_at(s, fence() + tag, p) && tag_is_over(s, p + (fence() + tag).len())
}

/// The first position at or after `from` at which an opening fence names
/// exactly `tag`.
pub open spec fn first_opener(s: Seq<char>, tag: Seq<char>, from: int) -> Option<int>
    decreases s.len() - from,
{
    if from < 0 || from >= s.len() {
        None
    } else if opens_block(s, tag, from) {
        Some(from)
    } else {
        first_opener(s, tag, from + 1)
    }
}

/// Where the content of the first fenced block begins: behind the first
/// opening fence that names exactly the requested tag, or, with no tag
/// requested, behind the first fence and the tag that it may carry.
pub open spec fn content_start(s: Seq<char>, lang: Option<Seq<char>>) -> Option<int> {
    match lang {
        Some(tag) => match first_opener(s, tag, 0) {
            Some(p) => Some(p + (fence() + tag).len()),
            None => None,
        },
        None => match first_occurrence(s, fence(), 0) {
            Some(p) => Some(tag_end(s, p + fence().len())),
            None => None,
        },
    }
}

/// The content of the first fenced block, trimmed: what stands between
/// the opening fence (and tag) and the next fence behind it.
pub open spec fn fenced_content(s: Seq<char>, lang: Option<Seq<char>>) -> Option<Seq<char>> {
    match content_start(s, lang) {
        Some(start) => match first_occurrence(s, fence(), start) {
            Some(close) => Some(trim(s.subrange(start, close))),
            None => None,
        },
        None => None,
    }
}

/// The two families of conversational announcements.
#[derive(Debug, Clone, Copy, PartialEq, Eq, Structural)]
pub enum Announcement {
    /// `Here is`, `Here's`, `Below is`, `The following is`.
    Intro,
    /// `I've` or `I have`, a space, and `created`, `written` or
    /// `generated`.
    Authored,
}

/// The end of `lit` where it stands at `p`.
pub open spec fn literal_end(s: Seq<char>, lit: Seq<char>, p: int) -> Option<int> {
    if occurs_at(s, lit, p) {
        Some(p + lit.len())
    } else {
        None
    }
}

/// The first of two ends that is there.
pub open spec fn or_end(a: Option<int>, b: Option<int>) -> Option<int> {
    match a {
        Some(_) => a,
        None => b,
    }
}

/// The end of the announcing phrase that stands at `p`.
pub open spec fn phrase_end(s: Seq<char>, kind: Announcement, p: int) -> Option<int> {
    match kind {
        Announcement::Intro => or_end(
            literal_end(s, "Here is"@, p),
            or_end(
                literal_end(s, "Here's"@, p),
                or_end(literal_end(s, "Below is"@, p), literal_end(s, "The following is"@, p)),
            ),
        ),
        Announcement::Authored => match or_end(
            literal_end(s, "I've "@, p),
            literal_end(s, "I have "@, p),
        ) {
            Some(q) => or_end(
                literal_end(s, "created"@, q),
                or_end(literal_end(s, "written"@, q), literal_end(s, "generated"@, q)),
            ),
            None => None,
        },
    }
}

/// The whitespace that starts at `from` holds a line feed.
pub open spec fn gap_has_newline(s: Seq<char>, from: int) -> bool
    decreases s.len() - from,
{
    if 0 <= from < s.len() && is_whitespace(s[from]) {
        s[from] == '\n' || gap_has_newline(s, from + 1)
    } else {
        false
    }
}

/// What an announcement at `p` announces: the phrase, anything up to the
/// first colon, whitespace with at least one line feed, and the rest of
/// the text, which is the payload, trimmed.
pub open spec fn announced_at(s: Seq<char>, kind: Announcement, p: int) -> Option<Seq<char>> {
    match phrase_end(s, kind, p) {
        Some(q) => match first_char(s, ':', q) {
            Some(colon) => if gap_has_newline(s, colon + 1) {
                Some(trim(s.skip(colon + 1)))
            } else {
                None
            },
            None => None,
        },
        None => None,
    }
}

/// What the first announcement at or after `from` announces.
pub open spec fn announced(s: Seq<char>, kind: Announcement, from: int) -> Option<Seq<char>>
    decreases s.len() - from,
{
    if from < 0 || from >= s.len() {
        None
    } else {
        match announced_at(s, kind, from) {
            Some(payload) => Some(payload),
            None => announced(s, kind, from + 1),
        }
    }
}

/// The announced payload of one family, where it is not empty and looks
/// like code.
pub open spec fn announced_code(s: Seq<char>, kind: Announcement) -> Option<Seq<char>> {
    match announced(s, kind, 0) {
        Some(payload) => if payload.len() > 0 && is_code_like(payload) {
            Some(payload)
        } else {
            None
        },
        None => None,
    }
}

/// The first hundred characters of the input.
pub open spec fn preview_of(input: Seq<char>) -> Seq<char> {
    if input.len() > 100 {
        input.take(100)
    } else {
        input
    }
}

/// The payload of a text without a fenced block, and the heuristic that
/// found it: the trimmed input where its first line opens code; else the
/// lines from the first that opens code, joined by line feeds; else what
/// a conversational announcement announces.
pub open spec fn unfenced_extraction(input: Seq<char>) -> Result<
    (Seq<char>, Heuristic),
    ExtractFailure,
> {
    if is_code_like(trim(input)) {
        Ok((trim(input), Heuristic::RawCode))
    } else {
        match first_code_line(lines(input), 0) {
            Some(i) => Ok((join_lines(lines(input).skip(i)), Heuristic::CodeLine(i as usize))),
            None => match announced_code(input, Announcement::Intro) {
                Some(payload) => Ok((payload, Heuristic::AfterPrefix)),
                None => match announced_code(input, Announcement::Authored) {
                    Some(payload) => Ok((payload, Heuristic::AfterPrefix)),
                    None => Err(
                        ExtractFailure::ExtractionNotFound { preview: preview_of(input) },
                    ),
                },
            },
        }
    }
}

/// The payload of a text and the heuristic that found it. A fenced block
/// decides first, and one without content is an error; the heuristics for
/// text without a block follow in their order.
pub open spec fn traced_extraction(input: Seq<char>, lang: Option<Seq<char>>) -> Result<
    (Seq<char>, Heuristic),
    ExtractFailure,
> {
    match fenced_content(input, lang) {
        Some(content) => if content.len() == 0 {
            Err(ExtractFailure::EmptyBlock)
        } else {
            Ok((content, Heuristic::FencedBlock))
        },
        None => unfenced_extraction(input),
    }
}

/// The payload of a text.
pub open spec fn extraction(input: Seq<char>, lang: Option<Seq<char>>) -> Result<
    Seq<char>,
    ExtractFailure,
> {
    match traced_extraction(input, lang) {
        Ok(found) => Ok(found.0),
        Err(e) => Err(e),
    }
}

/// Prose, an opening fence with a tag, an interior, a closing fence, and
/// what follows.
pub open spec fn tagged_text(
    prose: Seq<char>,
    tag: Seq<char>,
    interior: Seq<char>,
    rest: Seq<char>,
) -> Seq<char> {
    prose + (fence() + tag) + interior + fence() + rest
}

proof fn lemma_first_opener_skips(s: Seq<char>, tag: Seq<char>, from: int, to: int)
    requires
        0 <= from <= to,
        forall|j: int| from <= j < to ==> !opens_block(s, tag, j),
    ensures
        first_opener(s, tag, from) == first_opener(s, tag, to),
    decreases to - from,
{
    if from < to {
        lemma_first_opener_skips(s, tag, from + 1, to);
    }
}

/// A fenced block that names exactly the requested tag decides, whatever
/// prose surrounds it: where no opening fence before the end of `prose`
/// names the tag, the tag is over where `interior` begins, and `interior`
/// runs up to the next fence, the payload is the trimmed interior. (An
/// interior of whitespace alone is the error `EmptyBlock`, and is left
/// out here.)
pub proof fn lemma_tagged_block_decides(
    prose: Seq<char>,
    tag: Seq<char>,
    interior: Seq<char>,
    rest: Seq<char>,
)
    requires
        forall|j: int|
            0 <= j < prose.len() ==> !opens_block(tagged_text(prose, tag, interior, rest), tag, j),
        interior.len() > 0 && is_whitespace(interior[0]),
        first_occurrence(interior + fence(), fence(), 0) == Some(interior.len() as int),
        trim(interior).len() > 0,
    ensures
        extraction(tagged_text(prose, tag, interior, rest), Some(tag)) == Ok::<
            Seq<char>,
            ExtractFailure,
        >(trim(interior)),
{
    let opener = fence() + tag;
    let head = prose + opener;
    let block = interior + fence();
    let input = tagged_text(prose, tag, interior, rest);
    let q = head.len() as int;
    assert(input =~= head + (block + rest));
    lemma_occurs_behind_prefix(prose, opener, opener, 0);
    assert(opener.subrange(0, opener.len() as int) =~= opener);
    lemma_occurs_in_prefix(head, block + rest, opener, prose.len() as int);
    assert(input[q] == interior[0]);
    assert(opens_block(input, tag, prose.len() as int));
    lemma_first_opener_skips(input, tag, 0, prose.len() as int);
    assert(first_opener(input, tag, 0) == Some(prose.len() as int));
    lemma_first_occurrence(block, fence(), 0);
    assert forall|j: int| q <= j < q + interior.len() implies !occurs_at(input, fence(), j) by {
        lemma_occurs_behind_prefix(head, block + rest, fence(), j - q);
        lemma_occurs_in_prefix(block, rest, fence(), j - q);
    }
    lemma_occurs_behind_prefix(head, block + rest, fence(), interior.len() as int);
    lemma_occurs_in_prefix(block, rest, fence(), interior.len() as int);
    lemma_first_occurrence_skips(input, fence(), q, q + interior.len());
    assert(input.subrange(q, q + interior.len()) =~= interior);
}

proof fn lemma_tag_end(s: Seq<char>, from: int, to: int)
    requires
        0 <= from <= to <= s.len(),
        forall|j: int| from <= j < to ==> is_tag_char(s[j]),
        to < s.len() ==> !is_tag_char(s[to]),
    ensures
        tag_end(s, from) == to,
    decreases to - from,
{
    if from < to {
        lemma_tag_end(s, from + 1, to);
    }
}

/// With no language requested, the first fenced block decides, whatever
/// tag it carries and whatever prose surrounds it: where `prose` holds
/// no fence, `tag` is made of tag characters and is over where
/// `interior` begins, and `interior` runs up to the next fence, the
/// payload is the trimmed interior. (An interior of whitespace alone is
/// the error `EmptyBlock`, and is left out here.)
pub proof fn lemma_first_block_decides(
    prose: Seq<char>,
    tag: Seq<char>,
    interior: Seq<char>,
    rest: Seq<char>,
)
    requires
        first_occurrence(prose + fence(), fence(), 0) == Some(prose.len() as int),
        forall|j: int| 0 <= j < tag.len() ==> is_tag_char(tag[j]),
        interior.len() > 0 && !is_tag_char(interior[0]),
        first_occurrence(interior + fence(), fence(), 0) == Some(interior.len() as int),
        trim(interior).len() > 0,
    ensures
        extraction(tagged_text(prose, tag, interior, rest), None) == Ok::<
            Seq<char>,
            ExtractFailure,
        >(trim(interior)),
{
    let opened = prose + fence();
    let head = prose + (fence() + tag);
    let block = interior + fence();
    let input = tagged_text(prose, tag, interior, rest);
    let p = prose.len() as int;
    let q = head.len() as int;
    assert(input =~= opened + (tag + block + rest));
    assert(input =~= head + (block + rest));
    lemma_first_occurrence(opened, fence(), 0);
    assert forall|j: int| 0 <= j < p implies !occurs_at(input, fence(), j) by {
        lemma_occurs_in_prefix(opened, tag + block + rest, fence(), j);
    }
    lemma_occurs_in_prefix(opened, tag + block + rest, fence(), p);
    lemma_first_occurrence_skips(input, fence(), 0, p);
    assert(first_occurrence(input, fence(), 0) == Some(p));
    assert forall|j: int| p + fence().len() <= j < q implies is_tag_char(input[j]) by {
        assert(input[j] == tag[j - p - fence().len()]);
    }
    assert(input[q] == interior[0]);
    lemma_tag_end(input, p + fence().len(), q);
    lemma_first_occurrence(block, fence(), 0);
    assert forall|j: int| q <= j < q + interior.len() implies !occurs_at(input, fence(), j) by {
        lemma_occurs_behind_prefix(head, block + rest, fence(), j - q);
        lemma_occurs_in_prefix(block, rest, fence(), j - q);
    }
    lemma_occurs_behind_prefix(head, block + rest, fence(), interior.len() as int);
    lemma_occurs_in_prefix(block, rest, fence(), interior.len() as int);
    lemma_first_occurrence_skips(input, fence(), q, q + interior.len());
    assert(input.subrange(q, q + interior.len()) =~= interior);
}

/// Where the line with index `i`, counted from the line that starts at
/// `from`, starts.
pub open spec fn line_start(s: Seq<char>, from: int, i: nat) -> int
    decreases i,
{
    if i == 0 {
        from
    } else {
        match first_char(s, '\n', from) {
            Some(end) => line_start(s, end + 1, (i - 1) as nat),
            None => s.len() as int,
        }
    }
}

/// The text ends its lines with bare line feeds, and its last line with
/// none.
pub open spec fn has_plain_lines(s: Seq<char>) -> bool {
    &&& forall|k: int| 0 <= k < s.len() ==> s[k] != '\r'
    &&& s.len() > 0 ==> s.last() != '\n'
}

proof fn lemma_join_prepend(first: Seq<char>, rest: Seq<Seq<char>>)
    requires
        rest.len() > 0,
    ensures
        join_lines(seq![first] + rest) == first + "\n"@ + join_lines(rest),
    decreases rest.len(),
{
    let all = seq![first] + rest;
    assert(all.drop_last() =~= seq![first] + rest.drop_last());
    if rest.len() == 1 {
        assert(join_lines(all.drop_last()) == first);
    } else {
        lemma_join_prepend(first, rest.drop_last());
    }
}

proof fn lemma_lines_join_back(s: Seq<char>, from: int)
    requires
        has_plain_lines(s),
        0 <= from < s.len(),
    ensures
        lines_from(s, from).len() > 0,
        join_lines(lines_from(s, from)) == s.skip(from),
    decreases s.len() - from,
{
    lemma_first_char(s, '\n', from);
    match first_char(s, '\n', from) {
        Some(end) => {
            let line = s.subrange(from, end);
            lemma_lines_join_back(s, end + 1);
            lemma_join_prepend(line, lines_from(s, end + 1));
            assert("\n"@ =~= seq!['\n']) by {
                reveal_strlit("\n");
            }
        },
        None => {},
    }
}

proof fn lemma_later_lines_join_back(s: Seq<char>, from: int, i: nat)
    requires
        has_plain_lines(s),
        0 <= from < s.len(),
        i < lines_from(s, from).len(),
    ensures
        0 <= line_start(s, from, i) < s.len(),
        join_lines(lines_from(s, from).skip(i as int)) == s.skip(line_start(s, from, i)),
    decreases i,
{
    if i == 0 {
        lemma_lines_join_back(s, from);
        assert(lines_from(s, from).skip(0) =~= lines_from(s, from));
    } else {
        lemma_first_char(s, '\n', from);
        match first_char(s, '\n', from) {
            Some(end) => {
                let rest = lines_from(s, end + 1);
                assert(lines_from(s, from).skip(i as int) =~= rest.skip(i - 1));
                lemma_later_lines_join_back(s, end + 1, (i - 1) as nat);
            },
            None => {},
        }
    }
}

/// In a text that ends its lines with bare line feeds, and its last line
/// with none, the lines from the one with index `i` onward, joined again,
/// are the rest of the text from where that line starts.
pub proof fn lemma_code_lines_are_a_suffix(input: Seq<char>, i: nat)
    requires
        has_plain_lines(input),
        i < lines(input).len(),
    ensures
        0 <= line_start(input, 0, i) < input.len(),
        join_lines(lines(input).skip(i as int)) == input.skip(line_start(input, 0, i)),
{
    lemma_later_lines_join_back(input, 0, i);
}

/// Whitespace without a line feed holds none.
proof fn lemma_gap_without_newline(s: Seq<char>, from: int)
    requires
        0 <= from <= s.len(),
        !gap_has_newline(s, from),
    ensures
        forall|j: int| from <= j < skip_whitespace(s, from) ==> s[j] != '\n',
    decreases s.len() - from,
{
    if from < s.len() && is_whitespace(s[from]) {
        lemma_gap_without_newline(s, from + 1);
    }
}

/// The last line feed of whitespace that holds one.
proof fn lemma_gap_newline(s: Seq<char>, from: int) -> (n: int)
    requires
        0 <= from <= s.len(),
        gap_has_newline(s, from),
    ensures
        from <= n < skip_whitespace(s, from),
        s[n] == '\n',
        forall|j: int| n < j < skip_whitespace(s, from) ==> s[j] != '\n',
    decreases s.len() - from,
{
    if gap_has_newline(s, from + 1) {
        lemma_gap_newline(s, from + 1)
    } else {
        lemma_gap_without_newline(s, from + 1);
        lemma_skip_whitespace(s, from + 1);
        from
    }
}

/// The lines behind a line feed are among the lines of the text.
proof fn lemma_line_listed(s: Seq<char>, from: int, n: int) -> (k: int)
    requires
        0 <= from <= n,
        n + 1 < s.len(),
        s[n] == '\n',
    ensures
        0 <= k < lines_from(s, from).len(),
        lines_from(s, from).skip(k) == lines_from(s, n + 1),
    decreases n - from,
{
    lemma_first_char(s, '\n', from);
    lemma_first_char(s, '\n', n + 1);
    let end = first_char(s, '\n', from).unwrap();
    let rest = lines_from(s, end + 1);
    if end == n {
        1
    } else {
        let k = lemma_line_listed(s, end + 1, n);
        k + 1
    }
}

/// A line that looks like code is found.
proof fn lemma_code_line_found(ls: Seq<Seq<char>>, from: int, k: int)
    requires
        0 <= from <= k < ls.len(),
        is_code_like(ls[k]),
    ensures
        first_code_line(ls, from) is Some,
    decreases k - from,
{
    if from < k && !is_code_like(ls[from]) {
        lemma_code_line_found(ls, from + 1, k);
    }
}

/// A text without a line feed is its own first line.
proof fn lemma_single_line(x: Seq<char>)
    requires
        forall|j: int| 0 <= j < x.len() ==> x[j] != '\n',
    ensures
        first_line(x) == x,
{
    lemma_first_char(x, '\n', 0);
}

/// What follows whitespace with a line feed in it, trimmed, looks like
/// code only where the line on which it starts does.
proof fn lemma_payload_starts_a_line(s: Seq<char>, gap: int)
    requires
        0 <= gap <= s.len(),
        gap_has_newline(s, gap),
        trim(s.skip(gap)).len() > 0,
        is_code_like(trim(s.skip(gap))),
    ensures
        first_code_line(lines(s), 0) is Some,
{
    let t = skip_whitespace(s, gap);
    lemma_skip_whitespace(s, gap);
    let n = lemma_gap_newline(s, gap);
    let start = n + 1;
    let margin = s.subrange(gap, t);
    let u = s.skip(t);
    assert(s.skip(gap) =~= margin + u + Seq::<char>::empty());
    lemma_trim_ignores_margin(margin, u, Seq::empty());
    if t == s.len() {
        lemma_trim_ignores_margin(margin, Seq::empty(), Seq::empty());
    }
    let payload = trim_end(u);
    lemma_trim_end_prefix(u);
    let e = payload.len() as int;

    let k = lemma_line_listed(s, 0, n);
    lemma_first_char(s, '\n', start);
    let stop = match first_char(s, '\n', start) {
        Some(end) => end,
        None => s.len() as int,
    };
    let raw = s.subrange(start, stop);
    let line = lines_from(s, start)[0];
    let x = s.subrange(t, stop);
    let indent = s.subrange(start, t);
    assert(raw =~= indent + x + Seq::<char>::empty());
    lemma_trim_ignores_margin(indent, x, Seq::empty());
    if line != raw {
        let cr = seq!['\r'];
        assert(raw =~= Seq::<char>::empty() + line + cr);
        lemma_trim_ignores_margin(Seq::empty(), line, cr);
    }
    lemma_single_line(line);

    let d = stop - t;
    if d < e {
        lemma_first_char_is(payload, '\n', 0, d);
        assert(payload.take(d) =~= x);
    } else {
        lemma_single_line(payload);
        let tail = u.subrange(e, d);
        assert(x =~= Seq::<char>::empty() + payload + tail);
        lemma_trim_ignores_margin(Seq::empty(), payload, tail);
    }
    lemma_code_line_found(lines(s), 0, k);
}

/// An announcement that announces something does so at some position.
proof fn lemma_announced_somewhere(s: Seq<char>, kind: Announcement, from: int) -> (p: int)
    requires
        0 <= from,
        announced(s, kind, from) is Some,
    ensures
        from <= p < s.len(),
        announced_at(s, kind, p) == announced(s, kind, from),
    decreases s.len() - from,
{
    if announced_at(s, kind, from) is Some {
        from
    } else {
        lemma_announced_somewhere(s, kind, from + 1)
    }
}

/// What a conversational announcement announces never needs the
/// announcement: code that follows one starts a line of its own, and the
/// search for the first line that looks like code finds that line or an
/// earlier one.
pub proof fn lemma_announced_code_starts_a_line(s: Seq<char>, kind: Announcement)
    requires
        announced_code(s, kind) is Some,
    ensures
        first_code_line(lines(s), 0) is Some,
{
    let p = lemma_announced_somewhere(s, kind, 0);
    let q = phrase_end(s, kind, p).unwrap();
    lemma_first_char(s, ':', q);
    let colon = first_char(s, ':', q).unwrap();
    lemma_payload_starts_a_line(s, colon + 1);
}

/// No payload is ever found through an announcement: the heuristics
/// that stand before it in the list decide first.
pub proof fn lemma_announcements_never_decide(input: Seq<char>, lang: Option<Seq<char>>)
    ensures
        traced_extraction(input, lang) matches Ok(found) ==> found.1 != Heuristic::AfterPrefix,
{
    if announced_code(input, Announcement::Intro) is Some {
        lemma_announced_code_starts_a_line(input, Announcement::Intro);
    }
    if announced_code(input, Announcement::Authored) is Some {
        lemma_announced_code_starts_a_line(input, Announcement::Authored);
    }
}

/// The lines as plain texts.
pub open spec fn line_views(ls: Seq<Vec<char>>) -> Seq<Seq<char>> {
    ls.map_values(|l: Vec<char>| l@)
}

fn vec_opens_code(t: &Vec<char>) -> (b: bool)
    ensures
        b == opens_code(t@),
{
    begins_with(t, "#!/") || begins_with(t, "def ") || begins_with(t, "fn ") || begins_with(
        t,
        "func ",
    ) || begins_with(t, "function ") || begins_with(t, "let ") || begins_with(t, "const ")
        || begins_with(t, "import ") || begins_with(t, "use ") || begins_with(t, "from ")
        || begins_with(t, "{") || begins_with(t, "[") || begins_with(t, "//") || begins_with(
        t,
        "#!",
    ) || begins_with(t, "# ") || begins_with(t, "def main") || begins_with(t, "export def")
        || begins_with(t, "module ")
}

fn vec_is_code_like(v: &Vec<char>) -> (b: bool)
    ensures
        b == is_code_like(v@),
{
    proof {
        lemma_first_char(v@, '\n', 0);
    }
    let end: usize = match find_char(v, '\n', 0) {
        Some(i) => i,
        None => v.len(),
    };
    assert(first_line(v@) == v@.subrange(0, end as int));
    let (lo, hi) = trim_bounds(v, 0, end);
    let head = slice(v, lo, hi);
    vec_opens_code(&head)
}

/// Whether the first line of the text, trimmed, begins like code: with a
/// shebang, a declaration keyword, a comment marker, or an opening brace
/// or bracket.
pub fn looks_like_code(text: &str) -> (b: bool)
    ensures
        b == is_code_like(text@),
{
    let v = chars_of(text);
    vec_is_code_like(&v)
}

fn split_lines(v: &Vec<char>) -> (r: Vec<Vec<char>>)
    ensures
        line_views(r@) == lines(v@),
{
    let mut out: Vec<Vec<char>> = Vec::new();
    let mut from: usize = 0;
    while from < v.len()
        invariant
            from <= v.len(),
            lines(v@) == line_views(out@) + lines_from(v@, from as int),
        decreases v.len() - from,
    {
        proof {
            lemma_first_char(v@, '\n', from as int);
        }
        match find_char(v, '\n', from) {
            Some(end) => {
                let stop: usize = if end > from && v[end - 1] == '\r' {
                    end - 1
                } else {
                    end
                };
                let line = slice(v, from, stop);
                proof {
                    let raw = v@.subrange(from as int, end as int);
                    assert(strip_cr(raw) =~= line@);
                }
                out.push(line);
                from = end + 1;
            },
            None => {
                let line = slice(v, from, v.len());
                out.push(line);
                from = v.len();
            },
        }
    }
    out
}

/// The lines of a text.
pub fn lines_of(text: &str) -> (r: Vec<String>)
    ensures
        crate::text::texts_view(r@) == lines(text@),
{
    let v = chars_of(text);
    let ls = split_lines(&v);
    let mut out: Vec<String> = Vec::new();
    let mut i: usize = 0;
    while i < ls.len()
        invariant
            i <= ls.len(),
            out.len() == i,
            forall|j: int| 0 <= j < i ==> (#[trigger] out@[j])@ == ls@[j]@,
        decreases ls.len() - i,
    {
        out.push(text_of(&ls[i]));
        i += 1;
    }
    out
}

fn find_code_line(ls: &Vec<Vec<char>>) -> (r: Option<usize>)
    ensures
        match r {
            Some(i) => first_code_line(line_views(ls@), 0) == Some(i as int) && i < ls.len(),
            None => first_code_line(line_views(ls@), 0) is None,
        },
{
    let mut i: usize = 0;
    while i < ls.len()
        invariant
            i <= ls.len(),
            first_code_line(line_views(ls@), 0) == first_code_line(line_views(ls@), i as int),
        decreases ls.len() - i,
    {
        if vec_is_code_like(&ls[i]) {
            return Some(i);
        }
        i += 1;
    }
    None
}

fn join_from(ls: &Vec<Vec<char>>, start: usize) -> (r: String)
    requires
        start <= ls.len(),
    ensures
        r@ == join_lines(line_views(ls@).skip(start as int)),
{
    let mut out = String::new();
    let mut i: usize = start;
    while i < ls.len()
        invariant
            start <= i <= ls.len(),
            out@ == join_lines(line_views(ls@).subrange(start as int, i as int)),
        decreases ls.len() - i,
    {
        let ghost next = line_views(ls@).subrange(start as int, i as int + 1);
        proof {
            assert(next.drop_last() == line_views(ls@).subrange(start as int, i as int));
        }
        if i > start {
            out.append("\n");
        }
        push_range(&mut out, &ls[i], 0, ls[i].len());
        i += 1;
    }
    out
}

/// The lines from the first that looks like code onward, joined by line
/// feeds; `None` where no line looks like code.
pub fn extract_code_from_mixed(input: &str) -> (r: Option<String>)
    ensures
        match r {
            Some(code) => match first_code_line(lines(input@), 0) {
                Some(i) => code@ == join_lines(lines(input@).skip(i)),
                None => false,
            },
            None => first_code_line(lines(input@), 0) is None,
        },
{
    let v = chars_of(input);
    let ls = split_lines(&v);
    match find_code_line(&ls) {
        Some(i) => Some(join_from(&ls, i)),
        None => None,
    }
}

fn skip_tag(v: &Vec<char>, from: usize) -> (r: usize)
    requires
        from <= v.len(),
    ensures
        r == tag_end(v@, from as int),
        from <= r <= v.len(),
{
    let class = WordClass::new();
    let mut i: usize = from;
    while i < v.len() && class.contains(v[i])
        invariant
            from <= i <= v.len(),
            tag_end(v@, from as int) == tag_end(v@, i as int),
        decreases v.len() - i,
    {
        i += 1;
    }
    i
}

fn find_content_start(v: &Vec<char>, lang: Option<&str>) -> (r: Option<usize>)
    ensures
        match r {
            Some(q) => content_start(v@, borrowed_view(lang)) == Some(q as int) && q <= v.len(),
            None => content_start(v@, borrowed_view(lang)) is None,
        },
{
    match lang {
        Some(tag) => {
            let mut opener_text = String::from_str("```");
            opener_text.append(tag);
            let opener = chars_of(opener_text.as_str());
            let mut p: usize = 0;
            while p < v.len()
                invariant
                    p <= v.len(),
                    lang == Some(tag),
                    opener@ == fence() + tag@,
                    first_opener(v@, tag@, 0) == first_opener(v@, tag@, p as int),
                decreases v.len() - p,
            {
                if matches_at(v, &opener, p) {
                    assert(p + opener.len() <= v.len());
                    let q: usize = p + opener.len();
                    if q == v.len() || is_whitespace_char(v[q]) {
                        assert(opens_block(v@, tag@, p as int));
                        return Some(q);
                    }
                }
                p += 1;
            }
            None
        },
        None => {
            let mark = chars_of("```");
            proof {
                lemma_first_occurrence(v@, mark@, 0);
            }
            match find(v, &mark, 0) {
                Some(p) => {
                    assert(p + mark.len() <= v.len());
                    Some(skip_tag(v, p + mark.len()))
                },
                None => None,
            }
        },
    }
}

fn find_fenced_content(v: &Vec<char>, lang: Option<&str>) -> (r: Option<Vec<char>>)
    ensures
        match r {
            Some(content) => fenced_content(v@, borrowed_view(lang)) == Some(content@),
            None => fenced_content(v@, borrowed_view(lang)) is None,
        },
{
    let start = match find_content_start(v, lang) {
        Some(q) => q,
        None => {
            return None;
        },
    };
    let mark = chars_of("```");
    proof {
        lemma_first_occurrence(v@, mark@, start as int);
    }
    match find(v, &mark, start) {
        Some(close) => {
            let (lo, hi) = trim_bounds(v, start, close);
            Some(slice(v, lo, hi))
        },
        None => None,
    }
}

fn end_of_literal(v: &Vec<char>, lit: &str, p: usize) -> (r: Option<usize>)
    ensures
        match r {
            Some(q) => literal_end(v@, lit@, p as int) == Some(q as int) && q <= v.len(),
            None => literal_end(v@, lit@, p as int) is None,
        },
{
    let pat = chars_of(lit);
    if matches_at(v, &pat, p) {
        assert(p + pat.len() <= v.len());
        Some(p + pat.len())
    } else {
        None
    }
}

fn either(a: Option<usize>, b: Option<usize>) -> (r: Option<usize>)
    ensures
        r == (match a {
            Some(_) => a,
            None => b,
        }),
{
    match a {
        Some(_) => a,
        None => b,
    }
}

/// An end as a mathematical integer.
pub open spec fn end_view(e: Option<usize>) -> Option<int> {
    match e {
        Some(q) => Some(q as int),
        None => None,
    }
}

fn end_of_phrase(v: &Vec<char>, kind: Announcement, p: usize) -> (r: Option<usize>)
    ensures
        end_view(r) == phrase_end(v@, kind, p as int),
        r matches Some(q) ==> q <= v.len(),
{
    match kind {
        Announcement::Intro => {
            let a = end_of_literal(v, "Here is", p);
            let b = end_of_literal(v, "Here's", p);
            let c = end_of_literal(v, "Below is", p);
            let d = end_of_literal(v, "The following is", p);
            either(a, either(b, either(c, d)))
        },
        Announcement::Authored => {
            let a = end_of_literal(v, "I've ", p);
            let b = end_of_literal(v, "I have ", p);
            match either(a, b) {
                Some(q) => {
                    let x = end_of_literal(v, "created", q);
                    let y = end_of_literal(v, "written", q);
                    let z = end_of_literal(v, "generated", q);
                    either(x, either(y, z))
                },
                None => None,
            }
        },
    }
}

fn newline_in_gap(v: &Vec<char>, from: usize) -> (b: bool)
    requires
        from <= v.len(),
    ensures
        b == gap_has_newline(v@, from as int),
{
    let mut i: usize = from;
    while i < v.len() && is_whitespace_char(v[i])
        invariant
            from <= i <= v.len(),
            gap_has_newline(v@, from as int) == gap_has_newline(v@, i as int),
        decreases v.len() - i,
    {
        if v[i] == '\n' {
            return true;
        }
        i += 1;
    }
    false
}

fn find_announced_at(v: &Vec<char>, kind: Announcement, p: usize) -> (r: Option<Vec<char>>)
    ensures
        match r {
            Some(payload) => announced_at(v@, kind, p as int) == Some(payload@),
            None => announced_at(v@, kind, p as int) is None,
        },
{
    let q = match end_of_phrase(v, kind, p) {
        Some(q) => q,
        None => {
            return None;
        },
    };
    proof {
        lemma_first_char(v@, ':', q as int);
    }
    match find_char(v, ':', q) {
        Some(colon) => {
            if newline_in_gap(v, colon + 1) {
                let (lo, hi) = trim_bounds(v, colon + 1, v.len());
                Some(slice(v, lo, hi))
            } else {
                None
            }
        },
        None => None,
    }
}

fn find_announced(v: &Vec<char>, kind: Announcement) -> (r: Option<Vec<char>>)
    ensures
        match r {
            Some(payload) => announced(v@, kind, 0) == Some(payload@),
            None => announced(v@, kind, 0) is None,
        },
{
    let mut p: usize = 0;
    while p < v.len()
        invariant
            p <= v.len(),
            announced(v@, kind, 0) == announced(v@, kind, p as int),
        decreases v.len() - p,
    {
        match find_announced_at(v, kind, p) {
            Some(payload) => {
                return Some(payload);
            },
            None => {},
        }
        p += 1;
    }
    None
}

fn find_announced_code(v: &Vec<char>, kind: Announcement) -> (r: Option<Vec<char>>)
    ensures
        match r {
            Some(payload) => announced_code(v@, kind) == Some(payload@),
            None => announced_code(v@, kind) is None,
        },
{
    match find_announced(v, kind) {
        Some(payload) => {
            if payload.len() > 0 && vec_is_code_like(&payload) {
                Some(payload)
            } else {
                None
            }
        },
        None => None,
    }
}

/// What the first conversational announcement of the given family
/// announces, where that is not empty and looks like code.
pub fn extract_after_prefix(input: &str, kind: Announcement) -> (r: Option<String>)
    ensures
        match r {
            Some(payload) => announced_code(input@, kind) == Some(payload@),
            None => announced_code(input@, kind) is None,
        },
{
    let v = chars_of(input);
    match find_announced_code(&v, kind) {
        Some(payload) => Some(text_of(&payload)),
        None => None,
    }
}

fn preview(v: &Vec<char>) -> (r: String)
    ensures
        r@ == preview_of(v@),
{
    if v.len() > 100 {
        let head = slice(v, 0, 100);
        text_of(&head)
    } else {
        text_of(v)
    }
}

fn extract_unfenced(v: &Vec<char>) -> (r: Result<(String, Heuristic), ExtractError>)
    ensures
        match r {
            Ok(found) => unfenced_extraction(v@) == Ok::<(Seq<char>, Heuristic), ExtractFailure>(
                (found.0@, found.1),
            ),
            Err(e) => unfenced_extraction(v@) == Err::<(Seq<char>, Heuristic), ExtractFailure>(e@),
        },
{
    let trimmed = trim_vec(v);
    if vec_is_code_like(&trimmed) {
        return Ok((text_of(&trimmed), Heuristic::RawCode));
    }
    let ls = split_lines(v);
    match find_code_line(&ls) {
        Some(i) => {
            return Ok((join_from(&ls, i), Heuristic::CodeLine(i)));
        },
        None => {},
    }
    match find_announced_code(v, Announcement::Intro) {
        Some(payload) => {
            return Ok((text_of(&payload), Heuristic::AfterPrefix));
        },
        None => {},
    }
    match find_announced_code(v, Announcement::Authored) {
        Some(payload) => {
            return Ok((text_of(&payload), Heuristic::AfterPrefix));
        },
        None => {},
    }
    Err(ExtractError::ExtractionNotFound { preview: preview(v) })
}

/// Extracts the one most plausible code payload from `input`, and names
/// the heuristic that found it. With a language, the first fenced block
/// whose opening fence names exactly that tag decides; without one, the first
/// fenced block of any tag. A block whose content is empty after
/// trimming is an error. Without a block the input counts as raw code
/// where its first line opens code; else the lines from the first that
/// opens code are returned; else what a conversational announcement
/// announces, where that looks like code.
pub fn extract_code_block_traced(input: &str, lang: Option<&str>) -> (r: Result<
    (String, Heuristic),
    ExtractError,
>)
    ensures
        match r {
            Ok(found) => traced_extraction(input@, borrowed_view(lang)) == Ok::<
                (Seq<char>, Heuristic),
                ExtractFailure,
            >((found.0@, found.1)),
            Err(e) => traced_extraction(input@, borrowed_view(lang)) == Err::<
                (Seq<char>, Heuristic),
                ExtractFailure,
            >(e@),
        },
{
    let v = chars_of(input);
    match find_fenced_content(&v, lang) {
        Some(content) => {
            if content.len() == 0 {
                Err(ExtractError::EmptyBlock)
            } else {
                Ok((text_of(&content), Heuristic::FencedBlock))
            }
        },
        None => extract_unfenced(&v),
    }
}

/// Extracts the one most plausible code payload from `input`.
pub fn extract_code_block(input: &str, lang: Option<&str>) -> (r: Result<String, ExtractError>)
    ensures
        match r {
            Ok(code) => extraction(input@, borrowed_view(lang)) == Ok::<Seq<char>, ExtractFailure>(
                code@,
            ),
            Err(e) => extraction(input@, borrowed_view(lang)) == Err::<Seq<char>, ExtractFailure>(
                e@,
            ),
        },
{
    match extract_code_block_traced(input, lang) {
        Ok(found) => Ok(found.0),
        Err(e) => Err(e),
    }
}

} // verus!
