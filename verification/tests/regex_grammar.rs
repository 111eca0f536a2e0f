//! The grammars of the extractors, written once more as regular
//! expressions and as calls of the standard library, and held against the
//! library on every text that a few tokens can spell.

use bitter_truth::extract::{
    extract_after_prefix, extract_code_block_traced, extract_code_from_mixed, looks_like_code,
    lines_of, Announcement, ExtractError, Heuristic,
};
use bitter_truth::json_extract::extract_json;
use bitter_truth::text::is_whitespace_char;
use bitter_truth::wordclass::{word_char, WordClass};
use regex::Regex;

/// Every text of up to `max` tokens, each handed to `visit`.
fn for_each_text(tokens: &[&str], max: usize, visit: &mut dyn FnMut(&str)) {
    let mut indices: Vec<usize> = Vec::new();
    loop {
        let text: String = indices.iter().map(|&i| tokens[i]).collect();
        visit(&text);
        let mut k = indices.len();
        loop {
            if k == 0 {
                if indices.len() == max {
                    return;
                }
                indices = vec![0; indices.len() + 1];
                break;
            }
            k -= 1;
            if indices[k] + 1 < tokens.len() {
                indices[k] += 1;
                break;
            }
            indices[k] = 0;
        }
    }
}

fn opens_code(trimmed: &str) -> bool {
    [
        "#!/", "def ", "fn ", "func ", "function ", "let ", "const ", "import ", "use ", "from ",
        "{", "[", "//", "#!", "# ", "def main", "export def", "module ",
    ]
    .iter()
    .any(|p| trimmed.starts_with(p))
}

fn code_like(text: &str) -> bool {
    opens_code(text.lines().next().unwrap_or("").trim())
}

fn fenced(pattern: &Regex, input: &str) -> Option<String> {
    pattern
        .captures(input)
        .map(|caps| caps.get(1).map(|m| m.as_str().trim()).unwrap_or("").to_string())
}

fn check_fenced(pattern: &Regex, input: &str, lang: Option<&str>) {
    let got = extract_code_block_traced(input, lang);
    match fenced(pattern, input) {
        Some(content) if content.is_empty() => {
            assert_eq!(got, Err(ExtractError::EmptyBlock), "{:?}", input)
        }
        Some(content) => assert_eq!(got, Ok((content, Heuristic::FencedBlock)), "{:?}", input),
        None => {
            assert!(!matches!(got, Ok((_, Heuristic::FencedBlock))), "{:?}", input);
            assert_ne!(got, Err(ExtractError::EmptyBlock), "{:?}", input);
        }
    }
}

#[test]
fn whitespace_is_the_white_space_property() {
    let space = Regex::new(r"^\s$").unwrap();
    let mut buffer = [0u8; 4];
    for code in 0..=0x10FFFFu32 {
        if let Some(c) = char::from_u32(code) {
            let expected = c.is_whitespace();
            assert_eq!(is_whitespace_char(c), expected, "{:?}", c);
            if code < 0x3100 {
                assert_eq!(space.is_match(c.encode_utf8(&mut buffer)), expected, "{:?}", c);
            }
        }
    }
}

#[test]
fn word_characters() {
    let class = WordClass::new();
    for c in ['a', 'Z', '0', '9', '_', '\u{e9}', '\u{4e16}', '\u{661}', '\u{301}', '\u{200d}'] {
        assert!(class.contains(c), "{:?}", c);
    }
    for c in ['`', ' ', '\n', '-', '+', '.', ':', '{', '\u{2028}', '\u{1f600}'] {
        assert!(!class.contains(c), "{:?}", c);
    }
    assert!(word_char('x'));
    assert!(!word_char('`'));
    let word = Regex::new(r"^\w$").unwrap();
    let mut buffer = [0u8; 4];
    for code in 0..0x3000u32 {
        if let Some(c) = char::from_u32(code) {
            assert_eq!(class.contains(c), word.is_match(c.encode_utf8(&mut buffer)), "{:?}", c);
        }
    }
}

#[test]
fn fenced_blocks_of_any_tag() {
    let pattern = Regex::new(r"(?s)```(?:\w+)?\s*\n?(.*?)```").unwrap();
    let mut count = 0;
    for_each_text(&["```", "a", " ", "\n"], 5, &mut |input| {
        check_fenced(&pattern, input, None);
        count += 1;
    });
    for_each_text(&["```", "a", "+", "\n "], 4, &mut |input| {
        check_fenced(&pattern, input, None);
        count += 1;
    });
    assert!(count > 1_500);
}

#[test]
fn fenced_blocks_with_stray_backticks() {
    let pattern = Regex::new(r"(?s)```(?:\w+)?\s*\n?(.*?)```").unwrap();
    for_each_text(&["```", "`", "\u{e9}", "\n"], 5, &mut |input| {
        check_fenced(&pattern, input, None);
    });
}

#[test]
fn fenced_blocks_of_a_requested_tag() {
    let tagged = |tag: &str| {
        Regex::new(&format!(r"(?s)```{}\s(.*?)```", regex::escape(tag))).unwrap()
    };
    let pattern = tagged("a+");
    for_each_text(&["```", "```a+", "a", "+", " ", "\n"], 6, &mut |input| {
        check_fenced(&pattern, input, Some("a+"));
    });
    let empty = tagged("");
    let tick = tagged("`");
    let short = tagged("x");
    for_each_text(&["```", "`", "x", "\n"], 6, &mut |input| {
        check_fenced(&empty, input, Some(""));
        check_fenced(&tick, input, Some("`"));
        check_fenced(&short, input, Some("x"));
    });
}

fn check_announced(pattern: &Regex, input: &str, kind: Announcement) {
    let expected = pattern
        .captures(input)
        .map(|caps| caps.get(1).map(|m| m.as_str().trim()).unwrap_or("").to_string())
        .filter(|content| !content.is_empty() && code_like(content));
    assert_eq!(extract_after_prefix(input, kind), expected, "{:?}", input);
}

#[test]
fn announcements_of_the_first_family() {
    let pattern =
        Regex::new(r"(?s)(?:Here is|Here's|Below is|The following is)[^:]*:\s*\n+(.*)").unwrap();
    for_each_text(&["Here is", "Here's", ":", "\n", " ", "x", "fn "], 6, &mut |input| {
        check_announced(&pattern, input, Announcement::Intro);
    });
    for_each_text(&["Below is", "The following is", ":", "\n", "\t", "# "], 5, &mut |input| {
        check_announced(&pattern, input, Announcement::Intro);
    });
}

#[test]
fn announcements_of_the_second_family() {
    let pattern =
        Regex::new(r"(?s)(?:I've|I have) (?:created|written|generated)[^:]*:\s*\n+(.*)").unwrap();
    for_each_text(
        &["I've ", "I have ", "written", "created", "generated", ":", "\n", "{"],
        5,
        &mut |input| {
            check_announced(&pattern, input, Announcement::Authored);
        },
    );
    for_each_text(&["I've", "I have", " ", "written", ":", "\n", "let "], 6, &mut |input| {
        check_announced(&pattern, input, Announcement::Authored);
    });
}

fn json_by_patterns(fenced: &Regex, raw: &Regex, input: &str) -> Option<String> {
    if let Some(caps) = fenced.captures(input) {
        return Some(caps.get(1).map(|m| m.as_str()).unwrap_or("").to_string());
    }
    raw.captures(input).map(|caps| caps.get(1).map(|m| m.as_str()).unwrap_or("").to_string())
}

#[test]
fn json_objects() {
    let fenced = Regex::new(r"(?s)```(?:json)?\s*\n?(\{.*?\})\s*```").unwrap();
    let raw = Regex::new(r"(?s)(\{[^{}]*(?:\{[^{}]*\}[^{}]*)*\})").unwrap();
    let mut check = |input: &str| {
        let expected = json_by_patterns(&fenced, &raw, input).ok_or(ExtractError::JsonNotFound);
        assert_eq!(extract_json(input), expected, "{:?}", input);
    };
    for_each_text(&["```", "json", "{", "}", " ", "\n", "x"], 6, &mut check);
    for_each_text(&["{", "}", "x"], 10, &mut check);
    for_each_text(&["```", "`", "{", "}", "\n"], 7, &mut check);
    for_each_text(&["```json", "```", "{}", "{", "}", " x"], 6, &mut check);
}

#[test]
fn lines_and_code_lines() {
    for_each_text(&["\n", "\r", " ", "# ", "x", "def "], 6, &mut |input| {
        let expected: Vec<String> = input.lines().map(|l| l.to_string()).collect();
        assert_eq!(lines_of(input), expected, "{:?}", input);
        assert_eq!(looks_like_code(input), code_like(input), "{:?}", input);
        let start = expected.iter().position(|l| code_like(l));
        assert_eq!(
            extract_code_from_mixed(input),
            start.map(|i| expected[i..].join("\n")),
            "{:?}",
            input
        );
    });
}

#[test]
fn unfenced_heuristics_in_their_order() {
    for_each_text(&["Here is", ":", "\n", " ", "x", "fn ", "\r"], 6, &mut |input| {
        let got = extract_code_block_traced(input, None);
        let trimmed = input.trim();
        let lines: Vec<&str> = input.lines().collect();
        let expected = if code_like(trimmed) {
            Ok((trimmed.to_string(), Heuristic::RawCode))
        } else if let Some(i) = lines.iter().position(|l| code_like(l)) {
            Ok((lines[i..].join("\n"), Heuristic::CodeLine(i)))
        } else {
            Err(ExtractError::ExtractionNotFound { preview: input.chars().take(100).collect() })
        };
        assert_eq!(got, expected, "{:?}", input);
    });
}
