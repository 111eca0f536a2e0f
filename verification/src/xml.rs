//! Text nodes and element names: escaping of the five reserved characters
//! and sanitising of arbitrary keys into element names.

use crate::text::chars_of;
use vstd::prelude::*;

verus! {

/// One of `& < > " '`.
pub open spec fn is_reserved(c: char) -> bool {
    c == '&' || c == '<' || c == '>' || c == '"' || c == '\''
}

/// What stands for `c` in a text node.
pub open spec fn escape_char(c: char) -> Seq<char> {
    if c == '&' {
        "&amp;"@
    } else if c == '<' {
        "&lt;"@
    } else if c == '>' {
        "&gt;"@
    } else if c == '"' {
        "&quot;"@
    } else if c == '\'' {
        "&apos;"@
    } else {
        seq![c]
    }
}

/// `s` with every reserved character replaced by its entity.
pub open spec fn escape(s: Seq<char>) -> Seq<char>
    decreases s.len(),
{
    if s.len() == 0 {
        Seq::empty()
    } else {
        escape(s.drop_last()) + escape_char(s.last())
    }
}

pub open spec fn is_ascii_letter(c: char) -> bool {
    ('a' <= c && c <= 'z') || ('A' <= c && c <= 'Z')
}

pub open spec fn is_ascii_digit(c: char) -> bool {
    '0' <= c && c <= '9'
}

/// May open an element name.
pub open spec fn is_name_start(c: char) -> bool {
    is_ascii_letter(c) || c == '_'
}

/// May follow inside an element name.
pub open spec fn is_name_char(c: char) -> bool {
    is_ascii_letter(c) || is_ascii_digit(c) || c == '_' || c == '-' || c == '.'
}

/// A non-empty name made of a name start and name characters.
pub open spec fn is_valid_tag(s: Seq<char>) -> bool {
    &&& s.len() > 0
    &&& is_name_start(s[0])
    &&& forall|i: int| 1 <= i < s.len() ==> is_name_char(#[trigger] s[i])
}

/// What the first character of a key becomes.
pub open spec fn sanitize_first(c: char) -> Seq<char> {
    if is_name_start(c) {
        seq![c]
    } else if is_ascii_digit(c) {
        seq!['_', c]
    } else {
        seq!['_']
    }
}

/// What a later character of a key becomes.
pub open spec fn sanitize_later(c: char) -> char {
    if is_name_char(c) {
        c
    } else {
        '_'
    }
}

/// The element name for the key `s`.
pub open spec fn sanitize_tag(s: Seq<char>) -> Seq<char> {
    if s.len() == 0 {
        "field"@
    } else {
        sanitize_first(s[0]) + s.drop_first().map_values(|c: char| sanitize_later(c))
    }
}

/// Escaping distributes over concatenation.
pub proof fn lemma_escape_concat(a: Seq<char>, b: Seq<char>)
    ensures
        escape(a + b) == escape(a) + escape(b),
    decreases b.len(),
{
    if b.len() > 0 {
        assert((a + b).drop_last() == a + b.drop_last());
        lemma_escape_concat(a, b.drop_last());
    }
}

/// Of the reserved characters only `&` survives, and only as the opening
/// of an entity: escaped text holds no `<`, `>`, `"` or `'`.
pub proof fn lemma_escape_no_markup(s: Seq<char>)
    ensures
        forall|i: int|
            0 <= i < escape(s).len() ==> {
                let c = #[trigger] escape(s)[i];
                c != '<' && c != '>' && c != '"' && c != '\''
            },
    decreases s.len(),
{
    reveal_strlit("&amp;");
    reveal_strlit("&lt;");
    reveal_strlit("&gt;");
    reveal_strlit("&quot;");
    reveal_strlit("&apos;");
    if s.len() > 0 {
        let init = escape(s.drop_last());
        let tail = escape_char(s.last());
        lemma_escape_no_markup(s.drop_last());
        assert forall|i: int| 0 <= i < escape(s).len() implies {
            let c = #[trigger] escape(s)[i];
            c != '<' && c != '>' && c != '"' && c != '\''
        } by {
            if i < init.len() {
                assert(escape(s)[i] == init[i]);
            } else {
                assert(escape(s)[i] == tail[i - init.len()]);
            }
        }
    }
}

/// Text without reserved characters is left as it is.
pub proof fn lemma_escape_plain(s: Seq<char>)
    requires
        forall|i: int| 0 <= i < s.len() ==> !is_reserved(#[trigger] s[i]),
    ensures
        escape(s) == s,
    decreases s.len(),
{
    if s.len() > 0 {
        lemma_escape_plain(s.drop_last());
    }
}

/// Escaping never shortens, and lengthens text that holds a reserved
/// character.
pub proof fn lemma_escape_length(s: Seq<char>)
    ensures
        escape(s).len() >= s.len(),
        (exists|i: int| 0 <= i < s.len() && is_reserved(#[trigger] s[i])) ==> escape(s).len()
            > s.len(),
        (exists|i: int| 0 <= i < s.len() && is_reserved(#[trigger] s[i])) ==> exists|j: int|
            0 <= j < escape(s).len() && #[trigger] escape(s)[j] == '&',
    decreases s.len(),
{
    reveal_strlit("&amp;");
    reveal_strlit("&lt;");
    reveal_strlit("&gt;");
    reveal_strlit("&quot;");
    reveal_strlit("&apos;");
    if s.len() > 0 {
        let init = s.drop_last();
        lemma_escape_length(init);
        if is_reserved(s.last()) {
            let j = escape(init).len() as int;
            assert(escape(s)[j] == escape_char(s.last())[0]);
        } else if exists|i: int| 0 <= i < s.len() && is_reserved(#[trigger] s[i]) {
            let i = choose|i: int| 0 <= i < s.len() && is_reserved(#[trigger] s[i]);
            assert(init[i] == s[i]);
            let j = choose|j: int| 0 <= j < escape(init).len() && #[trigger] escape(init)[j] == '&';
            assert(escape(s)[j] == '&');
        }
    }
}

/// Escaping is applied once: a second pass changes any text in which the
/// first pass replaced something.
pub proof fn lemma_escape_not_idempotent(s: Seq<char>)
    requires
        exists|i: int| 0 <= i < s.len() && is_reserved(#[trigger] s[i]),
    ensures
        escape(escape(s)) != escape(s),
{
    lemma_escape_length(s);
    let e = escape(s);
    lemma_escape_length(e);
}

/// Every sanitised key is a valid element name.
pub proof fn lemma_sanitize_valid(s: Seq<char>)
    ensures
        is_valid_tag(sanitize_tag(s)),
{
    reveal_strlit("field");
}

/// A valid element name is its own sanitised form.
pub proof fn lemma_sanitize_identity(s: Seq<char>)
    requires
        is_valid_tag(s),
    ensures
        sanitize_tag(s) == s,
{
}

/// Sanitising twice equals sanitising once.
pub proof fn lemma_sanitize_idempotent(s: Seq<char>)
    ensures
        sanitize_tag(sanitize_tag(s)) == sanitize_tag(s),
{
    lemma_sanitize_valid(s);
    lemma_sanitize_identity(sanitize_tag(s));
}

/// Appends the escaped form of `v` to `out`.
pub fn push_escaped(out: &mut String, v: &Vec<char>)
    ensures
        final(out)@ == old(out)@ + escape(v@),
{
    let mut i: usize = 0;
    while i < v.len()
        invariant
            i <= v.len(),
            out@ == old(out)@ + escape(v@.take(i as int)),
        decreases v.len() - i,
    {
        let c = v[i];
        if c == '&' {
            out.append("&amp;");
        } else if c == '<' {
            out.append("&lt;");
        } else if c == '>' {
            out.append("&gt;");
        } else if c == '"' {
            out.append("&quot;");
        } else if c == '\'' {
            out.append("&apos;");
        } else {
            out.push(c);
        }
        i += 1;
        proof {
            assert(v@.take(i as int).drop_last() == v@.take(i as int - 1));
        }
    }
    assert(v@.take(v.len() as int) == v@);
}

/// Replaces each of `& < > " '` by its entity; every other character is
/// kept.
pub fn escape_xml(s: &str) -> (r: String)
    ensures
        r@ == escape(s@),
{
    let v = chars_of(s);
    let mut out = String::new();
    push_escaped(&mut out, &v);
    out
}

fn ascii_letter(c: char) -> (b: bool)
    ensures
        b == is_ascii_letter(c),
{
    ('a' <= c && c <= 'z') || ('A' <= c && c <= 'Z')
}

fn ascii_digit(c: char) -> (b: bool)
    ensures
        b == is_ascii_digit(c),
{
    '0' <= c && c <= '9'
}

/// Turns an arbitrary key into an element name: a first character that
/// cannot open a name gives way to `_` (a digit is kept behind it), every
/// later character outside letters, digits, `_`, `-` and `.` becomes `_`,
/// and the empty key becomes `field`.
pub fn sanitize_xml_tag(s: &str) -> (r: String)
    ensures
        r@ == sanitize_tag(s@),
        is_valid_tag(r@),
{
    proof {
        lemma_sanitize_valid(s@);
    }
    let v = chars_of(s);
    if v.len() == 0 {
        return String::from_str("field");
    }
    let mut out = String::new();
    let first = v[0];
    if ascii_letter(first) || first == '_' {
        out.push(first);
    } else {
        out.push('_');
        if ascii_digit(first) {
            out.push(first);
        }
    }
    let mut i: usize = 1;
    while i < v.len()
        invariant
            1 <= i <= v.len(),
            out@ == sanitize_first(v@[0]) + v@.subrange(1, i as int).map_values(
                |c: char| sanitize_later(c),
            ),
        decreases v.len() - i,
    {
        let c = v[i];
        if ascii_letter(c) || ascii_digit(c) || c == '_' || c == '-' || c == '.' {
            out.push(c);
        } else {
            out.push('_');
        }
        i += 1;
    }
    out
}

} // verus!
