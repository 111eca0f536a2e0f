//! A dynamically-typed value tree and its transliteration into indented
//! XML.

use crate::text::{chars_of, decimal, push_decimal};
use crate::xml::{escape, push_escaped, sanitize_tag, sanitize_xml_tag};
use vstd::prelude::*;

verus! {

/// A value as JSON text describes it. An object keeps its members in the
/// order in which they were written; a number is held as its canonical
/// decimal text.
#[derive(Debug)]
pub enum DynamicValue {
    Null,
    Bool(bool),
    Number(String),
    String(String),
    Array(Vec<DynamicValue>),
    Object(Vec<(String, DynamicValue)>),
}

/// The mathematical value that a [`DynamicValue`] stands for.
pub ghost enum JsonValue {
    Null,
    Bool(bool),
    Number(Seq<char>),
    Text(Seq<char>),
    Array(Seq<JsonValue>),
    Object(Seq<(Seq<char>, JsonValue)>),
}

/// The values that `items` stand for, in order.
pub open spec fn view_items(items: Seq<DynamicValue>) -> Seq<JsonValue>
    decreases items,
{
    if items.len() == 0 {
        Seq::empty()
    } else {
        view_items(items.drop_last()).push(items.last().view())
    }
}

/// The members that `members` stand for, in order.
pub open spec fn view_members(members: Seq<(String, DynamicValue)>) -> Seq<(Seq<char>, JsonValue)>
    decreases members,
{
    if members.len() == 0 {
        Seq::empty()
    } else {
        view_members(members.drop_last()).push(
            (members.last().0@, members.last().1.view()),
        )
    }
}

impl View for DynamicValue {
    type V = JsonValue;

    open spec fn view(&self) -> JsonValue
        decreases self,
    {
        match self {
            DynamicValue::Null => JsonValue::Null,
            DynamicValue::Bool(b) => JsonValue::Bool(*b),
            DynamicValue::Number(n) => JsonValue::Number(n@),
            DynamicValue::String(s) => JsonValue::Text(s@),
            DynamicValue::Array(items) => JsonValue::Array(view_items(items@)),
            DynamicValue::Object(members) => JsonValue::Object(view_members(members@)),
        }
    }
}

impl JsonValue {
    /// Neither an object nor an array.
    pub open spec fn is_scalar(self) -> bool {
        !(self is Object) && !(self is Array)
    }

    /// The text of a scalar: a string as it is, a number by its decimal
    /// text, a boolean as `true` or `false`, null as `null`.
    pub open spec fn scalar_text(self) -> Seq<char> {
        match self {
            JsonValue::Null => "null"@,
            JsonValue::Bool(b) => if b {
                "true"@
            } else {
                "false"@
            },
            JsonValue::Number(n) => n,
            JsonValue::Text(s) => s,
            _ => Seq::empty(),
        }
    }
}

/// Two spaces for each level.
pub open spec fn indentation(level: nat) -> Seq<char>
    decreases level,
{
    if level == 0 {
        Seq::empty()
    } else {
        indentation((level - 1) as nat) + "  "@
    }
}

/// A scalar as one element on one line.
pub open spec fn render_leaf(pad: Seq<char>, tag: Seq<char>, v: JsonValue) -> Seq<char> {
    pad + "<"@ + tag + ">"@ + escape(v.scalar_text()) + "</"@ + tag + ">\n"@
}

/// The XML for `v`, each line behind `pad`: an object gives one element
/// for each member, in the members' order and under the sanitised key; an
/// array gives one `item` element for each entry, numbered from zero; a
/// bare scalar gives one `value` element. What stands inside an element
/// is indented by two spaces more.
pub open spec fn render(v: JsonValue, pad: Seq<char>) -> Seq<char>
    decreases v, 0nat,
{
    match v {
        JsonValue::Object(members) => render_members(members, pad),
        JsonValue::Array(items) => render_items(items, pad),
        _ => render_leaf(pad, "value"@, v),
    }
}

/// One member of an object.
pub open spec fn render_member(key: Seq<char>, v: JsonValue, pad: Seq<char>) -> Seq<char>
    decreases v, 1nat,
{
    let tag = sanitize_tag(key);
    if v.is_scalar() {
        render_leaf(pad, tag, v)
    } else {
        pad + "<"@ + tag + ">\n"@ + render(v, pad + "  "@) + pad + "</"@ + tag + ">\n"@
    }
}

/// The members of an object, in order.
pub open spec fn render_members(members: Seq<(Seq<char>, JsonValue)>, pad: Seq<char>) -> Seq<char>
    decreases members, 2nat,
{
    if members.len() == 0 {
        Seq::empty()
    } else {
        render_members(members.drop_last(), pad) + render_member(
            members.last().0,
            members.last().1,
            pad,
        )
    }
}

/// The entry of an array at position `index`.
pub open spec fn render_item(index: nat, v: JsonValue, pad: Seq<char>) -> Seq<char>
    decreases v, 1nat,
{
    pad + "<item index=\""@ + decimal(index) + "\">\n"@ + render(v, pad + "  "@) + pad
        + "</item>\n"@
}

/// The entries of an array, in order.
pub open spec fn render_items(items: Seq<JsonValue>, pad: Seq<char>) -> Seq<char>
    decreases items, 2nat,
{
    if items.len() == 0 {
        Seq::empty()
    } else {
        render_items(items.drop_last(), pad) + render_item(
            (items.len() - 1) as nat,
            items.last(),
            pad,
        )
    }
}

/// Taking one more element adds its view at the end.
proof fn lemma_view_items_step(items: Seq<DynamicValue>, i: int)
    requires
        0 <= i < items.len(),
    ensures
        view_items(items.take(i + 1)) == view_items(items.take(i)).push(items[i]@),
{
    assert(items.take(i + 1).drop_last() == items.take(i));
}

/// Taking one more member adds its view at the end.
proof fn lemma_view_members_step(members: Seq<(String, DynamicValue)>, i: int)
    requires
        0 <= i < members.len(),
    ensures
        view_members(members.take(i + 1)) == view_members(members.take(i)).push(
            (members[i].0@, members[i].1@),
        ),
{
    assert(members.take(i + 1).drop_last() == members.take(i));
}

/// The view of a sequence of values has their views at the same places.
pub proof fn lemma_view_items(items: Seq<DynamicValue>)
    ensures
        view_items(items).len() == items.len(),
        forall|i: int| 0 <= i < items.len() ==> (#[trigger] view_items(items)[i]) == items[i]@,
    decreases items.len(),
{
    if items.len() > 0 {
        lemma_view_items(items.drop_last());
        assert(view_items(items) == view_items(items.drop_last()).push(items.last()@));
    }
}

/// The view of a sequence of members has their views at the same places.
pub proof fn lemma_view_members(members: Seq<(String, DynamicValue)>)
    ensures
        view_members(members).len() == members.len(),
        forall|i: int|
            0 <= i < members.len() ==> (#[trigger] view_members(members)[i]) == (
                members[i].0@,
                members[i].1@,
            ),
    decreases members.len(),
{
    if members.len() > 0 {
        lemma_view_members(members.drop_last());
        assert(view_members(members) == view_members(members.drop_last()).push(
            (members.last().0@, members.last().1@),
        ));
    }
}

impl DynamicValue {
    /// Neither an object nor an array.
    pub fn is_scalar(&self) -> (b: bool)
        ensures
            b == self@.is_scalar(),
    {
        match self {
            DynamicValue::Array(_) => false,
            DynamicValue::Object(_) => false,
            _ => true,
        }
    }
}

/// The text of a scalar: a string as it is, a number by its decimal text,
/// a boolean as `true` or `false`, null as `null`.
pub fn json_value_to_string(value: &DynamicValue) -> (r: String)
    requires
        value@.is_scalar(),
    ensures
        r@ == value@.scalar_text(),
{
    match value {
        DynamicValue::String(s) => s.clone(),
        DynamicValue::Number(n) => n.clone(),
        DynamicValue::Bool(b) => if *b {
            String::from_str("true")
        } else {
            String::from_str("false")
        },
        _ => String::from_str("null"),
    }
}

/// Appends a scalar as one element on one line.
fn push_leaf(out: &mut String, pad: &str, tag: &str, value: &DynamicValue)
    requires
        value@.is_scalar(),
    ensures
        final(out)@ == old(out)@ + render_leaf(pad@, tag@, value@),
{
    let text = json_value_to_string(value);
    let chars = chars_of(text.as_str());
    out.append(pad);
    out.append("<");
    out.append(tag);
    out.append(">");
    push_escaped(out, &chars);
    out.append("</");
    out.append(tag);
    out.append(">\n");
}

/// Appends the XML for `value`, each line behind `pad`.
fn render_into(out: &mut String, value: &DynamicValue, pad: &str)
    ensures
        final(out)@ == old(out)@ + render(value@, pad@),
    decreases value,
{
    match value {
        DynamicValue::Object(members) => {
            let mut i: usize = 0;
            while i < members.len()
                invariant
                    i <= members.len(),
                    value == DynamicValue::Object(*members),
                    out@ == old(out)@ + render_members(
                        view_members(members@.take(i as int)),
                        pad@,
                    ),
                decreases members.len() - i,
            {
                let ghost before = out@;
                let key = &members[i].0;
                let item = &members[i].1;
                let tag = sanitize_xml_tag(key.as_str());
                if item.is_scalar() {
                    push_leaf(out, pad, tag.as_str(), item);
                } else {
                    let mut deeper = String::from_str(pad);
                    deeper.append("  ");
                    out.append(pad);
                    out.append("<");
                    out.append(tag.as_str());
                    out.append(">\n");
                    assert(value->Object_0 == *members);
                    render_into(out, item, deeper.as_str());
                    out.append(pad);
                    out.append("</");
                    out.append(tag.as_str());
                    out.append(">\n");
                }
                proof {
                    assert(out@ =~= before + render_member(key@, item@, pad@));
                    lemma_view_members_step(members@, i as int);
                    let next = view_members(members@.take(i as int + 1));
                    assert(next.drop_last() == view_members(members@.take(i as int)));
                }
                i += 1;
            }
            assert(members@.take(members.len() as int) == members@);
        },
        DynamicValue::Array(items) => {
            let mut i: usize = 0;
            while i < items.len()
                invariant
                    i <= items.len(),
                    value == DynamicValue::Array(*items),
                    out@ == old(out)@ + render_items(view_items(items@.take(i as int)), pad@),
                decreases items.len() - i,
            {
                let ghost before = out@;
                let item = &items[i];
                let mut deeper = String::from_str(pad);
                deeper.append("  ");
                out.append(pad);
                out.append("<item index=\"");
                push_decimal(out, i);
                out.append("\">\n");
                assert(value->Array_0 == *items);
                render_into(out, item, deeper.as_str());
                out.append(pad);
                out.append("</item>\n");
                proof {
                    assert(out@ =~= before + render_item(i as nat, item@, pad@));
                    lemma_view_items_step(items@, i as int);
                    lemma_view_items(items@.take(i as int));
                    let next = view_items(items@.take(i as int + 1));
                    assert(next.drop_last() == view_items(items@.take(i as int)));
                }
                i += 1;
            }
            assert(items@.take(items.len() as int) == items@);
        },
        _ => {
            push_leaf(out, pad, "value", value);
        },
    }
}

/// The indentation of `level` levels.
pub fn indentation_text(level: usize) -> (r: String)
    ensures
        r@ == indentation(level as nat),
{
    let mut r = String::new();
    let mut i: usize = 0;
    while i < level
        invariant
            i <= level,
            r@ == indentation(i as nat),
        decreases level - i,
    {
        r.append("  ");
        i += 1;
    }
    r
}

/// Renders a value tree as indented XML, starting `indent` levels deep.
pub fn json_to_xml(value: &DynamicValue, indent: usize) -> (r: String)
    ensures
        r@ == render(value@, indentation(indent as nat)),
{
    let pad = indentation_text(indent);
    let mut out = String::new();
    render_into(&mut out, value, pad.as_str());
    out
}

} // verus!
