//! Writing JSON text: strings, arrays and objects.
//!
//! Strings are encoded by `serde_json`. Arrays and objects are framed here,
//! from the texts of their parts.

use vstd::prelude::*;

verus! {

/// The JSON text of a string, quotes included, as `serde_json` writes it.
pub uninterp spec fn json_string(s: Seq<char>) -> Seq<char>;

/// Encodes a string as JSON text.
///
/// Trusted: the body calls `to_string` on a `serde_json::Value::String`, that
/// is `serde_json`'s `Display` for `Value`, which writes the value as compact
/// JSON. The contract claims only that the text written is a function of the
/// string's characters, and calls it `json_string`.
#[verifier::external_body]
pub(crate) fn encode_string(s: &str) -> (text: String)
    ensures
        text@ == json_string(s@),
{
    serde_json::Value::String(s.to_owned()).to_string()
}

/// The JSON texts of the given strings, in their order.
pub open spec fn json_strings(items: Seq<Seq<char>>) -> Seq<Seq<char>> {
    items.map_values(|item: Seq<char>| json_string(item))
}

/// Encodes each string as JSON text.
pub fn encode_strings(items: &Vec<String>) -> (texts: Vec<String>)
    ensures
        texts.deep_view() == json_strings(items.deep_view()),
{
    let mut texts: Vec<String> = Vec::new();
    let mut i: usize = 0;
    while i < items.len()
        invariant
            i <= items.len(),
            texts.len() == i,
            texts.deep_view() == json_strings(items.deep_view()).take(i as int),
        decreases items.len() - i,
    {
        let ghost before = texts.deep_view();
        texts.push(encode_string(items[i].as_str()));
        proof {
            let after = json_strings(items.deep_view()).take(i + 1);
            assert forall|k: int| 0 <= k < after.len() implies texts.deep_view()[k] == after[k] by {
                if k < i {
                    assert(texts.deep_view()[k] == before[k]);
                }
            }
            assert(texts.deep_view() =~= after);
        }
        i += 1;
    }
    proof {
        assert(json_strings(items.deep_view()).take(i as int) =~= json_strings(items.deep_view()));
    }
    texts
}

/// The parts in order, with `sep` between each two neighbours.
pub open spec fn joined(parts: Seq<Seq<char>>, sep: Seq<char>) -> Seq<char>
    decreases parts.len(),
{
    if parts.len() == 0 {
        Seq::empty()
    } else if parts.len() == 1 {
        parts[0]
    } else {
        joined(parts.drop_last(), sep) + sep + parts.last()
    }
}

/// The text of a JSON array whose elements have the given texts.
pub open spec fn array_text(items: Seq<Seq<char>>) -> Seq<char> {
    "["@ + joined(items, ","@) + "]"@
}

/// A member of a JSON object, as a value of the model.
pub struct MemberView {
    /// The member's name, not yet encoded.
    pub name: Seq<char>,
    /// The JSON text of the member's value.
    pub text: Seq<char>,
}

/// The text of one member: its encoded name, a colon, and its value.
pub open spec fn member_text(member: MemberView) -> Seq<char> {
    json_string(member.name) + ":"@ + member.text
}

/// The texts of the given members, in their order.
pub open spec fn member_texts(members: Seq<MemberView>) -> Seq<Seq<char>> {
    members.map_values(|m: MemberView| member_text(m))
}

/// The text of a JSON object with the given members, in their order.
pub open spec fn object_text(members: Seq<MemberView>) -> Seq<char> {
    "{"@ + joined(member_texts(members), ","@) + "}"@
}

/// Whether one of the members has the given name.
pub open spec fn has_member(members: Seq<MemberView>, name: Seq<char>) -> bool {
    exists|i: int| 0 <= i < members.len() && #[trigger] members[i].name == name
}

/// A member of a JSON object: a name and the JSON text of its value.
pub struct Member {
    pub name: String,
    pub text: String,
}

impl View for Member {
    type V = MemberView;

    open spec fn view(&self) -> MemberView {
        MemberView { name: self.name@, text: self.text@ }
    }
}

/// The members of a vector, each as a value of the model.
pub open spec fn member_views(members: Seq<Member>) -> Seq<MemberView> {
    members.map_values(|m: Member| m@)
}

/// Joins `parts` with `sep` between them.
pub fn join(parts: &Vec<String>, sep: &str) -> (text: String)
    ensures
        text@ == joined(parts.deep_view(), sep@),
{
    let mut text = String::new();
    let mut i: usize = 0;
    while i < parts.len()
        invariant
            i <= parts.len(),
            text@ == joined(parts.deep_view().take(i as int), sep@),
        decreases parts.len() - i,
    {
        if i > 0 {
            text.append(sep);
        }
        text.append(parts[i].as_str());
        proof {
            let before = parts.deep_view().take(i as int);
            let after = parts.deep_view().take(i + 1);
            assert(after.drop_last() =~= before);
            assert(after.last() == parts@[i as int]@);
            assert(text@ =~= joined(after, sep@));
        }
        i += 1;
    }
    proof {
        assert(parts.deep_view().take(i as int) =~= parts.deep_view());
    }
    text
}

/// Writes a JSON array from the texts of its elements.
pub fn array_of(items: &Vec<String>) -> (text: String)
    ensures
        text@ == array_text(items.deep_view()),
{
    let mut text = String::from_str("[");
    text.append(join(items, ",").as_str());
    text.append("]");
    text
}

/// Writes a JSON object from its members.
pub fn object_of(members: &Vec<Member>) -> (text: String)
    ensures
        text@ == object_text(member_views(members@)),
{
    let mut parts: Vec<String> = Vec::new();
    let mut i: usize = 0;
    while i < members.len()
        invariant
            i <= members.len(),
            parts.len() == i,
            parts.deep_view() == member_texts(member_views(members@).take(i as int)),
        decreases members.len() - i,
    {
        let ghost before = parts.deep_view();
        let mut part = encode_string(members[i].name.as_str());
        part.append(":");
        part.append(members[i].text.as_str());
        parts.push(part);
        proof {
            let after = member_texts(member_views(members@).take(i + 1));
            assert(parts.deep_view().len() == after.len());
            assert forall|k: int| 0 <= k < after.len() implies parts.deep_view()[k] == after[k] by {
                if k < i {
                    assert(parts.deep_view()[k] == before[k]);
                }
            }
            assert(parts.deep_view() =~= after);
        }
        i += 1;
    }
    proof {
        assert(member_views(members@).take(i as int) =~= member_views(members@));
    }
    let mut text = String::from_str("{");
    text.append(join(&parts, ",").as_str());
    text.append("}");
    text
}

} // verus!
