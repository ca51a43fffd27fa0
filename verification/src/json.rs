//! JSON texts as the node probes store them.
use crate::text::same;
use vstd::prelude::*;

verus! {

/// The items of a JSON array of strings; none for any other text.
pub uninterp spec fn json_texts(j: Seq<char>) -> Option<Seq<Seq<char>>>;

/// serde_json's `from_str` into a list of strings. Which texts are JSON is
/// not spelled out, only that the text determines the list.
#[verifier::external_body]
pub(crate) fn read_texts(j: &str) -> (r: Option<Vec<String>>)
    ensures
        json_texts(j@) == (match r {
            Some(v) => Some(crate::text::texts(v@)),
            None => None,
        }),
{
    serde_json::from_str::<Vec<String>>(j).ok()
}

/// A member of a JSON object, with its value where that is a string or a
/// 64-bit integer.
pub struct Member {
    pub name: String,
    pub value: Option<String>,
    pub number: Option<i64>,
}

/// An optional integer.
pub open spec fn opt_int(n: Option<i64>) -> Option<int> {
    match n {
        Some(n) => Some(n as int),
        None => None,
    }
}

/// The members by name, string value and integer value.
pub open spec fn members(v: Seq<Member>) -> Seq<(Seq<char>, Option<Seq<char>>, Option<int>)> {
    v.map_values(
        |m: Member| (m.name@, crate::text::opt_string(m.value), opt_int(m.number)),
    )
}

/// The members of a JSON object, in a fixed order; none for any other text.
pub uninterp spec fn json_members(j: Seq<char>) -> Option<
    Seq<(Seq<char>, Option<Seq<char>>, Option<int>)>,
>;

/// serde_json's `from_str` into a value, as an object's members with what
/// `as_str` and `as_i64` give of each. Which texts are JSON is not spelled
/// out, only that the text determines the members.
#[verifier::external_body]
pub(crate) fn read_members(j: &str) -> (r: Option<Vec<Member>>)
    ensures
        json_members(j@) == (match r {
            Some(v) => Some(members(v@)),
            None => None,
        }),
{
    let value: serde_json::Value = serde_json::from_str(j).ok()?;
    let object = value.as_object()?;
    Some(
        object.iter()
            .map(
                |(k, v)| Member {
                    name: k.clone(),
                    value: v.as_str().map(|s| s.to_string()),
                    number: v.as_i64(),
                },
            )
            .collect(),
    )
}

/// Position of the first of the members from `from` on that is called `name`.
pub open spec fn named_from(
    ms: Seq<(Seq<char>, Option<Seq<char>>, Option<int>)>,
    name: Seq<char>,
    from: int,
) -> Option<int>
    decreases ms.len() - from,
{
    if from < 0 || from >= ms.len() {
        None
    } else if ms[from].0 == name {
        Some(from)
    } else {
        named_from(ms, name, from + 1)
    }
}

/// The string called `name` among the members.
pub open spec fn member_text(
    ms: Seq<(Seq<char>, Option<Seq<char>>, Option<int>)>,
    name: Seq<char>,
) -> Option<Seq<char>> {
    match named_from(ms, name, 0) {
        Some(i) => ms[i].1,
        None => None,
    }
}

/// The integer called `name` among the members.
pub open spec fn member_int(
    ms: Seq<(Seq<char>, Option<Seq<char>>, Option<int>)>,
    name: Seq<char>,
) -> Option<int> {
    match named_from(ms, name, 0) {
        Some(i) => ms[i].2,
        None => None,
    }
}

fn find_member(v: &Vec<Member>, name: &str) -> (r: Option<usize>)
    ensures
        match r {
            Some(i) => i < v@.len() && named_from(members(v@), name@, 0) == Some(i as int),
            None => named_from(members(v@), name@, 0) is None,
        },
{
    let ghost ms = members(v@);
    let mut i: usize = 0;
    while i < v.len()
        invariant
            i <= v.len(),
            ms == members(v@),
            named_from(ms, name@, 0) == named_from(ms, name@, i as int),
        decreases v.len() - i,
    {
        if same(v[i].name.as_str(), name) {
            return Some(i);
        }
        i = i + 1;
    }
    None
}

/// The string called `name` among the members.
pub fn text_member(v: &Vec<Member>, name: &str) -> (r: Option<String>)
    ensures
        crate::text::opt_string(r) == member_text(members(v@), name@),
{
    match find_member(v, name) {
        Some(i) => v[i].value.clone(),
        None => None,
    }
}

/// The integer called `name` among the members.
pub fn int_member(v: &Vec<Member>, name: &str) -> (r: Option<i64>)
    ensures
        opt_int(r) == member_int(members(v@), name@),
{
    match find_member(v, name) {
        Some(i) => v[i].number,
        None => None,
    }
}

} // verus!
