//! JSON text, framed from parts that are JSON text already.

use vstd::prelude::*;
use vstd::string::StringExecFns;

verus! {

/// The JSON string literal that stands for `text`: `text` between double
/// quotes, with the characters that JSON does not take as they are escaped.
pub uninterp spec fn json_string(text: Seq<char>) -> Seq<char>;

/// `serde_json::to_string` on a string slice. The contract claims that the
/// text it returns depends on the slice alone; it is the JSON string literal
/// for it.
#[verifier::external_body]
pub(crate) fn quote(text: &str) -> (literal: String)
    ensures
        literal@ == json_string(text@),
{
    serde_json::to_string(text).unwrap_or_default()
}

/// The character for the decimal digit `d`.
pub open spec fn digit(d: nat) -> char
    recommends
        d < 10,
{
    if d == 0 {
        '0'
    } else if d == 1 {
        '1'
    } else if d == 2 {
        '2'
    } else if d == 3 {
        '3'
    } else if d == 4 {
        '4'
    } else if d == 5 {
        '5'
    } else if d == 6 {
        '6'
    } else if d == 7 {
        '7'
    } else if d == 8 {
        '8'
    } else {
        '9'
    }
}

/// `n` in decimal, without leading zeros.
pub open spec fn decimal(n: nat) -> Seq<char>
    decreases n,
{
    if n < 10 {
        seq![digit(n)]
    } else {
        decimal(n / 10).push(digit(n % 10))
    }
}

/// `items` one after another, with `sep` between neighbours.
pub open spec fn joined(items: Seq<Seq<char>>, sep: Seq<char>) -> Seq<char>
    decreases items.len(),
{
    if items.len() == 0 {
        Seq::empty()
    } else if items.len() == 1 {
        items[0]
    } else {
        joined(items.drop_last(), sep) + sep + items.last()
    }
}

/// The JSON array whose elements are the JSON texts `items`.
pub open spec fn array_text(items: Seq<Seq<char>>) -> Seq<char> {
    "["@ + joined(items, ","@) + "]"@
}

/// One member of a JSON object: the name, as a JSON string literal, a colon
/// and the value's JSON text.
pub open spec fn member_text(member: (Seq<char>, Seq<char>)) -> Seq<char> {
    member.0 + ":"@ + member.1
}

/// The JSON object with the given members, each a name literal and a value
/// text, in their order.
pub open spec fn object_text(members: Seq<(Seq<char>, Seq<char>)>) -> Seq<char> {
    "{"@ + joined(members.map_values(|m: (Seq<char>, Seq<char>)| member_text(m)), ","@) + "}"@
}

/// The JSON text of an optional value: `null` where there is none.
pub open spec fn nullable(text: Option<Seq<char>>) -> Seq<char> {
    match text {
        Some(t) => t,
        None => "null"@,
    }
}

fn digit_text(d: u64) -> (t: &'static str)
    requires
        d < 10,
    ensures
        t@ == seq![digit(d as nat)],
{
    proof {
        reveal_strlit("0");
        reveal_strlit("1");
        reveal_strlit("2");
        reveal_strlit("3");
        reveal_strlit("4");
        reveal_strlit("5");
        reveal_strlit("6");
        reveal_strlit("7");
        reveal_strlit("8");
        reveal_strlit("9");
    }
    let t = if d == 0 {
        "0"
    } else if d == 1 {
        "1"
    } else if d == 2 {
        "2"
    } else if d == 3 {
        "3"
    } else if d == 4 {
        "4"
    } else if d == 5 {
        "5"
    } else if d == 6 {
        "6"
    } else if d == 7 {
        "7"
    } else if d == 8 {
        "8"
    } else {
        "9"
    };
    assert(t@ =~= seq![digit(d as nat)]);
    t
}

/// `n` as a JSON number.
pub fn number(n: u64) -> (text: String)
    ensures
        text@ == decimal(n as nat),
    decreases n,
{
    if n < 10 {
        digit_text(n).to_owned()
    } else {
        let head = number(n / 10);
        let text = head.concat(digit_text(n % 10));
        assert(text@ =~= decimal(n as nat));
        text
    }
}

/// The JSON array whose elements are the JSON texts `items`.
pub fn array(items: &Vec<String>) -> (text: String)
    ensures
        text@ == array_text(items.deep_view()),
{
    let mut text = "[".to_owned();
    let ghost all = items.deep_view();
    let mut i: usize = 0;
    while i < items.len()
        invariant
            i <= items.len(),
            all == items.deep_view(),
            text@ == "["@ + joined(all.take(i as int), ","@),
        decreases items.len() - i,
    {
        if i > 0 {
            text.append(",");
        }
        text.append(items[i].as_str());
        proof {
            let before = all.take(i as int);
            let now = all.take(i + 1);
            assert(now.drop_last() =~= before);
            assert(now.last() == items[i as int]@);
            assert(text@ =~= "["@ + joined(now, ","@));
        }
        i += 1;
    }
    assert(all.take(items.len() as int) =~= all);
    text.append("]");
    text
}

/// The JSON object with the given members, each a name literal and a value
/// text, in their order.
pub fn object(members: &Vec<(String, String)>) -> (text: String)
    ensures
        text@ == object_text(members.deep_view()),
{
    let mut text = "{".to_owned();
    let ghost all = members.deep_view().map_values(|m: (Seq<char>, Seq<char>)| member_text(m));
    let mut i: usize = 0;
    while i < members.len()
        invariant
            i <= members.len(),
            all == members.deep_view().map_values(|m: (Seq<char>, Seq<char>)| member_text(m)),
            text@ == "{"@ + joined(all.take(i as int), ","@),
        decreases members.len() - i,
    {
        if i > 0 {
            text.append(",");
        }
        text.append(members[i].0.as_str());
        text.append(":");
        text.append(members[i].1.as_str());
        proof {
            let before = all.take(i as int);
            let now = all.take(i + 1);
            assert(now.drop_last() =~= before);
            assert(now.last() == member_text((members[i as int].0@, members[i as int].1@)));
            assert(text@ =~= "{"@ + joined(now, ","@));
        }
        i += 1;
    }
    assert(all.take(members.len() as int) =~= all);
    text.append("}");
    text
}

} // verus!
