use vstd::prelude::*;

use crate::envelope::{Id, Response, RpcError};
use crate::error::InnerError;

verus! {

/// The JSON text of a string: quoted and escaped.
pub uninterp spec fn json_string_text(s: Seq<char>) -> Seq<char>;

/// The compact JSON text of a value.
pub uninterp spec fn json_value_text(v: serde_json::Value) -> Seq<char>;

pub open spec fn digit_char(d: nat) -> char {
    seq!['0', '1', '2', '3', '4', '5', '6', '7', '8', '9'][d as int]
}

/// The decimal digits of `n`, without leading zeros.
pub open spec fn digits(n: nat) -> Seq<char>
    decreases n,
{
    if n < 10 {
        seq![digit_char(n)]
    } else {
        digits(n / 10).push(digit_char(n % 10))
    }
}

/// The decimal text of an integer, with a leading minus sign when negative.
pub open spec fn decimal_text(n: int) -> Seq<char> {
    if n < 0 {
        seq!['-'] + digits((-n) as nat)
    } else {
        digits(n as nat)
    }
}

pub open spec fn member_text(m: (Seq<char>, Seq<char>)) -> Seq<char> {
    seq!['"'] + m.0 + seq!['"', ':'] + m.1
}

/// The members of an object, each `"key":value`, separated by commas.
pub open spec fn members_text(ms: Seq<(Seq<char>, Seq<char>)>) -> Seq<char>
    decreases ms.len(),
{
    if ms.len() == 0 {
        seq![]
    } else if ms.len() == 1 {
        member_text(ms[0])
    } else {
        members_text(ms.drop_last()) + seq![','] + member_text(ms.last())
    }
}

/// A JSON object with the given keys (written as they are) and value texts, in order.
pub open spec fn object_text(ms: Seq<(Seq<char>, Seq<char>)>) -> Seq<char> {
    seq!['{'] + members_text(ms) + seq!['}']
}

pub open spec fn id_text(id: Option<Id>) -> Seq<char> {
    match id {
        None => "null"@,
        Some(Id::Number(n)) => decimal_text(n as int),
        Some(Id::String(s)) => json_string_text(s@),
    }
}

/// The members of an error object: `data` only when present.
pub open spec fn error_members(e: RpcError) -> Seq<(Seq<char>, Seq<char>)> {
    seq![("code"@, decimal_text(e.code as int)), ("message"@, json_string_text(e.message@))]
        + match e.data {
        Some(v) => seq![("data"@, json_value_text(v))],
        None => seq![],
    }
}

/// The members of a response on the wire: `result` and `error` only when present.
pub open spec fn response_members(r: Response) -> Seq<(Seq<char>, Seq<char>)> {
    seq![("jsonrpc"@, json_string_text(r.jsonrpc@)), ("id"@, id_text(r.id))] + match r.result {
        Some(v) => seq![("result"@, json_value_text(v))],
        None => seq![],
    } + match r.error {
        Some(e) => seq![("error"@, object_text(error_members(e)))],
        None => seq![],
    }
}

pub open spec fn response_text(r: Response) -> Seq<char> {
    object_text(response_members(r))
}

/// Relies on serde_json::to_string on a str: the quoted, escaped string. It
/// writes into a Vec, which cannot fail, so the result is always there.
#[verifier::external_body]
fn quote_json(s: &str) -> (r: Option<String>)
    ensures
        r is Some,
        r->0@ == json_string_text(s@),
{
    serde_json::to_string(s).ok()
}

/// Relies on serde_json::to_string on a Value: its compact JSON text. A Value
/// has only string keys and is written into a Vec, so this never fails.
#[verifier::external_body]
fn value_json(v: &serde_json::Value) -> (r: Option<String>)
    ensures
        r is Some,
        r->0@ == json_value_text(*v),
{
    serde_json::to_string(v).ok()
}

fn digit_str(d: u64) -> (r: &'static str)
    requires
        d < 10,
    ensures
        r@ == seq![digit_char(d as nat)],
{
    proof {
        reveal_strlit("0");
        reveal_strlit("1");
        reveal_strlit("2");
        reveal_strlit("3");
        reveal_strlit("4");
        reveal_strlit("5");
        reveal_strlit("6");
        reveal_strlit("7");
        reveal_strlit("8");
        reveal_strlit("9");
    }
    let r = match d {
        0 => "0",
        1 => "1",
        2 => "2",
        3 => "3",
        4 => "4",
        5 => "5",
        6 => "6",
        7 => "7",
        8 => "8",
        _ => "9",
    };
    assert(r@ =~= seq![digit_char(d as nat)]);
    r
}

/// Writes the decimal digits of `n`.
pub fn write_digits(n: u64) -> (r: String)
    ensures
        r@ == digits(n as nat),
    decreases n,
{
    if n < 10 {
        String::from_str(digit_str(n))
    } else {
        let mut s = write_digits(n / 10);
        s.append(digit_str(n % 10));
        assert(s@ =~= digits(n as nat));
        s
    }
}

/// Writes an integer in decimal, with `-` when negative.
pub fn write_integer(n: i64) -> (r: String)
    ensures
        r@ == decimal_text(n as int),
{
    if n < 0 {
        let m: u64 = (-(n as i128)) as u64;
        let mut s = String::from_str("-");
        proof {
            reveal_strlit("-");
        }
        s.append(write_digits(m).as_str());
        assert(s@ =~= decimal_text(n as int));
        s
    } else {
        write_digits(n as u64)
    }
}

/// Writes an object from its keys and the JSON text of each value.
pub fn write_object(members: &Vec<(String, String)>) -> (r: String)
    ensures
        r@ == object_text(members@.map_values(|m: (String, String)| (m.0@, m.1@))),
{
    let ghost ms = members@.map_values(|m: (String, String)| (m.0@, m.1@));
    let mut out = String::from_str("{");
    proof {
        reveal_strlit("{");
    }
    let mut i: usize = 0;
    while i < members.len()
        invariant
            i <= members.len(),
            ms == members@.map_values(|m: (String, String)| (m.0@, m.1@)),
            out@ == seq!['{'] + members_text(ms.take(i as int)),
        decreases members.len() - i,
    {
        let ghost before = out@;
        if i > 0 {
            out.append(",");
            proof {
                reveal_strlit(",");
            }
        }
        out.append("\"");
        out.append(members[i].0.as_str());
        out.append("\":");
        out.append(members[i].1.as_str());
        proof {
            reveal_strlit("\"");
            reveal_strlit("\":");
            let t = ms.take(i as int + 1);
            assert(t.drop_last() =~= ms.take(i as int));
            assert(t.last() == ms[i as int]);
            if i == 0 {
                assert(ms.take(0) =~= Seq::<(Seq<char>, Seq<char>)>::empty());
                assert(out@ =~= seq!['{'] + members_text(t));
            } else {
                assert(out@ =~= seq!['{'] + members_text(t));
            }
        }
        i = i + 1;
    }
    out.append("}");
    proof {
        reveal_strlit("}");
        assert(ms.take(members.len() as int) =~= ms);
        assert(out@ =~= object_text(ms));
    }
    out
}

pub fn write_id(id: &Option<Id>) -> (r: Option<String>)
    ensures
        r is Some,
        r->0@ == id_text(*id),
{
    match id {
        None => {
            proof {
                reveal_strlit("null");
            }
            Some(String::from_str("null"))
        },
        Some(Id::Number(n)) => Some(write_digits(*n)),
        Some(Id::String(s)) => quote_json(s.as_str()),
    }
}

fn key(k: &str) -> (r: String)
    ensures
        r@ == k@,
{
    String::from_str(k)
}

impl RpcError {
    /// The JSON text of this error object.
    pub fn to_json(&self) -> (r: Option<String>)
        ensures
            r is Some,
            r->0@ == object_text(error_members(*self)),
    {
        let code = write_integer(self.code);
        let message = match quote_json(self.message.as_str()) {
            Some(m) => m,
            None => return None,
        };
        let mut ms: Vec<(String, String)> = Vec::new();
        ms.push((key("code"), code));
        ms.push((key("message"), message));
        if let Some(v) = &self.data {
            match value_json(v) {
                Some(t) => ms.push((key("data"), t)),
                None => return None,
            }
        }
        let r = write_object(&ms);
        proof {
            assert(ms@.map_values(|m: (String, String)| (m.0@, m.1@)) =~= error_members(*self));
        }
        Some(r)
    }
}

impl Response {
    /// The JSON text of this response. An encoder's failure would be reported
    /// as `Serialization`; none of the encoders used can fail.
    pub fn to_json(&self) -> (r: Result<String, InnerError>)
        ensures
            r is Ok,
            r->Ok_0@ == response_text(*self),
    {
        let version = match quote_json(self.jsonrpc.as_str()) {
            Some(t) => t,
            None => return Err(InnerError::Serialization),
        };
        let id = match write_id(&self.id) {
            Some(t) => t,
            None => return Err(InnerError::Serialization),
        };
        let mut ms: Vec<(String, String)> = Vec::new();
        ms.push((key("jsonrpc"), version));
        ms.push((key("id"), id));
        if let Some(v) = &self.result {
            match value_json(v) {
                Some(t) => ms.push((key("result"), t)),
                None => return Err(InnerError::Serialization),
            }
        }
        if let Some(e) = &self.error {
            match e.to_json() {
                Some(t) => ms.push((key("error"), t)),
                None => return Err(InnerError::Serialization),
            }
        }
        let r = write_object(&ms);
        proof {
            assert(ms@.map_values(|m: (String, String)| (m.0@, m.1@)) =~= response_members(*self));
        }
        Ok(r)
    }
}

/// A member that is absent from a response is left out of its JSON text, not written as null.
pub proof fn lemma_absent_member_omitted(r: Response)
    ensures
        r.result is None ==> forall|i: int|
            0 <= i < response_members(r).len() ==> response_members(r)[i].0 != "result"@,
        r.error is None ==> forall|i: int|
            0 <= i < response_members(r).len() ==> response_members(r)[i].0 != "error"@,
        r.result is Some <==> exists|i: int|
            0 <= i < response_members(r).len() && response_members(r)[i].0 == "result"@,
        r.error is Some <==> exists|i: int|
            0 <= i < response_members(r).len() && response_members(r)[i].0 == "error"@,
{
    reveal_strlit("jsonrpc");
    reveal_strlit("id");
    reveal_strlit("result");
    reveal_strlit("error");
    let ms = response_members(r);
    assert("jsonrpc"@.len() == 7 && "id"@.len() == 2 && "result"@.len() == 6 && "error"@.len() == 5);
    assert(ms[0].0 == "jsonrpc"@ && ms[1].0 == "id"@);
    match (r.result, r.error) {
        (Some(v), Some(e)) => {
            assert(ms.len() == 4 && ms[2].0 == "result"@ && ms[3].0 == "error"@);
        },
        (Some(v), None) => {
            assert(ms.len() == 3 && ms[2].0 == "result"@);
        },
        (None, Some(e)) => {
            assert(ms.len() == 3 && ms[2].0 == "error"@);
        },
        (None, None) => {
            assert(ms.len() == 2);
        },
    }
}

} // verus!
