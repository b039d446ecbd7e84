//! The JSON text of the wire format: strings, integers, arrays and objects
//! in their compact form, with nothing between the tokens.

use vstd::prelude::*;
use vstd::string::*;

verus! {

/// The lower-case hexadecimal digit that is worth `d`.
pub open spec fn hex_lower(d: int) -> char {
    if d < 10 {
        (0x30 + d) as char
    } else {
        (0x61 + d - 10) as char
    }
}

/// How one character stands inside a JSON string: the quote and the
/// backslash get a backslash before them, the control characters below
/// U+0020 become `\b`, `\t`, `\n`, `\f`, `\r` or `\u00` and two hexadecimal
/// digits, and every other character stands for itself.
pub open spec fn escaped(c: char) -> Seq<char> {
    let n = c as int;
    if n == 0x22 {
        seq!['\\', '"']
    } else if n == 0x5C {
        seq!['\\', '\\']
    } else if n == 0x08 {
        seq!['\\', 'b']
    } else if n == 0x09 {
        seq!['\\', 't']
    } else if n == 0x0A {
        seq!['\\', 'n']
    } else if n == 0x0C {
        seq!['\\', 'f']
    } else if n == 0x0D {
        seq!['\\', 'r']
    } else if n < 0x20 {
        seq!['\\', 'u', '0', '0', hex_lower(n / 16), hex_lower(n % 16)]
    } else {
        seq![c]
    }
}

/// The characters of `text`, each as it stands inside a JSON string.
pub open spec fn escaped_text(text: Seq<char>) -> Seq<char>
    decreases text.len(),
{
    if text.len() == 0 {
        Seq::empty()
    } else {
        escaped_text(text.drop_last()) + escaped(text.last())
    }
}

/// `text` as a JSON string: escaped, between double quotes.
pub open spec fn json_string(text: Seq<char>) -> Seq<char> {
    seq!['"'] + escaped_text(text) + seq!['"']
}

/// The decimal digit that is worth `d`.
pub open spec fn digit_char(d: int) -> char {
    (0x30 + d) as char
}

/// The decimal digits of `n`, without leading zeros.
pub open spec fn decimal_digits(n: nat) -> Seq<char>
    decreases n,
{
    if n < 10 {
        seq![digit_char(n as int)]
    } else {
        decimal_digits(n / 10).push(digit_char((n % 10) as int))
    }
}

/// `n` as a JSON number: its decimal digits, after a minus sign where it is
/// negative.
pub open spec fn json_integer(n: int) -> Seq<char> {
    if n < 0 {
        seq!['-'] + decimal_digits((-n) as nat)
    } else {
        decimal_digits(n as nat)
    }
}

/// `b` as a JSON literal.
pub open spec fn json_bool(b: bool) -> Seq<char> {
    if b {
        seq!['t', 'r', 'u', 'e']
    } else {
        seq!['f', 'a', 'l', 's', 'e']
    }
}

/// The texts of `items`, with a comma between each two.
pub open spec fn comma_separated(items: Seq<Seq<char>>) -> Seq<char>
    decreases items.len(),
{
    if items.len() == 0 {
        Seq::empty()
    } else if items.len() == 1 {
        items[0]
    } else {
        comma_separated(items.drop_last()) + seq![','] + items.last()
    }
}

/// A JSON array whose elements are the JSON texts `items`.
pub open spec fn json_array(items: Seq<Seq<char>>) -> Seq<char> {
    seq!['['] + comma_separated(items) + seq![']']
}

/// One member of a JSON object: the key as a JSON string, a colon, and the
/// JSON text `member.1` of the value.
pub open spec fn json_member(member: (Seq<char>, Seq<char>)) -> Seq<char> {
    json_string(member.0) + seq![':'] + member.1
}

/// A JSON object that holds `members` in their order; each is a key and the
/// JSON text of its value.
pub open spec fn json_object(members: Seq<(Seq<char>, Seq<char>)>) -> Seq<char> {
    seq!['{'] + comma_separated(members.map_values(|m: (Seq<char>, Seq<char>)| json_member(m)))
        + seq!['}']
}

/// The views of the strings in `items`.
pub open spec fn texts(items: Seq<String>) -> Seq<Seq<char>> {
    items.map_values(|s: String| s@)
}

/// A key of a JSON object with the JSON text of its value.
pub struct Member {
    /// the key, as it is before it is quoted
    pub key: &'static str,
    /// the value, as JSON text
    pub value: String,
}

impl View for Member {
    type V = (Seq<char>, Seq<char>);

    open spec fn view(&self) -> (Seq<char>, Seq<char>) {
        (self.key@, self.value@)
    }
}

/// The views of `members`.
pub open spec fn member_views(members: Seq<Member>) -> Seq<(Seq<char>, Seq<char>)> {
    members.map_values(|m: Member| m@)
}

/// Has `serde_json` write `text` as a JSON string: `Value::from` makes the
/// string value, and `to_string` writes it through the compact `Display` of
/// `serde_json::Value`.
///
/// Not proved but taken from the escape table of its serializer: the result
/// is `text` between double quotes, with `"` and `\` behind a backslash, the
/// characters below U+0020 as `\b`, `\t`, `\n`, `\f`, `\r` or `\u00` and two
/// lower-case hexadecimal digits, and every other character unchanged.
#[verifier::external_body]
fn quote(text: &str) -> (quoted: String)
    ensures
        quoted@ == json_string(text@),
{
    serde_json::Value::from(text).to_string()
}

/// The one-character text of a decimal digit.
fn digit_text(d: u64) -> (text: &'static str)
    requires
        d < 10,
    ensures
        text@ == seq![digit_char(d as int)],
{
    proof {
        reveal_strlit("0");
        reveal_strlit("1");
        reveal_strlit("2");
        reveal_strlit("3");
        reveal_strlit("4");
        reveal_strlit("5");
        reveal_strlit("6");
        reveal_strlit("7");
        reveal_strlit("8");
        reveal_strlit("9");
    }
    let text = if d == 0 {
        "0"
    } else if d == 1 {
        "1"
    } else if d == 2 {
        "2"
    } else if d == 3 {
        "3"
    } else if d == 4 {
        "4"
    } else if d == 5 {
        "5"
    } else if d == 6 {
        "6"
    } else if d == 7 {
        "7"
    } else if d == 8 {
        "8"
    } else {
        "9"
    };
    assert(text@ =~= seq![digit_char(d as int)]);
    text
}

/// Appends the decimal digits of `n` to `out`.
fn push_digits(out: &mut String, n: u64)
    ensures
        final(out)@ == old(out)@ + decimal_digits(n as nat),
    decreases n,
{
    if n >= 10 {
        push_digits(out, n / 10);
    }
    out.append(digit_text(n % 10));
    proof {
        let tail = seq![digit_char((n % 10) as int)];
        if n >= 10 {
            assert(decimal_digits(n as nat) =~= decimal_digits((n / 10) as nat) + tail);
            assert(final(out)@ =~= old(out)@ + decimal_digits(n as nat));
        } else {
            assert(decimal_digits(n as nat) =~= tail);
        }
    }
}

/// Writes `n` as a JSON number.
pub fn write_integer(n: i64) -> (text: String)
    ensures
        text@ == json_integer(n as int),
{
    let mut out = String::new();
    if n < 0 {
        out.append("-");
        proof {
            reveal_strlit("-");
        }
        let magnitude: u64 = if n == i64::MIN {
            0x8000_0000_0000_0000
        } else {
            (-n) as u64
        };
        push_digits(&mut out, magnitude);
        assert(out@ =~= seq!['-'] + decimal_digits((-n) as nat));
    } else {
        push_digits(&mut out, n as u64);
        assert(out@ =~= decimal_digits(n as nat));
    }
    out
}

/// Writes `b` as a JSON literal.
pub fn write_bool(b: bool) -> (text: String)
    ensures
        text@ == json_bool(b),
{
    proof {
        reveal_strlit("true");
        reveal_strlit("false");
    }
    let text = if b {
        String::from_str("true")
    } else {
        String::from_str("false")
    };
    assert(text@ =~= json_bool(b));
    text
}

/// Writes `text` as a JSON string.
pub fn write_string(text: &str) -> (quoted: String)
    ensures
        quoted@ == json_string(text@),
{
    quote(text)
}

/// Joins `items` with commas.
fn join(items: &Vec<String>) -> (text: String)
    ensures
        text@ == comma_separated(texts(items@)),
{
    let mut out = String::new();
    let mut i: usize = 0;
    proof {
        reveal_strlit(",");
    }
    while i < items.len()
        invariant
            i <= items.len(),
            ","@ == seq![','],
            out@ == comma_separated(texts(items@).take(i as int)),
        decreases items.len() - i,
    {
        let ghost before = texts(items@).take(i as int);
        let ghost after = texts(items@).take(i + 1);
        assert(after.drop_last() =~= before);
        assert(after.last() == items@[i as int]@);
        if i > 0 {
            out.append(",");
        }
        out.append(items[i].as_str());
        assert(out@ =~= comma_separated(after));
        i = i + 1;
    }
    assert(texts(items@).take(i as int) =~= texts(items@));
    out
}

/// Writes the JSON array whose elements are the JSON texts `items`.
pub fn write_array(items: &Vec<String>) -> (text: String)
    ensures
        text@ == json_array(texts(items@)),
{
    proof {
        reveal_strlit("[");
        reveal_strlit("]");
    }
    let inner = join(items);
    let mut out = String::from_str("[");
    out.append(inner.as_str());
    out.append("]");
    assert(out@ =~= json_array(texts(items@)));
    out
}

/// Writes the JSON object that holds `members` in their order.
pub fn write_object(members: &Vec<Member>) -> (text: String)
    ensures
        text@ == json_object(member_views(members@)),
{
    let ghost all = member_views(members@).map_values(
        |m: (Seq<char>, Seq<char>)| json_member(m),
    );
    let mut parts: Vec<String> = Vec::new();
    let mut i: usize = 0;
    proof {
        reveal_strlit(":");
    }
    while i < members.len()
        invariant
            i <= members.len(),
            ":"@ == seq![':'],
            all == member_views(members@).map_values(|m: (Seq<char>, Seq<char>)| json_member(m)),
            texts(parts@) =~= all.take(i as int),
        decreases members.len() - i,
    {
        let member = &members[i];
        let mut part = quote(member.key);
        part.append(":");
        part.append(member.value.as_str());
        assert(part@ =~= json_member(member@));
        let ghost before = parts@;
        parts.push(part);
        proof {
            assert(all[i as int] == json_member(members@[i as int]@));
            assert(texts(parts@) =~= texts(before).push(part@));
            assert(all.take(i + 1) =~= all.take(i as int).push(all[i as int]));
        }
        i = i + 1;
    }
    assert(all.take(i as int) =~= all);
    proof {
        reveal_strlit("{");
        reveal_strlit("}");
    }
    let inner = join(&parts);
    let mut out = String::from_str("{");
    out.append(inner.as_str());
    out.append("}");
    assert(out@ =~= json_object(member_views(members@)));
    out
}

} // verus!
