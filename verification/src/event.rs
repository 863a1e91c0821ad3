//! The JSON event that tells the main window of a link to open.

use std::collections::HashMap;
use vstd::prelude::*;
use vstd::string::*;

verus! {

/// The lower-case hexadecimal digit for `d`.
pub open spec fn hex_digit(d: int) -> char
    recommends
        0 <= d < 16,
{
    if d < 10 {
        (48 + d) as char
    } else {
        (87 + d) as char
    }
}

/// A character as it stands inside a JSON string.
pub open spec fn json_char(c: char) -> Seq<char> {
    if c == '"' || c == '\\' {
        seq!['\\', c]
    } else if c == '\u{8}' {
        seq!['\\', 'b']
    } else if c == '\t' {
        seq!['\\', 't']
    } else if c == '\n' {
        seq!['\\', 'n']
    } else if c == '\u{c}' {
        seq!['\\', 'f']
    } else if c == '\r' {
        seq!['\\', 'r']
    } else if (c as int) < 0x20 {
        seq!['\\', 'u', '0', '0', hex_digit(c as int / 16), hex_digit(c as int % 16)]
    } else {
        seq![c]
    }
}

/// The characters of `text` as they stand inside a JSON string.
pub open spec fn json_chars(text: Seq<char>) -> Seq<char>
    decreases text.len(),
{
    if text.len() == 0 {
        Seq::empty()
    } else {
        json_char(text[0]) + json_chars(text.drop_first())
    }
}

/// `text` as a JSON string.
pub open spec fn json_string(text: Seq<char>) -> Seq<char> {
    seq!['"'] + json_chars(text) + seq!['"']
}

/// A JSON object with two members, of which the first comes first.
pub open spec fn json_object(
    first: (Seq<char>, Seq<char>),
    second: (Seq<char>, Seq<char>),
) -> Seq<char> {
    seq!['{'] + json_string(first.0) + seq![':'] + json_string(first.1) + seq![',']
        + json_string(second.0) + seq![':'] + json_string(second.1) + seq!['}']
}

/// Whether `json` is a JSON object with these two members, in either order.
pub open spec fn is_json_object(
    json: Seq<char>,
    one: (Seq<char>, Seq<char>),
    other: (Seq<char>, Seq<char>),
) -> bool {
    json == json_object(one, other) || json == json_object(other, one)
}

/// Whether `event` is the event for `url`: a JSON object with its name and the link.
pub open spec fn is_url_event(event: Seq<char>, url: Seq<char>) -> bool {
    is_json_object(event, ("name"@, "on_url_scheme_received"@), ("url"@, url))
}

/// Calls `serde_json::ser::to_string` on a `HashMap` with two entries under different keys. It
/// writes a JSON object with the two as its members and without spaces, in the order in which the
/// map is walked, which differs from run to run. Of each text it escapes the quotation mark, the
/// backslash and the characters below the space. Texts can always be written.
#[verifier::external_body]
fn two_entries_to_json(first: (&str, &str), second: (&str, &str)) -> (json: Option<String>)
    requires
        first.0@ != second.0@,
    ensures
        json is Some,
        is_json_object(json->Some_0@, (first.0@, first.1@), (second.0@, second.1@)),
{
    serde_json::ser::to_string(&HashMap::from([first, second])).ok()
}

/// The event for a link to open.
pub fn url_event(url: &str) -> (event: String)
    ensures
        is_url_event(event@, url@),
{
    proof {
        reveal_strlit("name");
        reveal_strlit("url");
        assert("name"@.len() != "url"@.len());
    }
    match two_entries_to_json(("name", "on_url_scheme_received"), ("url", url)) {
        Some(event) => event,
        None => String::new(),
    }
}

/// A hexadecimal digit tells its value.
proof fn hex_digit_is_injective(a: int, b: int)
    requires
        0 <= a < 16,
        0 <= b < 16,
        hex_digit(a) == hex_digit(b),
    ensures
        a == b,
{
    assert(hex_digit(a) as int == if a < 10 {
        48 + a
    } else {
        87 + a
    });
    assert(hex_digit(b) as int == if b < 10 {
        48 + b
    } else {
        87 + b
    });
}

/// A character stands for itself, behind a backslash, or, below the space, as a number.
proof fn json_char_shape(c: char)
    ensures
        1 <= json_char(c).len() <= 2 || json_char(c).len() == 6,
        json_char(c).len() == 6 ==> 0 <= (c as int) < 0x20,
{
}

/// The escaped form of a text tells the text.
proof fn json_chars_is_injective(a: Seq<char>, b: Seq<char>)
    requires
        json_chars(a) == json_chars(b),
    ensures
        a == b,
    decreases a.len(),
{
    let x = json_chars(a);
    let y = json_chars(b);
    if a.len() > 0 && b.len() > 0 {
        let rest_a = json_chars(a.drop_first());
        let rest_b = json_chars(b.drop_first());
        assert(x == json_char(a[0]) + rest_a);
        assert(y == json_char(b[0]) + rest_b);
        assert(x[0] == json_char(a[0])[0] && y[0] == json_char(b[0])[0]);
        if json_char(a[0]).len() > 1 {
            assert(x[1] == json_char(a[0])[1]);
        }
        if json_char(b[0]).len() > 1 {
            assert(y[1] == json_char(b[0])[1]);
        }
        if json_char(a[0]).len() > 2 && json_char(b[0]).len() > 2 {
            assert(x[4] == json_char(a[0])[4] && y[4] == json_char(b[0])[4]);
            assert(x[5] == json_char(a[0])[5] && y[5] == json_char(b[0])[5]);
            let c = a[0] as int;
            let d = b[0] as int;
            json_char_shape(a[0]);
            json_char_shape(b[0]);
            hex_digit_is_injective(c / 16, d / 16);
            hex_digit_is_injective(c % 16, d % 16);
            assert(c == d);
        }
        assert(a[0] == b[0]);
        let n = json_char(a[0]).len() as int;
        assert(x.subrange(n, x.len() as int) =~= rest_a);
        assert(y.subrange(n, y.len() as int) =~= rest_b);
        json_chars_is_injective(a.drop_first(), b.drop_first());
        assert(a =~= seq![a[0]] + a.drop_first());
        assert(b =~= seq![b[0]] + b.drop_first());
    } else if a.len() > 0 {
        assert(x.len() > 0);
    } else if b.len() > 0 {
        assert(y.len() > 0);
    } else {
        assert(a =~= b);
    }
}

/// An event is the event for one link only: nothing in a link can make it pass for another.
pub proof fn event_tells_its_url(event: Seq<char>, a: Seq<char>, b: Seq<char>)
    requires
        is_url_event(event, a),
        is_url_event(event, b),
    ensures
        a == b,
{
    reveal_strlit("name");
    reveal_strlit("url");
    reveal_with_fuel(json_chars, 6);
    let name = "on_url_scheme_received"@;
    let name_key = json_string("name"@);
    let url_key = json_string("url"@);
    assert(name_key[0] == '"' && name_key[1] == 'n');
    assert(url_key[0] == '"' && url_key[1] == 'u');
    let name_first = |url: Seq<char>| json_object(("name"@, name), ("url"@, url));
    let url_first = |url: Seq<char>| json_object(("url"@, url), ("name"@, name));
    assert(name_first(a)[2] == 'n' && name_first(b)[2] == 'n');
    assert(url_first(a)[2] == 'u' && url_first(b)[2] == 'u');
    if event == name_first(a) {
        let start = 1 + name_key.len() + 1 + json_string(name).len() + 1 + url_key.len() + 1 + 1;
        let end = event.len() - 2;
        assert(event == name_first(b));
        assert(event.subrange(start as int, end) =~= json_chars(a));
        assert(event.subrange(start as int, end) =~= json_chars(b));
    } else {
        let start = 1 + url_key.len() + 1 + 1;
        let end = event.len() - 1 - json_string(name).len() - 1 - name_key.len() - 1 - 1;
        assert(event == url_first(a));
        assert(event == url_first(b));
        assert(event.subrange(start as int, end) =~= json_chars(a));
        assert(event.subrange(start as int, end) =~= json_chars(b));
    }
    json_chars_is_injective(a, b);
}

} // verus!
