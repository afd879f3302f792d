//! The response builder: renders a status code and message into the JSON
//! error envelope `{"message":"<string>"}` wrapped with that status code.

use vstd::prelude::*;

verus! {

/// The transport-level answer: a status code and the serialized JSON body.
pub struct Response {
    /// The HTTP status code.
    pub status: u16,
    /// The JSON body text.
    pub body: String,
}

/// The JSON error envelope: a single-field record, constructed fresh per
/// response and existing only to be serialized.
pub struct ErrorResponse {
    /// The client-facing message, the envelope's one field.
    pub message: String,
}

/// The hexadecimal digit character for a value below sixteen.
pub open spec fn hex_digit(n: int) -> char {
    if n == 0 {
        '0'
    } else if n == 1 {
        '1'
    } else if n == 2 {
        '2'
    } else if n == 3 {
        '3'
    } else if n == 4 {
        '4'
    } else if n == 5 {
        '5'
    } else if n == 6 {
        '6'
    } else if n == 7 {
        '7'
    } else if n == 8 {
        '8'
    } else if n == 9 {
        '9'
    } else if n == 10 {
        'a'
    } else if n == 11 {
        'b'
    } else if n == 12 {
        'c'
    } else if n == 13 {
        'd'
    } else if n == 14 {
        'e'
    } else {
        'f'
    }
}

/// How one character appears inside a JSON string literal: quote and
/// backslash are escaped, control characters take the `\u00XX` form, and
/// every other character stands verbatim.
pub open spec fn escape_char(c: char) -> Seq<char> {
    if c == '"' {
        seq!['\\', '"']
    } else if c == '\\' {
        seq!['\\', '\\']
    } else if (c as u32) < 32 {
        seq![
            '\\',
            'u',
            '0',
            '0',
            hex_digit(((c as u32) as int) / 16),
            hex_digit(((c as u32) as int) % 16),
        ]
    } else {
        seq![c]
    }
}

/// The body of a JSON string literal holding the characters of `s`.
pub open spec fn json_escape(s: Seq<char>) -> Seq<char>
    decreases s.len(),
{
    if s.len() == 0 {
        Seq::empty()
    } else {
        escape_char(s[0]) + json_escape(s.skip(1))
    }
}

/// The serialized envelope for a message: the one field `message` holding
/// the escaped message text.
pub open spec fn envelope_spec(m: Seq<char>) -> Seq<char> {
    "{\"message\":\""@ + json_escape(m) + "\"}"@
}

/// Relies on std's `String::push`: appends the one character to the string.
pub assume_specification[ String::push ](s: &mut String, c: char)
    ensures
        final (s)@ == old(s)@.push(c),
;

/// Escaping distributes over concatenation.
proof fn lemma_json_escape_app(a: Seq<char>, b: Seq<char>)
    ensures
        json_escape(a + b) == json_escape(a) + json_escape(b),
    decreases a.len(),
{
    if a.len() == 0 {
        assert(a + b =~= b);
        assert(json_escape(a) + json_escape(b) =~= json_escape(b));
    } else {
        assert((a + b)[0] == a[0]);
        assert((a + b).skip(1) =~= a.skip(1) + b);
        lemma_json_escape_app(a.skip(1), b);
        assert(escape_char(a[0]) + (json_escape(a.skip(1)) + json_escape(b)) =~= (escape_char(a[0])
            + json_escape(a.skip(1))) + json_escape(b));
    }
}

/// Escaping one more character appends that character's escape.
proof fn lemma_json_escape_take_step(s: Seq<char>, i: int)
    requires
        0 <= i < s.len(),
    ensures
        json_escape(s.take(i + 1)) == json_escape(s.take(i)) + escape_char(s[i]),
{
    let one = seq![s[i]];
    assert(s.take(i + 1) =~= s.take(i) + one);
    lemma_json_escape_app(s.take(i), one);
    assert(one.skip(1) =~= Seq::<char>::empty());
    assert(json_escape(Seq::<char>::empty()) =~= Seq::<char>::empty());
    assert(one[0] == s[i]);
    assert(json_escape(one) =~= escape_char(s[i]));
}

/// The hexadecimal digit character for a value below sixteen.
fn hex_digit_char(n: u8) -> (c: char)
    requires
        n < 16,
    ensures
        c == hex_digit(n as int),
{
    if n == 0 {
        '0'
    } else if n == 1 {
        '1'
    } else if n == 2 {
        '2'
    } else if n == 3 {
        '3'
    } else if n == 4 {
        '4'
    } else if n == 5 {
        '5'
    } else if n == 6 {
        '6'
    } else if n == 7 {
        '7'
    } else if n == 8 {
        '8'
    } else if n == 9 {
        '9'
    } else if n == 10 {
        'a'
    } else if n == 11 {
        'b'
    } else if n == 12 {
        'c'
    } else if n == 13 {
        'd'
    } else if n == 14 {
        'e'
    } else {
        'f'
    }
}

/// Appends the escape of one character.
fn push_escaped(out: &mut String, c: char)
    ensures
        final (out)@ == old(out)@ + escape_char(c),
{
    if c == '"' {
        out.push('\\');
        out.push('"');
        assert(out@ =~= old(out)@ + escape_char(c));
    } else if c == '\\' {
        out.push('\\');
        out.push('\\');
        assert(out@ =~= old(out)@ + escape_char(c));
    } else if (c as u32) < 32 {
        let v: u32 = c as u32;
        out.push('\\');
        out.push('u');
        out.push('0');
        out.push('0');
        out.push(hex_digit_char((v / 16) as u8));
        out.push(hex_digit_char((v % 16) as u8));
        assert(out@ =~= old(out)@ + escape_char(c));
    } else {
        out.push(c);
        assert(out@ =~= old(out)@ + escape_char(c));
    }
}

/// Appends the escaped form of a whole message.
fn append_escaped(out: &mut String, message: &str)
    ensures
        final (out)@ == old(out)@ + json_escape(message@),
{
    let n = message.unicode_len();
    let mut i: usize = 0;
    while i < n
        invariant
            n == message@.len(),
            i <= n,
            out@ == old(out)@ + json_escape(message@.take(i as int)),
        decreases n - i,
    {
        let c = message.get_char(i);
        proof {
            lemma_json_escape_take_step(message@, i as int);
        }
        push_escaped(out, c);
        i += 1;
    }
    proof {
        assert(message@.take(n as int) =~= message@);
    }
}

impl ErrorResponse {
    /// Serializes the envelope to JSON; defined to always succeed.
    pub fn to_json(&self) -> (r: String)
        ensures
            r@ == envelope_spec(self.message@),
    {
        let mut body = String::from_str("{\"message\":\"");
        append_escaped(&mut body, self.message.as_str());
        body.append("\"}");
        body
    }
}

/// A character that JSON escaping leaves verbatim.
pub open spec fn plain_char(c: char) -> bool {
    c != '"' && c != '\\' && (c as u32) >= 32
}

/// A message whose characters all stand verbatim in the escaped form.
pub open spec fn plain(m: Seq<char>) -> bool {
    forall|i: int| 0 <= i < m.len() ==> plain_char(#[trigger] m[i])
}

/// Escaping a plain message is the identity.
pub proof fn lemma_escape_plain(m: Seq<char>)
    requires
        plain(m),
    ensures
        json_escape(m) == m,
    decreases m.len(),
{
    if m.len() == 0 {
        assert(json_escape(m) =~= m);
    } else {
        assert(plain_char(m[0]));
        assert forall|i: int| 0 <= i < m.skip(1).len() implies plain_char(#[trigger] m.skip(1)[i]) by {
            assert(m.skip(1)[i] == m[i + 1]);
        }
        lemma_escape_plain(m.skip(1));
        assert(json_escape(m) =~= m);
    }
}

/// The envelope of a plain message holds the message itself, verbatim,
/// between the fixed field prefix and the closing of the object: the one
/// `message` field equals the input message.
pub proof fn lemma_envelope_plain(m: Seq<char>)
    requires
        plain(m),
    ensures
        envelope_spec(m) == "{\"message\":\""@ + m + "\"}"@,
        envelope_spec(m).len() == m.len() + 14,
        envelope_spec(m).subrange(12, 12 + m.len() as int) == m,
{
    reveal_strlit("{\"message\":\"");
    reveal_strlit("\"}");
    lemma_escape_plain(m);
    assert(envelope_spec(m).subrange(12, 12 + m.len() as int) =~= m);
}

/// The first character of an escape determines whether the escaped
/// character was plain.
proof fn lemma_escape_char_head(a: char, b: char, ra: Seq<char>, rb: Seq<char>)
    requires
        escape_char(a) + ra == escape_char(b) + rb,
    ensures
        a == b,
        ra == rb,
{
    let s = escape_char(a) + ra;
    if plain_char(a) && plain_char(b) {
        assert(s[0] == a);
        assert((escape_char(b) + rb)[0] == b);
        assert(ra =~= s.skip(1));
        assert(rb =~= (escape_char(b) + rb).skip(1));
    } else if plain_char(a) && !plain_char(b) {
        assert(s[0] == a);
        assert((escape_char(b) + rb)[0] == '\\');
        assert(false);
    } else if !plain_char(a) && plain_char(b) {
        assert(s[0] == '\\');
        assert((escape_char(b) + rb)[0] == b);
        assert(false);
    } else {
        // both escaped forms; the second character tells them apart
        assert(s[1] == escape_char(a)[1]);
        assert((escape_char(b) + rb)[1] == escape_char(b)[1]);
        if a == '"' || b == '"' {
            assert(a == b);
            assert(ra =~= s.skip(2));
            assert(rb =~= (escape_char(b) + rb).skip(2));
        } else if a == '\\' || b == '\\' {
            assert(a == b);
            assert(ra =~= s.skip(2));
            assert(rb =~= (escape_char(b) + rb).skip(2));
        } else {
            let va = (a as u32) as int;
            let vb = (b as u32) as int;
            assert(s[4] == hex_digit(va / 16) && s[5] == hex_digit(va % 16));
            assert(s[4] == hex_digit(vb / 16) && s[5] == hex_digit(vb % 16));
            lemma_hex_digit_injective(va / 16, vb / 16);
            lemma_hex_digit_injective(va % 16, vb % 16);
            assert(va == vb) by {
                vstd::arithmetic::div_mod::lemma_fundamental_div_mod(va, 16);
                vstd::arithmetic::div_mod::lemma_fundamental_div_mod(vb, 16);
            }
            assert(a == b);
            assert(ra =~= s.skip(6));
            assert(rb =~= (escape_char(b) + rb).skip(6));
        }
    }
}

/// Distinct values below sixteen render as distinct hexadecimal digits.
proof fn lemma_hex_digit_injective(m: int, n: int)
    requires
        0 <= m < 16,
        0 <= n < 16,
        hex_digit(m) == hex_digit(n),
    ensures
        m == n,
{
}

/// Escaping is injective: the escaped text determines the message.
pub proof fn lemma_escape_injective(a: Seq<char>, b: Seq<char>)
    requires
        json_escape(a) == json_escape(b),
    ensures
        a == b,
    decreases a.len(),
{
    if a.len() == 0 {
        if b.len() > 0 {
            assert(json_escape(b) == escape_char(b[0]) + json_escape(b.skip(1)));
            assert(json_escape(b).len() >= 1);
            assert(false);
        }
        assert(a =~= b);
    } else if b.len() == 0 {
        assert(json_escape(a) == escape_char(a[0]) + json_escape(a.skip(1)));
        assert(json_escape(a).len() >= 1);
        assert(false);
    } else {
        lemma_escape_char_head(a[0], b[0], json_escape(a.skip(1)), json_escape(b.skip(1)));
        lemma_escape_injective(a.skip(1), b.skip(1));
        assert forall|i: int| 0 <= i < a.len() implies a[i] == b[i] by {
            if i >= 1 {
                assert(a.skip(1)[i - 1] == a[i]);
                assert(b.skip(1)[i - 1] == b[i]);
            }
        }
        assert(a =~= b);
    }
}

/// The rendered body determines the message: the envelope carries exactly
/// the input message, for every message.
pub proof fn lemma_envelope_injective(a: Seq<char>, b: Seq<char>)
    requires
        envelope_spec(a) == envelope_spec(b),
    ensures
        a == b,
{
    reveal_strlit("{\"message\":\"");
    reveal_strlit("\"}");
    let p = "{\"message\":\""@;
    let q = "\"}"@;
    let ea = json_escape(a);
    let eb = json_escape(b);
    assert((p + ea + q).len() == (p + eb + q).len());
    assert(ea.len() == eb.len());
    assert(ea =~= (p + ea + q).subrange(12, 12 + ea.len() as int));
    assert(eb =~= (p + eb + q).subrange(12, 12 + eb.len() as int));
    lemma_escape_injective(a, b);
}

/// Renders a status/message pair: constructs the envelope, serializes it,
/// and wraps it with the given status code. Never fails.
pub fn build_response(status: u16, message: &str) -> (r: Response)
    ensures
        r.status == status,
        r.body@ == envelope_spec(message@),
{
    let envelope = ErrorResponse { message: String::from_str(message) };
    let body = envelope.to_json();
    Response { status, body }
}

} // verus!
