//! JSON text framing for the message payload that crosses the transport
//! boundary: a flat object with `from`, `kind` and `body_b64` string
//! members, with the escaping JSON requires for quotes, backslashes and
//! control characters.

use vstd::prelude::*;
use vstd::string::*;
use crate::strutil::{chars_of, chars_to_string};

verus! {

/// The lower-case hex digit for a value below 16.
pub open spec fn hex_digit(n: int) -> char {
    if n < 10 {
        ((48 + n) as u8) as char
    } else {
        ((87 + n) as u8) as char
    }
}

fn hex_digit_exec(n: u8) -> (r: char)
    requires
        n < 16,
    ensures
        r == hex_digit(n as int),
{
    if n < 10 {
        (48 + n) as char
    } else {
        (87 + n) as char
    }
}

/// What one character escapes to inside a JSON string: quotes and
/// backslashes get a backslash, control characters become `\u00XX`, and
/// everything else stands for itself.
pub open spec fn esc_chunk(c: char) -> Seq<char> {
    if c == '"' {
        seq!['\\', '"']
    } else if c == '\\' {
        seq!['\\', '\\']
    } else if (c as u32) < 32 {
        seq!['\\', 'u', '0', '0', hex_digit((c as u32) as int / 16), hex_digit((c as u32) as int % 16)]
    } else {
        seq![c]
    }
}

/// A string escaped for use inside JSON quotes.
pub open spec fn json_escape_seq(s: Seq<char>) -> Seq<char>
    decreases s.len(),
{
    if s.len() == 0 {
        Seq::empty()
    } else {
        esc_chunk(s[0]) + json_escape_seq(s.drop_first())
    }
}

proof fn lemma_json_escape_push(s: Seq<char>, c: char)
    ensures
        json_escape_seq(s.push(c)) == json_escape_seq(s) + esc_chunk(c),
    decreases s.len(),
{
    let p = s.push(c);
    if s.len() == 0 {
        assert(p.drop_first() =~= Seq::<char>::empty());
        assert(json_escape_seq(Seq::<char>::empty()) == Seq::<char>::empty());
        assert(p[0] == c);
        assert(json_escape_seq(p) == esc_chunk(c) + Seq::<char>::empty());
        assert(esc_chunk(c) + Seq::<char>::empty() =~= Seq::<char>::empty() + esc_chunk(c));
    } else {
        assert(p.drop_first() =~= s.drop_first().push(c));
        lemma_json_escape_push(s.drop_first(), c);
        assert(p[0] == s[0]);
        assert(json_escape_seq(p) == esc_chunk(s[0]) + (json_escape_seq(s.drop_first())
            + esc_chunk(c)));
        assert(esc_chunk(s[0]) + (json_escape_seq(s.drop_first()) + esc_chunk(c)) =~= (esc_chunk(
            s[0],
        ) + json_escape_seq(s.drop_first())) + esc_chunk(c));
    }
}

/// Escape a string for use inside JSON quotes.
pub fn json_escape(s: &str) -> (r: String)
    ensures
        r@ == json_escape_seq(s@),
{
    let cs = chars_of(s);
    let mut out: Vec<char> = Vec::new();
    let mut i: usize = 0;
    while i < cs.len()
        invariant
            i <= cs.len(),
            cs@ == s@,
            out@ == json_escape_seq(s@.take(i as int)),
        decreases cs.len() - i,
    {
        let c = cs[i];
        let ghost before = out@;
        if c == '"' {
            out.push('\\');
            out.push('"');
            proof {
                assert(esc_chunk(c) =~= seq!['\\', '"']);
                assert(out@ =~= before + esc_chunk(c));
            }
        } else if c == '\\' {
            out.push('\\');
            out.push('\\');
            proof {
                assert(esc_chunk(c) =~= seq!['\\', '\\']);
                assert(out@ =~= before + esc_chunk(c));
            }
        } else if (c as u32) < 32 {
            let v = c as u32;
            let hi = hex_digit_exec((v / 16) as u8);
            let lo = hex_digit_exec((v % 16) as u8);
            out.push('\\');
            out.push('u');
            out.push('0');
            out.push('0');
            out.push(hi);
            out.push(lo);
            proof {
                assert(((v / 16) as u8) as int == (c as u32) as int / 16);
                assert(((v % 16) as u8) as int == (c as u32) as int % 16);
                assert(esc_chunk(c) =~= seq!['\\', 'u', '0', '0', hi, lo]);
                assert(out@ =~= before + esc_chunk(c));
            }
        } else {
            out.push(c);
            proof {
                assert(esc_chunk(c) =~= seq![c]);
                assert(out@ =~= before + esc_chunk(c));
            }
        }
        proof {
            lemma_json_escape_push(s@.take(i as int), s@[i as int]);
            assert(s@.take(i + 1 as int) =~= s@.take(i as int).push(s@[i as int]));
        }
        i = i + 1;
    }
    proof {
        assert(s@.take(cs@.len() as int) =~= s@);
    }
    chars_to_string(&out)
}

/// Text that JSON framing leaves unescaped: free of quotes, backslashes
/// and control characters.
pub open spec fn plain_json_text(s: Seq<char>) -> bool {
    forall|i: int| 0 <= i < s.len() ==> s[i] != '"' && s[i] != '\\' && (s[i] as u32) >= 32
}

/// Plain text passes through JSON escaping unchanged.
pub proof fn lemma_json_escape_plain(s: Seq<char>)
    requires
        plain_json_text(s),
    ensures
        json_escape_seq(s) == s,
    decreases s.len(),
{
    if s.len() > 0 {
        assert(esc_chunk(s[0]) =~= seq![s[0]]);
        assert(forall|i: int| 0 <= i < s.drop_first().len() ==> s.drop_first()[i] == s[i + 1]);
        lemma_json_escape_plain(s.drop_first());
        assert(seq![s[0]] + s.drop_first() =~= s);
    }
}

/// For a plain sender, kind token and body text, the message payload is
/// literally the JSON object around them. Together with the contract of
/// `outbound_request`, this pins the exact wire text of a send: one POST
/// to the remote ticket URL whose body is this object, with the message
/// body's standard base64 in the last slot.
pub proof fn lemma_message_payload_plain(from: Seq<char>, kind: Seq<char>, body_b64: Seq<char>)
    requires
        plain_json_text(from),
        plain_json_text(kind),
        plain_json_text(body_b64),
    ensures
        message_payload_view(from, kind, body_b64) == "{\"from\":\""@ + from + "\",\"kind\":\""@
            + kind + "\",\"body_b64\":\""@ + body_b64 + "\"}"@,
{
    lemma_json_escape_plain(from);
    lemma_json_escape_plain(kind);
    lemma_json_escape_plain(body_b64);
}

/// The JSON object carrying one message across the transport boundary.
pub open spec fn message_payload_view(
    from: Seq<char>,
    kind: Seq<char>,
    body_b64: Seq<char>,
) -> Seq<char> {
    "{\"from\":\""@ + json_escape_seq(from) + "\",\"kind\":\""@ + json_escape_seq(kind)
        + "\",\"body_b64\":\""@ + json_escape_seq(body_b64) + "\"}"@
}

/// Render the message payload object.
pub fn message_payload_json(from: &str, kind: &str, body_b64: &str) -> (r: String)
    ensures
        r@ == message_payload_view(from@, kind@, body_b64@),
{
    let mut out = String::from_str("{\"from\":\"");
    out.append(json_escape(from).as_str());
    out.append("\",\"kind\":\"");
    out.append(json_escape(kind).as_str());
    out.append("\",\"body_b64\":\"");
    out.append(json_escape(body_b64).as_str());
    out.append("\"}");
    proof {
        assert(out@ =~= message_payload_view(from@, kind@, body_b64@));
    }
    out
}

} // verus!
