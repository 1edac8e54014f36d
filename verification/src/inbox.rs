//! The record format for the persisted inbox: a list of received items,
//! each with sender, kind and base64 body, stored under one key. A field is
//! framed as `<decimal char count>:<chars>`, an item is its three fields in
//! order, and the stored value is the items concatenated. The format is
//! self-delimiting for arbitrary field contents, the encoder is verified
//! against the specification encoder, the parser against the specification
//! parser, and the two are proved inverse.

use vstd::prelude::*;
use vstd::string::*;
use crate::strutil::chars_to_string;

verus! {

/// One received inbox item, as persisted and as listed.
#[derive(Clone, Debug, PartialEq, Eq)]
pub struct InboxItem {
    pub from: String,
    pub kind: String,
    pub body_b64: String,
}

/// Mathematical form of an inbox item.
#[verifier::ext_equal]
pub struct InboxItemView {
    pub from: Seq<char>,
    pub kind: Seq<char>,
    pub body_b64: Seq<char>,
}

impl View for InboxItem {
    type V = InboxItemView;

    open spec fn view(&self) -> InboxItemView {
        InboxItemView { from: self.from@, kind: self.kind@, body_b64: self.body_b64@ }
    }
}

/// The item views a vector of items denotes.
pub open spec fn views_of(items: Seq<InboxItem>) -> Seq<InboxItemView> {
    items.map_values(|it: InboxItem| it@)
}

/// Decimal digits.
pub open spec fn is_digit(c: char) -> bool {
    48 <= (c as u32) && (c as u32) <= 57
}

pub open spec fn digit_char(d: int) -> char {
    ((48 + d) as u8) as char
}

pub open spec fn digit_val(c: char) -> int {
    (c as u32) - 48
}

/// The decimal rendering of a number, most significant digit first.
pub open spec fn dec_of(n: nat) -> Seq<char>
    decreases n,
{
    if n < 10 {
        seq![digit_char(n as int)]
    } else {
        dec_of(n / 10).push(digit_char((n % 10) as int))
    }
}

/// The number a digit sequence denotes, read left to right.
pub open spec fn digits_val(s: Seq<char>) -> int
    decreases s.len(),
{
    if s.len() == 0 {
        0
    } else {
        digits_val(s.drop_last()) * 10 + digit_val(s.last())
    }
}

/// How many leading characters of `s` are digits.
pub open spec fn digit_prefix_len(s: Seq<char>) -> int
    decreases s.len(),
{
    if s.len() == 0 || !is_digit(s[0]) {
        0
    } else {
        1 + digit_prefix_len(s.drop_first())
    }
}

/// One framed field: the char count in decimal, a colon, the chars.
pub open spec fn enc_field(s: Seq<char>) -> Seq<char> {
    dec_of(s.len()) + seq![':'] + s
}

/// One framed item: its three fields in order.
pub open spec fn enc_item(it: InboxItemView) -> Seq<char> {
    enc_field(it.from) + enc_field(it.kind) + enc_field(it.body_b64)
}

/// A framed item list: the items concatenated.
pub open spec fn enc_items(items: Seq<InboxItemView>) -> Seq<char>
    decreases items.len(),
{
    if items.len() == 0 {
        Seq::empty()
    } else {
        enc_item(items[0]) + enc_items(items.drop_first())
    }
}

/// What parsing one field from the front of `s` yields: the field chars
/// and the remainder, or none when `s` does not start with a well-formed
/// frame.
pub open spec fn spec_parse_field(s: Seq<char>) -> Option<(Seq<char>, Seq<char>)> {
    let k = digit_prefix_len(s);
    if k == 0 || k >= s.len() || s[k] != ':' {
        None
    } else {
        let n = digits_val(s.take(k));
        let rest = s.skip(k + 1);
        if rest.len() >= n {
            Some((rest.take(n), rest.skip(n)))
        } else {
            None
        }
    }
}

/// What parsing one item from the front of `s` yields.
pub open spec fn spec_parse_item(s: Seq<char>) -> Option<(InboxItemView, Seq<char>)> {
    match spec_parse_field(s) {
        None => None,
        Some((from, s1)) => match spec_parse_field(s1) {
            None => None,
            Some((kind, s2)) => match spec_parse_field(s2) {
                None => None,
                Some((body_b64, s3)) => Some((InboxItemView { from, kind, body_b64 }, s3)),
            },
        },
    }
}

/// What parsing a whole stored value yields: the item list, or none when
/// the value is not a framed item list.
pub open spec fn spec_parse_items(s: Seq<char>) -> Option<Seq<InboxItemView>>
    decreases s.len(),
{
    if s.len() == 0 {
        Some(Seq::empty())
    } else {
        match spec_parse_item(s) {
            None => None,
            Some((it, rest)) => if rest.len() < s.len() {
                match spec_parse_items(rest) {
                    None => None,
                    Some(tail) => Some(seq![it] + tail),
                }
            } else {
                None
            },
        }
    }
}

proof fn lemma_dec_of_digits(n: nat)
    ensures
        dec_of(n).len() >= 1,
        forall|i: int| 0 <= i < dec_of(n).len() ==> is_digit(dec_of(n)[i]),
        digits_val(dec_of(n)) == n,
    decreases n,
{
    if n < 10 {
        assert(is_digit(digit_char(n as int)));
        assert(digit_val(digit_char(n as int)) == n);
        let d0 = dec_of(n);
        assert(d0.drop_last() =~= Seq::<char>::empty());
        assert(digits_val(Seq::<char>::empty()) == 0);
        assert(d0.last() == digit_char(n as int));
        assert(digits_val(d0) == digits_val(d0.drop_last()) * 10 + digit_val(d0.last()));
    } else {
        lemma_dec_of_digits(n / 10);
        let d = dec_of(n / 10).push(digit_char((n % 10) as int));
        assert(d.drop_last() =~= dec_of(n / 10));
        assert(is_digit(digit_char((n % 10) as int)));
        assert(digit_val(digit_char((n % 10) as int)) == n % 10);
        assert(forall|i: int| 0 <= i < d.len() - 1 ==> d[i] == dec_of(n / 10)[i]);
    }
}

proof fn lemma_digit_prefix_is(t: Seq<char>, m: int)
    requires
        0 <= m <= t.len(),
        forall|k: int| 0 <= k < m ==> is_digit(t[k]),
        m == t.len() || !is_digit(t[m]),
    ensures
        digit_prefix_len(t) == m,
    decreases m,
{
    if m == 0 {
    } else {
        assert(is_digit(t[0]));
        assert(forall|k: int| 0 <= k < m - 1 ==> t.drop_first()[k] == t[k + 1]);
        lemma_digit_prefix_is(t.drop_first(), m - 1);
    }
}

/// A digit run denotes a nonnegative number.
proof fn lemma_digits_val_nonneg(s: Seq<char>)
    requires
        forall|k: int| 0 <= k < s.len() ==> is_digit(s[k]),
    ensures
        digits_val(s) >= 0,
    decreases s.len(),
{
    if s.len() > 0 {
        assert(forall|k: int|
            0 <= k < s.drop_last().len() ==> s.drop_last()[k] == s[k] && is_digit(
                s.drop_last()[k],
            ));
        lemma_digits_val_nonneg(s.drop_last());
        assert(digit_val(s.last()) >= 0);
    }
}

/// Reading further digits never lowers the denoted number.
proof fn lemma_digits_val_extend(s: Seq<char>, a: int, m: int, b: int)
    requires
        0 <= a <= m <= b <= s.len(),
        forall|k: int| a <= k < b ==> is_digit(s[k]),
    ensures
        digits_val(s.subrange(a, b)) >= digits_val(s.subrange(a, m)),
    decreases b - m,
{
    if m < b {
        let p = s.subrange(a, m + 1);
        assert(p.drop_last() =~= s.subrange(a, m));
        assert(p.last() == s[m]);
        assert(forall|k: int| 0 <= k < s.subrange(a, m).len() ==> is_digit(s.subrange(a, m)[k]));
        lemma_digits_val_nonneg(s.subrange(a, m));
        assert(digits_val(p) == digits_val(s.subrange(a, m)) * 10 + digit_val(s[m]));
        assert(digits_val(p) >= digits_val(s.subrange(a, m)));
        lemma_digits_val_extend(s, a, m + 1, b);
    } else {
    }
}

/// Parsing inverts framing for one field, whatever follows it.
proof fn lemma_parse_field_of_enc(f: Seq<char>, rest: Seq<char>)
    ensures
        spec_parse_field(enc_field(f) + rest) == Some((f, rest)),
        (enc_field(f) + rest).len() > rest.len(),
{
    lemma_dec_of_digits(f.len());
    let d = dec_of(f.len());
    let s = enc_field(f) + rest;
    assert(s.len() == d.len() + 1 + f.len() + rest.len());
    assert(forall|k: int| 0 <= k < d.len() ==> s[k] == d[k]);
    assert(s[d.len() as int] == ':');
    assert(!is_digit(':'));
    lemma_digit_prefix_is(s, d.len() as int);
    assert(s.take(d.len() as int) =~= d);
    let rest1 = s.skip(d.len() as int + 1);
    assert(rest1 =~= f + rest);
    assert(rest1.take(f.len() as int) =~= f);
    assert(rest1.skip(f.len() as int) =~= rest);
}

/// Parsing inverts framing for one item, whatever follows it.
proof fn lemma_parse_item_of_enc(it: InboxItemView, rest: Seq<char>)
    ensures
        spec_parse_item(enc_item(it) + rest) == Some((it, rest)),
        (enc_item(it) + rest).len() > rest.len(),
{
    let s = enc_item(it) + rest;
    let s2 = enc_field(it.kind) + (enc_field(it.body_b64) + rest);
    assert(s =~= enc_field(it.from) + s2);
    lemma_parse_field_of_enc(it.from, s2);
    lemma_parse_field_of_enc(it.kind, enc_field(it.body_b64) + rest);
    lemma_parse_field_of_enc(it.body_b64, rest);
    assert(InboxItemView { from: it.from, kind: it.kind, body_b64: it.body_b64 } =~= it);
}

/// Round trip: parsing a framed item list yields exactly the items that
/// were framed, for every list.
pub proof fn lemma_inbox_round_trip(items: Seq<InboxItemView>)
    ensures
        spec_parse_items(enc_items(items)) == Some(items),
    decreases items.len(),
{
    if items.len() == 0 {
    } else {
        let tail_enc = enc_items(items.drop_first());
        lemma_parse_item_of_enc(items[0], tail_enc);
        lemma_inbox_round_trip(items.drop_first());
        assert(seq![items[0]] + items.drop_first() =~= items);
    }
}

fn digit_char_exec(d: u8) -> (r: char)
    requires
        d < 10,
    ensures
        r == digit_char(d as int),
{
    (48 + d) as char
}

fn is_digit_exec(c: char) -> (r: bool)
    ensures
        r == is_digit(c),
{
    let v = c as u32;
    48 <= v && v <= 57
}

fn dec_chars(n: usize) -> (r: Vec<char>)
    ensures
        r@ == dec_of(n as nat),
    decreases n,
{
    if n < 10 {
        let mut v: Vec<char> = Vec::new();
        v.push(digit_char_exec(n as u8));
        proof {
            assert(v@ =~= dec_of(n as nat));
        }
        v
    } else {
        let mut v = dec_chars(n / 10);
        v.push(digit_char_exec((n % 10) as u8));
        v
    }
}

fn encode_field_into(out: &mut String, field: &str)
    ensures
        final(out)@ == old(out)@ + enc_field(field@),
{
    let d = dec_chars(field.unicode_len());
    out.append(chars_to_string(&d).as_str());
    out.append(":");
    out.append(field);
    proof {
        reveal_strlit(":");
        assert(":"@ =~= seq![':']);
        assert(out@ =~= old(out)@ + enc_field(field@));
    }
}

/// Frame an item list for storage.
pub fn encode_inbox(items: &Vec<InboxItem>) -> (r: String)
    ensures
        r@ == enc_items(views_of(items@)),
{
    let mut out = String::new();
    let mut i: usize = 0;
    while i < items.len()
        invariant
            i <= items.len(),
            out@ == enc_items(views_of(items@.take(i as int))),
        decreases items.len() - i,
    {
        let ghost before = out@;
        let it = &items[i];
        encode_field_into(&mut out, it.from.as_str());
        encode_field_into(&mut out, it.kind.as_str());
        encode_field_into(&mut out, it.body_b64.as_str());
        proof {
            let prefix = views_of(items@.take(i as int));
            lemma_enc_items_push(prefix, items@[i as int]@);
            assert(out@ =~= before + enc_item(items@[i as int]@));
            assert(views_of(items@.take(i + 1 as int)) =~= prefix.push(items@[i as int]@));
        }
        i = i + 1;
    }
    proof {
        assert(items@.take(items@.len() as int) =~= items@);
    }
    out
}

proof fn lemma_enc_items_push(items: Seq<InboxItemView>, x: InboxItemView)
    ensures
        enc_items(items.push(x)) == enc_items(items) + enc_item(x),
    decreases items.len(),
{
    let p = items.push(x);
    if items.len() == 0 {
        assert(p.drop_first() =~= Seq::<InboxItemView>::empty());
        assert(enc_items(Seq::<InboxItemView>::empty()) == Seq::<char>::empty());
        assert(p[0] == x);
        assert(enc_items(p) == enc_item(x) + Seq::<char>::empty());
        assert(enc_item(x) + Seq::<char>::empty() =~= Seq::<char>::empty() + enc_item(x));
    } else {
        assert(p.drop_first() =~= items.drop_first().push(x));
        lemma_enc_items_push(items.drop_first(), x);
        assert(p[0] == items[0]);
        assert(enc_items(p) == enc_item(items[0]) + (enc_items(items.drop_first()) + enc_item(
            x,
        )));
        assert(enc_item(items[0]) + (enc_items(items.drop_first()) + enc_item(x)) =~= (enc_item(
            items[0],
        ) + enc_items(items.drop_first())) + enc_item(x));
    }
}

#[verifier::loop_isolation(false)]
fn parse_field_at(s: &str, i: usize) -> (r: Option<(String, usize)>)
    requires
        i <= s@.len(),
    ensures
        match r {
            Some(p) => i < p.1 <= s@.len() && spec_parse_field(s@.skip(i as int)) == Some(
                (p.0@, s@.skip(p.1 as int)),
            ),
            None => spec_parse_field(s@.skip(i as int)) is None,
        },
{
    let n = s.unicode_len();
    let ghost t = s@.skip(i as int);
    let mut j = i;
    while j < n && is_digit_exec(s.get_char(j))
        invariant
            i <= j <= n,
            n == s@.len(),
            forall|k: int| i <= k < j ==> is_digit(s@[k]),
        decreases n - j,
    {
        j = j + 1;
    }
    proof {
        assert(forall|k: int| 0 <= k < t.len() ==> t[k] == s@[i + k]);
        lemma_digit_prefix_is(t, j - i);
    }
    if j == i {
        return None;
    }
    if j == n {
        return None;
    }
    if !(s.get_char(j) == ':') {
        return None;
    }
    let ghost k = (j - i) as int;
    proof {
        assert(t.take(k) =~= s@.subrange(i as int, j as int));
    }
    let mut acc: usize = 0;
    let mut m = i;
    while m < j
        invariant
            i <= m <= j,
            j < n,
            n == s@.len(),
            forall|q: int| i <= q < j ==> is_digit(s@[q]),
            acc == digits_val(s@.subrange(i as int, m as int)),
        decreases j - m,
    {
        let d = s.get_char(m);
        let dv_u32 = (d as u32) - 48;
        let dv = dv_u32 as usize;
        if acc > (usize::MAX - dv) / 10 {
            proof {
                let x = (usize::MAX - dv) as int;
                assert(acc * 10 >= (x / 10 + 1) * 10);
                assert((x / 10) * 10 + 10 > x);
                assert(acc * 10 + dv > usize::MAX);
                let p = s@.subrange(i as int, m + 1 as int);
                assert(p.drop_last() =~= s@.subrange(i as int, m as int));
                assert(p.last() == s@[m as int]);
                assert(digits_val(p) == acc * 10 + dv);
                lemma_digits_val_extend(s@, i as int, m + 1, j as int);
                assert(digits_val(t.take(k)) > usize::MAX);
                assert(t.skip(k + 1).len() < n);
            }
            return None;
        }
        acc = acc * 10 + dv;
        proof {
            let p = s@.subrange(i as int, m + 1 as int);
            assert(p.drop_last() =~= s@.subrange(i as int, m as int));
            assert(p.last() == s@[m as int]);
        }
        m = m + 1;
    }
    proof {
        assert(digits_val(t.take(k)) == acc);
    }
    let remaining = n - (j + 1);
    if acc > remaining {
        proof {
            assert(t.skip(k + 1).len() == n - j - 1);
        }
        return None;
    }
    let field = String::from_str(s.substring_char(j + 1, j + 1 + acc));
    proof {
        assert(t.skip(k + 1) =~= s@.skip(j + 1 as int));
        assert(t.skip(k + 1).take(acc as int) =~= s@.subrange(j + 1 as int, j + 1 + acc as int));
        assert(t.skip(k + 1).skip(acc as int) =~= s@.skip(j + 1 + acc as int));
    }
    Some((field, j + 1 + acc))
}

fn parse_item_at(s: &str, i: usize) -> (r: Option<(InboxItem, usize)>)
    requires
        i <= s@.len(),
    ensures
        match r {
            Some(p) => i < p.1 <= s@.len() && spec_parse_item(s@.skip(i as int)) == Some(
                (p.0@, s@.skip(p.1 as int)),
            ),
            None => spec_parse_item(s@.skip(i as int)) is None,
        },
{
    let (from, i1) = match parse_field_at(s, i) {
        Some(p) => p,
        None => {
            return None;
        },
    };
    let (kind, i2) = match parse_field_at(s, i1) {
        Some(p) => p,
        None => {
            return None;
        },
    };
    let (body_b64, i3) = match parse_field_at(s, i2) {
        Some(p) => p,
        None => {
            return None;
        },
    };
    Some((InboxItem { from, kind, body_b64 }, i3))
}

/// Compose a parsed prefix with the result of parsing the remainder.
pub open spec fn compose_items(
    prefix: Seq<InboxItemView>,
    tail: Option<Seq<InboxItemView>>,
) -> Option<Seq<InboxItemView>> {
    match tail {
        None => None,
        Some(t) => Some(prefix + t),
    }
}

/// Parse a stored value back into its item list; none when the value is
/// not a framed item list.
pub fn parse_inbox(s: &str) -> (r: Option<Vec<InboxItem>>)
    ensures
        match r {
            Some(v) => spec_parse_items(s@) == Some(views_of(v@)),
            None => spec_parse_items(s@) is None,
        },
{
    let n = s.unicode_len();
    let mut items: Vec<InboxItem> = Vec::new();
    let mut i: usize = 0;
    proof {
        assert(s@.skip(0) =~= s@);
        assert(views_of(items@) =~= Seq::<InboxItemView>::empty());
        match spec_parse_items(s@) {
            Some(t) => {
                assert(views_of(items@) + t =~= t);
            },
            None => {},
        }
    }
    while i < n
        invariant
            i <= n,
            n == s@.len(),
            spec_parse_items(s@) == compose_items(
                views_of(items@),
                spec_parse_items(s@.skip(i as int)),
            ),
        decreases n - i,
    {
        match parse_item_at(s, i) {
            None => {
                return None;
            },
            Some((item, next)) => {
                proof {
                    let sub = s@.skip(i as int);
                    let rest = s@.skip(next as int);
                    assert(sub.len() > 0);
                    assert(rest.len() < sub.len());
                    let prefix = views_of(items@);
                    assert(spec_parse_items(sub) == compose_items(
                        seq![item@],
                        spec_parse_items(rest),
                    ));
                    assert(views_of(items@.push(item)) =~= prefix.push(item@));
                    match spec_parse_items(rest) {
                        Some(t) => {
                            assert(prefix + (seq![item@] + t) =~= prefix.push(item@) + t);
                        },
                        None => {},
                    }
                }
                items.push(item);
                i = next;
            },
        }
    }
    proof {
        assert(s@.skip(n as int) =~= Seq::<char>::empty());
        match spec_parse_items(s@) {
            Some(t) => {},
            None => {},
        }
        assert(views_of(items@) + Seq::<InboxItemView>::empty() =~= views_of(items@));
    }
    Some(items)
}

} // verus!
