//! The query string that hands a notification to the presentation host:
//! `application/x-www-form-urlencoded` pairs written by serde_urlencoded,
//! nested values carried as JSON text.

use vstd::prelude::*;
use vstd::string::*;
use vstd::utf8::{decode_utf8, encode_utf8, encode_utf8_decode_utf8};
use crate::json::joined;
use crate::protocol::{actions_json, actions_to_json, audio_json, timeout_of, Notification};

verus! {

#[verifier::external_type_specification]
#[verifier::external_body]
pub struct ExFormError(serde_urlencoded::ser::Error);

/// Upper-case hexadecimal digit of `d`.
pub open spec fn hex_upper(d: u8) -> char {
    if d < 10 {
        (('0' as u8) + d) as char
    } else {
        (('A' as u8) + (d - 10)) as char
    }
}

/// Characters that form encoding leaves as they are.
pub open spec fn form_unchanged(c: char) -> bool {
    ('a' <= c <= 'z') || ('A' <= c <= 'Z') || ('0' <= c <= '9') || c == '*' || c == '-' || c
        == '.' || c == '_'
}

/// Each byte as `%` and two upper-case hexadecimal digits.
pub open spec fn percent_bytes(b: Seq<u8>) -> Seq<char>
    decreases b.len(),
{
    if b.len() == 0 {
        Seq::empty()
    } else {
        percent_bytes(b.drop_last()) + seq!['%', hex_upper(b.last() / 16), hex_upper(b.last() % 16)]
    }
}

/// Form encoding of one character.
pub open spec fn form_encode_char(c: char) -> Seq<char> {
    if form_unchanged(c) {
        seq![c]
    } else if c == ' ' {
        seq!['+']
    } else {
        percent_bytes(encode_utf8(seq![c]))
    }
}

/// Form encoding of a text.
pub open spec fn form_encoded(s: Seq<char>) -> Seq<char>
    decreases s.len(),
{
    if s.len() == 0 {
        Seq::empty()
    } else {
        form_encoded(s.drop_last()) + form_encode_char(s.last())
    }
}

/// `name=value`, both form encoded.
pub open spec fn form_pair(p: (Seq<char>, Seq<char>)) -> Seq<char> {
    form_encoded(p.0) + seq!['='] + form_encoded(p.1)
}

/// The pairs as a form-encoded query, separated by `&`.
pub open spec fn form_query(pairs: Seq<(Seq<char>, Seq<char>)>) -> Seq<char> {
    joined(pairs.map_values(|p: (Seq<char>, Seq<char>)| form_pair(p)), seq!['&'])
}

/// The views of string pairs.
pub open spec fn pair_views(pairs: Seq<(String, String)>) -> Seq<(Seq<char>, Seq<char>)> {
    pairs.map_values(|p: (String, String)| (p.0@, p.1@))
}

/// Relies on serde_urlencoded::to_string on a sequence of string pairs: each
/// pair goes to form_urlencoded's `append_pair`, which writes `&` before all
/// but the first, the name and the value through `byte_serialize`, and `=`
/// between them. Neither half of a string pair can be refused.
#[verifier::external_body]
fn serde_form(pairs: &Vec<(String, String)>) -> (r: Result<String, serde_urlencoded::ser::Error>)
    ensures
        r is Ok,
        r matches Ok(t) ==> t@ == form_query(pair_views(pairs@)),
{
    serde_urlencoded::to_string(pairs)
}

/// The pairs as a form-encoded query.
pub fn encode_pairs(pairs: &Vec<(String, String)>) -> (r: String)
    ensures
        r@ == form_query(pair_views(pairs@)),
{
    match serde_form(pairs) {
        Ok(t) => t,
        Err(_) => String::new(),
    }
}

/// Decimal digit of `d`.
pub open spec fn digit(d: nat) -> char {
    (('0' as u8) + (d as u8)) as char
}

/// Decimal text of `n`.
pub open spec fn decimal(n: nat) -> Seq<char>
    decreases n,
{
    if n < 10 {
        seq![digit(n)]
    } else {
        decimal(n / 10) + seq![digit(n % 10)]
    }
}

fn digit_str(d: u64) -> (r: &'static str)
    requires
        d < 10,
    ensures
        r@ == seq![digit(d as nat)],
{
    proof {
        reveal_strlit("0");
        reveal_strlit("1");
        reveal_strlit("2");
        reveal_strlit("3");
        reveal_strlit("4");
        reveal_strlit("5");
        reveal_strlit("6");
        reveal_strlit("7");
        reveal_strlit("8");
        reveal_strlit("9");
    }
    let r = match d {
        0 => "0",
        1 => "1",
        2 => "2",
        3 => "3",
        4 => "4",
        5 => "5",
        6 => "6",
        7 => "7",
        8 => "8",
        _ => "9",
    };
    assert(r@ =~= seq![digit(d as nat)]);
    r
}

/// Decimal text of `n`.
pub fn to_decimal(n: u64) -> (r: String)
    ensures
        r@ == decimal(n as nat),
    decreases n,
{
    if n < 10 {
        String::from_str(digit_str(n))
    } else {
        let mut r = to_decimal(n / 10);
        r.append(digit_str(n % 10));
        r
    }
}

/// Text of an optional string, empty where there is none.
pub open spec fn text_or_empty(s: Option<String>) -> Seq<char> {
    match s {
        Some(t) => t@,
        None => Seq::empty(),
    }
}

/// No character of a form-encoded text is a pair separator (`&`) or a
/// name-value separator (`=`).
pub open spec fn free_of_separators(s: Seq<char>) -> bool {
    forall|i: int| 0 <= i < s.len() ==> #[trigger] s[i] != '&' && s[i] != '='
}

proof fn lemma_percent_bytes_free(b: Seq<u8>)
    ensures
        free_of_separators(percent_bytes(b)),
    decreases b.len(),
{
    if b.len() > 0 {
        lemma_percent_bytes_free(b.drop_last());
        let tail = seq!['%', hex_upper(b.last() / 16), hex_upper(b.last() % 16)];
        assert(free_of_separators(tail));
        assert(percent_bytes(b) == percent_bytes(b.drop_last()) + tail);
    }
}

/// A form-encoded text holds neither `&` nor `=`: the query splits back
/// into its pairs, and each pair into its name and value, unambiguously.
pub proof fn lemma_form_encoded_free_of_separators(s: Seq<char>)
    ensures
        free_of_separators(form_encoded(s)),
    decreases s.len(),
{
    if s.len() > 0 {
        lemma_form_encoded_free_of_separators(s.drop_last());
        let c = s.last();
        if !form_unchanged(c) && c != ' ' {
            lemma_percent_bytes_free(encode_utf8(seq![c]));
        }
        assert(free_of_separators(form_encode_char(c)));
        assert(form_encoded(s) == form_encoded(s.drop_last()) + form_encode_char(c));
    }
}

/// Value of an upper-case hexadecimal digit.
pub open spec fn hex_value(c: char) -> int {
    if '0' <= c <= '9' {
        c as int - '0' as int
    } else {
        c as int - 'A' as int + 10
    }
}

/// The bytes a form-encoded text stands for, read from its end: `%` and two
/// hexadecimal digits give one byte, `+` a space, any other character its
/// UTF-8 bytes.
pub open spec fn form_decoded_bytes(e: Seq<char>) -> Seq<u8>
    decreases e.len(),
{
    if e.len() == 0 {
        Seq::empty()
    } else if e.len() >= 3 && e[e.len() - 3] == '%' {
        form_decoded_bytes(e.take(e.len() - 3)).push(
            (hex_value(e[e.len() - 2]) * 16 + hex_value(e[e.len() - 1])) as u8,
        )
    } else if e.last() == '+' {
        form_decoded_bytes(e.drop_last()).push(0x20)
    } else {
        form_decoded_bytes(e.drop_last()) + encode_utf8(seq![e.last()])
    }
}

/// The text a form-encoded text stands for.
pub open spec fn form_decoded(e: Seq<char>) -> Seq<char> {
    decode_utf8(form_decoded_bytes(e))
}

/// Neither of the last two characters opens a `%` escape.
pub open spec fn ends_clean(e: Seq<char>) -> bool {
    &&& e.len() >= 1 ==> e[e.len() - 1] != '%'
    &&& e.len() >= 2 ==> e[e.len() - 2] != '%'
}

proof fn lemma_encode_utf8_append(a: Seq<char>, b: Seq<char>)
    ensures
        encode_utf8(a + b) == encode_utf8(a) + encode_utf8(b),
    decreases a.len(),
{
    if a.len() > 0 {
        assert((a + b).drop_first() =~= a.drop_first() + b);
        lemma_encode_utf8_append(a.drop_first(), b);
        assert(encode_utf8(a + b) =~= encode_utf8(a) + encode_utf8(b));
    } else {
        assert(a + b =~= b);
    }
}

proof fn lemma_hex_round_trip(x: u8)
    ensures
        (hex_value(hex_upper(x / 16)) * 16 + hex_value(hex_upper(x % 16))) as u8 == x,
{
}

proof fn lemma_percent_bytes_decoded(e: Seq<char>, b: Seq<u8>)
    requires
        ends_clean(e),
    ensures
        form_decoded_bytes(e + percent_bytes(b)) == form_decoded_bytes(e) + b,
        ends_clean(e + percent_bytes(b)),
    decreases b.len(),
{
    if b.len() == 0 {
        assert(e + percent_bytes(b) =~= e);
        assert(form_decoded_bytes(e) + b =~= form_decoded_bytes(e));
    } else {
        let x = b.last();
        let front = e + percent_bytes(b.drop_last());
        lemma_percent_bytes_decoded(e, b.drop_last());
        let whole = e + percent_bytes(b);
        assert(whole =~= front + seq!['%', hex_upper(x / 16), hex_upper(x % 16)]);
        assert(whole.take(whole.len() - 3) =~= front);
        lemma_hex_round_trip(x);
        assert(form_decoded_bytes(whole) =~= form_decoded_bytes(front).push(x));
        assert(form_decoded_bytes(e) + b =~= (form_decoded_bytes(e) + b.drop_last()).push(x));
    }
}

/// Decoding a form-encoded text gives the text back.
pub proof fn lemma_form_round_trip(s: Seq<char>)
    ensures
        form_decoded(form_encoded(s)) == s,
{
    lemma_form_bytes_round_trip(s);
    encode_utf8_decode_utf8(s);
}

proof fn lemma_form_bytes_round_trip(s: Seq<char>)
    ensures
        form_decoded_bytes(form_encoded(s)) == encode_utf8(s),
        ends_clean(form_encoded(s)),
    decreases s.len(),
{
    if s.len() == 0 {
    } else {
        let p = s.drop_last();
        let c = s.last();
        let e = form_encoded(p);
        lemma_form_bytes_round_trip(p);
        lemma_encode_utf8_append(p, seq![c]);
        assert(s =~= p + seq![c]);
        if form_unchanged(c) || c == ' ' {
            let whole = e + form_encode_char(c);
            assert(whole.drop_last() =~= e);
            if whole.len() >= 3 {
                assert(whole[whole.len() - 3] == e[e.len() - 2]);
            }
            if c == ' ' {
                assert((0x20u32 & 0x7F) as u8 == 0x20u8) by (bit_vector);
                assert(seq![c].drop_first() =~= Seq::<char>::empty());
                assert(c as u32 == 0x20u32);
                assert(vstd::utf8::encode_scalar(0x20u32) =~= seq![0x20u8]);
                assert(encode_utf8(seq![c]) == vstd::utf8::encode_scalar(c as u32) + encode_utf8(Seq::<char>::empty()));
                assert(encode_utf8(seq![c]) =~= seq![0x20u8]);
                assert(form_decoded_bytes(whole) =~= form_decoded_bytes(e) + encode_utf8(seq![c]));
            }
        } else {
            lemma_percent_bytes_decoded(e, encode_utf8(seq![c]));
        }
    }
}

/// The pairs handed to the host for a notification, keys in sorted order.
pub open spec fn host_pairs(n: Notification) -> Seq<(Seq<char>, Seq<char>)> {
    seq![
        ("actions"@, match n.actions { Some(a) => actions_json(a@), None => Seq::empty() }),
        ("audio"@, match n.audio { Some(a) => audio_json(a), None => Seq::empty() }),
        ("icon"@, text_or_empty(n.icon)),
        ("image"@, text_or_empty(n.image)),
        ("message"@, text_or_empty(n.message)),
        ("timeout"@, decimal(timeout_of(n) as nat)),
        ("title"@, n.title@),
    ]
}

/// The query of a notification carries its actions and its audio each as
/// one value, the JSON text of the whole structure, form encoded so that
/// it holds no separator of the query and decodes back to that text.
pub proof fn lemma_nested_values_carried_whole(n: Notification)
    ensures
        host_pairs(n)[0] == ("actions"@, match n.actions { Some(a) => actions_json(a@), None => Seq::<char>::empty() }),
        host_pairs(n)[1] == ("audio"@, match n.audio { Some(a) => audio_json(a), None => Seq::<char>::empty() }),
        free_of_separators(form_encoded(host_pairs(n)[0].1)),
        free_of_separators(form_encoded(host_pairs(n)[1].1)),
        form_decoded(form_encoded(host_pairs(n)[0].1)) == host_pairs(n)[0].1,
        form_decoded(form_encoded(host_pairs(n)[1].1)) == host_pairs(n)[1].1,
{
    lemma_form_round_trip(host_pairs(n)[0].1);
    lemma_form_round_trip(host_pairs(n)[1].1);
    lemma_form_encoded_free_of_separators(host_pairs(n)[0].1);
    lemma_form_encoded_free_of_separators(host_pairs(n)[1].1);
}

/// The query string handed to the host for a notification.
pub open spec fn host_query(n: Notification) -> Seq<char> {
    seq!['&'] + form_query(host_pairs(n))
}

fn text_or_empty_of(s: &Option<String>) -> (r: String)
    ensures
        r@ == text_or_empty(*s),
{
    match s {
        Some(t) => t.clone(),
        None => String::new(),
    }
}

impl Notification {
    /// Seconds this notification stays up: its timeout, or the default.
    pub fn timeout_secs(&self) -> (r: u64)
        ensures
            r == timeout_of(*self),
            self.timeout is None ==> r == 5,
    {
        match self.timeout {
            Some(t) => t,
            None => crate::protocol::DEFAULT_TIMEOUT_SECS,
        }
    }

    /// The query string that hands this notification to the host.
    pub fn to_host_query(&self) -> (r: String)
        ensures
            r@ == host_query(*self),
    {
        let actions = match &self.actions {
            Some(a) => actions_to_json(a),
            None => String::new(),
        };
        let audio = match &self.audio {
            Some(a) => a.to_json(),
            None => String::new(),
        };
        let pairs = vec![
            (String::from_str("actions"), actions),
            (String::from_str("audio"), audio),
            (String::from_str("icon"), text_or_empty_of(&self.icon)),
            (String::from_str("image"), text_or_empty_of(&self.image)),
            (String::from_str("message"), text_or_empty_of(&self.message)),
            (String::from_str("timeout"), to_decimal(self.timeout_secs())),
            (String::from_str("title"), self.title.clone()),
        ];
        assert(pair_views(pairs@) =~= host_pairs(*self));
        let mut r = String::from_str("&");
        let body = encode_pairs(&pairs);
        r.append(body.as_str());
        proof {
            reveal_strlit("&");
        }
        assert(r@ =~= host_query(*self));
        r
    }
}

} // verus!
