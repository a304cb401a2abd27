//! The query encoder: typed parameter values become an ordered sequence
//! of string key/value pairs, and pairs become an
//! `application/x-www-form-urlencoded` query string.
//!
//! Scalar encodings: integers as decimal strings, strings verbatim,
//! timestamps as RFC 3339 strings, and lists of these comma-joined.
//! Percent-encoding happens only when pairs are serialized into a URL,
//! never when a parameter struct is turned into pairs.

use vstd::prelude::*;

use crate::strutil::{
    append_dec_u64,
    digit_char,
    i64_to_string,
    join_comma,
    push_char,
    spec_dec_int,
    spec_dec_nat,
    spec_join_comma,
    str_chars,
};

verus! {

// ---------------------------------------------------------------------
// Views of encoded pairs
// ---------------------------------------------------------------------
/// The character-level view of a vector of string pairs.
pub open spec fn pairs_view(v: Seq<(String, String)>) -> Seq<(Seq<char>, Seq<char>)> {
    v.map_values(|p: (String, String)| (p.0@, p.1@))
}

/// Zero or one encoded pairs: nothing for an absent field, one
/// `(name, value)` pair for a present one.
pub open spec fn opt_entry(name: Seq<char>, v: Option<Seq<char>>) -> Seq<(Seq<char>, Seq<char>)> {
    match v {
        Option::None => Seq::empty(),
        Option::Some(s) => seq![(name, s)],
    }
}

/// The encoded value of an optional integer field.
pub open spec fn opt_i64(o: Option<i64>) -> Option<Seq<char>> {
    match o {
        Option::None => Option::None,
        Option::Some(i) => Option::Some(spec_dec_int(i as int)),
    }
}

/// The encoded value of an optional string field.
pub open spec fn opt_string(o: Option<String>) -> Option<Seq<char>> {
    match o {
        Option::None => Option::None,
        Option::Some(s) => Option::Some(s@),
    }
}

/// The encoded value of an optional integer-list field.
pub open spec fn opt_i64_list(o: Option<Vec<i64>>) -> Option<Seq<char>> {
    match o {
        Option::None => Option::None,
        Option::Some(v) => Option::Some(
            spec_join_comma(v@.map_values(|i: i64| spec_dec_int(i as int))),
        ),
    }
}

/// The encoded value of an optional string-list field.
pub open spec fn opt_string_list(o: Option<Vec<String>>) -> Option<Seq<char>> {
    match o {
        Option::None => Option::None,
        Option::Some(v) => Option::Some(spec_join_comma(v@.map_values(|s: String| s@))),
    }
}

/// The encoded value of an optional timestamp field.
pub open spec fn opt_time(o: Option<Timestamp>) -> Option<Seq<char>> {
    match o {
        Option::None => Option::None,
        Option::Some(t) => Option::Some(t.spec_rfc3339()),
    }
}

// ---------------------------------------------------------------------
// The parameter-struct interface
// ---------------------------------------------------------------------
/// A typed parameter struct that can be turned into ordered query
/// pairs. Present fields are emitted in struct-declaration order;
/// absent fields are omitted.
pub trait ShopifyRequestQuery {
    /// The pairs this value encodes to.
    spec fn spec_query_pairs(&self) -> Seq<(Seq<char>, Seq<char>)>;

    /// Produce the pairs.
    fn as_query_pairs(&self) -> (r: Vec<(String, String)>)
        ensures
            pairs_view(r@) == self.spec_query_pairs(),
    ;
}

impl ShopifyRequestQuery for () {
    open spec fn spec_query_pairs(&self) -> Seq<(Seq<char>, Seq<char>)> {
        Seq::empty()
    }

    fn as_query_pairs(&self) -> (r: Vec<(String, String)>)
        ensures
            pairs_view(r@) == self.spec_query_pairs(),
    {
        let r: Vec<(String, String)> = Vec::new();
        proof {
            assert(pairs_view(r@) =~= Seq::<(Seq<char>, Seq<char>)>::empty());
        }
        r
    }
}

impl<T: ShopifyRequestQuery> ShopifyRequestQuery for Option<T> {
    open spec fn spec_query_pairs(&self) -> Seq<(Seq<char>, Seq<char>)> {
        match self {
            Option::Some(v) => v.spec_query_pairs(),
            Option::None => Seq::empty(),
        }
    }

    fn as_query_pairs(&self) -> (r: Vec<(String, String)>)
        ensures
            pairs_view(r@) == self.spec_query_pairs(),
    {
        match self {
            Option::Some(v) => v.as_query_pairs(),
            Option::None => {
                let r: Vec<(String, String)> = Vec::new();
                proof {
                    assert(pairs_view(r@) =~= Seq::<(Seq<char>, Seq<char>)>::empty());
                }
                r
            },
        }
    }
}

// ---------------------------------------------------------------------
// Exec helpers for building pair vectors field by field
// ---------------------------------------------------------------------
/// Append the pair for an optional integer field.
pub fn push_pair_i64(pairs: &mut Vec<(String, String)>, name: &str, v: &Option<i64>)
    ensures
        pairs_view(final(pairs)@) == pairs_view(old(pairs)@) + opt_entry(name@, opt_i64(*v)),
{
    match v {
        Option::Some(i) => {
            let value = i64_to_string(*i);
            pairs.push((name.to_owned(), value));
            proof {
                assert(pairs_view(pairs@) =~= pairs_view(old(pairs)@) + opt_entry(
                    name@,
                    opt_i64(*v),
                ));
            }
        },
        Option::None => {
            proof {
                assert(pairs_view(pairs@) =~= pairs_view(old(pairs)@) + opt_entry(
                    name@,
                    opt_i64(*v),
                ));
            }
        },
    }
}

/// Append the pair for an optional string field.
pub fn push_pair_string(pairs: &mut Vec<(String, String)>, name: &str, v: &Option<String>)
    ensures
        pairs_view(final(pairs)@) == pairs_view(old(pairs)@) + opt_entry(name@, opt_string(*v)),
{
    match v {
        Option::Some(s) => {
            pairs.push((name.to_owned(), s.clone()));
            proof {
                assert(pairs_view(pairs@) =~= pairs_view(old(pairs)@) + opt_entry(
                    name@,
                    opt_string(*v),
                ));
            }
        },
        Option::None => {
            proof {
                assert(pairs_view(pairs@) =~= pairs_view(old(pairs)@) + opt_entry(
                    name@,
                    opt_string(*v),
                ));
            }
        },
    }
}

/// The comma-joined decimal encoding of an integer list.
pub fn encode_i64_list(v: &Vec<i64>) -> (r: String)
    ensures
        r@ == spec_join_comma(v@.map_values(|i: i64| spec_dec_int(i as int))),
{
    let mut parts: Vec<String> = Vec::new();
    let mut i: usize = 0;
    while i < v.len()
        invariant
            i <= v.len(),
            parts@.len() == i,
            forall|j: int| 0 <= j < i ==> parts@[j]@ == spec_dec_int(v@[j] as int),
        decreases v.len() - i,
    {
        parts.push(i64_to_string(v[i]));
        i = i + 1;
    }
    proof {
        assert(parts@.map_values(|s: String| s@) =~= v@.map_values(
            |x: i64| spec_dec_int(x as int),
        ));
    }
    join_comma(&parts)
}

/// Append the pair for an optional integer-list field.
pub fn push_pair_i64_list(pairs: &mut Vec<(String, String)>, name: &str, v: &Option<Vec<i64>>)
    ensures
        pairs_view(final(pairs)@) == pairs_view(old(pairs)@) + opt_entry(name@, opt_i64_list(*v)),
{
    match v {
        Option::Some(list) => {
            let value = encode_i64_list(list);
            pairs.push((name.to_owned(), value));
            proof {
                assert(pairs_view(pairs@) =~= pairs_view(old(pairs)@) + opt_entry(
                    name@,
                    opt_i64_list(*v),
                ));
            }
        },
        Option::None => {
            proof {
                assert(pairs_view(pairs@) =~= pairs_view(old(pairs)@) + opt_entry(
                    name@,
                    opt_i64_list(*v),
                ));
            }
        },
    }
}

/// Append the pair for an optional string-list field.
pub fn push_pair_string_list(pairs: &mut Vec<(String, String)>, name: &str, v: &Option<Vec<String>>)
    ensures
        pairs_view(final(pairs)@) == pairs_view(old(pairs)@) + opt_entry(
            name@,
            opt_string_list(*v),
        ),
{
    match v {
        Option::Some(list) => {
            let value = join_comma(list);
            pairs.push((name.to_owned(), value));
            proof {
                assert(pairs_view(pairs@) =~= pairs_view(old(pairs)@) + opt_entry(
                    name@,
                    opt_string_list(*v),
                ));
            }
        },
        Option::None => {
            proof {
                assert(pairs_view(pairs@) =~= pairs_view(old(pairs)@) + opt_entry(
                    name@,
                    opt_string_list(*v),
                ));
            }
        },
    }
}

/// Append the pair for an optional timestamp field.
pub fn push_pair_time(pairs: &mut Vec<(String, String)>, name: &str, v: &Option<Timestamp>)
    ensures
        pairs_view(final(pairs)@) == pairs_view(old(pairs)@) + opt_entry(name@, opt_time(*v)),
{
    match v {
        Option::Some(t) => {
            let value = t.to_rfc3339();
            pairs.push((name.to_owned(), value));
            proof {
                assert(pairs_view(pairs@) =~= pairs_view(old(pairs)@) + opt_entry(
                    name@,
                    opt_time(*v),
                ));
            }
        },
        Option::None => {
            proof {
                assert(pairs_view(pairs@) =~= pairs_view(old(pairs)@) + opt_entry(
                    name@,
                    opt_time(*v),
                ));
            }
        },
    }
}

/// Composite encoding: append the pairs of a second query object after
/// the ones already collected, keeping each sub-part's own order.
pub fn concat_pairs(pairs: &mut Vec<(String, String)>, more: Vec<(String, String)>)
    ensures
        pairs_view(final(pairs)@) == pairs_view(old(pairs)@) + pairs_view(more@),
{
    let mut rest = more;
    pairs.append(&mut rest);
    proof {
        assert(pairs_view(pairs@) =~= pairs_view(old(pairs)@) + pairs_view(more@));
    }
}

// ---------------------------------------------------------------------
// Timestamps
// ---------------------------------------------------------------------
/// A UTC timestamp with one-second resolution, held as plain calendar
/// fields. The library never computes with time; it only formats
/// timestamps into query parameters, so the calendar fields are all it
/// needs. The intended ranges are those of [`Timestamp::wf`].
#[derive(Clone, Copy, Debug)]
pub struct Timestamp {
    pub year: u32,
    pub month: u32,
    pub day: u32,
    pub hour: u32,
    pub minute: u32,
    pub second: u32,
}

/// A number padded with leading zeros to at least two digits.
pub open spec fn spec_pad2(n: nat) -> Seq<char> {
    if n < 10 {
        seq!['0'] + spec_dec_nat(n)
    } else {
        spec_dec_nat(n)
    }
}

/// A number padded with leading zeros to at least four digits.
pub open spec fn spec_pad4(n: nat) -> Seq<char> {
    if n < 10 {
        seq!['0', '0', '0'] + spec_dec_nat(n)
    } else if n < 100 {
        seq!['0', '0'] + spec_dec_nat(n)
    } else if n < 1000 {
        seq!['0'] + spec_dec_nat(n)
    } else {
        spec_dec_nat(n)
    }
}

impl Timestamp {
    /// Field ranges of a meaningful calendar time.
    pub open spec fn wf(&self) -> bool {
        &&& self.year <= 9999
        &&& 1 <= self.month <= 12
        &&& 1 <= self.day <= 31
        &&& self.hour <= 23
        &&& self.minute <= 59
        &&& self.second <= 59
    }

    /// The RFC 3339 rendering of this timestamp, with the UTC offset
    /// written as `+00:00`.
    pub open spec fn spec_rfc3339(&self) -> Seq<char> {
        spec_pad4(self.year as nat) + seq!['-'] + spec_pad2(self.month as nat) + seq!['-']
            + spec_pad2(self.day as nat) + seq!['T'] + spec_pad2(self.hour as nat) + seq![':']
            + spec_pad2(self.minute as nat) + seq![':'] + spec_pad2(self.second as nat)
            + "+00:00"@
    }

    /// Format this timestamp per RFC 3339, e.g.
    /// `2021-05-06T18:11:00+00:00`.
    pub fn to_rfc3339(&self) -> (r: String)
        ensures
            r@ == self.spec_rfc3339(),
    {
        let mut s = String::new();
        append_pad4(&mut s, self.year);
        push_char(&mut s, '-');
        append_pad2(&mut s, self.month);
        push_char(&mut s, '-');
        append_pad2(&mut s, self.day);
        push_char(&mut s, 'T');
        append_pad2(&mut s, self.hour);
        push_char(&mut s, ':');
        append_pad2(&mut s, self.minute);
        push_char(&mut s, ':');
        append_pad2(&mut s, self.second);
        s.append("+00:00");
        proof {
            assert(s@ =~= self.spec_rfc3339());
        }
        s
    }
}

/// Append a number padded to at least two digits.
fn append_pad2(s: &mut String, n: u32)
    ensures
        final(s)@ == old(s)@ + spec_pad2(n as nat),
{
    if n < 10 {
        push_char(s, '0');
    }
    append_dec_u64(s, n as u64);
    proof {
        assert(old(s)@ + spec_pad2(n as nat) =~= s@);
    }
}

/// Append a number padded to at least four digits.
fn append_pad4(s: &mut String, n: u32)
    ensures
        final(s)@ == old(s)@ + spec_pad4(n as nat),
{
    if n < 10 {
        s.append("000");
    } else if n < 100 {
        s.append("00");
    } else if n < 1000 {
        push_char(s, '0');
    }
    append_dec_u64(s, n as u64);
    proof {
        reveal_strlit("000");
        reveal_strlit("00");
        assert(seq!['0', '0', '0'] =~= "000"@);
        assert(seq!['0', '0'] =~= "00"@);
        assert(old(s)@ + spec_pad4(n as nat) =~= s@);
    }
}

// ---------------------------------------------------------------------
// www-form-urlencoded serialization of pairs into a query string
// ---------------------------------------------------------------------
/// Characters the form-urlencoded byte serializer leaves unchanged:
/// ASCII alphanumerics and `*`, `-`, `.`, `_`.
pub open spec fn form_unchanged(c: char) -> bool {
    ||| ('a' <= c && c <= 'z')
    ||| ('A' <= c && c <= 'Z')
    ||| ('0' <= c && c <= '9')
    ||| c == '*'
    ||| c == '-'
    ||| c == '.'
    ||| c == '_'
}

/// The UTF-8 bytes of one character, by the standard 1-to-4-byte
/// encoding.
pub open spec fn char_utf8(c: char) -> Seq<u8> {
    let cp = c as nat;
    if cp < 0x80 {
        seq![cp as u8]
    } else if cp < 0x800 {
        seq![(0xC0 + cp / 64) as u8, (0x80 + cp % 64) as u8]
    } else if cp < 0x10000 {
        seq![(0xE0 + cp / 4096) as u8, (0x80 + (cp / 64) % 64) as u8, (0x80 + cp % 64) as u8]
    } else {
        seq![
            (0xF0 + cp / 262144) as u8,
            (0x80 + (cp / 4096) % 64) as u8,
            (0x80 + (cp / 64) % 64) as u8,
            (0x80 + cp % 64) as u8,
        ]
    }
}

/// The uppercase hexadecimal digit for a value below sixteen.
pub open spec fn hex_upper(n: nat) -> char
    recommends
        n < 16,
{
    if n < 10 {
        dec_digit_hex(n)
    } else {
        (('A' as nat + (n - 10)) as u8) as char
    }
}

/// Helper for `hex_upper`: digits reuse the decimal digit characters.
pub open spec fn dec_digit_hex(n: nat) -> char {
    ((48 + n) as u8) as char
}

/// The percent-escapes of a byte sequence.
pub open spec fn spec_pct_bytes(bs: Seq<u8>) -> Seq<char>
    decreases bs.len(),
{
    if bs.len() == 0 {
        Seq::empty()
    } else {
        seq!['%', hex_upper(bs[0] as nat / 16), hex_upper(bs[0] as nat % 16)] + spec_pct_bytes(
            bs.skip(1),
        )
    }
}

/// One character under form-urlencoded serialization: kept, turned into
/// `'+'` for a space, or percent-escaped byte by byte.
pub open spec fn spec_form_encode_char(c: char) -> Seq<char> {
    if form_unchanged(c) {
        seq![c]
    } else if c == ' ' {
        seq!['+']
    } else {
        spec_pct_bytes(char_utf8(c))
    }
}

/// A string under form-urlencoded serialization.
pub open spec fn spec_form_encode(s: Seq<char>) -> Seq<char>
    decreases s.len(),
{
    if s.len() == 0 {
        Seq::empty()
    } else {
        spec_form_encode_char(s[0]) + spec_form_encode(s.skip(1))
    }
}

/// One `name=value` pair, both sides form-urlencoded.
pub open spec fn spec_pair_encoded(p: (Seq<char>, Seq<char>)) -> Seq<char> {
    spec_form_encode(p.0) + seq!['='] + spec_form_encode(p.1)
}

/// The continuation of a pair serialization: every pair is preceded by
/// `'&'`.
pub open spec fn spec_serialize_rest(ps: Seq<(Seq<char>, Seq<char>)>) -> Seq<char>
    decreases ps.len(),
{
    if ps.len() == 0 {
        Seq::empty()
    } else {
        seq!['&'] + spec_pair_encoded(ps[0]) + spec_serialize_rest(ps.skip(1))
    }
}

/// Pairs serialized as `k1=v1&k2=v2&...`, each side form-urlencoded.
pub open spec fn spec_serialize_pairs(ps: Seq<(Seq<char>, Seq<char>)>) -> Seq<char> {
    if ps.len() == 0 {
        Seq::empty()
    } else {
        spec_pair_encoded(ps[0]) + spec_serialize_rest(ps.skip(1))
    }
}

/// The exec counterpart of `hex_upper`.
fn hex_upper_char(n: u8) -> (c: char)
    requires
        n < 16,
    ensures
        c == hex_upper(n as nat),
{
    if n < 10 {
        digit_char(n)
    } else {
        (65 + (n - 10)) as char
    }
}

/// Append the percent-escape of one byte.
fn append_pct_byte(s: &mut String, b: u8)
    ensures
        final(s)@ == old(s)@ + seq!['%', hex_upper(b as nat / 16), hex_upper(b as nat % 16)],
{
    push_char(s, '%');
    push_char(s, hex_upper_char(b / 16));
    push_char(s, hex_upper_char(b % 16));
    proof {
        assert(old(s)@ + seq!['%', hex_upper(b as nat / 16), hex_upper(b as nat % 16)] =~= s@);
    }
}

/// Append the form-urlencoded serialization of one character.
fn append_form_char(s: &mut String, c: char)
    ensures
        final(s)@ == old(s)@ + spec_form_encode_char(c),
{
    let unchanged = (c >= 'a' && c <= 'z') || (c >= 'A' && c <= 'Z') || (c >= '0' && c <= '9') || c
        == '*' || c == '-' || c == '.' || c == '_';
    if unchanged {
        push_char(s, c);
        proof {
            assert(old(s)@ + spec_form_encode_char(c) =~= s@);
        }
    } else if c == ' ' {
        push_char(s, '+');
        proof {
            assert(old(s)@ + spec_form_encode_char(c) =~= s@);
        }
    } else {
        let cp = c as u32;
        proof {
            assert(cp as nat == c as nat);
        }
        if cp < 0x80 {
            append_pct_byte(s, cp as u8);
            proof {
                let bs = char_utf8(c);
                assert(bs =~= seq![(c as nat) as u8]);
                assert(cp as u8 == bs[0]);
                assert(bs.skip(1) =~= Seq::<u8>::empty());
                assert(spec_pct_bytes(bs.skip(1)) =~= Seq::<char>::empty());
                assert(old(s)@ + spec_form_encode_char(c) =~= s@);
            }
        } else if cp < 0x800 {
            let b0 = (0xC0 + cp / 64) as u8;
            let b1 = (0x80 + cp % 64) as u8;
            append_pct_byte(s, b0);
            append_pct_byte(s, b1);
            proof {
                reveal_with_fuel(spec_pct_bytes, 6);
                let bs = char_utf8(c);
                assert(b0 == bs[0]);
                assert(bs.skip(1)[0] == bs[1]);
                assert(b1 == bs[1]);
                assert(bs.skip(1).skip(1) =~= Seq::<u8>::empty());
                assert(spec_pct_bytes(bs.skip(1).skip(1)) =~= Seq::<char>::empty());
                assert(old(s)@ + spec_form_encode_char(c) =~= s@);
            }
        } else if cp < 0x10000 {
            let b0 = (0xE0 + cp / 4096) as u8;
            let b1 = (0x80 + (cp / 64) % 64) as u8;
            let b2 = (0x80 + cp % 64) as u8;
            append_pct_byte(s, b0);
            append_pct_byte(s, b1);
            append_pct_byte(s, b2);
            proof {
                reveal_with_fuel(spec_pct_bytes, 6);
                let bs = char_utf8(c);
                assert(b0 == bs[0]);
                assert(bs.skip(1)[0] == bs[1]);
                assert(b1 == bs[1]);
                assert(bs.skip(1).skip(1)[0] == bs[2]);
                assert(b2 == bs[2]);
                assert(bs.skip(1).skip(1).skip(1) =~= Seq::<u8>::empty());
                assert(spec_pct_bytes(bs.skip(1).skip(1).skip(1)) =~= Seq::<char>::empty());
                assert(old(s)@ + spec_form_encode_char(c) =~= s@);
            }
        } else {
            let b0 = (0xF0 + cp / 262144) as u8;
            let b1 = (0x80 + (cp / 4096) % 64) as u8;
            let b2 = (0x80 + (cp / 64) % 64) as u8;
            let b3 = (0x80 + cp % 64) as u8;
            append_pct_byte(s, b0);
            append_pct_byte(s, b1);
            append_pct_byte(s, b2);
            append_pct_byte(s, b3);
            proof {
                reveal_with_fuel(spec_pct_bytes, 6);
                let bs = char_utf8(c);
                assert(b0 == bs[0]);
                assert(bs.skip(1)[0] == bs[1]);
                assert(b1 == bs[1]);
                assert(bs.skip(1).skip(1)[0] == bs[2]);
                assert(b2 == bs[2]);
                assert(bs.skip(1).skip(1).skip(1)[0] == bs[3]);
                assert(b3 == bs[3]);
                assert(bs.skip(1).skip(1).skip(1).skip(1) =~= Seq::<u8>::empty());
                assert(spec_pct_bytes(bs.skip(1).skip(1).skip(1).skip(1)) =~= Seq::<
                    char,
                >::empty());
                assert(old(s)@ + spec_form_encode_char(c) =~= s@);
            }
        }
    }
}

/// Append the form-urlencoded serialization of a string.
pub fn append_form_encoded(s: &mut String, t: &str)
    ensures
        final(s)@ == old(s)@ + spec_form_encode(t@),
{
    let chars = str_chars(t);
    proof {
        assert(t@.skip(0) =~= t@);
    }
    let mut i: usize = 0;
    while i < chars.len()
        invariant
            i <= chars.len(),
            chars@ == t@,
            old(s)@ + spec_form_encode(t@) == s@ + spec_form_encode(t@.skip(i as int)),
        decreases chars.len() - i,
    {
        proof {
            let rest = t@.skip(i as int);
            assert(rest[0] == t@[i as int]);
            assert(rest.skip(1) =~= t@.skip(i + 1 as int));
        }
        append_form_char(s, chars[i]);
        i = i + 1;
    }
    proof {
        assert(spec_form_encode(t@.skip(t@.len() as int)) =~= Seq::<char>::empty());
        assert(old(s)@ + spec_form_encode(t@) =~= s@);
    }
}

/// Append `k=v` with both sides form-urlencoded.
fn append_pair(s: &mut String, p: &(String, String))
    ensures
        final(s)@ == old(s)@ + spec_pair_encoded((p.0@, p.1@)),
{
    append_form_encoded(s, p.0.as_str());
    push_char(s, '=');
    append_form_encoded(s, p.1.as_str());
    proof {
        assert(old(s)@ + spec_pair_encoded((p.0@, p.1@)) =~= s@);
    }
}

/// Serialize pairs as a query string, `k1=v1&k2=v2&...`.
pub fn serialize_pairs(pairs: &Vec<(String, String)>) -> (r: String)
    ensures
        r@ == spec_serialize_pairs(pairs_view(pairs@)),
{
    let ghost views = pairs_view(pairs@);
    let mut s = String::new();
    let mut i: usize = 0;
    while i < pairs.len()
        invariant
            i <= pairs.len(),
            views == pairs_view(pairs@),
            views.len() == pairs@.len(),
            i == 0 ==> s@ =~= Seq::<char>::empty(),
            i > 0 ==> spec_serialize_pairs(views) == s@ + spec_serialize_rest(
                views.skip(i as int),
            ),
        decreases pairs.len() - i,
    {
        proof {
            assert(views[i as int] == (pairs@[i as int].0@, pairs@[i as int].1@));
        }
        if i > 0 {
            proof {
                let rest = views.skip(i as int);
                assert(rest[0] == views[i as int]);
                assert(rest.skip(1) =~= views.skip(i + 1 as int));
            }
            push_char(&mut s, '&');
            append_pair(&mut s, &pairs[i]);
            proof {
                assert(spec_serialize_pairs(views) =~= s@ + spec_serialize_rest(
                    views.skip(i + 1 as int),
                ));
            }
        } else {
            append_pair(&mut s, &pairs[i]);
            proof {
                assert(s@ =~= spec_pair_encoded(views[0]));
                assert(views.skip(1) =~= views.skip(0 + 1 as int));
                assert(s@ + spec_serialize_rest(views.skip(1)) =~= spec_pair_encoded(views[0])
                    + spec_serialize_rest(views.skip(1)));
            }
        }
        i = i + 1;
    }
    proof {
        if pairs.len() == 0 {
            assert(spec_serialize_pairs(views) =~= Seq::<char>::empty());
        } else {
            assert(views.skip(views.len() as int) =~= Seq::<(Seq<char>, Seq<char>)>::empty());
            assert(s@ + spec_serialize_rest(Seq::<(Seq<char>, Seq<char>)>::empty()) =~= s@);
        }
    }
    s
}

} // verus!
