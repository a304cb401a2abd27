//! The cursor pagination engine.
//!
//! A list response may carry a `link` header with RFC 5988-style
//! entries `<url>; rel="name"`. The engine parses that header, keeps
//! the `prev` and `next` relations, and extracts the opaque `page_info`
//! cursor from each URL's query string. A relation URL without a
//! `page_info` parameter is a protocol violation
//! (`PageInfoNotPresent`), not the absence of a page; a header that
//! does not parse at all yields no adjacent pages, as does a missing
//! header.
//!
//! The grammar is deliberately simple, mirroring how the header is
//! parsed upstream: all `<`, `>`, `"` and whitespace characters are
//! removed, entries are split on `,`, an entry's parts on `;`; the
//! first part is the URL and every later part must be a `k=v`
//! parameter, the last `rel` parameter of an entry naming its
//! relation. A later entry for the same relation wins.

use vstd::prelude::*;

use crate::client::{check_url, is_wellformed_url, RawResponse};
use crate::encode::{
    opt_entry,
    opt_i64,
    opt_string_list,
    pairs_view,
    push_pair_i64,
    push_pair_string_list,
    ShopifyRequestQuery,
};
use crate::result::{ShopifyError, ShopifyResult};
use crate::strutil::{chars_to_string, find_from, find_idx, push_char, str_chars, subvec};

verus! {

// ---------------------------------------------------------------------
// The link-header grammar
// ---------------------------------------------------------------------
/// ASCII whitespace, as removed from a link header before parsing.
pub open spec fn link_whitespace(c: char) -> bool {
    c == ' ' || c == '\t' || c == '\n' || c == '\r' || c == '\u{b}' || c == '\u{c}'
}

/// The characters removed from a link header before parsing: angle
/// brackets, double quotes and whitespace.
pub open spec fn link_stripped_char(c: char) -> bool {
    c == '<' || c == '>' || c == '"' || link_whitespace(c)
}

/// A link header with the stripped characters removed.
pub open spec fn strip_link(s: Seq<char>) -> Seq<char>
    decreases s.len(),
{
    if s.len() == 0 {
        s
    } else if link_stripped_char(s[0]) {
        strip_link(s.skip(1))
    } else {
        seq![s[0]] + strip_link(s.skip(1))
    }
}

/// A parameter split at its first `=`, or nothing for a parameter
/// without one (which makes the whole header malformed).
pub open spec fn split_once_eq(p: Seq<char>) -> Option<(Seq<char>, Seq<char>)> {
    let i = find_idx(p, '=', 0);
    if i == p.len() {
        Option::None
    } else {
        Option::Some((p.take(i), p.skip(i + 1)))
    }
}

/// The `rel` value of an entry's parameter region (the `;`-separated
/// parts after the URL), starting from `acc`; the last `rel` parameter
/// wins. `None` when some parameter has no `=`.
pub open spec fn params_rel(s: Seq<char>, acc: Option<Seq<char>>) -> Option<Option<Seq<char>>>
    decreases s.len(),
    via params_rel_decreases
{
    let i = find_idx(s, ';', 0);
    let p = s.take(i);
    match split_once_eq(p) {
        Option::None => Option::None,
        Option::Some(kv) => {
            let acc2 = if kv.0 == "rel"@ {
                Option::Some(kv.1)
            } else {
                acc
            };
            if i == s.len() {
                Option::Some(acc2)
            } else {
                params_rel(s.skip(i + 1), acc2)
            }
        },
    }
}

#[via_fn]
proof fn params_rel_decreases(s: Seq<char>, acc: Option<Seq<char>>) {
    crate::strutil::lemma_find_idx_bounds(s, ';', 0);
}

/// One stripped entry parsed into its relation (if any) and its raw
/// URL; `None` when a parameter is malformed.
pub open spec fn parse_entry(e: Seq<char>) -> Option<(Option<Seq<char>>, Seq<char>)> {
    let i = find_idx(e, ';', 0);
    let uri = e.take(i);
    if i == e.len() {
        Option::Some((Option::None, uri))
    } else {
        match params_rel(e.skip(i + 1), Option::None) {
            Option::None => Option::None,
            Option::Some(rel) => Option::Some((rel, uri)),
        }
    }
}

/// A stripped header parsed into its comma-separated entries; `None`
/// when any entry is malformed.
pub open spec fn parse_entries(s: Seq<char>) -> Option<Seq<(Option<Seq<char>>, Seq<char>)>>
    decreases s.len(),
    via parse_entries_decreases
{
    let i = find_idx(s, ',', 0);
    let head = s.take(i);
    match parse_entry(head) {
        Option::None => Option::None,
        Option::Some(p) => {
            if i == s.len() {
                Option::Some(seq![p])
            } else {
                match parse_entries(s.skip(i + 1)) {
                    Option::None => Option::None,
                    Option::Some(rest) => Option::Some(seq![p] + rest),
                }
            }
        },
    }
}

#[via_fn]
proof fn parse_entries_decreases(s: Seq<char>) {
    crate::strutil::lemma_find_idx_bounds(s, ',', 0);
}

/// The URL of the last entry carrying the given relation.
pub open spec fn rels_of(entries: Seq<(Option<Seq<char>>, Seq<char>)>, rel: Seq<char>) -> Option<
    Seq<char>,
>
    decreases entries.len(),
{
    if entries.len() == 0 {
        Option::None
    } else if entries.last().0 == Option::Some(rel) {
        Option::Some(entries.last().1)
    } else {
        rels_of(entries.drop_last(), rel)
    }
}

/// The `prev` and `next` URLs of a link header, or `None` when the
/// header does not parse.
pub open spec fn spec_link_cursors(header: Seq<char>) -> Option<
    (Option<Seq<char>>, Option<Seq<char>>),
> {
    match parse_entries(strip_link(header)) {
        Option::None => Option::None,
        Option::Some(es) => Option::Some((rels_of(es, "prev"@), rels_of(es, "next"@))),
    }
}

// ---------------------------------------------------------------------
// Cursor extraction from a relation URL
// ---------------------------------------------------------------------
/// A hexadecimal digit.
pub open spec fn is_hex_digit(c: char) -> bool {
    ('0' <= c && c <= '9') || ('a' <= c && c <= 'f') || ('A' <= c && c <= 'F')
}

/// The value of a hexadecimal digit.
pub open spec fn hex_val(c: char) -> nat
    recommends
        is_hex_digit(c),
{
    if '0' <= c && c <= '9' {
        (c as nat - '0' as nat) as nat
    } else if 'a' <= c && c <= 'f' {
        (c as nat - 'a' as nat + 10) as nat
    } else {
        (c as nat - 'A' as nat + 10) as nat
    }
}

/// The escaped byte at position `i`, when `s` holds a `%XY` escape
/// with two hexadecimal digits there.
pub open spec fn pct_byte_at(s: Seq<char>, i: int) -> Option<u8> {
    if 0 <= i && i + 3 <= s.len() && s[i] == '%' && is_hex_digit(s[i + 1]) && is_hex_digit(
        s[i + 2],
    ) {
        Option::Some(((hex_val(s[i + 1]) * 16 + hex_val(s[i + 2])) as u8))
    } else {
        Option::None
    }
}

/// A UTF-8 continuation byte.
pub open spec fn is_cont_byte(b: u8) -> bool {
    0x80 <= b <= 0xBF
}

/// Whether `b1` may follow the leading byte `b0`: a continuation byte,
/// further restricted for the leads whose full continuation range
/// would reach overlong encodings, surrogates or values beyond the
/// Unicode range.
pub open spec fn valid_second_byte(b0: u8, b1: u8) -> bool {
    &&& is_cont_byte(b1)
    &&& (b0 == 0xE0 ==> b1 >= 0xA0)
    &&& (b0 == 0xED ==> b1 <= 0x9F)
    &&& (b0 == 0xF0 ==> b1 >= 0x90)
    &&& (b0 == 0xF4 ==> b1 <= 0x8F)
}

/// The code point of a two-byte UTF-8 sequence.
pub open spec fn utf8_cp2(b0: u8, b1: u8) -> nat
    recommends
        0xC2 <= b0 <= 0xDF,
        is_cont_byte(b1),
{
    ((b0 - 0xC0) as nat) * 64 + ((b1 - 0x80) as nat)
}

/// The code point of a three-byte UTF-8 sequence.
pub open spec fn utf8_cp3(b0: u8, b1: u8, b2: u8) -> nat
    recommends
        0xE0 <= b0 <= 0xEF,
        valid_second_byte(b0, b1),
        is_cont_byte(b2),
{
    ((b0 - 0xE0) as nat) * 4096 + ((b1 - 0x80) as nat) * 64 + ((b2 - 0x80) as nat)
}

/// The code point of a four-byte UTF-8 sequence.
pub open spec fn utf8_cp4(b0: u8, b1: u8, b2: u8, b3: u8) -> nat
    recommends
        0xF0 <= b0 <= 0xF4,
        valid_second_byte(b0, b1),
        is_cont_byte(b2),
        is_cont_byte(b3),
{
    ((b0 - 0xF0) as nat) * 262144 + ((b1 - 0x80) as nat) * 4096 + ((b2 - 0x80) as nat) * 64 + ((
    b3 - 0x80) as nat)
}

/// A character's scalar value.
pub open spec fn char_value(c: char) -> u32 {
    c as u32
}

/// The character with the given code point: the unique `char` whose
/// scalar value is `cp`, for any `cp` that is a Unicode scalar value.
pub open spec fn char_of(cp: nat) -> char {
    choose|c: char| char_value(c) == cp
}

/// Two characters with one scalar value are one character.
proof fn lemma_char_value_injective(a: char, b: char)
    requires
        char_value(a) == char_value(b),
    ensures
        a == b,
{
}

/// Form-urlencoded decoding of a query component: `+` becomes a space,
/// a `%XY` escape with an ASCII value becomes that character, and a
/// run of escapes that spells a valid multi-byte UTF-8 sequence
/// becomes the character it encodes. A percent escape that is
/// incomplete, not hexadecimal, or the start of a malformed sequence
/// is kept verbatim.
pub open spec fn spec_form_decode(s: Seq<char>) -> Seq<char>
    decreases s.len(),
{
    if s.len() == 0 {
        s
    } else if s[0] == '+' {
        seq![' '] + spec_form_decode(s.skip(1))
    } else if s[0] == '%' && pct_byte_at(s, 0) is Some {
        let b0 = pct_byte_at(s, 0)->0;
        if b0 < 0x80 {
            seq![b0 as char] + spec_form_decode(s.skip(3))
        } else if 0xC2 <= b0 && b0 <= 0xDF {
            let ob1 = pct_byte_at(s, 3);
            if ob1 is Some && is_cont_byte(ob1->0) {
                seq![char_of(utf8_cp2(b0, ob1->0))] + spec_form_decode(s.skip(6))
            } else {
                seq![s[0]] + spec_form_decode(s.skip(1))
            }
        } else if 0xE0 <= b0 && b0 <= 0xEF {
            let ob1 = pct_byte_at(s, 3);
            let ob2 = pct_byte_at(s, 6);
            if ob1 is Some && valid_second_byte(b0, ob1->0) && ob2 is Some && is_cont_byte(
                ob2->0,
            ) {
                seq![char_of(utf8_cp3(b0, ob1->0, ob2->0))] + spec_form_decode(s.skip(9))
            } else {
                seq![s[0]] + spec_form_decode(s.skip(1))
            }
        } else if 0xF0 <= b0 && b0 <= 0xF4 {
            let ob1 = pct_byte_at(s, 3);
            let ob2 = pct_byte_at(s, 6);
            let ob3 = pct_byte_at(s, 9);
            if ob1 is Some && valid_second_byte(b0, ob1->0) && ob2 is Some && is_cont_byte(ob2->0)
                && ob3 is Some && is_cont_byte(ob3->0) {
                seq![char_of(utf8_cp4(b0, ob1->0, ob2->0, ob3->0))] + spec_form_decode(s.skip(12))
            } else {
                seq![s[0]] + spec_form_decode(s.skip(1))
            }
        } else {
            seq![s[0]] + spec_form_decode(s.skip(1))
        }
    } else {
        seq![s[0]] + spec_form_decode(s.skip(1))
    }
}

/// An escape looked up in the tail of a sequence is the escape at the
/// shifted position.
proof fn lemma_pct_shift(s: Seq<char>, i: int, k: int)
    requires
        0 <= i <= s.len(),
        0 <= k,
    ensures
        pct_byte_at(s.skip(i), k) == pct_byte_at(s, i + k),
{
    if 0 <= i + k && i + k + 3 <= s.len() {
        assert(s.skip(i)[k] == s[i + k]);
        assert(s.skip(i)[k + 1] == s[i + k + 1]);
        assert(s.skip(i)[k + 2] == s[i + k + 2]);
    }
}

/// The decoded value of the first `page_info` parameter in a query
/// string: pieces are split on `&`, empty pieces are skipped, a piece
/// splits at its first `=` (no `=` means an empty value), and both key
/// and value are form-decoded.
pub open spec fn find_page_info(q: Seq<char>) -> Option<Seq<char>>
    decreases q.len(),
    via find_page_info_decreases
{
    let i = find_idx(q, '&', 0);
    let piece = q.take(i);
    let found: Option<Seq<char>> = if piece.len() > 0 {
        let j = find_idx(piece, '=', 0);
        let k = piece.take(j);
        let v = if j == piece.len() {
            Seq::<char>::empty()
        } else {
            piece.skip(j + 1)
        };
        if spec_form_decode(k) == "page_info"@ {
            Option::Some(spec_form_decode(v))
        } else {
            Option::None
        }
    } else {
        Option::None
    };
    if found is Some {
        found
    } else if i == q.len() {
        Option::None
    } else {
        find_page_info(q.skip(i + 1))
    }
}

#[via_fn]
proof fn find_page_info_decreases(q: Seq<char>) {
    crate::strutil::lemma_find_idx_bounds(q, '&', 0);
}

/// The `page_info` cursor of a URL: the first such parameter of the
/// query region (between the first `?` and a following `#`), decoded.
pub open spec fn spec_page_info(u: Seq<char>) -> Option<Seq<char>> {
    let qs = find_idx(u, '?', 0);
    if qs == u.len() {
        Option::None
    } else {
        let rest = u.skip(qs + 1);
        let q = rest.take(find_idx(rest, '#', 0));
        find_page_info(q)
    }
}

// ---------------------------------------------------------------------
// Exec views
// ---------------------------------------------------------------------
/// The view of an optional string.
pub open spec fn opt_str_view(o: Option<String>) -> Option<Seq<char>> {
    match o {
        Option::None => Option::None,
        Option::Some(s) => Option::Some(s@),
    }
}

/// The view of a parsed entry.
pub open spec fn entry_view(e: (Option<String>, String)) -> (Option<Seq<char>>, Seq<char>) {
    (opt_str_view(e.0), e.1@)
}

/// The view of a parsed entry list.
pub open spec fn entries_view(v: Seq<(Option<String>, String)>) -> Seq<
    (Option<Seq<char>>, Seq<char>),
> {
    v.map_values(|e: (Option<String>, String)| entry_view(e))
}

// ---------------------------------------------------------------------
// Exec parsing
// ---------------------------------------------------------------------
/// Remove the stripped characters from a header.
fn strip_chars(v: &Vec<char>) -> (r: Vec<char>)
    ensures
        r@ == strip_link(v@),
{
    let mut r: Vec<char> = Vec::new();
    let mut i: usize = 0;
    proof {
        assert(v@.skip(0) =~= v@);
    }
    while i < v.len()
        invariant
            i <= v@.len(),
            strip_link(v@) == r@ + strip_link(v@.skip(i as int)),
        decreases v.len() - i,
    {
        let c = v[i];
        proof {
            let rest = v@.skip(i as int);
            assert(rest[0] == v@[i as int]);
            assert(rest.skip(1) =~= v@.skip(i as int + 1));
        }
        let keep = !(c == '<' || c == '>' || c == '"' || c == ' ' || c == '\t' || c == '\n' || c
            == '\r' || c == '\u{b}' || c == '\u{c}');
        if keep {
            r.push(c);
            proof {
                assert(r@ + strip_link(v@.skip(i as int + 1)) =~= (r@.drop_last() + (seq![c]
                    + strip_link(v@.skip(i as int + 1)))));
            }
        }
        i = i + 1;
    }
    proof {
        assert(strip_link(v@.skip(v@.len() as int)) =~= Seq::<char>::empty());
        assert(r@ + Seq::<char>::empty() =~= r@);
    }
    r
}

/// The `rel` value of a parameter region, or `None` when a parameter
/// is malformed.
fn params_rel_exec(s: Vec<char>, acc: Option<String>) -> (r: Option<Option<String>>)
    ensures
        match r {
            Option::None => params_rel(s@, opt_str_view(acc)) is None,
            Option::Some(a2) => params_rel(s@, opt_str_view(acc)) == Option::Some(
                opt_str_view(a2),
            ),
        },
    decreases s@.len(),
{
    let i = find_from(&s, ';', 0);
    let p = subvec(&s, 0, i);
    proof {
        assert(p@ =~= s@.take(i as int));
    }
    let j = find_from(&p, '=', 0);
    if j == p.len() {
        return Option::None;
    }
    let k = subvec(&p, 0, j);
    let v = subvec(&p, j + 1, p.len());
    proof {
        assert(k@ =~= p@.take(j as int));
        assert(v@ =~= p@.skip(j as int + 1));
    }
    let ks = chars_to_string(&k);
    let rel_lit: String = String::from_str("rel");
    let acc2: Option<String> = if ks.eq(&rel_lit) {
        Option::Some(chars_to_string(&v))
    } else {
        acc
    };
    if i == s.len() {
        Option::Some(acc2)
    } else {
        let rest = subvec(&s, i + 1, s.len());
        proof {
            assert(rest@ =~= s@.skip(i as int + 1));
        }
        params_rel_exec(rest, acc2)
    }
}

/// One entry parsed into its relation and URL.
fn parse_entry_exec(e: Vec<char>) -> (r: Option<(Option<String>, String)>)
    ensures
        match r {
            Option::None => parse_entry(e@) is None,
            Option::Some(p) => parse_entry(e@) == Option::Some(entry_view(p)),
        },
{
    let i = find_from(&e, ';', 0);
    let uri_chars = subvec(&e, 0, i);
    proof {
        assert(uri_chars@ =~= e@.take(i as int));
    }
    let uri = chars_to_string(&uri_chars);
    if i == e.len() {
        Option::Some((Option::None, uri))
    } else {
        let rest = subvec(&e, i + 1, e.len());
        proof {
            assert(rest@ =~= e@.skip(i as int + 1));
        }
        match params_rel_exec(rest, Option::None) {
            Option::None => Option::None,
            Option::Some(rel) => Option::Some((rel, uri)),
        }
    }
}

/// A stripped header parsed into entries.
fn parse_entries_exec(s: Vec<char>) -> (r: Option<Vec<(Option<String>, String)>>)
    ensures
        match r {
            Option::None => parse_entries(s@) is None,
            Option::Some(v) => parse_entries(s@) == Option::Some(entries_view(v@)),
        },
    decreases s@.len(),
{
    let i = find_from(&s, ',', 0);
    let head = subvec(&s, 0, i);
    proof {
        assert(head@ =~= s@.take(i as int));
    }
    match parse_entry_exec(head) {
        Option::None => Option::None,
        Option::Some(p) => {
            if i == s.len() {
                let mut out: Vec<(Option<String>, String)> = Vec::new();
                out.push(p);
                proof {
                    assert(entries_view(out@) =~= seq![entry_view(p)]);
                }
                Option::Some(out)
            } else {
                let rest = subvec(&s, i + 1, s.len());
                proof {
                    assert(rest@ =~= s@.skip(i as int + 1));
                }
                match parse_entries_exec(rest) {
                    Option::None => Option::None,
                    Option::Some(mut v) => {
                        let ghost old_v = v@;
                        v.insert(0, p);
                        proof {
                            assert(entries_view(v@) =~= seq![entry_view(p)] + entries_view(old_v));
                        }
                        Option::Some(v)
                    },
                }
            }
        },
    }
}

/// The URL of the last entry with the given relation.
fn rel_lookup(entries: &Vec<(Option<String>, String)>, rel: &String) -> (r: Option<String>)
    ensures
        opt_str_view(r) == rels_of(entries_view(entries@), rel@),
{
    let ghost views = entries_view(entries@);
    let mut i: usize = entries.len();
    proof {
        assert(views.take(entries@.len() as int) =~= views);
    }
    while i > 0
        invariant
            i <= entries@.len(),
            views == entries_view(entries@),
            views.len() == entries@.len(),
            rels_of(views, rel@) == rels_of(views.take(i as int), rel@),
        decreases i,
    {
        proof {
            let part = views.take(i as int);
            assert(part.last() == views[i as int - 1]);
            assert(part.drop_last() =~= views.take(i as int - 1));
        }
        let matches_rel = match &entries[i - 1].0 {
            Option::Some(s) => s.eq(rel),
            Option::None => false,
        };
        if matches_rel {
            return Option::Some(entries[i - 1].1.clone());
        }
        i = i - 1;
    }
    proof {
        assert(views.take(0) =~= Seq::<(Option<Seq<char>>, Seq<char>)>::empty());
    }
    Option::None
}

/// Relies on std's `char::from_u32`: the scalar value with the given
/// code point; `None` exactly for surrogate code points and values
/// beyond the Unicode range.
#[verifier::external_body]
fn char_from_u32(cp: u32) -> (r: Option<char>)
    ensures
        r is Some <==> (cp < 0xD800 || (0xE000 <= cp && cp <= 0x10FFFF)),
        (r matches Some(c) ==> c as u32 == cp),
{
    char::from_u32(cp)
}

/// The exec counterpart of `is_hex_digit`.
fn hex_digit(c: char) -> (r: bool)
    ensures
        r == is_hex_digit(c),
{
    ('0' <= c && c <= '9') || ('a' <= c && c <= 'f') || ('A' <= c && c <= 'F')
}

/// The exec counterpart of `hex_val`.
fn hex_digit_val(c: char) -> (r: u8)
    requires
        is_hex_digit(c),
    ensures
        r == hex_val(c),
        r < 16,
{
    if '0' <= c && c <= '9' {
        (c as u8) - 48
    } else if 'a' <= c && c <= 'f' {
        (c as u8) - 97 + 10
    } else {
        (c as u8) - 65 + 10
    }
}

/// The exec counterpart of `valid_second_byte`.
fn second_byte_ok(b0: u8, b1: u8) -> (r: bool)
    ensures
        r == valid_second_byte(b0, b1),
{
    0x80 <= b1 && b1 <= 0xBF && (b0 != 0xE0 || b1 >= 0xA0) && (b0 != 0xED || b1 <= 0x9F) && (b0
        != 0xF0 || b1 >= 0x90) && (b0 != 0xF4 || b1 <= 0x8F)
}

/// The exec counterpart of `is_cont_byte`.
fn cont_ok(b: u8) -> (r: bool)
    ensures
        r == is_cont_byte(b),
{
    0x80 <= b && b <= 0xBF
}

/// The escaped byte at position `i`, when one starts there.
fn parse_pct(v: &Vec<char>, i: usize) -> (r: Option<u8>)
    ensures
        r == pct_byte_at(v@, i as int),
{
    if i < v.len() && v.len() - i >= 3 {
        let c0 = v[i];
        let h1 = v[i + 1];
        let h2 = v[i + 2];
        if c0 == '%' && hex_digit(h1) && hex_digit(h2) {
            Option::Some(hex_digit_val(h1) * 16 + hex_digit_val(h2))
        } else {
            Option::None
        }
    } else {
        Option::None
    }
}

/// The escaped byte starting `off` positions after `i`.
fn parse_pct_from(v: &Vec<char>, i: usize, off: usize) -> (r: Option<u8>)
    requires
        i <= v@.len(),
    ensures
        r == pct_byte_at(v@, i as int + off as int),
{
    if v.len() - i >= off {
        parse_pct(v, i + off)
    } else {
        proof {
            assert(pct_byte_at(v@, i as int + off as int) is None);
        }
        Option::None
    }
}

/// Form-decode a query component.
#[verifier::rlimit(100)]
fn form_decode(v: &Vec<char>) -> (r: String)
    ensures
        r@ == spec_form_decode(v@),
{
    let mut out = String::new();
    let mut i: usize = 0;
    proof {
        assert(v@.skip(0) =~= v@);
    }
    while i < v.len()
        invariant
            i <= v@.len(),
            spec_form_decode(v@) == out@ + spec_form_decode(v@.skip(i as int)),
        decreases v.len() - i,
    {
        let c = v[i];
        proof {
            let rest = v@.skip(i as int);
            assert(rest[0] == v@[i as int]);
            assert(rest.skip(1) =~= v@.skip(i as int + 1));
            lemma_pct_shift(v@, i as int, 0);
            lemma_pct_shift(v@, i as int, 3);
            lemma_pct_shift(v@, i as int, 6);
            lemma_pct_shift(v@, i as int, 9);
        }
        if c == '+' {
            push_char(&mut out, ' ');
            i = i + 1;
        } else if c == '%' {
            match parse_pct(v, i) {
                Option::None => {
                    push_char(&mut out, c);
                    i = i + 1;
                },
                Option::Some(b0) => {
                    if b0 < 0x80 {
                        proof {
                            assert(v@.skip(i as int).skip(3) =~= v@.skip(i as int + 3));
                        }
                        push_char(&mut out, b0 as char);
                        i = i + 3;
                    } else if 0xC2 <= b0 && b0 <= 0xDF {
                        let ob1 = parse_pct_from(v, i, 3);
                        let good = match ob1 {
                            Option::Some(b1) => cont_ok(b1),
                            Option::None => false,
                        };
                        if good {
                            let b1 = ob1.unwrap();
                            let cp: u32 = (b0 as u32 - 0xC0) * 64 + (b1 as u32 - 0x80);
                            proof {
                                assert(cp as nat == utf8_cp2(b0, b1));
                            }
                            match char_from_u32(cp) {
                                Option::Some(ch) => {
                                    proof {
                                        assert(char_value(ch) == utf8_cp2(b0, b1));
                                        assert(exists|cc: char|
                                            char_value(cc) == utf8_cp2(b0, b1));
                                        assert(char_value(char_of(utf8_cp2(b0, b1)))
                                            == utf8_cp2(b0, b1));
                                        lemma_char_value_injective(ch, char_of(utf8_cp2(b0, b1)));
                                        assert(ch == char_of(utf8_cp2(b0, b1)));
                                        assert(v@.skip(i as int).skip(6) =~= v@.skip(
                                            i as int + 6,
                                        ));
                                    }
                                    push_char(&mut out, ch);
                                    i = i + 6;
                                },
                                Option::None => {
                                    proof {
                                        assert(false);
                                    }
                                },
                            }
                        } else {
                            push_char(&mut out, c);
                            i = i + 1;
                        }
                    } else if 0xE0 <= b0 && b0 <= 0xEF {
                        let ob1 = parse_pct_from(v, i, 3);
                        let ob2 = parse_pct_from(v, i, 6);
                        let good1 = match ob1 {
                            Option::Some(b1) => second_byte_ok(b0, b1),
                            Option::None => false,
                        };
                        let good2 = match ob2 {
                            Option::Some(b2) => cont_ok(b2),
                            Option::None => false,
                        };
                        if good1 && good2 {
                            let b1 = ob1.unwrap();
                            let b2 = ob2.unwrap();
                            let cp: u32 = (b0 as u32 - 0xE0) * 4096 + (b1 as u32 - 0x80) * 64 + (
                            b2 as u32 - 0x80);
                            proof {
                                assert(cp as nat == utf8_cp3(b0, b1, b2));
                                assert(cp < 0xD800 || (0xE000 <= cp && cp <= 0x10FFFF));
                            }
                            match char_from_u32(cp) {
                                Option::Some(ch) => {
                                    proof {
                                        assert(char_value(ch) == utf8_cp3(b0, b1, b2));
                                        assert(exists|cc: char|
                                            char_value(cc) == utf8_cp3(b0, b1, b2));
                                        assert(char_value(char_of(utf8_cp3(b0, b1, b2)))
                                            == utf8_cp3(b0, b1, b2));
                                        lemma_char_value_injective(ch, char_of(utf8_cp3(b0, b1, b2)));
                                        assert(ch == char_of(utf8_cp3(b0, b1, b2)));
                                        assert(v@.skip(i as int).skip(9) =~= v@.skip(
                                            i as int + 9,
                                        ));
                                    }
                                    push_char(&mut out, ch);
                                    i = i + 9;
                                },
                                Option::None => {
                                    proof {
                                        assert(false);
                                    }
                                },
                            }
                        } else {
                            push_char(&mut out, c);
                            i = i + 1;
                        }
                    } else if 0xF0 <= b0 && b0 <= 0xF4 {
                        let ob1 = parse_pct_from(v, i, 3);
                        let ob2 = parse_pct_from(v, i, 6);
                        let ob3 = parse_pct_from(v, i, 9);
                        let good1 = match ob1 {
                            Option::Some(b1) => second_byte_ok(b0, b1),
                            Option::None => false,
                        };
                        let good2 = match ob2 {
                            Option::Some(b2) => cont_ok(b2),
                            Option::None => false,
                        };
                        let good3 = match ob3 {
                            Option::Some(b3) => cont_ok(b3),
                            Option::None => false,
                        };
                        if good1 && good2 && good3 {
                            let b1 = ob1.unwrap();
                            let b2 = ob2.unwrap();
                            let b3 = ob3.unwrap();
                            let cp: u32 = (b0 as u32 - 0xF0) * 262144 + (b1 as u32 - 0x80) * 4096
                                + (b2 as u32 - 0x80) * 64 + (b3 as u32 - 0x80);
                            proof {
                                assert(cp as nat == utf8_cp4(b0, b1, b2, b3));
                                assert(cp < 0xD800 || (0xE000 <= cp && cp <= 0x10FFFF));
                            }
                            match char_from_u32(cp) {
                                Option::Some(ch) => {
                                    proof {
                                        assert(char_value(ch) == utf8_cp4(b0, b1, b2, b3));
                                        assert(exists|cc: char|
                                            char_value(cc) == utf8_cp4(b0, b1, b2, b3));
                                        assert(char_value(char_of(utf8_cp4(b0, b1, b2, b3)))
                                            == utf8_cp4(b0, b1, b2, b3));
                                        lemma_char_value_injective(ch, char_of(utf8_cp4(b0, b1, b2, b3)));
                                        assert(ch == char_of(utf8_cp4(b0, b1, b2, b3)));
                                        assert(v@.skip(i as int).skip(12) =~= v@.skip(
                                            i as int + 12,
                                        ));
                                    }
                                    push_char(&mut out, ch);
                                    i = i + 12;
                                },
                                Option::None => {
                                    proof {
                                        assert(false);
                                    }
                                },
                            }
                        } else {
                            push_char(&mut out, c);
                            i = i + 1;
                        }
                    } else {
                        push_char(&mut out, c);
                        i = i + 1;
                    }
                },
            }
        } else {
            push_char(&mut out, c);
            i = i + 1;
        }
    }
    proof {
        assert(spec_form_decode(v@.skip(v@.len() as int)) =~= Seq::<char>::empty());
        assert(out@ + Seq::<char>::empty() =~= out@);
    }
    out
}

/// The decoded first `page_info` parameter of a query string.
fn find_page_info_exec(q: Vec<char>) -> (r: Option<String>)
    ensures
        opt_str_view(r) == find_page_info(q@),
    decreases q@.len(),
{
    let i = find_from(&q, '&', 0);
    let piece = subvec(&q, 0, i);
    proof {
        assert(piece@ =~= q@.take(i as int));
    }
    if piece.len() > 0 {
        let j = find_from(&piece, '=', 0);
        let k = subvec(&piece, 0, j);
        proof {
            assert(k@ =~= piece@.take(j as int));
        }
        let v: Vec<char> = if j == piece.len() {
            Vec::new()
        } else {
            subvec(&piece, j + 1, piece.len())
        };
        proof {
            if j < piece@.len() {
                assert(v@ =~= piece@.skip(j as int + 1));
            } else {
                assert(v@ =~= Seq::<char>::empty());
            }
        }
        let key = form_decode(&k);
        let key_lit: String = String::from_str("page_info");
        if key.eq(&key_lit) {
            return Option::Some(form_decode(&v));
        }
    }
    if i == q.len() {
        Option::None
    } else {
        let rest = subvec(&q, i + 1, q.len());
        proof {
            assert(rest@ =~= q@.skip(i as int + 1));
        }
        find_page_info_exec(rest)
    }
}

/// Extract the `page_info` cursor from one relation URL. A URL the url
/// crate rejects is a `UrlParse` error; a URL without the parameter is
/// the protocol violation `PageInfoNotPresent`.
pub fn parse_page_info(url: &str) -> (r: ShopifyResult<String>)
    ensures
        match r {
            Ok(s) => is_wellformed_url(url@) && spec_page_info(url@) == Option::Some(s@),
            Err(e) => (e is UrlParse && !is_wellformed_url(url@)) || (e is PageInfoNotPresent
                && is_wellformed_url(url@) && spec_page_info(url@) is None),
        },
{
    if !check_url(url) {
        return Err(ShopifyError::UrlParse);
    }
    let chars = str_chars(url);
    let qs = find_from(&chars, '?', 0);
    if qs == chars.len() {
        return Err(ShopifyError::PageInfoNotPresent);
    }
    let rest = subvec(&chars, qs + 1, chars.len());
    proof {
        assert(rest@ =~= url@.skip(qs as int + 1));
    }
    let h = find_from(&rest, '#', 0);
    let q = subvec(&rest, 0, h);
    proof {
        assert(q@ =~= rest@.take(h as int));
    }
    match find_page_info_exec(q) {
        Option::Some(s) => Ok(s),
        Option::None => Err(ShopifyError::PageInfoNotPresent),
    }
}

/// The `prev` and `next` URLs carried by a link header, or `None` when
/// the header does not parse.
pub fn link_cursor_urls(header: &str) -> (r: Option<(Option<String>, Option<String>)>)
    ensures
        match r {
            Option::None => spec_link_cursors(header@) is None,
            Option::Some(pn) => spec_link_cursors(header@) == Option::Some(
                (opt_str_view(pn.0), opt_str_view(pn.1)),
            ),
        },
{
    let chars = str_chars(header);
    let stripped = strip_chars(&chars);
    match parse_entries_exec(stripped) {
        Option::None => Option::None,
        Option::Some(es) => {
            let prev_lit: String = String::from_str("prev");
            let next_lit: String = String::from_str("next");
            let prev = rel_lookup(&es, &prev_lit);
            let next = rel_lookup(&es, &next_lit);
            Option::Some((prev, next))
        },
    }
}


// ---------------------------------------------------------------------
// Page parameters and paginated payloads
// ---------------------------------------------------------------------
/// The parameters of a cursor-based page fetch: the opaque cursor, an
/// optional row limit and an optional field projection. Once pagination
/// begins, the cursor alone carries all filtering state.
#[derive(Debug, Clone)]
pub struct GetPage {
    pub page_info: String,
    pub limit: Option<i64>,
    pub fields: Option<Vec<String>>,
}

impl Default for GetPage {
    /// Page parameters with an empty cursor and no limit or projection.
    fn default() -> (r: GetPage)
        ensures
            r.page_info@ == Seq::<char>::empty(),
            r.limit is None,
            r.fields is None,
    {
        GetPage { page_info: String::new(), limit: Option::None, fields: Option::None }
    }
}

impl GetPage {
    /// The same page parameters with a row limit set.
    pub fn limit(self, limit: i64) -> (r: GetPage)
        ensures
            r.page_info == self.page_info,
            r.limit == Option::Some(limit),
            r.fields == self.fields,
    {
        GetPage { page_info: self.page_info, limit: Option::Some(limit), fields: self.fields }
    }
}

impl ShopifyRequestQuery for GetPage {
    open spec fn spec_query_pairs(&self) -> Seq<(Seq<char>, Seq<char>)> {
        seq![("page_info"@, self.page_info@)] + opt_entry("limit"@, opt_i64(self.limit)) + opt_entry(
            "fields"@,
            opt_string_list(self.fields),
        )
    }

    fn as_query_pairs(&self) -> (r: Vec<(String, String)>)
        ensures
            pairs_view(r@) == self.spec_query_pairs(),
    {
        let mut pairs: Vec<(String, String)> = Vec::new();
        pairs.push(("page_info".to_owned(), self.page_info.clone()));
        push_pair_i64(&mut pairs, "limit", &self.limit);
        push_pair_string_list(&mut pairs, "fields", &self.fields);
        proof {
            assert(pairs_view(pairs@) =~= self.spec_query_pairs());
        }
        pairs
    }
}

/// One fetched page: the decoded payload of the page together with the
/// cursors of the adjacent pages, exactly as derived from the `link`
/// header of the response that produced it. A missing `next` cursor
/// means this is the last page.
#[derive(Debug)]
pub struct Paginated<T> {
    pub payload: T,
    pub previous_page_info: Option<String>,
    pub next_page_info: Option<String>,
}

/// The `prev` and `next` relation URLs derived from an optional link
/// header; a missing or unparseable header carries none.
pub open spec fn spec_cursors(link: Option<Seq<char>>) -> (Option<Seq<char>>, Option<Seq<char>>) {
    match link {
        Option::None => (Option::None, Option::None),
        Option::Some(h) => match spec_link_cursors(h) {
            Option::None => (Option::None, Option::None),
            Option::Some(pn) => pn,
        },
    }
}

/// Whether a relation URL yields a cursor rather than an error.
pub open spec fn cursor_resolves(u: Option<Seq<char>>) -> bool {
    match u {
        Option::None => true,
        Option::Some(uu) => is_wellformed_url(uu) && spec_page_info(uu) is Some,
    }
}

/// The error a relation URL produces when it yields no cursor.
pub open spec fn cursor_error(u: Seq<char>) -> ShopifyError {
    if !is_wellformed_url(u) {
        ShopifyError::UrlParse
    } else {
        ShopifyError::PageInfoNotPresent
    }
}

/// The cursor of a resolving relation URL.
pub open spec fn cursor_of(u: Option<Seq<char>>) -> Option<Seq<char>>
    recommends
        cursor_resolves(u),
{
    match u {
        Option::None => Option::None,
        Option::Some(uu) => spec_page_info(uu),
    }
}

/// What a successful [`Paginated::from_res`] returns for a response
/// with the given link header and body.
pub open spec fn from_res_ok(page: Paginated<String>, link: Option<Seq<char>>, body: Seq<char>) -> bool {
    let pn = spec_cursors(link);
    &&& cursor_resolves(pn.0)
    &&& cursor_resolves(pn.1)
    &&& page.payload@ == body
    &&& opt_str_view(page.previous_page_info) == cursor_of(pn.0)
    &&& opt_str_view(page.next_page_info) == cursor_of(pn.1)
}

impl Paginated<String> {
    /// Bundle a successful list response into a page: the raw body as
    /// the payload, and the cursors extracted from the `link` header.
    /// The `prev` relation is resolved first, so its error wins when
    /// both relations are broken.
    pub fn from_res(res: &RawResponse) -> (r: ShopifyResult<Paginated<String>>)
        ensures
            ({
                let pn = spec_cursors(opt_str_view(res.link));
                match r {
                    Ok(page) => from_res_ok(page, opt_str_view(res.link), res.body@),
                    Err(e) => {
                        ||| (!cursor_resolves(pn.0) && (pn.0 matches Option::Some(u) && e
                            == cursor_error(u)))
                        ||| (cursor_resolves(pn.0) && !cursor_resolves(pn.1) && (
                        pn.1 matches Option::Some(u) && e == cursor_error(u)))
                    },
                }
            }),
    {
        let (prev_url, next_url): (Option<String>, Option<String>) = match &res.link {
            Option::None => (Option::None, Option::None),
            Option::Some(h) => match link_cursor_urls(h.as_str()) {
                Option::None => (Option::None, Option::None),
                Option::Some(pn) => pn,
            },
        };
        let previous_page_info: Option<String> = match prev_url {
            Option::None => Option::None,
            Option::Some(u) => match parse_page_info(u.as_str()) {
                Ok(c) => Option::Some(c),
                Err(e) => {
                    return Err(e);
                },
            },
        };
        let next_page_info: Option<String> = match next_url {
            Option::None => Option::None,
            Option::Some(u) => match parse_page_info(u.as_str()) {
                Ok(c) => Option::Some(c),
                Err(e) => {
                    return Err(e);
                },
            },
        };
        Ok(Paginated { payload: res.body.clone(), previous_page_info, next_page_info })
    }
}

impl<T> Paginated<T> {
    /// Transform the payload while keeping both cursors exactly as they
    /// were: converted pages never re-derive their cursors.
    pub fn map<R, F: FnOnce(T) -> R>(self, f: F) -> (r: Paginated<R>)
        requires
            call_requires(f, (self.payload,)),
        ensures
            r.previous_page_info == self.previous_page_info,
            r.next_page_info == self.next_page_info,
            call_ensures(f, (self.payload,), r.payload),
    {
        let Paginated { payload, previous_page_info, next_page_info } = self;
        Paginated { payload: f(payload), previous_page_info, next_page_info }
    }

    /// Page parameters for the following page, when there is one: the
    /// next cursor alone, with no limit and no projection.
    pub fn get_next(&self) -> (r: Option<GetPage>)
        ensures
            match self.next_page_info {
                Option::None => r is None,
                Option::Some(info) => r matches Option::Some(g) && g.page_info@ == info@
                    && g.limit is None && g.fields is None,
            },
    {
        match &self.next_page_info {
            Option::None => Option::None,
            Option::Some(info) => Option::Some(
                GetPage { page_info: info.clone(), limit: Option::None, fields: Option::None },
            ),
        }
    }

    /// Page parameters for the preceding page, when there is one.
    pub fn get_previous(&self) -> (r: Option<GetPage>)
        ensures
            match self.previous_page_info {
                Option::None => r is None,
                Option::Some(info) => r matches Option::Some(g) && g.page_info@ == info@
                    && g.limit is None && g.fields is None,
            },
    {
        match &self.previous_page_info {
            Option::None => Option::None,
            Option::Some(info) => Option::Some(
                GetPage { page_info: info.clone(), limit: Option::None, fields: Option::None },
            ),
        }
    }
}

/// Law: a page bundled from a response with no `link` header carries
/// no cursor in either direction — the driving loop stops immediately
/// on such a page, and a listing with no adjacent pages yields one.
pub proof fn lemma_no_link_no_cursors(page: Paginated<String>, body: Seq<char>)
    requires
        from_res_ok(page, Option::None, body),
    ensures
        page.previous_page_info is None,
        page.next_page_info is None,
{
}

/// Law: two successfully bundled pages whose responses carried the same
/// `link` header carry the same previous and next cursors, whatever
/// their bodies — cursor extraction depends on the header alone, so
/// re-fetching the same cursor yields the same adjacent cursors as long
/// as the server answers with the same header.
pub proof fn lemma_refetch_same_cursors(
    p1: Paginated<String>,
    p2: Paginated<String>,
    link: Option<Seq<char>>,
    b1: Seq<char>,
    b2: Seq<char>,
)
    requires
        from_res_ok(p1, link, b1),
        from_res_ok(p2, link, b2),
    ensures
        opt_str_view(p1.previous_page_info) == opt_str_view(p2.previous_page_info),
        opt_str_view(p1.next_page_info) == opt_str_view(p2.next_page_info),
{
}


// ---------------------------------------------------------------------
// The cursor round trip
// ---------------------------------------------------------------------
/// Stripping distributes over concatenation.
proof fn lemma_strip_concat(a: Seq<char>, b: Seq<char>)
    ensures
        strip_link(a + b) == strip_link(a) + strip_link(b),
    decreases a.len(),
{
    if a.len() == 0 {
        assert(a + b =~= b);
        assert(strip_link(a) + strip_link(b) =~= strip_link(b));
    } else {
        assert((a + b)[0] == a[0]);
        assert((a + b).skip(1) =~= a.skip(1) + b);
        lemma_strip_concat(a.skip(1), b);
        if link_stripped_char(a[0]) {
        } else {
            assert(seq![a[0]] + (strip_link(a.skip(1)) + strip_link(b)) =~= (seq![a[0]]
                + strip_link(a.skip(1))) + strip_link(b));
        }
    }
}

/// Stripping a sequence without stripped characters leaves it alone.
proof fn lemma_strip_clean(a: Seq<char>)
    requires
        forall|i: int| 0 <= i < a.len() ==> !link_stripped_char(#[trigger] a[i]),
    ensures
        strip_link(a) == a,
    decreases a.len(),
{
    if a.len() > 0 {
        lemma_strip_clean(a.skip(1));
        assert(seq![a[0]] + a.skip(1) =~= a);
    }
}

/// Decoding a sequence without `+` or `%` leaves it alone.
proof fn lemma_decode_clean(a: Seq<char>)
    requires
        forall|i: int| 0 <= i < a.len() ==> (#[trigger] a[i]) != '+' && a[i] != '%',
    ensures
        spec_form_decode(a) == a,
    decreases a.len(),
{
    if a.len() > 0 {
        lemma_decode_clean(a.skip(1));
        assert(seq![a[0]] + a.skip(1) =~= a);
    }
}

/// A character that survives the header stripper and takes no part in
/// splitting a header into entries, parts and parameters.
pub open spec fn plain_url_char(c: char) -> bool {
    &&& !link_stripped_char(c)
    &&& c != ','
    &&& c != ';'
    &&& c != '?'
    &&& c != '#'
}

/// A character that is also inert inside a query string: it neither
/// splits pieces nor takes part in decoding.
pub open spec fn plain_cursor_char(c: char) -> bool {
    &&& plain_url_char(c)
    &&& c != '&'
    &&& c != '='
    &&& c != '+'
    &&& c != '%'
}

/// The header half of the round trip: the constructed header parses
/// to exactly one `next` relation carrying the constructed URL.
#[verifier::rlimit(100)]
#[verifier::spinoff_prover]
proof fn lemma_round_trip_header(u: Seq<char>, c: Seq<char>)
    requires
        forall|i: int| 0 <= i < u.len() ==> plain_url_char(#[trigger] u[i]),
        forall|i: int| 0 <= i < c.len() ==> plain_cursor_char(#[trigger] c[i]),
    ensures
        spec_link_cursors(
            seq!['<'] + (u + "?page_info="@ + c) + seq!['>', ';', ' '] + "rel=\"next\""@,
        ) == Option::Some(
            (Option::<Seq<char>>::None, Option::Some(u + "?page_info="@ + c)),
        ),
{
    reveal_with_fuel(strip_link, 3);
    reveal_with_fuel(rels_of, 3);
    reveal_strlit("?page_info=");
    reveal_strlit("rel=\"next\"");
    reveal_strlit("rel");
    reveal_strlit("next");
    reveal_strlit("prev");
    let qmark = "?page_info="@;
    assert(qmark =~= seq!['?', 'p', 'a', 'g', 'e', '_', 'i', 'n', 'f', 'o', '=']);
    let uri = u + qmark + c;
    let tail = "rel=\"next\""@;
    assert(tail =~= seq!['r', 'e', 'l', '=', '"', 'n', 'e', 'x', 't', '"']);
    let header = seq!['<'] + uri + seq!['>', ';', ' '] + tail;

    // Stripping removes the angle brackets, the space and the quotes
    // and leaves everything else in place.
    let stripped_tail = seq!['r', 'e', 'l', '=', 'n', 'e', 'x', 't'];
    assert(strip_link(tail) =~= stripped_tail) by {
        assert(tail =~= seq!['r', 'e', 'l', '='] + seq!['"'] + seq!['n', 'e', 'x', 't'] + seq![
            '"',
        ]);
        lemma_strip_concat(
            seq!['r', 'e', 'l', '='] + seq!['"'] + seq!['n', 'e', 'x', 't'],
            seq!['"'],
        );
        lemma_strip_concat(seq!['r', 'e', 'l', '='] + seq!['"'], seq!['n', 'e', 'x', 't']);
        lemma_strip_concat(seq!['r', 'e', 'l', '='], seq!['"']);
        lemma_strip_clean(seq!['r', 'e', 'l', '=']);
        lemma_strip_clean(seq!['n', 'e', 'x', 't']);
        assert(seq!['"'].skip(1) =~= Seq::<char>::empty());
        assert(strip_link(seq!['"']) =~= Seq::<char>::empty());
    }
    assert(strip_link(uri) =~= uri) by {
        assert(forall|i: int| 0 <= i < uri.len() ==> !link_stripped_char(#[trigger] uri[i]));
        lemma_strip_clean(uri);
    }
    let s = uri + seq![';'] + stripped_tail;
    assert(strip_link(header) =~= s) by {
        lemma_strip_concat(seq!['<'] + uri + seq!['>', ';', ' '], tail);
        lemma_strip_concat(seq!['<'] + uri, seq!['>', ';', ' ']);
        lemma_strip_concat(seq!['<'], uri);
        assert(seq!['<'].skip(1) =~= Seq::<char>::empty());
        assert(strip_link(seq!['<']) =~= Seq::<char>::empty());
        assert(strip_link(seq!['>', ';', ' ']) =~= seq![';']) by {
            assert(seq!['>', ';', ' '].skip(1) =~= seq![';', ' ']);
            assert(seq![';', ' '].skip(1) =~= seq![' ']);
            assert(seq![' '].skip(1) =~= Seq::<char>::empty());
        }
    }

    // The stripped header is one comma-free entry.
    assert(forall|i: int| 0 <= i < s.len() ==> (#[trigger] s[i]) != ',');
    crate::strutil::lemma_find_idx_val(s, ',', 0, s.len() as int);
    assert(s.take(s.len() as int) =~= s);

    // The entry splits at the semicolon into the URL and one parameter.
    assert(forall|i: int| 0 <= i < uri.len() ==> (#[trigger] s[i]) == uri[i]);
    assert(s[uri.len() as int] == ';');
    crate::strutil::lemma_find_idx_val(s, ';', 0, uri.len() as int);
    assert(s.take(uri.len() as int) =~= uri);
    assert(s.skip(uri.len() as int + 1) =~= stripped_tail);

    // The parameter region is the single parameter `rel=next`.
    crate::strutil::lemma_find_idx_val(stripped_tail, ';', 0, stripped_tail.len() as int);
    assert(stripped_tail.take(stripped_tail.len() as int) =~= stripped_tail);
    crate::strutil::lemma_find_idx_val(stripped_tail, '=', 0, 3);
    assert(stripped_tail.take(3) =~= "rel"@);
    assert(stripped_tail.skip(4) =~= "next"@);
    assert(params_rel(stripped_tail, Option::None) == Option::Some(Option::Some("next"@)));
    assert(parse_entry(s) == Option::Some((Option::Some("next"@), uri)));
    let entries = seq![(Option::Some("next"@), uri)];
    assert(parse_entries(s) == Option::Some(entries));

    // Only the `next` relation is present.
    assert("next"@ != "prev"@) by {
        assert("next"@[0] == 'n' && "prev"@[0] == 'p');
    }
    assert(entries.last() == (Option::Some("next"@), uri));
    assert(entries.drop_last() =~= Seq::<(Option<Seq<char>>, Seq<char>)>::empty());
    assert(rels_of(entries, "next"@) == Option::Some(uri));
    assert(rels_of(entries, "prev"@) is None);
}

/// The cursor half of the round trip: the constructed URL's query
/// holds one `page_info` parameter, decoding to exactly the cursor.
#[verifier::rlimit(100)]
#[verifier::spinoff_prover]
proof fn lemma_round_trip_cursor(u: Seq<char>, c: Seq<char>)
    requires
        forall|i: int| 0 <= i < u.len() ==> plain_url_char(#[trigger] u[i]),
        forall|i: int| 0 <= i < c.len() ==> plain_cursor_char(#[trigger] c[i]),
    ensures
        spec_page_info(u + "?page_info="@ + c) == Option::Some(c),
{
    reveal_strlit("?page_info=");
    reveal_strlit("page_info");
    let qmark = "?page_info="@;
    assert(qmark =~= seq!['?', 'p', 'a', 'g', 'e', '_', 'i', 'n', 'f', 'o', '=']);
    let uri = u + qmark + c;
    assert(forall|i: int| 0 <= i < u.len() ==> (#[trigger] uri[i]) == u[i]);
    assert(uri[u.len() as int] == '?');
    crate::strutil::lemma_find_idx_val(uri, '?', 0, u.len() as int);
    let q = seq!['p', 'a', 'g', 'e', '_', 'i', 'n', 'f', 'o', '='] + c;
    assert(uri.skip(u.len() as int + 1) =~= q);
    assert(forall|i: int| 0 <= i < q.len() ==> (#[trigger] q[i]) != '#');
    crate::strutil::lemma_find_idx_val(q, '#', 0, q.len() as int);
    assert(q.take(q.len() as int) =~= q);
    assert(forall|i: int| 0 <= i < q.len() ==> (#[trigger] q[i]) != '&');
    crate::strutil::lemma_find_idx_val(q, '&', 0, q.len() as int);
    assert(q[9] == '=');
    crate::strutil::lemma_find_idx_val(q, '=', 0, 9);
    assert(q.take(9) =~= "page_info"@);
    assert(q.skip(10) =~= c);
    lemma_decode_clean("page_info"@);
    lemma_decode_clean(c);
    assert(find_page_info(q) == Option::Some(c));
    assert(spec_page_info(uri) == Option::Some(c));
}

/// Law (cursor round trip): a link header built as
/// `<BASE?page_info=CURSOR>; rel="next"`, for any base URL and cursor
/// made of plain characters, parses to exactly one `next` relation
/// whose URL is `BASE?page_info=CURSOR`, no `prev` relation, and that
/// URL's extracted cursor is exactly CURSOR — what the server encodes
/// into a next link is what the engine hands back.
pub proof fn lemma_next_link_round_trip(u: Seq<char>, c: Seq<char>)
    requires
        forall|i: int| 0 <= i < u.len() ==> plain_url_char(#[trigger] u[i]),
        forall|i: int| 0 <= i < c.len() ==> plain_cursor_char(#[trigger] c[i]),
    ensures
        spec_link_cursors(
            seq!['<'] + (u + "?page_info="@ + c) + seq!['>', ';', ' '] + "rel=\"next\""@,
        ) == Option::Some(
            (Option::<Seq<char>>::None, Option::Some(u + "?page_info="@ + c)),
        ),
        spec_page_info(u + "?page_info="@ + c) == Option::Some(c),
{
    lemma_round_trip_header(u, c);
    lemma_round_trip_cursor(u, c);
}

} // verus!