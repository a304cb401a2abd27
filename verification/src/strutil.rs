//! Character-level string utilities shared by the query encoder and the
//! pagination engine: conversions between `String` and `Vec<char>`,
//! decimal formatting of integers, and comma-joining.

use vstd::prelude::*;

verus! {

/// The decimal digit character for a value below ten.
pub open spec fn dec_digit(n: nat) -> char
    recommends
        n < 10,
{
    ((48 + n) as u8) as char
}

/// The decimal representation of a natural number, most significant
/// digit first, with no leading zeros (a single `'0'` for zero).
pub open spec fn spec_dec_nat(n: nat) -> Seq<char>
    decreases n,
{
    if n < 10 {
        seq![dec_digit(n)]
    } else {
        spec_dec_nat(n / 10).push(dec_digit(n % 10))
    }
}

/// The decimal representation of a signed integer: a leading `'-'` for
/// negative values, then the digits of the magnitude.
pub open spec fn spec_dec_int(n: int) -> Seq<char> {
    if n < 0 {
        seq!['-'] + spec_dec_nat((-n) as nat)
    } else {
        spec_dec_nat(n as nat)
    }
}

/// The continuation of a comma join: every piece is preceded by a comma.
pub open spec fn spec_join_comma_rest(items: Seq<Seq<char>>) -> Seq<char>
    decreases items.len(),
{
    if items.len() == 0 {
        Seq::empty()
    } else {
        seq![','] + items[0] + spec_join_comma_rest(items.skip(1))
    }
}

/// The given sequences joined by a single `','` between neighbours.
pub open spec fn spec_join_comma(items: Seq<Seq<char>>) -> Seq<char> {
    if items.len() == 0 {
        Seq::empty()
    } else {
        items[0] + spec_join_comma_rest(items.skip(1))
    }
}

/// The first index at or after `from` holding `sep`, or the length of
/// the sequence when there is none.
pub open spec fn find_idx(s: Seq<char>, sep: char, from: int) -> int
    recommends
        0 <= from <= s.len(),
    decreases s.len() - from,
{
    if from < 0 || from >= s.len() {
        s.len() as int
    } else if s[from] == sep {
        from
    } else {
        find_idx(s, sep, from + 1)
    }
}

/// `find_idx` stays within bounds and lands on the separator when it
/// finds one.
pub proof fn lemma_find_idx_bounds(s: Seq<char>, sep: char, from: int)
    requires
        0 <= from <= s.len(),
    ensures
        from <= find_idx(s, sep, from) <= s.len(),
        find_idx(s, sep, from) < s.len() ==> s[find_idx(s, sep, from)] == sep,
    decreases s.len() - from,
{
    if from < s.len() && s[from] != sep {
        lemma_find_idx_bounds(s, sep, from + 1);
    }
}

/// `find_idx` from `from` lands exactly on `p` when nothing before `p`
/// is the separator and `p` is one (or the end).
pub proof fn lemma_find_idx_val(s: Seq<char>, sep: char, from: int, p: int)
    requires
        0 <= from <= p <= s.len(),
        forall|i: int| from <= i < p ==> s[i] != sep,
        p < s.len() ==> s[p] == sep,
    ensures
        find_idx(s, sep, from) == p,
    decreases p - from,
{
    if from < p {
        lemma_find_idx_val(s, sep, from + 1, p);
    }
}

/// Relies on std's `String::push`: appends the given character to the
/// end of the string.
#[verifier::external_body]
pub fn push_char(s: &mut String, c: char)
    ensures
        final(s)@ == old(s)@.push(c),
{
    s.push(c);
}

/// Copy the characters of a vector into a fresh `String`.
pub fn chars_to_string(v: &Vec<char>) -> (s: String)
    ensures
        s@ == v@,
{
    let mut s = String::new();
    let mut i: usize = 0;
    while i < v.len()
        invariant
            i <= v.len(),
            s@ == v@.take(i as int),
        decreases v.len() - i,
    {
        push_char(&mut s, v[i]);
        proof {
            assert(v@.take(i + 1 as int) =~= v@.take(i as int).push(v@[i as int]));
        }
        i = i + 1;
    }
    proof {
        assert(v@.take(v@.len() as int) =~= v@);
    }
    s
}

/// Copy the characters of a string slice into a vector.
pub fn str_chars(s: &str) -> (v: Vec<char>)
    ensures
        v@ == s@,
{
    let n = s.unicode_len();
    let mut v: Vec<char> = Vec::new();
    let mut i: usize = 0;
    while i < n
        invariant
            i <= n,
            n == s@.len(),
            v@ == s@.take(i as int),
        decreases n - i,
    {
        let c = s.get_char(i);
        v.push(c);
        proof {
            assert(s@.take(i + 1 as int) =~= s@.take(i as int).push(s@[i as int]));
        }
        i = i + 1;
    }
    proof {
        assert(s@.take(s@.len() as int) =~= s@);
    }
    v
}

/// Find the first occurrence of `sep` at or after `from`.
pub fn find_from(v: &Vec<char>, sep: char, from: usize) -> (r: usize)
    requires
        from <= v@.len(),
    ensures
        r == find_idx(v@, sep, from as int),
        from <= r <= v@.len(),
        r < v@.len() ==> v@[r as int] == sep,
{
    let mut i: usize = from;
    while i < v.len()
        invariant
            from <= i <= v@.len(),
            find_idx(v@, sep, from as int) == find_idx(v@, sep, i as int),
        decreases v.len() - i,
    {
        if v[i] == sep {
            return i;
        }
        i = i + 1;
    }
    i
}

/// Copy the characters in `[a, b)` out of a vector.
pub fn subvec(v: &Vec<char>, a: usize, b: usize) -> (r: Vec<char>)
    requires
        a <= b <= v@.len(),
    ensures
        r@ == v@.subrange(a as int, b as int),
{
    let mut r: Vec<char> = Vec::new();
    let mut i: usize = a;
    while i < b
        invariant
            a <= i <= b <= v@.len(),
            r@ == v@.subrange(a as int, i as int),
        decreases b - i,
    {
        r.push(v[i]);
        proof {
            assert(v@.subrange(a as int, i as int + 1) =~= v@.subrange(a as int, i as int).push(
                v@[i as int],
            ));
        }
        i = i + 1;
    }
    r
}

/// The exec counterpart of `dec_digit`.
pub fn digit_char(d: u8) -> (c: char)
    requires
        d < 10,
    ensures
        c == dec_digit(d as nat),
{
    (48 + d) as char
}

/// Append the decimal digits of `n` to `s`.
pub fn append_dec_u64(s: &mut String, n: u64)
    ensures
        final(s)@ == old(s)@ + spec_dec_nat(n as nat),
    decreases n,
{
    if n < 10 {
        push_char(s, digit_char(n as u8));
        proof {
            assert(old(s)@ + spec_dec_nat(n as nat) =~= old(s)@.push(dec_digit(n as nat)));
        }
    } else {
        append_dec_u64(s, n / 10);
        push_char(s, digit_char((n % 10) as u8));
        proof {
            assert(old(s)@ + spec_dec_nat(n as nat) =~= (old(s)@ + spec_dec_nat(
                n as nat / 10,
            )).push(dec_digit(n as nat % 10)));
        }
    }
}

/// Append the decimal representation of a signed integer to `s`.
pub fn append_dec_i64(s: &mut String, n: i64)
    ensures
        final(s)@ == old(s)@ + spec_dec_int(n as int),
{
    if n < 0 {
        push_char(s, '-');
        let m: u64 = (-(n as i128)) as u64;
        append_dec_u64(s, m);
        proof {
            assert(old(s)@ + spec_dec_int(n as int) =~= old(s)@.push('-') + spec_dec_nat(
                (-(n as int)) as nat,
            ));
        }
    } else {
        append_dec_u64(s, n as u64);
    }
}

/// The decimal string of a signed integer.
pub fn i64_to_string(n: i64) -> (s: String)
    ensures
        s@ == spec_dec_int(n as int),
{
    let mut s = String::new();
    append_dec_i64(&mut s, n);
    proof {
        assert(Seq::<char>::empty() + spec_dec_int(n as int) =~= spec_dec_int(n as int));
    }
    s
}

/// A resource path of the shape `prefix{id}suffix`, e.g.
/// `/admin/orders/450789469.json`.
pub fn path_with_id(prefix: &str, id: i64, suffix: &str) -> (r: String)
    ensures
        r@ == prefix@ + spec_dec_int(id as int) + suffix@,
{
    let mut s = prefix.to_owned();
    append_dec_i64(&mut s, id);
    let r = s.concat(suffix);
    proof {
        assert(r@ =~= prefix@ + spec_dec_int(id as int) + suffix@);
    }
    r
}

/// Join the given strings with commas.
pub fn join_comma(items: &Vec<String>) -> (s: String)
    ensures
        s@ == spec_join_comma(items@.map_values(|it: String| it@)),
{
    let ghost views = items@.map_values(|it: String| it@);
    let mut s = String::new();
    let mut i: usize = 0;
    while i < items.len()
        invariant
            i <= items.len(),
            views == items@.map_values(|it: String| it@),
            views.len() == items@.len(),
            i == 0 ==> s@ =~= Seq::<char>::empty(),
            i > 0 ==> spec_join_comma(views) == s@ + spec_join_comma_rest(views.skip(i as int)),
        decreases items.len() - i,
    {
        proof {
            assert(views[i as int] == items@[i as int]@);
        }
        if i > 0 {
            proof {
                let rest = views.skip(i as int);
                assert(rest[0] == views[i as int]);
                assert(rest.skip(1) =~= views.skip(i + 1 as int));
            }
            push_char(&mut s, ',');
            s.append(items[i].as_str());
            proof {
                assert(spec_join_comma(views) == s@ + spec_join_comma_rest(
                    views.skip(i + 1 as int),
                ));
            }
        } else {
            s.append(items[i].as_str());
            proof {
                assert(views.skip(0) =~= views);
                assert(Seq::<char>::empty() + views[0] =~= views[0]);
                assert(s@ + spec_join_comma_rest(views.skip(1)) =~= views[0]
                    + spec_join_comma_rest(views.skip(1)));
            }
        }
        i = i + 1;
    }
    proof {
        if items.len() == 0 {
            assert(spec_join_comma(views) =~= Seq::<char>::empty());
        } else {
            assert(views.skip(items@.len() as int) =~= Seq::<Seq<char>>::empty());
            assert(s@ + spec_join_comma_rest(Seq::<Seq<char>>::empty()) =~= s@);
        }
    }
    s
}

} // verus!
