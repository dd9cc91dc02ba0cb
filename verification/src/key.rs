//! Instance keys: an origin name, an underscore, and a time stamp written as
//! sixteen or more lowercase hexadecimal digits.

use vstd::prelude::*;
use vstd::string::*;

verus! {

/// Fewest digits of a stamp.
pub const STAMP_WIDTH: usize = 16;

/// The character that parts origin and stamp.
pub open spec fn is_sep(c: char) -> bool {
    c == '_'
}

/// Lowercase hexadecimal digit.
pub open spec fn is_hex(c: char) -> bool {
    ('0' <= c && c <= '9') || ('a' <= c && c <= 'f')
}

/// Character that an origin may hold: a letter, a digit or an underscore.
pub open spec fn is_word(c: char) -> bool {
    ('0' <= c && c <= '9') || ('a' <= c && c <= 'z') || ('A' <= c && c <= 'Z') || c == '_'
}

/// The digit that writes `d`, for `d` below sixteen.
pub open spec fn hex_char(d: nat) -> char {
    if d == 0 {
        '0'
    } else if d == 1 {
        '1'
    } else if d == 2 {
        '2'
    } else if d == 3 {
        '3'
    } else if d == 4 {
        '4'
    } else if d == 5 {
        '5'
    } else if d == 6 {
        '6'
    } else if d == 7 {
        '7'
    } else if d == 8 {
        '8'
    } else if d == 9 {
        '9'
    } else if d == 10 {
        'a'
    } else if d == 11 {
        'b'
    } else if d == 12 {
        'c'
    } else if d == 13 {
        'd'
    } else if d == 14 {
        'e'
    } else {
        'f'
    }
}

/// What a hexadecimal digit is worth.
pub open spec fn hex_value(c: char) -> nat {
    if '0' <= c && c <= '9' {
        (c as nat - '0' as nat) as nat
    } else {
        (c as nat - 'a' as nat + 10) as nat
    }
}

/// The digits of `n`, lowest first: as many as `n` needs, and `width` at least.
pub open spec fn low_digits(n: nat, width: nat) -> Seq<char>
    decreases n, width,
{
    if n == 0 && width == 0 {
        Seq::empty()
    } else {
        seq![hex_char(n % 16)] + low_digits(n / 16, if width == 0 { 0 } else { (width - 1) as nat })
    }
}

/// The number that digits, lowest first, write.
pub open spec fn low_value(s: Seq<char>) -> nat
    decreases s.len(),
{
    if s.len() == 0 {
        0
    } else {
        hex_value(s[0]) + 16 * low_value(s.drop_first())
    }
}

/// The stamp of a time: its digits, highest first, padded with zeros to
/// `STAMP_WIDTH`.
pub open spec fn stamp(t: nat) -> Seq<char> {
    low_digits(t, STAMP_WIDTH as nat).reverse()
}

/// The key of an instance of `origin` made at time `t`.
pub open spec fn key_of(origin: Seq<char>, t: nat) -> Seq<char> {
    origin + seq!['_'] + stamp(t)
}

/// An origin that a key can carry: not empty, word characters only.
pub open spec fn valid_origin(origin: Seq<char>) -> bool {
    origin.len() > 0 && forall|i: int| 0 <= i < origin.len() ==> is_word(#[trigger] origin[i])
}

/// A stamp as it stands in a key: `STAMP_WIDTH` digits or more.
pub open spec fn valid_stamp(s: Seq<char>) -> bool {
    s.len() >= STAMP_WIDTH && forall|i: int| 0 <= i < s.len() ==> is_hex(#[trigger] s[i])
}

/// Whether `key` splits at `at` into an origin, the separator and a stamp.
pub open spec fn splits_at(key: Seq<char>, at: int) -> bool {
    0 <= at < key.len() && is_sep(key[at]) && valid_origin(key.subrange(0, at)) && valid_stamp(
        key.subrange(at + 1, key.len() as int),
    )
}

/// Where the last separator of `key` stands, or -1 where it holds none.
pub open spec fn last_sep(key: Seq<char>) -> int
    decreases key.len(),
{
    if key.len() == 0 {
        -1
    } else if is_sep(key.last()) {
        key.len() - 1
    } else {
        last_sep(key.drop_last())
    }
}

/// The origin that `key` carries, if `key` is a key. A stamp holds no
/// separator, so a key can split at its last separator only.
pub open spec fn origin_of(key: Seq<char>) -> Option<Seq<char>> {
    let at = last_sep(key);
    if splits_at(key, at) {
        Some(key.subrange(0, at))
    } else {
        None
    }
}

/// No separator stands behind the last one, and the last one is one.
pub proof fn lemma_last_sep(key: Seq<char>)
    ensures
        -1 <= last_sep(key) < key.len(),
        last_sep(key) >= 0 ==> is_sep(key[last_sep(key)]),
        forall|i: int| last_sep(key) < i < key.len() ==> !is_sep(#[trigger] key[i]),
    decreases key.len(),
{
    if key.len() > 0 && !is_sep(key.last()) {
        let front = key.drop_last();
        lemma_last_sep(front);
        assert forall|i: int| last_sep(key) < i < key.len() implies !is_sep(#[trigger] key[i]) by {
            if i < front.len() {
                assert(key[i] == front[i]);
            }
        }
    }
}

/// A key splits at its last separator or nowhere.
pub proof fn lemma_split_is_last(key: Seq<char>, at: int)
    requires
        splits_at(key, at),
    ensures
        at == last_sep(key),
{
    lemma_last_sep(key);
    let tail = key.subrange(at + 1, key.len() as int);
    let l = last_sep(key);
    if l > at {
        assert(is_hex(tail[l - at - 1]));
    }
}

/// A stamp is a valid stamp: digits only, `STAMP_WIDTH` of them at least.
pub proof fn lemma_low_digits(n: nat, width: nat)
    ensures
        low_digits(n, width).len() >= width,
        forall|i: int| 0 <= i < low_digits(n, width).len() ==> is_hex(#[trigger] low_digits(n, width)[i]),
        low_value(low_digits(n, width)) == n,
    decreases n, width,
{
    if n == 0 && width == 0 {
    } else {
        let rest = low_digits(n / 16, if width == 0 { 0 } else { (width - 1) as nat });
        lemma_low_digits(n / 16, if width == 0 { 0 } else { (width - 1) as nat });
        let all = low_digits(n, width);
        assert(all == seq![hex_char(n % 16)] + rest);
        assert(all.drop_first() == rest);
        assert(all[0] == hex_char(n % 16));
        assert(hex_value(hex_char(n % 16)) == n % 16);
        assert forall|i: int| 0 <= i < all.len() implies is_hex(#[trigger] all[i]) by {
            if i > 0 {
                assert(all[i] == rest[i - 1]);
            }
        }
    }
}

/// The stamp of a time is a valid stamp.
pub proof fn lemma_stamp_valid(t: nat)
    ensures
        valid_stamp(stamp(t)),
{
    lemma_low_digits(t, STAMP_WIDTH as nat);
    let d = low_digits(t, STAMP_WIDTH as nat);
    assert forall|i: int| 0 <= i < stamp(t).len() implies is_hex(#[trigger] stamp(t)[i]) by {
        assert(stamp(t)[i] == d[d.len() - 1 - i]);
    }
}

/// Two times with one stamp are one time.
pub proof fn lemma_stamp_injective(t1: nat, t2: nat)
    requires
        stamp(t1) == stamp(t2),
    ensures
        t1 == t2,
{
    lemma_low_digits(t1, STAMP_WIDTH as nat);
    lemma_low_digits(t2, STAMP_WIDTH as nat);
    let d1 = low_digits(t1, STAMP_WIDTH as nat);
    let d2 = low_digits(t2, STAMP_WIDTH as nat);
    assert(d1.reverse().reverse() =~= d1);
    assert(d2.reverse().reverse() =~= d2);
}

/// A key made from a valid origin carries that origin, whatever the time.
pub proof fn lemma_key_round_trip(origin: Seq<char>, t: nat)
    requires
        valid_origin(origin),
    ensures
        origin_of(key_of(origin, t)) == Some(origin),
{
    let key = key_of(origin, t);
    let at = origin.len() as int;
    lemma_stamp_valid(t);
    assert(key[at] == '_');
    assert(key.subrange(0, at) =~= origin);
    assert(key.subrange(at + 1, key.len() as int) =~= stamp(t));
    assert(splits_at(key, at));
    lemma_split_is_last(key, at);
}

/// Keys made of one origin at two distinct times are distinct, and each
/// carries the origin.
pub proof fn lemma_keys_distinct(origin: Seq<char>, t1: nat, t2: nat)
    requires
        valid_origin(origin),
        t1 != t2,
    ensures
        key_of(origin, t1) != key_of(origin, t2),
        origin_of(key_of(origin, t1)) == Some(origin),
        origin_of(key_of(origin, t2)) == Some(origin),
{
    lemma_key_round_trip(origin, t1);
    lemma_key_round_trip(origin, t2);
    let k1 = key_of(origin, t1);
    let k2 = key_of(origin, t2);
    if k1 == k2 {
        let at = origin.len() as int;
        assert(k1.subrange(at + 1, k1.len() as int) =~= stamp(t1));
        assert(k2.subrange(at + 1, k2.len() as int) =~= stamp(t2));
        lemma_stamp_injective(t1, t2);
    }
}

/// Keys of two distinct valid origins are distinct, whatever the times.
pub proof fn lemma_keys_of_distinct_origins(o1: Seq<char>, t1: nat, o2: Seq<char>, t2: nat)
    requires
        valid_origin(o1),
        valid_origin(o2),
        o1 != o2,
    ensures
        key_of(o1, t1) != key_of(o2, t2),
{
    lemma_key_round_trip(o1, t1);
    lemma_key_round_trip(o2, t2);
}

/// Whether `c` is a lowercase hexadecimal digit.
pub fn char_is_hex(c: char) -> (r: bool)
    ensures
        r == is_hex(c),
{
    (c >= '0' && c <= '9') || (c >= 'a' && c <= 'f')
}

/// Whether `c` may stand in an origin.
pub fn char_is_word(c: char) -> (r: bool)
    ensures
        r == is_word(c),
{
    (c >= '0' && c <= '9') || (c >= 'a' && c <= 'z') || (c >= 'A' && c <= 'Z') || c == '_'
}

/// The digit that writes `d`, as a string of one character.
fn hex_str(d: u8) -> (r: &'static str)
    requires
        d < 16,
    ensures
        r@ == seq![hex_char(d as nat)],
{
    proof {
        reveal_strlit("0");
        reveal_strlit("1");
        reveal_strlit("2");
        reveal_strlit("3");
        reveal_strlit("4");
        reveal_strlit("5");
        reveal_strlit("6");
        reveal_strlit("7");
        reveal_strlit("8");
        reveal_strlit("9");
        reveal_strlit("a");
        reveal_strlit("b");
        reveal_strlit("c");
        reveal_strlit("d");
        reveal_strlit("e");
        reveal_strlit("f");
    }
    let r = match d {
        0 => "0",
        1 => "1",
        2 => "2",
        3 => "3",
        4 => "4",
        5 => "5",
        6 => "6",
        7 => "7",
        8 => "8",
        9 => "9",
        10 => "a",
        11 => "b",
        12 => "c",
        13 => "d",
        14 => "e",
        _ => "f",
    };
    assert(r@ =~= seq![hex_char(d as nat)]);
    r
}

/// The digits of `t`, lowest first, as numbers below sixteen.
fn low_digit_values(t: u128) -> (r: Vec<u8>)
    ensures
        r@.len() == low_digits(t as nat, STAMP_WIDTH as nat).len(),
        forall|i: int| 0 <= i < r@.len() ==> (#[trigger] r@[i]) < 16 && hex_char(r@[i] as nat) == low_digits(t as nat, STAMP_WIDTH as nat)[i],
{
    let mut out: Vec<u8> = Vec::new();
    let mut n: u128 = t;
    let ghost all = low_digits(t as nat, STAMP_WIDTH as nat);
    while n > 0 || out.len() < STAMP_WIDTH
        invariant
            all == low_digits(t as nat, STAMP_WIDTH as nat),
            out@.len() <= all.len(),
            all =~= all.subrange(0, out@.len() as int) + low_digits(
                n as nat,
                if out@.len() >= STAMP_WIDTH { 0nat } else { (STAMP_WIDTH - out@.len()) as nat },
            ),
            forall|i: int| 0 <= i < out@.len() ==> (#[trigger] out@[i]) < 16 && hex_char(out@[i] as nat) == all[i],
        decreases n, (if out@.len() >= STAMP_WIDTH { 0nat } else { (STAMP_WIDTH - out@.len()) as nat }),
    {
        let d: u8 = (n % 16) as u8;
        proof {
            let w = if out@.len() >= STAMP_WIDTH { 0nat } else { (STAMP_WIDTH - out@.len()) as nat };
            let rest = low_digits(n as nat, w);
            let w2 = if w == 0 { 0nat } else { (w - 1) as nat };
            assert(rest == seq![hex_char((n as nat) % 16)] + low_digits((n as nat) / 16, w2));
            let k = out@.len() as int;
            assert(all[k] == rest[0]);
            assert(all.subrange(0, k + 1) =~= all.subrange(0, k) + seq![rest[0]]);
            assert(all =~= all.subrange(0, k + 1) + low_digits((n as nat) / 16, w2));
        }
        out.push(d);
        n = n / 16;
    }
    proof {
        assert(low_digits(0, 0) =~= Seq::<char>::empty());
        assert(all =~= all.subrange(0, out@.len() as int));
    }
    out
}

/// Appends the stamp of `t` to `out`.
fn push_stamp(out: &mut String, t: u128)
    ensures
        final(out)@ == old(out)@ + stamp(t as nat),
{
    let digits = low_digit_values(t);
    let ghost low = low_digits(t as nat, STAMP_WIDTH as nat);
    let mut i: usize = digits.len();
    while i > 0
        invariant
            0 <= i <= digits@.len(),
            digits@.len() == low.len(),
            low == low_digits(t as nat, STAMP_WIDTH as nat),
            forall|k: int| 0 <= k < digits@.len() ==> (#[trigger] digits@[k]) < 16 && hex_char(digits@[k] as nat) == low[k],
            out@ =~= old(out)@ + stamp(t as nat).subrange(0, digits@.len() - i),
        decreases i,
    {
        i = i - 1;
        let lit = hex_str(digits[i]);
        proof {
            let st = stamp(t as nat);
            let k = digits@.len() - i - 1;
            assert(st[k] == low[i as int]);
            assert(st.subrange(0, k + 1) =~= st.subrange(0, k) + seq![st[k]]);
        }
        out.append(lit);
    }
    proof {
        let st = stamp(t as nat);
        assert(st.subrange(0, st.len() as int) =~= st);
    }
}

/// The key of an instance of `origin` made `nanos` nanoseconds after the
/// start: the origin, a separator and the stamp of the time.
pub fn make_key(origin: &str, nanos: u128) -> (key: String)
    ensures
        key@ == key_of(origin@, nanos as nat),
{
    let mut key = String::from_str(origin);
    proof {
        reveal_strlit("_");
    }
    key.append("_");
    assert(key@ =~= origin@ + seq!['_']);
    push_stamp(&mut key, nanos);
    key
}

/// The origin that `key` carries: `Some` exactly where `key` is an origin, a
/// separator and a stamp.
pub fn parse_origin(key: &str) -> (origin: Option<String>)
    ensures
        origin is Some <==> origin_of(key@) is Some,
        origin is Some ==> origin->0@ == origin_of(key@)->0,
{
    let n = key.unicode_len();
    let mut i: usize = n;
    while i > 0 && char_is_hex(key.get_char(i - 1))
        invariant
            0 <= i <= n,
            n == key@.len(),
            forall|k: int| i <= k < n ==> is_hex(#[trigger] key@[k]),
        decreases i,
    {
        i = i - 1;
    }
    proof {
        lemma_last_sep(key@);
        let l = last_sep(key@);
        if splits_at(key@, l) {
            // the stamp behind the last separator is what the scan walked over
            let tail = key@.subrange(l + 1, n as int);
            if i > l + 1 {
                assert(is_hex(key@[i - 1])) by {
                    assert(tail[i - 1 - (l + 1)] == key@[i - 1]);
                }
            }
            assert(i == l + 1);
        }
    }
    if i == 0 || n - i < STAMP_WIDTH {
        return None;
    }
    let at: usize = i - 1;
    if key.get_char(at) != '_' || at == 0 {
        proof {
            let l = last_sep(key@);
            if splits_at(key@, l) {
                assert(key@.subrange(0, l).len() > 0);
            }
        }
        return None;
    }
    proof {
        // `at` is the last separator
        let l = last_sep(key@);
        assert(l == at) by {
            if l < at {
                assert(!is_sep(key@[at as int]));
            }
            if l > at {
                assert(is_hex(key@[l]));
            }
        }
        assert(valid_stamp(key@.subrange(at + 1, n as int)));
    }
    let mut j: usize = 0;
    while j < at
        invariant
            0 <= j <= at < n,
            n == key@.len(),
            at == last_sep(key@),
            forall|k: int| 0 <= k < j ==> is_word(#[trigger] key@[k]),
        decreases at - j,
    {
        if !char_is_word(key.get_char(j)) {
            proof {
                assert(key@.subrange(0, at as int)[j as int] == key@[j as int]);
            }
            return None;
        }
        j = j + 1;
    }
    proof {
        assert(valid_origin(key@.subrange(0, at as int)));
    }
    Some(String::from_str(key.substring_char(0, at)))
}

} // verus!
