//! User identities: 128-bit values written in the hyphenated hexadecimal
//! form `xxxxxxxx-xxxx-xxxx-xxxx-xxxxxxxxxxxx`.
//!
//! A token's subject carries a user identity only in this textual form,
//! so the library parses and prints it itself, against an exact
//! specification of the format.

use vstd::prelude::*;

verus! {

/// The numeric value of a hexadecimal digit, or 16 when `c` is none.
pub open spec fn hex_val(c: char) -> int {
    let u = c as int;
    if 48 <= u <= 57 {
        u - 48
    } else if 97 <= u <= 102 {
        u - 87
    } else if 65 <= u <= 70 {
        u - 55
    } else {
        16
    }
}

/// `c` is a hexadecimal digit, upper or lower case.
pub open spec fn is_hex_digit(c: char) -> bool {
    hex_val(c) < 16
}

/// The lower-case digit character for a value below 16.
pub open spec fn hex_char(d: int) -> char {
    if d == 0 { '0' }
    else if d == 1 { '1' }
    else if d == 2 { '2' }
    else if d == 3 { '3' }
    else if d == 4 { '4' }
    else if d == 5 { '5' }
    else if d == 6 { '6' }
    else if d == 7 { '7' }
    else if d == 8 { '8' }
    else if d == 9 { '9' }
    else if d == 10 { 'a' }
    else if d == 11 { 'b' }
    else if d == 12 { 'c' }
    else if d == 13 { 'd' }
    else if d == 14 { 'e' }
    else { 'f' }
}

/// 16 to the power `k`.
pub open spec fn pow16(k: nat) -> int
    decreases k,
{
    if k == 0 {
        1
    } else {
        16 * pow16((k - 1) as nat)
    }
}

/// The value of a big-endian sequence of hexadecimal digits.
pub open spec fn hexseq_val(h: Seq<char>) -> int
    decreases h.len(),
{
    if h.len() == 0 {
        0
    } else {
        hexseq_val(h.drop_last()) * 16 + hex_val(h.last())
    }
}

/// The `n` low hexadecimal digits of `v`, most significant first.
pub open spec fn hex_digits(v: int, n: nat) -> Seq<char>
    decreases n,
{
    if n == 0 {
        Seq::empty()
    } else {
        hex_digits(v / 16, (n - 1) as nat).push(hex_char(v % 16))
    }
}

/// The 32 digit characters of a 36-character hyphenated form, in order.
pub open spec fn uuid_hex_of(s: Seq<char>) -> Seq<char> {
    s.subrange(0, 8) + s.subrange(9, 13) + s.subrange(14, 18) + s.subrange(19, 23) + s.subrange(
        24,
        36,
    )
}

/// `s` is a well-formed hyphenated user identifier: 36 characters,
/// hyphens at positions 8, 13, 18 and 23, hexadecimal digits elsewhere.
pub open spec fn is_uuid_chars(s: Seq<char>) -> bool {
    &&& s.len() == 36
    &&& s[8] == '-'
    &&& s[13] == '-'
    &&& s[18] == '-'
    &&& s[23] == '-'
    &&& forall|i: int|
        0 <= i < 36 && i != 8 && i != 13 && i != 18 && i != 23 ==> is_hex_digit(#[trigger] s[i])
}

/// The value a well-formed hyphenated form denotes.
pub open spec fn uuid_val(s: Seq<char>) -> int {
    hexseq_val(uuid_hex_of(s))
}

/// The canonical lower-case hyphenated form of a value.
pub open spec fn uuid_chars(v: int) -> Seq<char> {
    let d = hex_digits(v, 32);
    d.subrange(0, 8) + seq!['-'] + d.subrange(8, 12) + seq!['-'] + d.subrange(12, 16) + seq!['-']
        + d.subrange(16, 20) + seq!['-'] + d.subrange(20, 32)
}

/// A user identity, the 128-bit value behind the textual subject.
#[derive(Debug, Clone, Copy, PartialEq, Eq, Structural)]
pub struct UserId {
    pub value: u128,
}

/// The concrete powers of 16 the proofs below lean on.
proof fn lemma_pow16_constants()
    ensures
        pow16(4) == 0x10000,
        pow16(8) == 0x100000000,
        pow16(11) == 0x100000000000,
        pow16(12) == 0x1000000000000,
        pow16(16) == 0x10000000000000000,
        pow16(20) == 0x100000000000000000000,
        pow16(32) == 0x100000000000000000000000000000000,
{
    assert(pow16(0) == 1);
    assert(pow16(1) == 0x10);
    assert(pow16(2) == 0x100);
    assert(pow16(3) == 0x1000);
    assert(pow16(4) == 0x10000);
    assert(pow16(5) == 0x100000);
    assert(pow16(6) == 0x1000000);
    assert(pow16(7) == 0x10000000);
    assert(pow16(8) == 0x100000000);
    assert(pow16(9) == 0x1000000000);
    assert(pow16(10) == 0x10000000000);
    assert(pow16(11) == 0x100000000000);
    assert(pow16(12) == 0x1000000000000);
    assert(pow16(13) == 0x10000000000000);
    assert(pow16(14) == 0x100000000000000);
    assert(pow16(15) == 0x1000000000000000);
    assert(pow16(16) == 0x10000000000000000);
    assert(pow16(17) == 0x100000000000000000);
    assert(pow16(18) == 0x1000000000000000000);
    assert(pow16(19) == 0x10000000000000000000);
    assert(pow16(20) == 0x100000000000000000000);
    assert(pow16(21) == 0x1000000000000000000000);
    assert(pow16(22) == 0x10000000000000000000000);
    assert(pow16(23) == 0x100000000000000000000000);
    assert(pow16(24) == 0x1000000000000000000000000);
    assert(pow16(25) == 0x10000000000000000000000000);
    assert(pow16(26) == 0x100000000000000000000000000);
    assert(pow16(27) == 0x1000000000000000000000000000);
    assert(pow16(28) == 0x10000000000000000000000000000);
    assert(pow16(29) == 0x100000000000000000000000000000);
    assert(pow16(30) == 0x1000000000000000000000000000000);
    assert(pow16(31) == 0x10000000000000000000000000000000);
    assert(pow16(32) == 0x100000000000000000000000000000000);
}

proof fn lemma_pow16_pos(k: nat)
    ensures
        pow16(k) >= 1,
    decreases k,
{
    if k > 0 {
        lemma_pow16_pos((k - 1) as nat);
    }
}

proof fn lemma_pow16_monotonic(a: nat, b: nat)
    requires
        a <= b,
    ensures
        pow16(a) <= pow16(b),
    decreases b,
{
    if a < b {
        lemma_pow16_monotonic(a, (b - 1) as nat);
        lemma_pow16_pos((b - 1) as nat);
    }
}

/// Splitting a digit sequence splits its value at the matching power.
proof fn lemma_hexseq_val_concat(a: Seq<char>, b: Seq<char>)
    ensures
        hexseq_val(a + b) == hexseq_val(a) * pow16(b.len()) + hexseq_val(b),
    decreases b.len(),
{
    if b.len() == 0 {
        assert(a + b =~= a);
    } else {
        lemma_hexseq_val_concat(a, b.drop_last());
        assert((a + b).drop_last() =~= a + b.drop_last());
        assert((a + b).last() == b.last());
        let va: int = hexseq_val(a);
        let p: int = pow16((b.len() - 1) as nat);
        assert((va * p) * 16 == va * (16 * p)) by (nonlinear_arith);
    }
}

proof fn lemma_hex_digits_len(v: int, n: nat)
    ensures
        hex_digits(v, n).len() == n,
        forall|i: int| 0 <= i < n ==> is_hex_digit(#[trigger] hex_digits(v, n)[i]),
    decreases n,
{
    if n > 0 {
        lemma_hex_digits_len(v / 16, (n - 1) as nat);
    }
}

/// Reading back the digits of `v` recovers `v`, for `v` within range.
proof fn lemma_hex_digits_val(v: int, n: nat)
    requires
        0 <= v < pow16(n),
    ensures
        hexseq_val(hex_digits(v, n)) == v,
    decreases n,
{
    if n == 0 {
    } else {
        let q: int = v / 16;
        let r: int = v % 16;
        lemma_pow16_pos((n - 1) as nat);
        assert(0 <= r < 16 && v == q * 16 + r && 0 <= q) by (nonlinear_arith)
            requires
                v >= 0,
                q == v / 16,
                r == v % 16,
        ;
        assert(q < pow16((n - 1) as nat)) by (nonlinear_arith)
            requires
                v < 16 * pow16((n - 1) as nat),
                q == v / 16,
                v >= 0,
                pow16((n - 1) as nat) >= 1,
        ;
        lemma_hex_digits_val(q, (n - 1) as nat);
        lemma_hex_digits_len(q, (n - 1) as nat);
        assert(hex_digits(v, n).drop_last() =~= hex_digits(q, (n - 1) as nat));
        assert(hex_val(hex_char(r)) == r);
    }
}

/// The round trip at the heart of subject handling: printing a value in
/// hyphenated form yields a well-formed string that denotes the value.
pub proof fn lemma_uuid_round_trip(v: int)
    requires
        0 <= v < pow16(32),
    ensures
        is_uuid_chars(uuid_chars(v)),
        uuid_val(uuid_chars(v)) == v,
{
    let d = hex_digits(v, 32);
    lemma_hex_digits_len(v, 32);
    let s = uuid_chars(v);
    assert(s.len() == 36);
    assert(s[8] == '-' && s[13] == '-' && s[18] == '-' && s[23] == '-');
    assert forall|i: int|
        0 <= i < 36 && i != 8 && i != 13 && i != 18 && i != 23 implies is_hex_digit(
        #[trigger] s[i],
    ) by {
        if i < 8 {
            assert(s[i] == d[i]);
        } else if i < 13 {
            assert(s[i] == d[i - 1]);
        } else if i < 18 {
            assert(s[i] == d[i - 2]);
        } else if i < 23 {
            assert(s[i] == d[i - 3]);
        } else {
            assert(s[i] == d[i - 4]);
        }
    }
    assert(uuid_hex_of(s) =~= d);
    lemma_hex_digits_val(v, 32);
}

/// The numeric value of one digit character, or `None` for any other.
fn hex_digit_value(c: char) -> (r: Option<u8>)
    ensures
        r is Some <==> is_hex_digit(c),
        r matches Some(d) ==> d as int == hex_val(c) && d < 16,
{
    let u = c as u32;
    if 48 <= u && u <= 57 {
        Some((u - 48) as u8)
    } else if 97 <= u && u <= 102 {
        Some((u - 87) as u8)
    } else if 65 <= u && u <= 70 {
        Some((u - 55) as u8)
    } else {
        None
    }
}

/// Reads the digit group `[from, to)` of `s` as a number.
fn parse_hex_group(s: &str, from: usize, to: usize) -> (r: Option<u64>)
    requires
        from <= to <= s@.len(),
        to - from <= 12,
    ensures
        r is Some <==> (forall|j: int| from <= j < to ==> is_hex_digit(#[trigger] s@[j])),
        r matches Some(v) ==> v as int == hexseq_val(s@.subrange(from as int, to as int)) && (
        v as int) < pow16((to - from) as nat),
{
    let mut acc: u64 = 0;
    let mut i: usize = from;
    proof {
        assert(s@.subrange(from as int, from as int) =~= Seq::<char>::empty());
        lemma_pow16_constants();
    }
    while i < to
        invariant
            from <= i <= to <= s@.len(),
            to - from <= 12,
            forall|j: int| from <= j < i ==> is_hex_digit(#[trigger] s@[j]),
            acc as int == hexseq_val(s@.subrange(from as int, i as int)),
            (acc as int) < pow16((i - from) as nat),
            pow16(11) == 0x100000000000,
            pow16(12) == 0x1000000000000,
        decreases to - i,
    {
        let c = s.get_char(i);
        match hex_digit_value(c) {
            None => {
                return None;
            },
            Some(d) => {
                proof {
                    lemma_pow16_monotonic((i - from) as nat, 11);
                    assert(acc * 16 <= (pow16(11) - 1) * 16) by (nonlinear_arith)
                        requires
                            acc as int <= pow16(11) - 1,
                    ;
                    assert(s@.subrange(from as int, i + 1).drop_last() =~= s@.subrange(
                        from as int,
                        i as int,
                    ));
                    assert(s@.subrange(from as int, i + 1).last() == s@[i as int]);
                }
                acc = acc * 16 + (d as u64);
                i = i + 1;
            },
        }
    }
    proof {
        assert(s@.subrange(from as int, to as int) =~= s@.subrange(from as int, i as int));
    }
    Some(acc)
}

impl UserId {
    /// Parses the hyphenated form. Returns the identity exactly when the
    /// string is well formed, and `None` otherwise.
    pub fn parse(s: &str) -> (r: Option<UserId>)
        ensures
            r is Some <==> is_uuid_chars(s@),
            r matches Some(u) ==> u.value as int == uuid_val(s@),
    {
        if s.unicode_len() != 36 {
            return None;
        }
        if s.get_char(8) != '-' || s.get_char(13) != '-' || s.get_char(18) != '-' || s.get_char(23)
            != '-' {
            return None;
        }
        let g0 = parse_hex_group(s, 0, 8);
        let g1 = parse_hex_group(s, 9, 13);
        let g2 = parse_hex_group(s, 14, 18);
        let g3 = parse_hex_group(s, 19, 23);
        let g4 = parse_hex_group(s, 24, 36);
        match (g0, g1, g2, g3, g4) {
            (Some(a), Some(b), Some(c), Some(d), Some(e)) => {
                proof {
                    lemma_pow16_constants();
                    lemma_uuid_combine(s@, a as int, b as int, c as int, d as int, e as int);
                }
                let ab: u64 = a * 0x10000 + b;
                let abc: u128 = (ab as u128) * 0x10000 + (c as u128);
                let abcd: u128 = abc * 0x10000 + (d as u128);
                let v: u128 = abcd * 0x1000000000000 + (e as u128);
                Some(UserId { value: v })
            },
            _ => {
                proof {
                    if is_uuid_chars(s@) {
                        assert(forall|j: int| 0 <= j < 8 ==> is_hex_digit(#[trigger] s@[j]));
                        assert(forall|j: int| 9 <= j < 13 ==> is_hex_digit(#[trigger] s@[j]));
                        assert(forall|j: int| 14 <= j < 18 ==> is_hex_digit(#[trigger] s@[j]));
                        assert(forall|j: int| 19 <= j < 23 ==> is_hex_digit(#[trigger] s@[j]));
                        assert(forall|j: int| 24 <= j < 36 ==> is_hex_digit(#[trigger] s@[j]));
                    }
                }
                None
            },
        }
    }

    /// Prints the canonical lower-case hyphenated form.
    pub fn to_hyphenated(&self) -> (r: String)
        ensures
            r@ == uuid_chars(self.value as int),
    {
        let digits = digit_chars(self.value);
        proof {
            lemma_hex_digits_len(self.value as int, 32);
        }
        let mut out: Vec<char> = Vec::new();
        push_range(&mut out, &digits, 0, 8);
        out.push('-');
        push_range(&mut out, &digits, 8, 12);
        out.push('-');
        push_range(&mut out, &digits, 12, 16);
        out.push('-');
        push_range(&mut out, &digits, 16, 20);
        out.push('-');
        push_range(&mut out, &digits, 20, 32);
        proof {
            assert(out@ =~= uuid_chars(self.value as int));
        }
        string_of_chars(&out)
    }
}

/// How the five parsed groups assemble into the full value.
proof fn lemma_uuid_combine(s: Seq<char>, a: int, b: int, c: int, d: int, e: int)
    requires
        s.len() == 36,
        a == hexseq_val(s.subrange(0, 8)),
        b == hexseq_val(s.subrange(9, 13)),
        c == hexseq_val(s.subrange(14, 18)),
        d == hexseq_val(s.subrange(19, 23)),
        e == hexseq_val(s.subrange(24, 36)),
        0 <= a < pow16(8),
        0 <= b < pow16(4),
        0 <= c < pow16(4),
        0 <= d < pow16(4),
        0 <= e < pow16(12),
    ensures
        uuid_val(s) == ((((a * pow16(4) + b) * pow16(4) + c) * pow16(4) + d) * pow16(12)) + e,
        0 <= uuid_val(s) < pow16(32),
{
    let sa = s.subrange(0, 8);
    let sb = s.subrange(9, 13);
    let sc = s.subrange(14, 18);
    let sd = s.subrange(19, 23);
    let se = s.subrange(24, 36);
    lemma_hexseq_val_concat(sa, sb);
    lemma_hexseq_val_concat(sa + sb, sc);
    lemma_hexseq_val_concat(sa + sb + sc, sd);
    lemma_hexseq_val_concat(sa + sb + sc + sd, se);
    assert(uuid_hex_of(s) == sa + sb + sc + sd + se);
    lemma_pow16_constants();
    let ab: int = a * pow16(4) + b;
    let abc: int = ab * pow16(4) + c;
    let abcd: int = abc * pow16(4) + d;
    assert(hexseq_val(sa + sb) == ab);
    assert(hexseq_val(sa + sb + sc) == abc);
    assert(hexseq_val(sa + sb + sc + sd) == abcd);
    assert(uuid_val(s) == abcd * pow16(12) + e);
    assert(pow16(12) == pow16(8) * pow16(4));
    assert(pow16(16) == pow16(12) * pow16(4));
    assert(pow16(20) == pow16(16) * pow16(4));
    assert(pow16(32) == pow16(20) * pow16(12));
    assert(0 <= ab < pow16(12)) by (nonlinear_arith)
        requires
            ab == a * pow16(4) + b,
            0 <= a < pow16(8),
            0 <= b < pow16(4),
            pow16(12) == pow16(8) * pow16(4),
            pow16(4) >= 1,
    ;
    assert(0 <= abc < pow16(16)) by (nonlinear_arith)
        requires
            abc == ab * pow16(4) + c,
            0 <= ab < pow16(12),
            0 <= c < pow16(4),
            pow16(16) == pow16(12) * pow16(4),
            pow16(4) >= 1,
    ;
    assert(0 <= abcd < pow16(20)) by (nonlinear_arith)
        requires
            abcd == abc * pow16(4) + d,
            0 <= abc < pow16(16),
            0 <= d < pow16(4),
            pow16(20) == pow16(16) * pow16(4),
            pow16(4) >= 1,
    ;
    assert(0 <= abcd * pow16(12) + e < pow16(32)) by (nonlinear_arith)
        requires
            0 <= abcd < pow16(20),
            0 <= e < pow16(12),
            pow16(32) == pow16(20) * pow16(12),
            pow16(12) >= 1,
    ;
}

/// The 32 digit characters of `v`, most significant first.
fn digit_chars(v: u128) -> (r: Vec<char>)
    ensures
        r@ =~= hex_digits(v as int, 32),
{
    let mut digits: Vec<char> = Vec::new();
    let mut x = v;
    let mut k: usize = 0;
    while k < 32
        invariant
            k <= 32,
            digits@.len() == k,
            hex_digits(v as int, 32) =~= hex_digits(x as int, (32 - k) as nat) + digits@,
        decreases 32 - k,
    {
        let d = (x % 16) as u8;
        let c = hex_char_of(d);
        proof {
            assert(x as int / 16 == (x / 16) as int);
            assert(hex_digits(x as int, (32 - k) as nat) =~= hex_digits(
                x as int / 16,
                (31 - k) as nat,
            ).push(c));
            assert(hex_digits(x as int / 16, (31 - k) as nat).push(c) + digits@ =~= hex_digits(
                x as int / 16,
                (31 - k) as nat,
            ) + digits@.insert(0, c));
        }
        digits.insert(0, c);
        x = x / 16;
        k = k + 1;
    }
    proof {
        assert(hex_digits(x as int, 0) =~= Seq::<char>::empty());
    }
    digits
}

fn hex_char_of(d: u8) -> (c: char)
    requires
        d < 16,
    ensures
        c == hex_char(d as int),
{
    match d {
        0 => '0',
        1 => '1',
        2 => '2',
        3 => '3',
        4 => '4',
        5 => '5',
        6 => '6',
        7 => '7',
        8 => '8',
        9 => '9',
        10 => 'a',
        11 => 'b',
        12 => 'c',
        13 => 'd',
        14 => 'e',
        _ => 'f',
    }
}

fn push_range(out: &mut Vec<char>, d: &Vec<char>, from: usize, to: usize)
    requires
        from <= to <= d@.len(),
    ensures
        final(out)@ == old(out)@ + d@.subrange(from as int, to as int),
{
    let mut i: usize = from;
    proof {
        assert(old(out)@ + d@.subrange(from as int, from as int) =~= old(out)@);
    }
    while i < to
        invariant
            from <= i <= to <= d@.len(),
            out@ =~= old(out)@ + d@.subrange(from as int, i as int),
        decreases to - i,
    {
        out.push(d[i]);
        proof {
            assert(old(out)@ + d@.subrange(from as int, i + 1) =~= (old(out)@ + d@.subrange(
                from as int,
                i as int,
            )).push(d@[i as int]));
        }
        i = i + 1;
    }
}

/// Relies on `String`'s `FromIterator<char>`: collecting characters
/// yields the string of exactly those characters, in order.
#[verifier::external_body]
fn string_of_chars(v: &Vec<char>) -> (r: String)
    ensures
        r@ == v@,
{
    v.iter().collect()
}

} // verus!
