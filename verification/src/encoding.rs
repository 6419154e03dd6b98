//! Base64 as RFC 4648 defines it with the standard alphabet and padding: the
//! encoding of upload contents, and the decoding that gives the bytes back.

use vstd::prelude::*;

verus! {

/// The character of the 6-bit value `v` in the standard alphabet
/// `A-Z`, `a-z`, `0-9`, `+`, `/`.
pub open spec fn base64_symbol(v: int) -> char {
    if v < 26 {
        (65 + v) as char
    } else if v < 52 {
        (71 + v) as char
    } else if v < 62 {
        (v - 4) as char
    } else if v == 62 {
        '+'
    } else {
        '/'
    }
}

/// The 6-bit value of a character of the standard alphabet (`-1` for any
/// other character).
pub open spec fn base64_value(c: char) -> int {
    let x = c as u32 as int;
    if 65 <= x <= 90 {
        x - 65
    } else if 97 <= x <= 122 {
        x - 71
    } else if 48 <= x <= 57 {
        x + 4
    } else if c == '+' {
        62
    } else if c == '/' {
        63
    } else {
        -1
    }
}

/// The padded standard base64 text of `b`: every three bytes, read as a
/// 24-bit number, give four characters of six bits each; a final one or two
/// bytes give two or three characters, padded with `=` to four.
pub open spec fn base64_standard(b: Seq<u8>) -> Seq<char>
    decreases b.len(),
{
    if b.len() == 0 {
        seq![]
    } else if b.len() == 1 {
        let n = b[0] as int;
        seq![base64_symbol(n / 4), base64_symbol((n % 4) * 16), '=', '=']
    } else if b.len() == 2 {
        let n = b[0] as int * 256 + b[1] as int;
        seq![base64_symbol(n / 1024), base64_symbol((n / 16) % 64), base64_symbol((n % 16) * 4), '=']
    } else {
        let n = b[0] as int * 65536 + b[1] as int * 256 + b[2] as int;
        seq![
            base64_symbol(n / 262144),
            base64_symbol((n / 4096) % 64),
            base64_symbol((n / 64) % 64),
            base64_symbol(n % 64),
        ] + base64_standard(b.skip(3))
    }
}

/// The bytes that padded standard base64 text `s` stands for, read four
/// characters at a time; a group with `=` in its third or fourth place ends
/// with one or two bytes.
pub open spec fn base64_decoded(s: Seq<char>) -> Seq<u8>
    decreases s.len(),
{
    if s.len() < 4 {
        seq![]
    } else {
        let a = base64_value(s[0]);
        let b = base64_value(s[1]);
        let c = base64_value(s[2]);
        let d = base64_value(s[3]);
        let first = (a * 4 + b / 16) as u8;
        if s[2] == '=' {
            seq![first]
        } else if s[3] == '=' {
            seq![first, ((b % 16) * 16 + c / 4) as u8]
        } else {
            seq![first, ((b % 16) * 16 + c / 4) as u8, ((c % 4) * 64 + d) as u8]
                + base64_decoded(s.skip(4))
        }
    }
}

proof fn lemma_symbol(v: int)
    requires
        0 <= v < 64,
    ensures
        base64_value(base64_symbol(v)) == v,
        base64_symbol(v) != '=',
{
}

proof fn lemma_three_bytes(x: u8, y: u8, z: u8)
    ensures
        ({
            let n = x as int * 65536 + y as int * 256 + z as int;
            let a = n / 262144;
            let b = (n / 4096) % 64;
            let c = (n / 64) % 64;
            let d = n % 64;
            &&& 0 <= a < 64 && 0 <= b < 64 && 0 <= c < 64 && 0 <= d < 64
            &&& a * 4 + b / 16 == x
            &&& (b % 16) * 16 + c / 4 == y
            &&& (c % 4) * 64 + d == z
        }),
{
    assert(((x as int * 65536 + y as int * 256 + z as int) / 262144) * 4 + ((x as int * 65536
        + y as int * 256 + z as int) / 4096) % 64 / 16 == x) by (nonlinear_arith);
    assert(((((x as int * 65536 + y as int * 256 + z as int) / 4096) % 64) % 16) * 16 + ((x as int
        * 65536 + y as int * 256 + z as int) / 64) % 64 / 4 == y) by (nonlinear_arith);
    assert(((((x as int * 65536 + y as int * 256 + z as int) / 64) % 64) % 4) * 64 + (x as int
        * 65536 + y as int * 256 + z as int) % 64 == z) by (nonlinear_arith);
    assert((x as int * 65536 + y as int * 256 + z as int) / 262144 < 64) by (nonlinear_arith);
}

proof fn lemma_round_trip_one(b: Seq<u8>)
    requires
        b.len() == 1,
    ensures
        base64_decoded(base64_standard(b)) == b,
{
    let n = b[0] as int;
    let s = base64_standard(b);
    lemma_symbol(n / 4);
    lemma_symbol((n % 4) * 16);
    assert(s[2] == '=');
    assert(base64_value(s[0]) * 4 + base64_value(s[1]) / 16 == n);
    assert(base64_decoded(s) =~= b);
}

proof fn lemma_two_bytes(x: u8, y: u8)
    ensures
        ({
            let n = x as int * 256 + y as int;
            let p = n / 1024;
            let q = (n / 16) % 64;
            let r = (n % 16) * 4;
            &&& 0 <= p < 64 && 0 <= q < 64 && 0 <= r < 64
            &&& p * 4 + q / 16 == x
            &&& (q % 16) * 16 + r / 4 == y
        }),
{
    assert(((x as int * 256 + y as int) / 1024) * 4 + ((x as int * 256 + y as int) / 16) % 64 / 16
        == x) by (nonlinear_arith);
    assert(((((x as int * 256 + y as int) / 16) % 64) % 16) * 16 + ((x as int * 256 + y as int)
        % 16) * 4 / 4 == y) by (nonlinear_arith);
    assert((x as int * 256 + y as int) / 1024 < 64) by (nonlinear_arith);
}

proof fn lemma_round_trip_two(b: Seq<u8>)
    requires
        b.len() == 2,
    ensures
        base64_decoded(base64_standard(b)) == b,
{
    let n = b[0] as int * 256 + b[1] as int;
    let s = base64_standard(b);
    let (p, q, r) = (n / 1024, (n / 16) % 64, (n % 16) * 4);
    lemma_two_bytes(b[0], b[1]);
    lemma_symbol(p);
    lemma_symbol(q);
    lemma_symbol(r);
    assert(s[2] != '=' && s[3] == '=');
    assert(base64_decoded(s) =~= b);
}

#[verifier::spinoff_prover]
proof fn lemma_round_trip_chunk(b: Seq<u8>)
    requires
        b.len() >= 3,
        base64_decoded(base64_standard(b.skip(3))) == b.skip(3),
    ensures
        base64_decoded(base64_standard(b)) == b,
{
    let n = b[0] as int * 65536 + b[1] as int * 256 + b[2] as int;
    let s = base64_standard(b);
    let rest = base64_standard(b.skip(3));
    lemma_three_bytes(b[0], b[1], b[2]);
    let (w, x, y, z) = (n / 262144, (n / 4096) % 64, (n / 64) % 64, n % 64);
    lemma_symbol(w);
    lemma_symbol(x);
    lemma_symbol(y);
    lemma_symbol(z);
    assert(s == seq![base64_symbol(w), base64_symbol(x), base64_symbol(y), base64_symbol(z)]
        + rest);
    assert(s.skip(4) =~= rest);
    assert(s[2] != '=' && s[3] != '=');
    let head: Seq<u8> = seq![b[0], b[1], b[2]];
    assert(base64_decoded(s) == head + base64_decoded(rest));
    assert(b =~= head + b.skip(3));
}

/// Decoding the padded standard base64 text of any bytes gives the bytes back.
pub proof fn lemma_base64_round_trip(b: Seq<u8>)
    ensures
        base64_decoded(base64_standard(b)) == b,
    decreases b.len(),
{
    if b.len() == 0 {
        assert(base64_decoded(base64_standard(b)) =~= b);
    } else if b.len() == 1 {
        lemma_round_trip_one(b);
    } else if b.len() == 2 {
        lemma_round_trip_two(b);
    } else {
        lemma_base64_round_trip(b.skip(3));
        lemma_round_trip_chunk(b);
    }
}

/// The padded standard base64 text of `b` has four characters for every
/// three bytes begun.
pub proof fn lemma_base64_length(b: Seq<u8>)
    ensures
        base64_standard(b).len() == 4 * ((b.len() + 2) / 3),
    decreases b.len(),
{
    if b.len() >= 3 {
        lemma_base64_length(b.skip(3));
    }
}

} // verus!
