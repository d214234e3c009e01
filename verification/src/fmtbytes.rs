//! ASCII rendering and parsing of the numeric fields that make up
//! trace-log lines: decimal and hexadecimal numbers, zero-padded decimal
//! fractions, two-digit byte dumps, and space-separated token lists.
//!
//! Rendering and parsing are both specified over byte sequences, and the
//! lemmas here prove that parsing inverts rendering; the trace writer and
//! its re-parser build on exactly these facts.

use vstd::prelude::*;

verus! {

/// ASCII code of the space that separates tokens in a trace line.
pub const SPACE: u8 = 32;

/// Whether a byte is an ASCII decimal digit.
pub open spec fn is_dec_digit(b: u8) -> bool {
    48 <= b <= 57
}

/// Whether a byte is an ASCII uppercase hexadecimal digit.
pub open spec fn is_hex_digit(b: u8) -> bool {
    is_dec_digit(b) || (65 <= b <= 70)
}

/// The ASCII digit for a value below ten.
pub open spec fn dec_digit(d: nat) -> u8
    recommends
        d < 10,
{
    (48 + d) as u8
}

/// The ASCII uppercase digit for a value below sixteen.
pub open spec fn hex_digit(d: nat) -> u8
    recommends
        d < 16,
{
    if d < 10 {
        (48 + d) as u8
    } else {
        (55 + d) as u8
    }
}

/// The numeric value of a decimal or uppercase hexadecimal digit byte.
pub open spec fn digit_val(b: u8) -> nat {
    if b <= 57 {
        (b - 48) as nat
    } else {
        (b - 55) as nat
    }
}

/// Decimal rendering of a number, most significant digit first, without
/// leading zeros (zero itself renders as one digit).
pub open spec fn dec_seq(n: nat) -> Seq<u8>
    decreases n,
{
    if n < 10 {
        seq![dec_digit(n)]
    } else {
        dec_seq(n / 10).push(dec_digit(n % 10))
    }
}

/// Uppercase hexadecimal rendering of a number, most significant digit
/// first, without leading zeros.
pub open spec fn hex_seq(n: nat) -> Seq<u8>
    decreases n,
{
    if n < 16 {
        seq![hex_digit(n)]
    } else {
        hex_seq(n / 16).push(hex_digit(n % 16))
    }
}

/// Decimal rendering of the lowest `width` digits of a number, zero
/// padded to exactly `width` bytes.
pub open spec fn dec_pad_seq(n: nat, width: nat) -> Seq<u8>
    decreases width,
{
    if width == 0 {
        Seq::empty()
    } else {
        dec_pad_seq(n / 10, (width - 1) as nat).push(dec_digit(n % 10))
    }
}

/// Two-digit uppercase hexadecimal rendering of one byte.
pub open spec fn hex_byte_seq(b: u8) -> Seq<u8> {
    seq![hex_digit((b / 16) as nat), hex_digit((b % 16) as nat)]
}

/// Whether every byte of a sequence is a decimal digit.
pub open spec fn all_dec_digits(s: Seq<u8>) -> bool {
    forall|i: int| 0 <= i < s.len() ==> is_dec_digit(s[i])
}

/// Whether every byte of a sequence is an uppercase hexadecimal digit.
pub open spec fn all_hex_digits(s: Seq<u8>) -> bool {
    forall|i: int| 0 <= i < s.len() ==> is_hex_digit(s[i])
}

/// The number a sequence of decimal digits denotes.
pub open spec fn dec_val(s: Seq<u8>) -> nat
    decreases s.len(),
{
    if s.len() == 0 {
        0
    } else {
        dec_val(s.drop_last()) * 10 + digit_val(s.last())
    }
}

/// The number a sequence of hexadecimal digits denotes.
pub open spec fn hex_val(s: Seq<u8>) -> nat
    decreases s.len(),
{
    if s.len() == 0 {
        0
    } else {
        hex_val(s.drop_last()) * 16 + digit_val(s.last())
    }
}

/// A decimal rendering is never empty and holds digits only.
pub proof fn lemma_dec_seq_digits(n: nat)
    ensures
        dec_seq(n).len() >= 1,
        all_dec_digits(dec_seq(n)),
    decreases n,
{
    if n < 10 {
    } else {
        lemma_dec_seq_digits(n / 10);
        assert forall|i: int| 0 <= i < dec_seq(n).len() implies is_dec_digit(dec_seq(n)[i]) by {
            if i < dec_seq(n / 10).len() {
                assert(dec_seq(n)[i] == dec_seq(n / 10)[i]);
            }
        }
    }
}

/// A hexadecimal rendering is never empty and holds hex digits only.
pub proof fn lemma_hex_seq_digits(n: nat)
    ensures
        hex_seq(n).len() >= 1,
        all_hex_digits(hex_seq(n)),
    decreases n,
{
    if n < 16 {
    } else {
        lemma_hex_seq_digits(n / 16);
        assert forall|i: int| 0 <= i < hex_seq(n).len() implies is_hex_digit(hex_seq(n)[i]) by {
            if i < hex_seq(n / 16).len() {
                assert(hex_seq(n)[i] == hex_seq(n / 16)[i]);
            }
        }
    }
}

/// A padded decimal rendering has exactly its width and holds digits only.
pub proof fn lemma_dec_pad_seq_digits(n: nat, width: nat)
    ensures
        dec_pad_seq(n, width).len() == width,
        all_dec_digits(dec_pad_seq(n, width)),
    decreases width,
{
    if width == 0 {
    } else {
        lemma_dec_pad_seq_digits(n / 10, (width - 1) as nat);
        let s = dec_pad_seq(n, width);
        assert forall|i: int| 0 <= i < s.len() implies is_dec_digit(s[i]) by {
            if i < s.len() - 1 {
                assert(s[i] == dec_pad_seq(n / 10, (width - 1) as nat)[i]);
            }
        }
    }
}

/// Parsing a decimal rendering gives the number back.
pub proof fn lemma_dec_roundtrip(n: nat)
    ensures
        dec_val(dec_seq(n)) == n,
    decreases n,
{
    if n < 10 {
        let s = dec_seq(n);
        assert(s =~= seq![dec_digit(n)]);
        assert(s.drop_last() =~= Seq::<u8>::empty());
        assert(s.last() == dec_digit(n));
        assert(dec_digit(n) == (48 + n) as u8);
        assert(digit_val(dec_digit(n)) == n);
        assert(dec_val(s) == dec_val(s.drop_last()) * 10 + digit_val(s.last()));
        assert(dec_val(Seq::<u8>::empty()) == 0);
    } else {
        lemma_dec_roundtrip(n / 10);
        let s = dec_seq(n);
        assert(s == dec_seq(n / 10).push(dec_digit(n % 10)));
        assert(s.drop_last() =~= dec_seq(n / 10));
        assert(s.last() == dec_digit(n % 10));
        assert(digit_val(dec_digit(n % 10)) == n % 10);
        assert(dec_val(s) == dec_val(s.drop_last()) * 10 + digit_val(s.last()));
        assert(dec_val(s) == (n / 10) * 10 + n % 10);
    }
}

/// Parsing a hexadecimal rendering gives the number back.
pub proof fn lemma_hex_roundtrip(n: nat)
    ensures
        hex_val(hex_seq(n)) == n,
    decreases n,
{
    if n < 16 {
        let s = hex_seq(n);
        assert(s =~= seq![hex_digit(n)]);
        assert(s.drop_last() =~= Seq::<u8>::empty());
        assert(s.last() == hex_digit(n));
        assert(digit_val(hex_digit(n)) == n);
        assert(hex_val(s) == hex_val(s.drop_last()) * 16 + digit_val(s.last()));
        assert(hex_val(Seq::<u8>::empty()) == 0);
    } else {
        lemma_hex_roundtrip(n / 16);
        let s = hex_seq(n);
        assert(s == hex_seq(n / 16).push(hex_digit(n % 16)));
        assert(s.drop_last() =~= hex_seq(n / 16));
        assert(s.last() == hex_digit(n % 16));
        assert(digit_val(hex_digit(n % 16)) == n % 16);
        assert(hex_val(s) == hex_val(s.drop_last()) * 16 + digit_val(s.last()));
        assert(hex_val(s) == (n / 16) * 16 + n % 16);
    }
}

/// Parsing the two hexadecimal digits of a byte gives the byte back.
pub proof fn lemma_hex_byte_roundtrip(b: u8)
    ensures
        hex_byte_seq(b).len() == 2,
        all_hex_digits(hex_byte_seq(b)),
        hex_val(hex_byte_seq(b)) == b,
{
    let s = hex_byte_seq(b);
    assert(s.drop_last() =~= seq![hex_digit((b / 16) as nat)]);
    assert(s.drop_last().drop_last() =~= Seq::<u8>::empty());
    assert(s.last() == hex_digit((b % 16) as nat));
    assert(s.drop_last().last() == hex_digit((b / 16) as nat));
    assert(digit_val(hex_digit((b / 16) as nat)) == b / 16);
    assert(digit_val(hex_digit((b % 16) as nat)) == b % 16);
    assert(hex_val(s) == hex_val(s.drop_last()) * 16 + digit_val(s.last()));
    assert(hex_val(s.drop_last()) == hex_val(s.drop_last().drop_last()) * 16 + digit_val(
        s.drop_last().last(),
    ));
    assert(hex_val(Seq::<u8>::empty()) == 0);
    assert(hex_val(s) == (b / 16) * 16 + b % 16);
}

/// A digit prefix never denotes more than the whole digit string.
pub proof fn lemma_dec_val_take_le(s: Seq<u8>, i: int)
    requires
        0 <= i <= s.len(),
    ensures
        dec_val(s.take(i)) <= dec_val(s),
    decreases s.len() - i,
{
    if i == s.len() {
        assert(s.take(i) =~= s);
    } else {
        lemma_dec_val_take_le(s, i + 1);
        assert(s.take(i + 1).drop_last() =~= s.take(i));
        assert(dec_val(s.take(i + 1)) == dec_val(s.take(i)) * 10 + digit_val(s[i]));
    }
}

/// A digit prefix never denotes more than the whole hex digit string.
pub proof fn lemma_hex_val_take_le(s: Seq<u8>, i: int)
    requires
        0 <= i <= s.len(),
    ensures
        hex_val(s.take(i)) <= hex_val(s),
    decreases s.len() - i,
{
    if i == s.len() {
        assert(s.take(i) =~= s);
    } else {
        lemma_hex_val_take_le(s, i + 1);
        assert(s.take(i + 1).drop_last() =~= s.take(i));
        assert(hex_val(s.take(i + 1)) == hex_val(s.take(i)) * 16 + digit_val(s[i]));
    }
}

/// Appends the decimal rendering of `n`.
pub fn push_dec_u64(out: &mut Vec<u8>, n: u64)
    ensures
        final(out)@ == old(out)@ + dec_seq(n as nat),
    decreases n,
{
    if n >= 10 {
        push_dec_u64(out, n / 10);
    }
    out.push((n % 10) as u8 + 48);
    assert(out@ =~= old(out)@ + dec_seq(n as nat));
}

/// Appends the uppercase hexadecimal rendering of `n`.
pub fn push_hex_u64(out: &mut Vec<u8>, n: u64)
    ensures
        final(out)@ == old(out)@ + hex_seq(n as nat),
    decreases n,
{
    if n >= 16 {
        push_hex_u64(out, n / 16);
    }
    let d = (n % 16) as u8;
    out.push(if d < 10 { d + 48 } else { d + 55 });
    assert(out@ =~= old(out)@ + hex_seq(n as nat));
}

/// Appends the lowest `width` decimal digits of `n`, zero padded.
pub fn push_dec_pad(out: &mut Vec<u8>, n: u64, width: usize)
    ensures
        final(out)@ == old(out)@ + dec_pad_seq(n as nat, width as nat),
    decreases width,
{
    if width > 0 {
        push_dec_pad(out, n / 10, width - 1);
        out.push((n % 10) as u8 + 48);
    }
    assert(out@ =~= old(out)@ + dec_pad_seq(n as nat, width as nat));
}

/// Appends the two-digit uppercase hexadecimal rendering of one byte.
pub fn push_hex_byte(out: &mut Vec<u8>, b: u8)
    ensures
        final(out)@ == old(out)@ + hex_byte_seq(b),
{
    let hi = b / 16;
    let lo = b % 16;
    out.push(if hi < 10 { hi + 48 } else { hi + 55 });
    out.push(if lo < 10 { lo + 48 } else { lo + 55 });
    assert(out@ =~= old(out)@ + hex_byte_seq(b));
}

/// What a decimal token denotes: its value, provided the token is
/// non-empty, all digits, and fits the 64-bit range.
pub open spec fn parse_dec_spec(s: Seq<u8>) -> Option<nat> {
    if s.len() >= 1 && all_dec_digits(s) && dec_val(s) <= u64::MAX {
        Some(dec_val(s))
    } else {
        None
    }
}

/// What a hexadecimal token denotes, under the same conditions.
pub open spec fn parse_hex_spec(s: Seq<u8>) -> Option<nat> {
    if s.len() >= 1 && all_hex_digits(s) && hex_val(s) <= u64::MAX {
        Some(hex_val(s))
    } else {
        None
    }
}

/// Parses a decimal token; rejects an empty token, a non-digit byte, and
/// a value beyond the 64-bit range.
pub fn parse_dec_u64(tok: &Vec<u8>) -> (r: Option<u64>)
    ensures
        r matches Some(v) ==> parse_dec_spec(tok@) == Some(v as nat),
        r is None ==> parse_dec_spec(tok@) is None,
{
    if tok.len() == 0 {
        return None;
    }
    let mut val: u64 = 0;
    let mut i: usize = 0;
    while i < tok.len()
        invariant
            i <= tok@.len(),
            all_dec_digits(tok@.take(i as int)),
            val == dec_val(tok@.take(i as int)),
        decreases tok@.len() - i,
    {
        let b = tok[i];
        if !(48 <= b && b <= 57) {
            return None;
        }
        let d = b - 48;
        proof {
            assert(tok@.take(i + 1).drop_last() =~= tok@.take(i as int));
        }
        if val > (u64::MAX - d as u64) / 10 {
            proof {
                lemma_dec_val_take_le(tok@, i + 1);
            }
            return None;
        }
        val = val * 10 + d as u64;
        i += 1;
    }
    proof {
        assert(tok@.take(tok@.len() as int) =~= tok@);
    }
    Some(val)
}

/// Parses a hexadecimal token; rejects an empty token, a byte outside the
/// uppercase hex digits, and a value beyond the 64-bit range.
pub fn parse_hex_u64(tok: &Vec<u8>) -> (r: Option<u64>)
    ensures
        r matches Some(v) ==> parse_hex_spec(tok@) == Some(v as nat),
        r is None ==> parse_hex_spec(tok@) is None,
{
    if tok.len() == 0 {
        return None;
    }
    let mut val: u64 = 0;
    let mut i: usize = 0;
    while i < tok.len()
        invariant
            i <= tok@.len(),
            all_hex_digits(tok@.take(i as int)),
            val == hex_val(tok@.take(i as int)),
        decreases tok@.len() - i,
    {
        let b = tok[i];
        let d: u8 = if 48 <= b && b <= 57 {
            b - 48
        } else if 65 <= b && b <= 70 {
            b - 55
        } else {
            return None;
        };
        proof {
            assert(tok@.take(i + 1).drop_last() =~= tok@.take(i as int));
        }
        if val > (u64::MAX - d as u64) / 16 {
            proof {
                lemma_hex_val_take_le(tok@, i + 1);
            }
            return None;
        }
        val = val * 16 + d as u64;
        i += 1;
    }
    proof {
        assert(tok@.take(tok@.len() as int) =~= tok@);
    }
    Some(val)
}

/// The tokens of a byte sequence, split on single spaces; splitting the
/// empty sequence gives one empty token.
pub open spec fn split_sp_acc(s: Seq<u8>, cur: Seq<u8>, acc: Seq<Seq<u8>>) -> Seq<Seq<u8>>
    decreases s.len(),
{
    if s.len() == 0 {
        acc.push(cur)
    } else if s[0] == SPACE {
        split_sp_acc(s.drop_first(), Seq::empty(), acc.push(cur))
    } else {
        split_sp_acc(s.drop_first(), cur.push(s[0]), acc)
    }
}

/// The tokens of a byte sequence, split on single spaces.
pub open spec fn split_sp(s: Seq<u8>) -> Seq<Seq<u8>> {
    split_sp_acc(s, Seq::empty(), Seq::empty())
}

/// The tokens joined with single spaces between them.
pub open spec fn join_sp(ts: Seq<Seq<u8>>) -> Seq<u8>
    decreases ts.len(),
{
    if ts.len() == 0 {
        Seq::empty()
    } else if ts.len() == 1 {
        ts[0]
    } else {
        ts[0] + seq![SPACE] + join_sp(ts.drop_first())
    }
}

/// Joining two non-empty token lists joins each part and puts one space
/// between them.
pub proof fn lemma_join_concat(a: Seq<Seq<u8>>, b: Seq<Seq<u8>>)
    requires
        a.len() >= 1,
        b.len() >= 1,
    ensures
        join_sp(a + b) == join_sp(a) + seq![SPACE] + join_sp(b),
    decreases a.len(),
{
    if a.len() == 1 {
        assert((a + b).drop_first() =~= b);
        assert((a + b)[0] == a[0]);
        assert(join_sp(a + b) =~= join_sp(a) + seq![SPACE] + join_sp(b));
    } else {
        assert((a + b).drop_first() =~= a.drop_first() + b);
        assert((a + b)[0] == a[0]);
        lemma_join_concat(a.drop_first(), b);
        assert(join_sp(a + b) =~= join_sp(a) + seq![SPACE] + join_sp(b));
    }
}

/// Whether a token holds no space, so that joining keeps it intact.
pub open spec fn space_free(t: Seq<u8>) -> bool {
    forall|i: int| 0 <= i < t.len() ==> t[i] != SPACE
}

/// Scanning a space-free token moves it whole into the current token.
proof fn lemma_split_acc_token(t: Seq<u8>, rest: Seq<u8>, cur: Seq<u8>, acc: Seq<Seq<u8>>)
    requires
        space_free(t),
    ensures
        split_sp_acc(t + rest, cur, acc) == split_sp_acc(rest, cur + t, acc),
    decreases t.len(),
{
    if t.len() == 0 {
        assert(t + rest =~= rest);
        assert(cur + t =~= cur);
    } else {
        assert((t + rest)[0] == t[0]);
        assert((t + rest).drop_first() =~= t.drop_first() + rest);
        assert(cur.push(t[0]) + t.drop_first() =~= cur + t);
        lemma_split_acc_token(t.drop_first(), rest, cur.push(t[0]), acc);
    }
}

/// Splitting a join of space-free tokens gives the tokens back, whatever
/// stands in the accumulator already.
proof fn lemma_split_acc_join(ts: Seq<Seq<u8>>, acc: Seq<Seq<u8>>)
    requires
        ts.len() >= 1,
        forall|i: int| 0 <= i < ts.len() ==> space_free(#[trigger] ts[i]),
    ensures
        split_sp_acc(join_sp(ts), Seq::empty(), acc) == acc + ts,
    decreases ts.len(),
{
    if ts.len() == 1 {
        lemma_split_acc_token(ts[0], Seq::empty(), Seq::empty(), acc);
        assert(ts[0] + Seq::<u8>::empty() =~= ts[0]);
        assert(Seq::<u8>::empty() + ts[0] =~= ts[0]);
        assert(acc.push(ts[0]) =~= acc + ts);
    } else {
        let tail = seq![SPACE] + join_sp(ts.drop_first());
        assert(join_sp(ts) =~= ts[0] + tail);
        lemma_split_acc_token(ts[0], tail, Seq::empty(), acc);
        assert(Seq::<u8>::empty() + ts[0] =~= ts[0]);
        assert(tail[0] == SPACE);
        assert(tail.drop_first() =~= join_sp(ts.drop_first()));
        assert(forall|i: int|
            0 <= i < ts.drop_first().len() ==> space_free(#[trigger] ts.drop_first()[i]));
        lemma_split_acc_join(ts.drop_first(), acc.push(ts[0]));
        assert(acc.push(ts[0]) + ts.drop_first() =~= acc + ts);
    }
}

/// Splitting on spaces inverts joining with spaces, for space-free tokens.
pub proof fn lemma_split_join(ts: Seq<Seq<u8>>)
    requires
        ts.len() >= 1,
        forall|i: int| 0 <= i < ts.len() ==> space_free(#[trigger] ts[i]),
    ensures
        split_sp(join_sp(ts)) == ts,
    decreases ts.len(),
{
    lemma_split_acc_join(ts, Seq::empty());
    assert(Seq::<Seq<u8>>::empty() + ts =~= ts);
}

/// The views of a vector of byte tokens.
pub open spec fn deep_view_of(ts: Seq<Vec<u8>>) -> Seq<Seq<u8>> {
    ts.map_values(|t: Vec<u8>| t@)
}

/// Splits a line on single spaces into its tokens.
pub fn split_spaces(line: &Vec<u8>) -> (toks: Vec<Vec<u8>>)
    ensures
        deep_view_of(toks@) == split_sp(line@),
        toks@.len() >= 1,
{
    let mut toks: Vec<Vec<u8>> = Vec::new();
    let mut cur: Vec<u8> = Vec::new();
    let mut i: usize = 0;
    proof {
        assert(line@.skip(0) =~= line@);
        assert(deep_view_of(toks@) =~= Seq::<Seq<u8>>::empty());
        assert(cur@ =~= Seq::<u8>::empty());
    }
    while i < line.len()
        invariant
            i <= line@.len(),
            split_sp(line@) == split_sp_acc(line@.skip(i as int), cur@, deep_view_of(toks@)),
        decreases line@.len() - i,
    {
        let b = line[i];
        proof {
            assert(line@.skip(i as int)[0] == line@[i as int]);
            assert(line@.skip(i as int).drop_first() =~= line@.skip(i + 1));
        }
        let ghost prev_toks = deep_view_of(toks@);
        let ghost prev_cur = cur@;
        if b == SPACE {
            toks.push(cur);
            cur = Vec::new();
            proof {
                assert(deep_view_of(toks@) =~= prev_toks.push(prev_cur));
            }
        } else {
            cur.push(b);
        }
        i += 1;
    }
    proof {
        assert(line@.skip(line@.len() as int) =~= Seq::<u8>::empty());
    }
    toks.push(cur);
    proof {
        assert(deep_view_of(toks@) =~= split_sp(line@));
    }
    toks
}

} // verus!
