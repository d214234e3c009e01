//! A conforming reader for frame lines of the industry trace format, and
//! the proof that it recovers exactly what the trace writer wrote: the
//! 1-based channel, the 29-bit identifier, the data-length code, and the
//! payload bytes.

use vstd::prelude::*;

use crate::dlc::can_dlc_to_len;
use crate::dlc::dlc_len;
use crate::events::CAN_ID_29_BIT_MASK;
use crate::events::FrameModel;
use crate::fmtbytes::SPACE;
use crate::fmtbytes::all_dec_digits;
use crate::fmtbytes::all_hex_digits;
use crate::fmtbytes::dec_seq;
use crate::fmtbytes::dec_pad_seq;
use crate::fmtbytes::digit_val;
use crate::fmtbytes::hex_byte_seq;
use crate::fmtbytes::hex_seq;
use crate::fmtbytes::hex_val;
use crate::fmtbytes::is_dec_digit;
use crate::fmtbytes::is_hex_digit;
use crate::fmtbytes::lemma_dec_roundtrip;
use crate::fmtbytes::lemma_dec_seq_digits;
use crate::fmtbytes::lemma_dec_pad_seq_digits;
use crate::fmtbytes::lemma_hex_byte_roundtrip;
use crate::fmtbytes::lemma_hex_roundtrip;
use crate::fmtbytes::lemma_hex_seq_digits;
use crate::fmtbytes::lemma_split_join;
use crate::fmtbytes::parse_dec_spec;
use crate::fmtbytes::parse_hex_spec;
use crate::fmtbytes::parse_dec_u64;
use crate::fmtbytes::parse_hex_u64;
use crate::fmtbytes::space_free;
use crate::fmtbytes::split_sp;
use crate::fmtbytes::split_spaces;
use crate::fmtbytes::deep_view_of;
use crate::trace::asc_line_spec;
use crate::trace::asc_tokens;
use crate::trace::d_token;
use crate::trace::payload_tokens;
use crate::trace::rx_token;
use crate::trace::ts_token;

verus! {

/// Mathematical image of the fields read back from one frame line.
pub ghost struct ParsedFrameModel {
    pub channel: u32,
    pub can_id: u32,
    pub dlc: u8,
    pub payload: Seq<u8>,
}

/// The fields read back from one frame line: the 1-based channel number,
/// the 29-bit identifier, the data-length code, and the payload bytes.
pub struct ParsedAscFrame {
    pub channel: u32,
    pub can_id: u32,
    pub dlc: u8,
    pub payload: Vec<u8>,
}

impl View for ParsedAscFrame {
    type V = ParsedFrameModel;

    open spec fn view(&self) -> ParsedFrameModel {
        ParsedFrameModel {
            channel: self.channel,
            can_id: self.can_id,
            dlc: self.dlc,
            payload: self.payload@,
        }
    }
}

/// The payload bytes a run of two-digit hex tokens denotes.
pub open spec fn parse_payload_tokens(toks: Seq<Seq<u8>>) -> Option<Seq<u8>>
    decreases toks.len(),
{
    if toks.len() == 0 {
        Some(Seq::<u8>::empty())
    } else if toks[0].len() == 2 && all_hex_digits(toks[0]) {
        match parse_payload_tokens(toks.drop_first()) {
            Some(rest) => Some(seq![hex_val(toks[0]) as u8] + rest),
            None => None,
        }
    } else {
        None
    }
}

/// What one frame line denotes, if it is well formed: after splitting on
/// spaces, the second field is the decimal channel, the third the hex
/// identifier (29 bits), the fourth and fifth the direction and length
/// markers, the sixth the decimal data-length code, and the rest the
/// payload bytes, whose count must match the code (a frame without
/// payload leaves one empty trailing field).
pub open spec fn parse_asc_spec(line: Seq<u8>) -> Option<ParsedFrameModel> {
    let toks = split_sp(line);
    if toks.len() >= 7 && toks[3] == rx_token() && toks[4] == d_token() {
        match (parse_dec_spec(toks[1]), parse_hex_spec(toks[2]), parse_dec_spec(toks[5])) {
            (Some(ch), Some(id), Some(dlc)) => {
                if ch <= u32::MAX && id <= CAN_ID_29_BIT_MASK && dlc <= 255 {
                    let pay = if toks.len() == 7 && toks[6].len() == 0 {
                        Some(Seq::<u8>::empty())
                    } else {
                        parse_payload_tokens(toks.skip(6))
                    };
                    match pay {
                        Some(p) => if p.len() == dlc_len(dlc as u8) {
                            Some(
                                ParsedFrameModel {
                                    channel: ch as u32,
                                    can_id: id as u32,
                                    dlc: dlc as u8,
                                    payload: p,
                                },
                            )
                        } else {
                            None
                        },
                        None => None,
                    }
                } else {
                    None
                }
            },
            _ => None,
        }
    } else {
        None
    }
}

/// Two hex digits denote a value below 256.
proof fn lemma_hex_pair_bound(s: Seq<u8>)
    requires
        s.len() == 2,
        all_hex_digits(s),
    ensures
        hex_val(s) < 256,
{
    assert(is_hex_digit(s[0]) && is_hex_digit(s[1]));
    assert(digit_val(s[0]) < 16 && digit_val(s[1]) < 16);
    assert(hex_val(s) == hex_val(s.drop_last()) * 16 + digit_val(s.last()));
    assert(hex_val(s.drop_last()) == hex_val(s.drop_last().drop_last()) * 16 + digit_val(
        s.drop_last().last(),
    ));
    assert(s.drop_last().drop_last() =~= Seq::<u8>::empty());
    assert(hex_val(Seq::<u8>::empty()) == 0);
}

/// Reads the fields back from one frame line; `None` on any line that is
/// not a well-formed frame line.
pub fn parse_asc_line(line: &Vec<u8>) -> (r: Option<ParsedAscFrame>)
    ensures
        r matches Some(p) ==> parse_asc_spec(line@) == Some(p@),
        r is None ==> parse_asc_spec(line@) is None,
{
    let toks = split_spaces(line);
    let ghost ts = split_sp(line@);
    proof {
        assert(deep_view_of(toks@) == ts);
        assert(forall|i: int| 0 <= i < toks@.len() ==> #[trigger] toks@[i]@ == ts[i]);
    }
    if toks.len() < 7 {
        return None;
    }
    let t3 = &toks[3];
    if !(t3.len() == 2 && t3[0] == 'R' as u8 && t3[1] == 'x' as u8) {
        proof {
            assert(ts[3] != rx_token());
        }
        return None;
    }
    assert(ts[3] =~= rx_token());
    let t4 = &toks[4];
    if !(t4.len() == 1 && t4[0] == 'd' as u8) {
        proof {
            assert(ts[4] != d_token());
        }
        return None;
    }
    assert(ts[4] =~= d_token());
    let ch = match parse_dec_u64(&toks[1]) {
        Some(v) => v,
        None => {
            return None;
        },
    };
    if ch > u32::MAX as u64 {
        return None;
    }
    let id = match parse_hex_u64(&toks[2]) {
        Some(v) => v,
        None => {
            return None;
        },
    };
    if id > CAN_ID_29_BIT_MASK as u64 {
        return None;
    }
    let dlc64 = match parse_dec_u64(&toks[5]) {
        Some(v) => v,
        None => {
            return None;
        },
    };
    if dlc64 > 255 {
        return None;
    }
    let dlc = dlc64 as u8;
    let mut payload: Vec<u8> = Vec::new();
    if toks.len() == 7 && toks[6].len() == 0 {
        // a frame without payload: the line ends in its separator
    } else {
        let mut j: usize = 6;
        while j < toks.len()
            invariant
                6 <= j <= toks@.len(),
                ts == split_sp(line@),
                ts == deep_view_of(toks@),
                forall|i: int| 0 <= i < toks@.len() ==> #[trigger] toks@[i]@ == ts[i],
                ts.len() == toks@.len(),
                ts.len() >= 7,
                ts[3] == rx_token(),
                ts[4] == d_token(),
                parse_dec_spec(ts[1]) == Some(ch as nat),
                ch <= u32::MAX as u64,
                parse_hex_spec(ts[2]) == Some(id as nat),
                id <= CAN_ID_29_BIT_MASK as u64,
                parse_dec_spec(ts[5]) == Some(dlc64 as nat),
                dlc64 <= 255,
                !(ts.len() == 7 && ts[6].len() == 0),
                match parse_payload_tokens(ts.skip(j as int)) {
                    Some(rest) => parse_payload_tokens(ts.skip(6)) == Some(payload@ + rest),
                    None => parse_payload_tokens(ts.skip(6)) is None,
                },
            decreases toks@.len() - j,
        {
            proof {
                assert(ts.skip(j as int)[0] == ts[j as int]);
                assert(ts.skip(j as int).drop_first() =~= ts.skip(j + 1));
            }
            let tok = &toks[j];
            if tok.len() != 2 {
                proof {
                    assert(parse_payload_tokens(ts.skip(j as int)) is None);
                    assert(parse_payload_tokens(ts.skip(6)) is None);
                    assert(ts.len() == toks@.len());
                    assert(!(ts.len() == 7 && ts[6].len() == 0));
                    assert(parse_dec_spec(ts[1]) == Some(ch as nat));
                    assert(parse_hex_spec(ts[2]) == Some(id as nat));
                    assert(parse_dec_spec(ts[5]) == Some(dlc64 as nat));
                    assert(parse_asc_spec(line@) is None);
                }
                return None;
            }
            let b = match parse_hex_u64(tok) {
                Some(v) => v,
                None => {
                    proof {
                        if all_hex_digits(ts[j as int]) {
                            lemma_hex_pair_bound(ts[j as int]);
                        }
                        assert(parse_payload_tokens(ts.skip(j as int)) is None);
                        assert(parse_payload_tokens(ts.skip(6)) is None);
                        assert(ts.len() == toks@.len());
                        assert(!(ts.len() == 7 && ts[6].len() == 0));
                        assert(parse_dec_spec(ts[1]) == Some(ch as nat));
                        assert(parse_hex_spec(ts[2]) == Some(id as nat));
                        assert(parse_dec_spec(ts[5]) == Some(dlc64 as nat));
                        assert(parse_asc_spec(line@) is None);
                    }
                    return None;
                },
            };
            proof {
                lemma_hex_pair_bound(ts[j as int]);
            }
            let ghost prev = payload@;
            payload.push(b as u8);
            proof {
                assert(payload@ =~= prev.push(b as u8));
            }
            j += 1;
        }
        proof {
            assert(ts.skip(toks@.len() as int) =~= Seq::<Seq<u8>>::empty());
            assert(parse_payload_tokens(ts.skip(6)) == Some(payload@ + Seq::<u8>::empty()));
            assert(payload@ + Seq::<u8>::empty() =~= payload@);
        }
    }
    let expected = can_dlc_to_len(dlc);
    if payload.len() != expected {
        return None;
    }
    Some(ParsedAscFrame { channel: ch as u32, can_id: id as u32, dlc, payload })
}

/// Digit-only tokens hold no space.
proof fn lemma_digits_space_free(s: Seq<u8>)
    requires
        all_dec_digits(s) || all_hex_digits(s),
    ensures
        space_free(s),
{
}

/// The timestamp field holds digits and one dot, never a space.
proof fn lemma_ts_token_space_free(us: u64)
    ensures
        space_free(ts_token(us)),
{
    let secs = dec_seq((us / crate::trace::US_PER_SEC) as nat);
    let frac = dec_pad_seq((us % crate::trace::US_PER_SEC) as nat, 6);
    lemma_dec_seq_digits((us / crate::trace::US_PER_SEC) as nat);
    lemma_dec_pad_seq_digits((us % crate::trace::US_PER_SEC) as nat, 6);
    assert forall|i: int| 0 <= i < ts_token(us).len() implies ts_token(us)[i] != SPACE by {
        let t = ts_token(us);
        if i < secs.len() {
            assert(t[i] == secs[i]);
            assert(is_dec_digit(secs[i]));
        } else if i == secs.len() {
            assert(t[i] == '.' as u8);
        } else {
            assert(t[i] == frac[i - secs.len() - 1]);
            assert(is_dec_digit(frac[i - secs.len() - 1]));
        }
    }
}

/// The payload a run of per-byte hex tokens denotes is the bytes
/// themselves.
proof fn lemma_parse_payload_roundtrip(p: Seq<u8>)
    ensures
        parse_payload_tokens(p.map_values(|b: u8| hex_byte_seq(b))) == Some(p),
    decreases p.len(),
{
    let m = p.map_values(|b: u8| hex_byte_seq(b));
    if p.len() == 0 {
        assert(m.len() == 0);
        assert(parse_payload_tokens(m) == Some(Seq::<u8>::empty()));
        assert(Seq::<u8>::empty() =~= p);
    } else {
        assert(m[0] == hex_byte_seq(p[0]));
        lemma_hex_byte_roundtrip(p[0]);
        assert(m.drop_first() =~= p.drop_first().map_values(|b: u8| hex_byte_seq(b)));
        lemma_parse_payload_roundtrip(p.drop_first());
        assert(parse_payload_tokens(m) == Some(seq![hex_val(m[0]) as u8] + p.drop_first()));
        assert(seq![hex_val(m[0]) as u8] + p.drop_first() =~= p);
    }
}

/// Round trip: a well-formed captured frame written as an
/// industry-trace-format line and read back by the conforming reader
/// yields the same 1-based channel, the same 29-bit identifier, the same
/// data-length code, and the same payload bytes.
pub proof fn lemma_asc_roundtrip(f: FrameModel)
    requires
        f.wf(),
    ensures
        parse_asc_spec(asc_line_spec(f)) == Some(
            ParsedFrameModel {
                channel: (f.channel_index + 1) as u32,
                can_id: f.can_id,
                dlc: f.dlc,
                payload: f.payload,
            },
        ),
{
    let toks = asc_tokens(f);
    let ptoks = payload_tokens(f.payload);
    let ch_tok = dec_seq(f.channel_index as nat + 1);
    let id_tok = hex_seq(f.can_id as nat);
    let dlc_tok = dec_seq(f.dlc as nat);
    lemma_dec_seq_digits(f.channel_index as nat + 1);
    lemma_hex_seq_digits(f.can_id as nat);
    lemma_dec_seq_digits(f.dlc as nat);
    lemma_ts_token_space_free(f.timestamp_us);
    assert(toks.len() == 6 + ptoks.len());
    assert(toks[0] == ts_token(f.timestamp_us));
    assert(toks[1] == ch_tok);
    assert(toks[2] == id_tok);
    assert(toks[3] == rx_token());
    assert(toks[4] == d_token());
    assert(toks[5] == dlc_tok);
    assert forall|i: int| 0 <= i < toks.len() implies space_free(#[trigger] toks[i]) by {
        if i == 0 {
        } else if i == 1 {
            lemma_digits_space_free(ch_tok);
        } else if i == 2 {
            lemma_digits_space_free(id_tok);
        } else if i == 3 {
            assert(forall|k: int| 0 <= k < rx_token().len() ==> rx_token()[k] != SPACE);
        } else if i == 4 {
            assert(forall|k: int| 0 <= k < d_token().len() ==> d_token()[k] != SPACE);
        } else if i == 5 {
            lemma_digits_space_free(dlc_tok);
        } else {
            assert(toks[i] == ptoks[i - 6]);
            if f.payload.len() == 0 {
                assert(ptoks[i - 6] =~= Seq::<u8>::empty());
            } else {
                assert(ptoks[i - 6] == hex_byte_seq(f.payload[i - 6]));
                lemma_hex_byte_roundtrip(f.payload[i - 6]);
                lemma_digits_space_free(ptoks[i - 6]);
            }
        }
    }
    lemma_split_join(toks);
    assert(split_sp(asc_line_spec(f)) == toks);
    lemma_dec_roundtrip(f.channel_index as nat + 1);
    assert(parse_dec_spec(ch_tok) == Some(f.channel_index as nat + 1));
    lemma_hex_roundtrip(f.can_id as nat);
    assert(parse_hex_spec(id_tok) == Some(f.can_id as nat));
    lemma_dec_roundtrip(f.dlc as nat);
    assert(parse_dec_spec(dlc_tok) == Some(f.dlc as nat));
    let target = ParsedFrameModel {
        channel: (f.channel_index + 1) as u32,
        can_id: f.can_id,
        dlc: f.dlc,
        payload: f.payload,
    };
    if f.payload.len() == 0 {
        assert(ptoks =~= seq![Seq::<u8>::empty()]);
        assert(toks.len() == 7 && toks[6].len() == 0);
        assert(f.payload =~= Seq::<u8>::empty());
        assert(dlc_len(f.dlc) == 0);
        assert(parse_asc_spec(asc_line_spec(f)) == Some(target));
    } else {
        assert(toks[6] == hex_byte_seq(f.payload[0]));
        lemma_hex_byte_roundtrip(f.payload[0]);
        assert(!(toks.len() == 7 && toks[6].len() == 0));
        assert(toks.skip(6) =~= f.payload.map_values(|b: u8| hex_byte_seq(b)));
        lemma_parse_payload_roundtrip(f.payload);
        assert(parse_payload_tokens(toks.skip(6)) == Some(f.payload));
        assert(f.payload.len() == dlc_len(f.dlc));
        assert(parse_asc_spec(asc_line_spec(f)) == Some(target));
    }
}

} // verus!
