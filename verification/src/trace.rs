//! Trace writer: renders captured frames into durable log lines.
//!
//! Two formats exist. The plain-text format gives one human-readable line
//! per frame. The industry trace format frames its lines with a header
//! block (a date line, a base/timestamp declaration, an internal-events
//! marker, and a Begin Triggerblock line) and an End Triggerblock footer,
//! and renders each frame as space-separated fields: relative timestamp in
//! seconds with six decimal places, 1-based channel, uppercase hex
//! identifier, direction marker, data-length code, and hex payload bytes.

use vstd::prelude::*;
use vstd::string::StringSliceAdditionalSpecFns;

use crate::events::FrameModel;
use crate::events::CapturedFrame;
use crate::fmtbytes::SPACE;
use crate::fmtbytes::dec_seq;
use crate::fmtbytes::hex_seq;
use crate::fmtbytes::dec_pad_seq;
use crate::fmtbytes::hex_byte_seq;
use crate::fmtbytes::join_sp;
use crate::fmtbytes::push_dec_u64;
use crate::fmtbytes::push_hex_u64;
use crate::fmtbytes::push_dec_pad;
use crate::fmtbytes::push_hex_byte;

verus! {

/// Appends an ASCII literal's bytes to a line under construction.
pub fn push_lit(out: &mut Vec<u8>, s: &str)
    ensures
        final(out)@ == old(out)@ + s.spec_bytes(),
{
    out.extend_from_slice(s.as_bytes());
    assert(out@ =~= old(out)@ + s.spec_bytes());
}

/// Microseconds per second, the resolution of relative frame timestamps.
pub const US_PER_SEC: u64 = 1_000_000;

/// The timestamp field: relative seconds with exactly six decimal places.
pub open spec fn ts_token(us: u64) -> Seq<u8> {
    dec_seq((us / US_PER_SEC) as nat) + seq!['.' as u8] + dec_pad_seq((us % US_PER_SEC) as nat, 6)
}

/// The direction marker of a received frame.
pub open spec fn rx_token() -> Seq<u8> {
    seq!['R' as u8, 'x' as u8]
}

/// The field marker that precedes the data-length code.
pub open spec fn d_token() -> Seq<u8> {
    seq!['d' as u8]
}

/// The payload fields: one two-digit hex token per byte; a frame without
/// payload contributes one empty token (the line keeps its trailing
/// separator).
pub open spec fn payload_tokens(payload: Seq<u8>) -> Seq<Seq<u8>> {
    if payload.len() == 0 {
        seq![Seq::<u8>::empty()]
    } else {
        payload.map_values(|b: u8| hex_byte_seq(b))
    }
}

/// All fields of one frame line in the industry trace format.
pub open spec fn asc_tokens(f: FrameModel) -> Seq<Seq<u8>> {
    seq![
        ts_token(f.timestamp_us),
        dec_seq(f.channel_index as nat + 1),
        hex_seq(f.can_id as nat),
        rx_token(),
        d_token(),
        dec_seq(f.dlc as nat),
    ] + payload_tokens(f.payload)
}

/// One frame line in the industry trace format: its fields joined with
/// single spaces.
pub open spec fn asc_line_spec(f: FrameModel) -> Seq<u8> {
    join_sp(asc_tokens(f))
}

/// The payload bytes rendered as trace-line fields: a space then two hex
/// digits, for each byte in order.
pub open spec fn bytes_sect(p: Seq<u8>) -> Seq<u8>
    decreases p.len(),
{
    if p.len() == 0 {
        Seq::empty()
    } else {
        seq![SPACE] + hex_byte_seq(p[0]) + bytes_sect(p.drop_first())
    }
}

/// Extending the payload appends one more space-and-hex-pair field.
proof fn lemma_bytes_sect_snoc(p: Seq<u8>, x: u8)
    ensures
        bytes_sect(p.push(x)) == bytes_sect(p) + seq![SPACE] + hex_byte_seq(x),
    decreases p.len(),
{
    let q = p.push(x);
    if p.len() == 0 {
        assert(q.len() == 1 && q[0] == x);
        assert(q.drop_first() =~= Seq::<u8>::empty());
        assert(bytes_sect(q) == seq![SPACE] + hex_byte_seq(x) + bytes_sect(q.drop_first()));
        assert(bytes_sect(q) =~= bytes_sect(p) + seq![SPACE] + hex_byte_seq(x));
    } else {
        assert(q.drop_first() =~= p.drop_first().push(x));
        assert(q[0] == p[0]);
        assert(bytes_sect(q) == seq![SPACE] + hex_byte_seq(q[0]) + bytes_sect(q.drop_first()));
        lemma_bytes_sect_snoc(p.drop_first(), x);
        assert(bytes_sect(q) =~= bytes_sect(p) + seq![SPACE] + hex_byte_seq(x));
    }
}

/// Joining the per-byte hex tokens with spaces gives the payload section.
proof fn lemma_join_hex_tokens(p: Seq<u8>)
    requires
        p.len() >= 1,
    ensures
        seq![SPACE] + join_sp(p.map_values(|b: u8| hex_byte_seq(b))) == bytes_sect(p),
    decreases p.len(),
{
    let m = p.map_values(|b: u8| hex_byte_seq(b));
    assert(m.len() == p.len());
    assert(m[0] == hex_byte_seq(p[0]));
    if p.len() == 1 {
        assert(p.drop_first() =~= Seq::<u8>::empty());
        assert(bytes_sect(p) == seq![SPACE] + hex_byte_seq(p[0]) + bytes_sect(p.drop_first()));
        assert(join_sp(m) == m[0]);
        assert(seq![SPACE] + join_sp(m) =~= bytes_sect(p));
    } else {
        assert(m.drop_first() =~= p.drop_first().map_values(|b: u8| hex_byte_seq(b)));
        assert(join_sp(m) == m[0] + seq![SPACE] + join_sp(m.drop_first()));
        assert(bytes_sect(p) == seq![SPACE] + hex_byte_seq(p[0]) + bytes_sect(p.drop_first()));
        lemma_join_hex_tokens(p.drop_first());
        assert(seq![SPACE] + join_sp(m) =~= bytes_sect(p));
    }
}

/// Joining six fields spells out their flat form.
proof fn lemma_join6(a: Seq<u8>, b: Seq<u8>, c: Seq<u8>, d: Seq<u8>, e: Seq<u8>, f: Seq<u8>)
    ensures
        join_sp(seq![a, b, c, d, e, f]) == a + seq![SPACE] + b + seq![SPACE] + c + seq![SPACE] + d
            + seq![SPACE] + e + seq![SPACE] + f,
{
    let ts = seq![a, b, c, d, e, f];
    assert(ts.drop_first() =~= seq![b, c, d, e, f]);
    assert(seq![b, c, d, e, f].drop_first() =~= seq![c, d, e, f]);
    assert(seq![c, d, e, f].drop_first() =~= seq![d, e, f]);
    assert(seq![d, e, f].drop_first() =~= seq![e, f]);
    assert(seq![e, f].drop_first() =~= seq![f]);
    assert(join_sp(seq![f]) == f);
    assert(join_sp(seq![e, f]) == e + seq![SPACE] + join_sp(seq![f]));
    assert(join_sp(seq![d, e, f]) == d + seq![SPACE] + join_sp(seq![e, f]));
    assert(join_sp(seq![c, d, e, f]) == c + seq![SPACE] + join_sp(seq![d, e, f]));
    assert(join_sp(seq![b, c, d, e, f]) == b + seq![SPACE] + join_sp(seq![c, d, e, f]));
    assert(join_sp(ts) == a + seq![SPACE] + join_sp(seq![b, c, d, e, f]));
    assert(join_sp(ts) =~= a + seq![SPACE] + b + seq![SPACE] + c + seq![SPACE] + d + seq![SPACE]
        + e + seq![SPACE] + f);
}

/// The frame line, written out flat: the six fields and then the payload
/// section, or a lone trailing separator when there is no payload.
pub proof fn lemma_asc_line_flat(f: FrameModel)
    ensures
        asc_line_spec(f) == ts_token(f.timestamp_us) + seq![SPACE] + dec_seq(
            f.channel_index as nat + 1,
        ) + seq![SPACE] + hex_seq(f.can_id as nat) + seq![SPACE] + rx_token() + seq![SPACE]
            + d_token() + seq![SPACE] + dec_seq(f.dlc as nat) + (if f.payload.len() == 0 {
            seq![SPACE]
        } else {
            bytes_sect(f.payload)
        }),
{
    let pre = seq![
        ts_token(f.timestamp_us),
        dec_seq(f.channel_index as nat + 1),
        hex_seq(f.can_id as nat),
        rx_token(),
        d_token(),
        dec_seq(f.dlc as nat),
    ];
    let ptoks = payload_tokens(f.payload);
    assert(asc_tokens(f) =~= pre + ptoks);
    crate::fmtbytes::lemma_join_concat(pre, ptoks);
    lemma_join6(
        ts_token(f.timestamp_us),
        dec_seq(f.channel_index as nat + 1),
        hex_seq(f.can_id as nat),
        rx_token(),
        d_token(),
        dec_seq(f.dlc as nat),
    );
    if f.payload.len() == 0 {
        assert(join_sp(ptoks) =~= Seq::<u8>::empty());
        assert(asc_line_spec(f) =~= join_sp(pre) + seq![SPACE]);
    } else {
        lemma_join_hex_tokens(f.payload);
        assert(asc_line_spec(f) =~= join_sp(pre) + (seq![SPACE] + join_sp(
            f.payload.map_values(|b: u8| hex_byte_seq(b)),
        )));
    }
}

/// Appends the timestamp field: seconds, a dot, six fractional digits.
pub fn push_ts(out: &mut Vec<u8>, us: u64)
    ensures
        final(out)@ == old(out)@ + ts_token(us),
{
    push_dec_u64(out, us / US_PER_SEC);
    out.push('.' as u8);
    push_dec_pad(out, us % US_PER_SEC, 6);
    assert(out@ =~= old(out)@ + ts_token(us));
}

/// Renders one frame line in the industry trace format.
pub fn render_asc_line(f: &CapturedFrame) -> (line: Vec<u8>)
    ensures
        line@ == asc_line_spec(f@),
{
    let mut out: Vec<u8> = Vec::new();
    push_ts(&mut out, f.timestamp_us);
    out.push(SPACE);
    push_dec_u64(&mut out, f.channel_index as u64 + 1);
    out.push(SPACE);
    push_hex_u64(&mut out, f.can_id as u64);
    out.push(SPACE);
    out.push('R' as u8);
    out.push('x' as u8);
    out.push(SPACE);
    out.push('d' as u8);
    out.push(SPACE);
    push_dec_u64(&mut out, f.dlc as u64);
    let ghost fields = ts_token(f.timestamp_us) + seq![SPACE] + dec_seq(f.channel_index as nat + 1)
        + seq![SPACE] + hex_seq(f.can_id as nat) + seq![SPACE] + rx_token() + seq![SPACE]
        + d_token() + seq![SPACE] + dec_seq(f.dlc as nat);
    assert(out@ =~= fields);
    if f.payload.len() == 0 {
        out.push(SPACE);
        proof {
            lemma_asc_line_flat(f@);
        }
        assert(out@ =~= asc_line_spec(f@));
        return out;
    }
    let mut j: usize = 0;
    while j < f.payload.len()
        invariant
            j <= f.payload@.len(),
            out@ == fields + bytes_sect(f.payload@.take(j as int)),
        decreases f.payload@.len() - j,
    {
        let ghost done = f.payload@.take(j as int);
        out.push(SPACE);
        push_hex_byte(&mut out, f.payload[j]);
        proof {
            lemma_bytes_sect_snoc(done, f.payload@[j as int]);
            assert(f.payload@.take(j + 1) =~= done.push(f.payload@[j as int]));
            assert(out@ =~= fields + bytes_sect(f.payload@.take(j + 1)));
        }
        j += 1;
    }
    proof {
        assert(f.payload@.take(f.payload@.len() as int) =~= f.payload@);
        lemma_asc_line_flat(f@);
    }
    assert(out@ =~= asc_line_spec(f@));
    out
}

/// The rendered payload list of the plain-text line: first `j` bytes as
/// bracket-free hex pairs separated by comma and space.
pub open spec fn dbg_list(p: Seq<u8>) -> Seq<u8>
    decreases p.len(),
{
    if p.len() == 0 {
        Seq::empty()
    } else if p.len() == 1 {
        hex_byte_seq(p[0])
    } else {
        dbg_list(p.drop_last()) + ", ".spec_bytes() + hex_byte_seq(p.last())
    }
}

/// The payload of the plain-text line: hex byte pairs between brackets,
/// separated by comma and space.
pub open spec fn dbg_bytes(p: Seq<u8>) -> Seq<u8> {
    seq!['[' as u8] + dbg_list(p) + seq![']' as u8]
}

/// One frame line in the plain-text format: the running frame number, the
/// physical channel, the identifier in hex, the data-length code, and the
/// payload bytes.
pub open spec fn text_line_spec(n: u64, f: FrameModel) -> Seq<u8> {
    "frame=".spec_bytes() + dec_seq(n as nat) + " channel=".spec_bytes() + dec_seq(
        f.channel_index as nat,
    ) + " id=0x".spec_bytes() + hex_seq(f.can_id as nat) + " dlc=".spec_bytes() + dec_seq(
        f.dlc as nat,
    ) + " data=".spec_bytes() + dbg_bytes(f.payload)
}

/// Renders one frame line in the plain-text format.
pub fn render_text_line(n: u64, f: &CapturedFrame) -> (line: Vec<u8>)
    ensures
        line@ == text_line_spec(n, f@),
{
    let mut out: Vec<u8> = Vec::new();
    push_lit(&mut out, "frame=");
    push_dec_u64(&mut out, n);
    push_lit(&mut out, " channel=");
    push_dec_u64(&mut out, f.channel_index as u64);
    push_lit(&mut out, " id=0x");
    push_hex_u64(&mut out, f.can_id as u64);
    push_lit(&mut out, " dlc=");
    push_dec_u64(&mut out, f.dlc as u64);
    push_lit(&mut out, " data=");
    let ghost head = out@;
    out.push('[' as u8);
    let mut j: usize = 0;
    while j < f.payload.len()
        invariant
            j <= f.payload@.len(),
            out@ == head + seq!['[' as u8] + dbg_list(f.payload@.take(j as int)),
        decreases f.payload@.len() - j,
    {
        let ghost done = f.payload@.take(j as int);
        if j > 0 {
            push_lit(&mut out, ", ");
        }
        push_hex_byte(&mut out, f.payload[j]);
        proof {
            assert(f.payload@.take(j + 1) =~= done.push(f.payload@[j as int]));
            assert(f.payload@.take(j + 1).drop_last() =~= done);
            assert(out@ =~= head + seq!['[' as u8] + dbg_list(f.payload@.take(j + 1)));
        }
        j += 1;
    }
    out.push(']' as u8);
    proof {
        assert(f.payload@.take(f.payload@.len() as int) =~= f.payload@);
    }
    assert(out@ =~= text_line_spec(n, f@));
    out
}

/// Whether a line holds no line break, so that it stays one line in the
/// log file.
pub open spec fn newline_free(s: Seq<u8>) -> bool {
    forall|i: int| 0 <= i < s.len() ==> s[i] != ('\n' as u8)
}

/// Relies on chrono: `Local::now` read through its `format` facility with
/// a weekday/month/day/time/year pattern, rendered to text. The result
/// depends on the clock, so nothing is stated of its value, only that the
/// stamp is non-empty (the pattern holds literal spaces) and stays on one
/// line (no pattern item renders a line break).
#[verifier::external_body]
fn now_stamp() -> (r: Vec<u8>)
    ensures
        r@.len() > 0,
        newline_free(r@),
{
    chrono::Local::now().format("%a %b %d %H:%M:%S%.3f %Y").to_string().into_bytes()
}

/// The date line of the header, for a given clock stamp.
pub open spec fn asc_date_line(stamp: Seq<u8>) -> Seq<u8> {
    "date ".spec_bytes() + stamp
}

/// The base/timestamp declaration line of the header.
pub open spec fn asc_base_line() -> Seq<u8> {
    "base hex  timestamps relative".spec_bytes()
}

/// The internal-events marker line of the header.
pub open spec fn asc_internal_line() -> Seq<u8> {
    "internal events logged".spec_bytes()
}

/// The Begin Triggerblock line of the header, for a given clock stamp.
pub open spec fn asc_begin_line(stamp: Seq<u8>) -> Seq<u8> {
    "Begin Triggerblock ".spec_bytes() + stamp
}

/// The End Triggerblock footer line.
pub open spec fn asc_footer() -> Seq<u8> {
    "End Triggerblock".spec_bytes()
}

/// The header block of an industry-format trace file: a date line, the
/// base/timestamp declaration, the internal-events marker, and a Begin
/// Triggerblock line, the first and last stamped with the current time.
pub fn asc_header_lines() -> (r: Vec<Vec<u8>>)
    ensures
        r@.len() == 4,
        exists|s: Seq<u8>| r@[0]@ == asc_date_line(s) && newline_free(s) && s.len() > 0,
        r@[1]@ == asc_base_line(),
        r@[2]@ == asc_internal_line(),
        exists|s: Seq<u8>| r@[3]@ == asc_begin_line(s) && newline_free(s) && s.len() > 0,
{
    let mut date_line: Vec<u8> = Vec::new();
    push_lit(&mut date_line, "date ");
    let mut stamp = now_stamp();
    let ghost s1 = stamp@;
    date_line.append(&mut stamp);
    let mut begin_line: Vec<u8> = Vec::new();
    push_lit(&mut begin_line, "Begin Triggerblock ");
    let mut stamp2 = now_stamp();
    let ghost s2 = stamp2@;
    begin_line.append(&mut stamp2);
    let mut base_line: Vec<u8> = Vec::new();
    push_lit(&mut base_line, "base hex  timestamps relative");
    let mut internal_line: Vec<u8> = Vec::new();
    push_lit(&mut internal_line, "internal events logged");
    let mut r: Vec<Vec<u8>> = Vec::new();
    r.push(date_line);
    r.push(base_line);
    r.push(internal_line);
    r.push(begin_line);
    assert(r@[0]@ == asc_date_line(s1) && newline_free(s1) && s1.len() > 0);
    assert(r@[3]@ == asc_begin_line(s2) && newline_free(s2) && s2.len() > 0);
    r
}

/// The footer line that closes an industry-format trace file.
pub fn asc_footer_line() -> (r: Vec<u8>)
    ensures
        r@ == asc_footer(),
{
    let mut out: Vec<u8> = Vec::new();
    push_lit(&mut out, "End Triggerblock");
    out
}

} // verus!
