//! Network aliases: a static table mapping a small set of known logical
//! channels to interface labels and human-readable network names. Used
//! only for labeling and log file names, never for correctness decisions.

use vstd::prelude::*;
use vstd::string::StringExecFns;
use vstd::string::StringSliceAdditionalSpecFns;

use crate::events::CanLogFormat;
use crate::fmtbytes::dec_seq;
use crate::fmtbytes::is_dec_digit;
use crate::fmtbytes::lemma_dec_seq_digits;
use crate::fmtbytes::push_dec_u64;

verus! {

/// The characters of a run of ASCII bytes.
pub open spec fn ascii_chars(s: Seq<u8>) -> Seq<char> {
    s.map_values(|b: u8| b as char)
}

/// The interface label and network name of a known logical channel.
pub fn can_network_alias(app_channel: u32) -> (r: Option<(&'static str, &'static str)>)
    ensures
        app_channel == 0 ==> (r matches Some(p) && p.0@ == "vn 1670 1"@ && p.1@ == "FD_CANW"@),
        app_channel == 1 ==> (r matches Some(p) && p.0@ == "vn 1670 1"@ && p.1@ == "FD_CAN5"@),
        app_channel == 2 ==> (r matches Some(p) && p.0@ == "vn 1670 2"@ && p.1@ == "FD_CAN9"@),
        app_channel == 3 ==> (r matches Some(p) && p.0@ == "vn 1670 2"@ && p.1@ == "FD_CAN13"@),
        app_channel == 4 ==> (r matches Some(p) && p.0@ == "vn 1670 2"@ && p.1@ == "FD_CAN14"@),
        app_channel == 5 ==> (r matches Some(p) && p.0@ == "vn 1670 1"@ && p.1@ == "FD_CAN15"@),
        app_channel == 6 ==> (r matches Some(p) && p.0@ == "vn 1670 1"@ && p.1@ == "FD_CAN17"@),
        app_channel == 7 ==> (r matches Some(p) && p.0@ == "vn 1670 1"@ && p.1@ == "FD_CAN18"@),
        app_channel == 8 ==> (r matches Some(p) && p.0@ == "vn 1670 1"@ && p.1@ == "FD_CAN20"@),
        app_channel == 9 ==> (r matches Some(p) && p.0@ == "vn 1670 1"@ && p.1@ == "FD_CAN21"@),
        app_channel == 10 ==> (r matches Some(p) && p.0@ == "vn 1670 1"@ && p.1@ == "HS_CAN1"@),
        app_channel > 10 ==> r is None,
{
    match app_channel {
        0 => Some(("vn 1670 1", "FD_CANW")),
        1 => Some(("vn 1670 1", "FD_CAN5")),
        2 => Some(("vn 1670 2", "FD_CAN9")),
        3 => Some(("vn 1670 2", "FD_CAN13")),
        4 => Some(("vn 1670 2", "FD_CAN14")),
        5 => Some(("vn 1670 1", "FD_CAN15")),
        6 => Some(("vn 1670 1", "FD_CAN17")),
        7 => Some(("vn 1670 1", "FD_CAN18")),
        8 => Some(("vn 1670 1", "FD_CAN20")),
        9 => Some(("vn 1670 1", "FD_CAN21")),
        10 => Some(("vn 1670 1", "HS_CAN1")),
        _ => None,
    }
}

/// The label pair for any logical channel: the alias where one is known,
/// and the unmapped marker otherwise.
pub fn alias_or_unmapped(app_channel: u32) -> (r: (&'static str, &'static str))
    ensures
        app_channel > 10 ==> r.0@ == "UNMAPPED"@ && r.1@ == "UNMAPPED"@,
        app_channel == 0 ==> r.0@ == "vn 1670 1"@ && r.1@ == "FD_CANW"@,
        app_channel == 1 ==> r.0@ == "vn 1670 1"@ && r.1@ == "FD_CAN5"@,
        app_channel == 2 ==> r.0@ == "vn 1670 2"@ && r.1@ == "FD_CAN9"@,
        app_channel == 3 ==> r.0@ == "vn 1670 2"@ && r.1@ == "FD_CAN13"@,
        app_channel == 4 ==> r.0@ == "vn 1670 2"@ && r.1@ == "FD_CAN14"@,
        app_channel == 5 ==> r.0@ == "vn 1670 1"@ && r.1@ == "FD_CAN15"@,
        app_channel == 6 ==> r.0@ == "vn 1670 1"@ && r.1@ == "FD_CAN17"@,
        app_channel == 7 ==> r.0@ == "vn 1670 1"@ && r.1@ == "FD_CAN18"@,
        app_channel == 8 ==> r.0@ == "vn 1670 1"@ && r.1@ == "FD_CAN20"@,
        app_channel == 9 ==> r.0@ == "vn 1670 1"@ && r.1@ == "FD_CAN21"@,
        app_channel == 10 ==> r.0@ == "vn 1670 1"@ && r.1@ == "HS_CAN1"@,
{
    match can_network_alias(app_channel) {
        Some(p) => p,
        None => ("UNMAPPED", "UNMAPPED"),
    }
}

/// One decimal digit as a string slice.
fn digit_str(d: u8) -> (r: &'static str)
    requires
        d < 10,
    ensures
        r@.len() == 1,
        r@[0] == ((48 + d) as char),
{
    let r = match d {
        0 => "0",
        1 => "1",
        2 => "2",
        3 => "3",
        4 => "4",
        5 => "5",
        6 => "6",
        7 => "7",
        8 => "8",
        _ => "9",
    };
    proof {
        reveal_strlit("0");
        reveal_strlit("1");
        reveal_strlit("2");
        reveal_strlit("3");
        reveal_strlit("4");
        reveal_strlit("5");
        reveal_strlit("6");
        reveal_strlit("7");
        reveal_strlit("8");
        reveal_strlit("9");
    }
    r
}

/// The stem of a channel's log file name: the network alias where one is
/// known, otherwise a generic stem from the 1-based channel number.
pub fn can_output_file_stem(app_channel: u32) -> (r: String)
    ensures
        app_channel == 0 ==> r@ == "FD_CANW"@,
        app_channel == 1 ==> r@ == "FD_CAN5"@,
        app_channel == 2 ==> r@ == "FD_CAN9"@,
        app_channel == 3 ==> r@ == "FD_CAN13"@,
        app_channel == 4 ==> r@ == "FD_CAN14"@,
        app_channel == 5 ==> r@ == "FD_CAN15"@,
        app_channel == 6 ==> r@ == "FD_CAN17"@,
        app_channel == 7 ==> r@ == "FD_CAN18"@,
        app_channel == 8 ==> r@ == "FD_CAN20"@,
        app_channel == 9 ==> r@ == "FD_CAN21"@,
        app_channel == 10 ==> r@ == "HS_CAN1"@,
        app_channel > 10 ==> r@ == "channel"@ + ascii_chars(
            dec_seq((app_channel + 1) as nat),
        ),
{
    match can_network_alias(app_channel) {
        Some((_, network_name)) => network_name.to_owned(),
        None => {
            let mut digits: Vec<u8> = Vec::new();
            push_dec_u64(&mut digits, app_channel as u64 + 1);
            proof {
                lemma_dec_seq_digits((app_channel + 1) as nat);
            }
            let mut s = String::new();
            s.append("channel");
            let mut i: usize = 0;
            while i < digits.len()
                invariant
                    i <= digits@.len(),
                    digits@ == dec_seq((app_channel + 1) as nat),
                    forall|k: int| 0 <= k < digits@.len() ==> is_dec_digit(#[trigger] digits@[k]),
                    s@ == "channel"@ + ascii_chars(digits@.take(i as int)),
                decreases digits@.len() - i,
            {
                let b = digits[i];
                s.append(digit_str(b - 48));
                proof {
                    assert(((48 + (b - 48)) as char) == (b as char));
                    assert(ascii_chars(digits@.take(i + 1)) =~= ascii_chars(
                        digits@.take(i as int),
                    ).push(digits@[i as int] as char));
                    assert(s@ =~= "channel"@ + ascii_chars(digits@.take(i + 1)));
                }
                i += 1;
            }
            proof {
                assert(digits@.take(digits@.len() as int) =~= digits@);
            }
            s
        },
    }
}

/// The file name of a channel's trace log: the stem with the format's
/// extension.
pub fn output_file_name(stem: String, format: CanLogFormat) -> (r: String)
    ensures
        format == CanLogFormat::Asc ==> r@ == stem@ + ".asc"@,
        format == CanLogFormat::Text ==> r@ == stem@ + ".log"@,
{
    match format {
        CanLogFormat::Asc => stem.concat(".asc"),
        CanLogFormat::Text => stem.concat(".log"),
    }
}

} // verus!
