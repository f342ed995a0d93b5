//! The daemon-facing surface of the library: the contract an application
//! implements to be run as a service, the shutdown-signal marker, and the
//! formatting of a process start time into a friendly timestamp. Process
//! control itself (forking, signals, pid files) happens outside the
//! library.

use super::exception::GlobalError;
use super::exception::GlobalResult;
use super::utils::textual::ascii_to_string;
use super::utils::textual::push_bytes;
use super::utils::textual::spec_dec_digits;
use chrono::Datelike;
use chrono::Timelike;
use vstd::prelude::*;

verus! {

/// What an application implements to be run as a service: acquiring what
/// needs privilege first, then running with it.
pub trait Daemon<T>: Sized {
    fn init_privilege() -> GlobalResult<(Self, T)>;

    fn run_app(self, t: T) -> GlobalResult<()>;
}

/// The marker for the process-wide shutdown signal. Watching the signal and
/// raising it are I/O and happen outside the library.
#[derive(Debug, Clone, Copy, PartialEq, Eq, Structural)]
pub struct Signal;

/// A date and time broken into plain values.
#[derive(Debug, Clone, Copy, PartialEq, Eq, Structural)]
pub struct DateParts {
    pub year: i32,
    pub month: u32,
    pub day: u32,
    pub hour: u32,
    pub minute: u32,
    pub second: u32,
}

/// What chrono's DateTime::parse_from_str makes of the text under the
/// format, if anything, as date parts.
pub uninterp spec fn chrono_parse_fixed(s: Seq<char>, fmt: Seq<char>) -> Option<DateParts>;

/// What chrono's NaiveDateTime::parse_from_str makes of the text under the
/// format, if anything, as date parts.
pub uninterp spec fn chrono_parse_naive(s: Seq<char>, fmt: Seq<char>) -> Option<DateParts>;

/// Relies on chrono::DateTime::parse_from_str: the result depends on the
/// text and the format alone, and the parts of a parsed date are in their
/// calendar ranges.
#[verifier::external_body]
fn parse_datetime_fixed(s: &str, fmt: &str) -> (r: Option<DateParts>)
    ensures
        r == chrono_parse_fixed(s@, fmt@),
        r matches Some(p) ==> 1 <= p.month <= 12 && 1 <= p.day <= 31 && p.hour < 24 && p.minute
            < 60 && p.second < 60,
{
    match chrono::DateTime::parse_from_str(s, fmt) {
        Ok(dt) => Some(
            DateParts {
                year: dt.year(),
                month: dt.month(),
                day: dt.day(),
                hour: dt.hour(),
                minute: dt.minute(),
                second: dt.second(),
            },
        ),
        Err(_) => None,
    }
}

/// Relies on chrono::NaiveDateTime::parse_from_str: the result depends on
/// the text and the format alone, and the parts of a parsed date are in
/// their calendar ranges.
#[verifier::external_body]
fn parse_datetime_naive(s: &str, fmt: &str) -> (r: Option<DateParts>)
    ensures
        r == chrono_parse_naive(s@, fmt@),
        r matches Some(p) ==> 1 <= p.month <= 12 && 1 <= p.day <= 31 && p.hour < 24 && p.minute
            < 60 && p.second < 60,
{
    match chrono::NaiveDateTime::parse_from_str(s, fmt) {
        Ok(dt) => Some(
            DateParts {
                year: dt.year(),
                month: dt.month(),
                day: dt.day(),
                hour: dt.hour(),
                minute: dt.minute(),
                second: dt.second(),
            },
        ),
        Err(_) => None,
    }
}

/// `n` in decimal, zero-padded on the left to at least `w` digits, as
/// ASCII bytes.
pub open spec fn spec_pad_dec(n: nat, w: nat) -> Seq<u8> {
    let d = spec_dec_digits(n);
    if d.len() >= w {
        d
    } else {
        Seq::new((w - d.len()) as nat, |i: int| 48u8) + d
    }
}

fn pad_dec(n: u64, w: usize) -> (r: Vec<u8>)
    ensures
        r@ == spec_pad_dec(n as nat, w as nat),
        forall|i: int| 0 <= i < r@.len() ==> 48 <= #[trigger] r@[i] <= 57,
{
    proof {
        super::utils::textual::lemma_dec_digits_bounds(n as nat);
    }
    let digits = super::utils::textual::dec_u128(n as u128);
    if digits.len() >= w {
        digits
    } else {
        let mut out: Vec<u8> = Vec::new();
        let zeros = w - digits.len();
        let mut i: usize = 0;
        while i < zeros
            invariant
                i <= zeros,
                out@ =~= Seq::new(i as nat, |j: int| 48u8),
            decreases zeros - i,
        {
            out.push(48);
            proof {
                assert(out@ =~= Seq::new(i as nat + 1, |j: int| 48u8));
            }
            i = i + 1;
        }
        push_bytes(&mut out, digits.as_slice());
        proof {
            assert(out@ =~= spec_pad_dec(n as nat, w as nat));
        }
        out
    }
}

/// The bytes of a timestamp in "year-month-day hour:minute:second" form:
/// the year zero-padded to four digits (with a leading minus sign if
/// negative), the rest to two.
pub open spec fn spec_format_parts(p: DateParts) -> Seq<u8> {
    let year = if p.year < 0 {
        seq![45u8] + spec_pad_dec((-p.year) as nat, 4)
    } else {
        spec_pad_dec(p.year as nat, 4)
    };
    year + seq![45u8] + spec_pad_dec(p.month as nat, 2) + seq![45u8] + spec_pad_dec(p.day as nat, 2)
        + seq![32u8] + spec_pad_dec(p.hour as nat, 2) + seq![58u8] + spec_pad_dec(p.minute as nat, 2)
        + seq![58u8] + spec_pad_dec(p.second as nat, 2)
}

/// The ASCII bytes read as characters.
pub open spec fn spec_ascii_chars(s: Seq<u8>) -> Seq<char> {
    Seq::new(s.len(), |i: int| s[i] as char)
}

/// Renders the date parts as "year-month-day hour:minute:second".
pub fn format_date_parts(p: &DateParts) -> (r: String)
    ensures
        r@ == spec_ascii_chars(spec_format_parts(*p)),
{
    let mut out: Vec<u8> = Vec::new();
    if p.year < 0 {
        out.push(45);
        let y = pad_dec((-(p.year as i64)) as u64, 4);
        push_bytes(&mut out, y.as_slice());
    } else {
        let y = pad_dec(p.year as u64, 4);
        push_bytes(&mut out, y.as_slice());
    }
    out.push(45);
    let m = pad_dec(p.month as u64, 2);
    push_bytes(&mut out, m.as_slice());
    out.push(45);
    let d = pad_dec(p.day as u64, 2);
    push_bytes(&mut out, d.as_slice());
    out.push(32);
    let h = pad_dec(p.hour as u64, 2);
    push_bytes(&mut out, h.as_slice());
    out.push(58);
    let mi = pad_dec(p.minute as u64, 2);
    push_bytes(&mut out, mi.as_slice());
    out.push(58);
    let s = pad_dec(p.second as u64, 2);
    push_bytes(&mut out, s.as_slice());
    proof {
        assert(out@ =~= spec_format_parts(*p));
    }
    let r = ascii_to_string(out);
    proof {
        assert(r@ =~= spec_ascii_chars(spec_format_parts(*p)));
    }
    r
}

/// What parsing a process start-time string comes to: the first of the
/// supported forms that parses, trying the full forms first and falling
/// back to a naive parse of the first form.
pub open spec fn spec_friendly_parse(s: Seq<char>) -> Option<DateParts> {
    if chrono_parse_fixed(s, "%a %b %e %H:%M:%S %Y"@) is Some {
        chrono_parse_fixed(s, "%a %b %e %H:%M:%S %Y"@)
    } else if chrono_parse_fixed(s, "%a %b %d %H:%M:%S %Y"@) is Some {
        chrono_parse_fixed(s, "%a %b %d %H:%M:%S %Y"@)
    } else if chrono_parse_fixed(s, "%b %e %H:%M"@) is Some {
        chrono_parse_fixed(s, "%b %e %H:%M"@)
    } else if chrono_parse_fixed(s, "%b %d %H:%M"@) is Some {
        chrono_parse_fixed(s, "%b %d %H:%M"@)
    } else {
        chrono_parse_naive(s, "%a %b %e %H:%M:%S %Y"@)
    }
}

/// Turns a process start-time string (as the system reports it) into
/// "year-month-day hour:minute:second". A string in none of the supported
/// forms is reported as unsupported.
pub fn format_start_time_friendly(s: &str) -> (r: GlobalResult<String>)
    ensures
        r is Ok <==> spec_friendly_parse(s@) is Some,
        r matches Ok(t) ==> spec_friendly_parse(s@) matches Some(p) && t@ == spec_ascii_chars(
            spec_format_parts(p),
        ),
        r matches Err(e) ==> e matches GlobalError::SysErr(m) && m@ == "unsupported time format"@,
{
    let parsed = if let Some(p) = parse_datetime_fixed(s, "%a %b %e %H:%M:%S %Y") {
        Some(p)
    } else if let Some(p) = parse_datetime_fixed(s, "%a %b %d %H:%M:%S %Y") {
        Some(p)
    } else if let Some(p) = parse_datetime_fixed(s, "%b %e %H:%M") {
        Some(p)
    } else if let Some(p) = parse_datetime_fixed(s, "%b %d %H:%M") {
        Some(p)
    } else {
        parse_datetime_naive(s, "%a %b %e %H:%M:%S %Y")
    };
    match parsed {
        Some(p) => Ok(format_date_parts(&p)),
        None => Err(GlobalError::new_sys_error("unsupported time format")),
    }
}

} // verus!
