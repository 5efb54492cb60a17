use vstd::prelude::*;

use crate::numfmt::{dec_rep, u64_to_string};
use chrono::Datelike;
use chrono::Timelike;

verus! {

/// A run of `n` zero characters.
pub open spec fn zeros(n: nat) -> Seq<char> {
    Seq::new(n, |i: int| '0')
}

/// The decimal representation of `n`, left-padded with zeros to at least
/// `width` characters.
pub open spec fn padded_dec(n: nat, width: nat) -> Seq<char> {
    if dec_rep(n).len() >= width {
        dec_rep(n)
    } else {
        zeros((width - dec_rep(n).len()) as nat) + dec_rep(n)
    }
}

/// Renders `n` in decimal, left-padded with zeros to at least `width`
/// characters.
pub fn u64_to_padded_string(n: u64, width: usize) -> (r: String)
    ensures
        r@ == padded_dec(n as nat, width as nat),
{
    let mut s = u64_to_string(n);
    proof {
        assert(s@ =~= zeros((s@.len() - dec_rep(n as nat).len()) as nat) + dec_rep(n as nat));
    }
    while s.as_str().unicode_len() < width
        invariant
            s@.len() >= dec_rep(n as nat).len(),
            s@ == zeros((s@.len() - dec_rep(n as nat).len()) as nat) + dec_rep(n as nat),
            dec_rep(n as nat).len() >= width ==> s@.len() == dec_rep(n as nat).len(),
            dec_rep(n as nat).len() < width ==> s@.len() <= width,
        decreases width - s@.len(),
    {
        let t = String::from_str("0").concat(s.as_str());
        proof {
            reveal_strlit("0");
            assert(t@ =~= zeros((t@.len() - dec_rep(n as nat).len()) as nat) + dec_rep(n as nat));
        }
        s = t;
    }
    proof {
        assert(s@ =~= padded_dec(n as nat, width as nat));
    }
    s
}

/// The text `YYYY-MM-DD HH:MM UTC` for the given clock reading, each field
/// zero-padded to its nominal width.
pub open spec fn timestamp_seq(y: nat, mo: nat, d: nat, h: nat, mi: nat) -> Seq<char> {
    padded_dec(y, 4) + "-"@ + padded_dec(mo, 2) + "-"@ + padded_dec(d, 2) + " "@ + padded_dec(
        h,
        2,
    ) + ":"@ + padded_dec(mi, 2) + " UTC"@
}

/// Formats a clock reading as `YYYY-MM-DD HH:MM UTC`.
pub fn format_utc_timestamp(year: u64, month: u32, day: u32, hour: u32, minute: u32) -> (r: String)
    ensures
        r@ == timestamp_seq(year as nat, month as nat, day as nat, hour as nat, minute as nat),
{
    let mut s = u64_to_padded_string(year, 4);
    s.append("-");
    s.append(u64_to_padded_string(month as u64, 2).as_str());
    s.append("-");
    s.append(u64_to_padded_string(day as u64, 2).as_str());
    s.append(" ");
    s.append(u64_to_padded_string(hour as u64, 2).as_str());
    s.append(":");
    s.append(u64_to_padded_string(minute as u64, 2).as_str());
    s.append(" UTC");
    proof {
        assert(s@ =~= timestamp_seq(
            year as nat,
            month as nat,
            day as nat,
            hour as nat,
            minute as nat,
        ));
    }
    s
}

/// Relies on `chrono::Utc::now` for the current instant and on the
/// `chrono::Datelike` and `chrono::Timelike` accessors `year`, `month`,
/// `day`, `hour` and `minute` for its calendar fields. `Utc::now` builds
/// the instant from a non-negative Unix timestamp, so the year is at least
/// 1970; the accessors' documentation bounds the other fields.
#[verifier::external_body]
fn current_utc_parts() -> (r: (i32, u32, u32, u32, u32))
    ensures
        1970 <= r.0,
        1 <= r.1 <= 12,
        1 <= r.2 <= 31,
        r.3 <= 23,
        r.4 <= 59,
{
    let t = chrono::Utc::now();
    (t.year(), t.month(), t.day(), t.hour(), t.minute())
}

/// The current UTC time, formatted as `YYYY-MM-DD HH:MM UTC`.
pub fn current_timestamp() -> (s: String)
    ensures
        exists|y: nat, mo: nat, d: nat, h: nat, mi: nat|
            1970 <= y && 1 <= mo <= 12 && 1 <= d <= 31 && h <= 23 && mi <= 59 && s@
                == #[trigger] timestamp_seq(y, mo, d, h, mi),
{
    let (y, mo, d, h, mi) = current_utc_parts();
    format_utc_timestamp(y as u64, mo, d, h, mi)
}

/// A decimal digit.
pub open spec fn is_digit(c: char) -> bool {
    '0' <= c <= '9'
}

/// Text of the shape `YYYY-MM-DD HH:MM UTC`: twenty characters, digits in
/// every field position, the fixed separators in between.
pub open spec fn is_timestamp_text(s: Seq<char>) -> bool {
    &&& s.len() == 20
    &&& is_digit(s[0])
    &&& is_digit(s[1])
    &&& is_digit(s[2])
    &&& is_digit(s[3])
    &&& s[4] == '-'
    &&& is_digit(s[5])
    &&& is_digit(s[6])
    &&& s[7] == '-'
    &&& is_digit(s[8])
    &&& is_digit(s[9])
    &&& s[10] == ' '
    &&& is_digit(s[11])
    &&& is_digit(s[12])
    &&& s[13] == ':'
    &&& is_digit(s[14])
    &&& is_digit(s[15])
    &&& s[16] == ' '
    &&& s[17] == 'U'
    &&& s[18] == 'T'
    &&& s[19] == 'C'
}

/// Every character of `dec_rep(n)` is a decimal digit, and there is at
/// least one of them.
proof fn lemma_dec_rep_digits(n: nat)
    ensures
        dec_rep(n).len() >= 1,
        forall|i: int| 0 <= i < dec_rep(n).len() ==> is_digit(#[trigger] dec_rep(n)[i]),
    decreases n,
{
    if n >= 10 {
        lemma_dec_rep_digits(n / 10);
    }
}

/// How many digits small numbers take.
proof fn lemma_dec_rep_len(n: nat)
    ensures
        n <= 9 ==> dec_rep(n).len() == 1,
        n <= 99 ==> dec_rep(n).len() <= 2,
        n <= 999 ==> dec_rep(n).len() <= 3,
        n <= 9999 ==> dec_rep(n).len() <= 4,
    decreases n,
{
    if n >= 10 {
        lemma_dec_rep_len(n / 10);
    }
}

/// Zero-padding a small number to `width` gives exactly `width` digits.
proof fn lemma_padded_dec_digits(n: nat, width: nat)
    requires
        dec_rep(n).len() <= width,
    ensures
        padded_dec(n, width).len() == width,
        forall|i: int| 0 <= i < width ==> is_digit(#[trigger] padded_dec(n, width)[i]),
{
    lemma_dec_rep_digits(n);
}

/// For a clock reading whose year has at most four digits, the formatted
/// timestamp matches the `YYYY-MM-DD HH:MM UTC` pattern.
pub proof fn lemma_timestamp_pattern(y: nat, mo: nat, d: nat, h: nat, mi: nat)
    requires
        y <= 9999,
        mo <= 99,
        d <= 99,
        h <= 99,
        mi <= 99,
    ensures
        is_timestamp_text(timestamp_seq(y, mo, d, h, mi)),
{
    reveal_strlit("-");
    reveal_strlit(" ");
    reveal_strlit(":");
    reveal_strlit(" UTC");
    lemma_dec_rep_len(y);
    lemma_dec_rep_len(mo);
    lemma_dec_rep_len(d);
    lemma_dec_rep_len(h);
    lemma_dec_rep_len(mi);
    lemma_padded_dec_digits(y, 4);
    lemma_padded_dec_digits(mo, 2);
    lemma_padded_dec_digits(d, 2);
    lemma_padded_dec_digits(h, 2);
    lemma_padded_dec_digits(mi, 2);
}

} // verus!
