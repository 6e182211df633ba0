//! Durations as text.
use crate::text::{decimal, padded2, push_char, push_decimal, push_padded2};
use vstd::prelude::*;

verus! {

/// `n` in decimal, in three digits at least.
pub open spec fn padded3(n: nat) -> Seq<char> {
    if n < 10 {
        seq!['0', '0'] + decimal(n)
    } else if n < 100 {
        seq!['0'] + decimal(n)
    } else {
        decimal(n)
    }
}

/// `n` in decimal, with a comma before each group of three digits counted
/// from the right.
pub open spec fn grouped(n: nat) -> Seq<char>
    decreases n,
{
    if n < 1000 {
        decimal(n)
    } else {
        grouped(n / 1000) + seq![','] + padded3(n % 1000)
    }
}

/// Appends `n` in decimal, in three digits at least.
fn push_padded3(out: &mut String, n: u64)
    ensures
        final(out)@ == old(out)@ + padded3(n as nat),
{
    if n < 10 {
        push_char(out, '0');
        push_char(out, '0');
        push_decimal(out, n);
        assert(old(out)@.push('0').push('0') + decimal(n as nat) =~= old(out)@ + (seq!['0', '0']
            + decimal(n as nat)));
    } else if n < 100 {
        push_char(out, '0');
        push_decimal(out, n);
        assert(old(out)@.push('0') + decimal(n as nat) =~= old(out)@ + (seq!['0'] + decimal(
            n as nat,
        )));
    } else {
        push_decimal(out, n);
    }
}

/// Appends `n` in decimal, its digits in groups of three.
fn push_grouped(out: &mut String, n: u128)
    ensures
        final(out)@ == old(out)@ + grouped(n as nat),
    decreases n,
{
    if n < 1000 {
        push_decimal(out, n as u64);
    } else {
        push_grouped(out, n / 1000);
        push_char(out, ',');
        push_padded3(out, (n % 1000) as u64);
        assert((old(out)@ + grouped((n / 1000) as nat)).push(',') + padded3((n % 1000) as nat)
            =~= old(out)@ + (grouped((n / 1000) as nat) + seq![','] + padded3(
            (n % 1000) as nat,
        )));
    }
}

pub const MILLIS_PER_HOUR: u64 = 3_600_000;

pub const MILLIS_PER_DAY: u64 = 86_400_000;

pub const MILLIS_PER_MONTH: u64 = 2_592_000_000;

pub const MILLIS_PER_YEAR: u64 = 31_536_000_000;

pub const SECONDS_PER_MONTH: u64 = 2_592_000;

pub const SECONDS_PER_YEAR: u64 = 31_536_000;

/// The leading field of a timestamp of a year or more: the whole seconds,
/// times the seconds of a year.
pub open spec fn years_field(millis: u64) -> nat {
    ((millis / 1000) * SECONDS_PER_YEAR) as nat
}

/// The field behind the leading one: the whole seconds, times the seconds of
/// thirty days, modulo 12. That product is a multiple of 12, so the field is 0.
pub open spec fn months_field(millis: u64) -> nat {
    (((millis / 1000) * SECONDS_PER_MONTH) % 12) as nat
}

/// A duration of `millis` milliseconds as a timestamp: minutes and seconds,
/// each in two digits; before them, for an hour or more, the hours of the
/// day, for a day or more, the days modulo 30, for thirty days or more, the
/// months field, and for 365 days or more, the years field with its digits
/// in groups of three. The fields are separated by colons.
pub open spec fn millis_text(millis: u64) -> Seq<char> {
    let years = if millis >= MILLIS_PER_YEAR {
        grouped(years_field(millis)) + seq![':']
    } else {
        Seq::empty()
    };
    let months = if millis >= MILLIS_PER_MONTH {
        padded2(months_field(millis)) + seq![':']
    } else {
        Seq::empty()
    };
    let days = if millis >= MILLIS_PER_DAY {
        padded2(((millis / MILLIS_PER_DAY) % 30) as nat) + seq![':']
    } else {
        Seq::empty()
    };
    let hours = if millis >= MILLIS_PER_HOUR {
        padded2(((millis / MILLIS_PER_HOUR) % 24) as nat) + seq![':']
    } else {
        Seq::empty()
    };
    years + months + days + hours + padded2(((millis / 60_000) % 60) as nat) + seq![':'] + padded2(
        ((millis / 1000) % 60) as nat,
    )
}

/// The months field is always zero.
pub proof fn law_months_field_is_zero(millis: u64)
    ensures
        months_field(millis) == 0,
{
    let secs = (millis / 1000) as int;
    assert((secs * 2_592_000) % 12 == 0) by (nonlinear_arith);
}

/// The timestamp of a duration of `millis` milliseconds. The fields for
/// months and years are products of the whole seconds, which are worked out
/// in 128 bits, so that every duration has its timestamp.
pub fn millis_to_string(millis: u64) -> (timestamp: String)
    ensures
        timestamp@ == millis_text(millis),
{
    let seconds = (millis / 1000) % 60;
    let minutes = (millis / (1000 * 60)) % 60;
    let hours = (millis / (1000 * 60 * 60)) % 24;
    let days = (millis / (1000 * 60 * 60 * 24)) % 30;
    let whole_seconds: u128 = (millis / 1000) as u128;
    assert(whole_seconds * 31_536_000 <= 0xffff_ffff_ffff_ffff * 31_536_000) by (nonlinear_arith)
        requires
            whole_seconds <= 0xffff_ffff_ffff_ffff,
    ;
    assert(whole_seconds * 2_592_000 <= 0xffff_ffff_ffff_ffff * 2_592_000) by (nonlinear_arith)
        requires
            whole_seconds <= 0xffff_ffff_ffff_ffff,
    ;
    let months: u64 = ((whole_seconds * (SECONDS_PER_MONTH as u128)) % 12) as u64;
    let years: u128 = whole_seconds * (SECONDS_PER_YEAR as u128);

    let mut timestamp = String::new();
    if millis >= MILLIS_PER_YEAR {
        push_grouped(&mut timestamp, years);
        push_char(&mut timestamp, ':');
    }
    let ghost with_years = timestamp@;
    if millis >= MILLIS_PER_MONTH {
        push_padded2(&mut timestamp, months);
        push_char(&mut timestamp, ':');
    }
    let ghost with_months = timestamp@;
    if millis >= MILLIS_PER_DAY {
        push_padded2(&mut timestamp, days);
        push_char(&mut timestamp, ':');
    }
    let ghost with_days = timestamp@;
    if millis >= MILLIS_PER_HOUR {
        push_padded2(&mut timestamp, hours);
        push_char(&mut timestamp, ':');
    }
    let ghost with_hours = timestamp@;
    push_padded2(&mut timestamp, minutes);
    push_char(&mut timestamp, ':');
    push_padded2(&mut timestamp, seconds);
    proof {
        let y = if millis >= MILLIS_PER_YEAR {
            grouped(years_field(millis)) + seq![':']
        } else {
            Seq::empty()
        };
        let m = if millis >= MILLIS_PER_MONTH {
            padded2(months_field(millis)) + seq![':']
        } else {
            Seq::empty()
        };
        let d = if millis >= MILLIS_PER_DAY {
            padded2(((millis / MILLIS_PER_DAY) % 30) as nat) + seq![':']
        } else {
            Seq::empty()
        };
        let h = if millis >= MILLIS_PER_HOUR {
            padded2(((millis / MILLIS_PER_HOUR) % 24) as nat) + seq![':']
        } else {
            Seq::empty()
        };
        assert(with_years =~= y);
        assert(with_months =~= y + m);
        assert(with_days =~= y + m + d);
        assert(with_hours =~= y + m + d + h);
        assert(timestamp@ =~= millis_text(millis));
    }
    timestamp
}

/// A duration of `secs` seconds as text: minutes and seconds, the seconds in
/// two digits; from an hour on, hours, minutes and seconds, the last two in
/// two digits each.
pub open spec fn seconds_text(secs: u64) -> Seq<char> {
    if secs >= 3600 {
        decimal((secs / 3600) as nat) + seq![':'] + padded2(((secs / 60) % 60) as nat) + seq![':']
            + padded2((secs % 60) as nat)
    } else {
        decimal(((secs / 60) % 60) as nat) + seq![':'] + padded2((secs % 60) as nat)
    }
}

/// The text of a duration of `secs` seconds.
pub fn seconds_to_string(secs: u64) -> (text: String)
    ensures
        text@ == seconds_text(secs),
{
    let mut text = String::new();
    let s = secs % 60;
    let m = (secs / 60) % 60;
    if secs >= 3600 {
        let h = (secs / 60) / 60;
        assert(h == secs / 3600) by (nonlinear_arith)
            requires
                h == (secs / 60) / 60,
        ;
        push_decimal(&mut text, h);
        push_char(&mut text, ':');
        push_padded2(&mut text, m);
        push_char(&mut text, ':');
        push_padded2(&mut text, s);
        assert(text@ =~= seconds_text(secs));
    } else {
        push_decimal(&mut text, m);
        push_char(&mut text, ':');
        push_padded2(&mut text, s);
        assert(text@ =~= seconds_text(secs));
    }
    text
}

} // verus!
