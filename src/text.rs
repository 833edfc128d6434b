//! The text of a notification: amounts of money, the body and the footer.
use vstd::prelude::*;
use crate::notify::{LowFooter, NotificationContent, Percentage};
use crate::pricing::Classification;

verus! {

/// The character of a decimal digit.
pub open spec fn digit_text(d: int) -> Seq<char> {
    if d == 0 { "0"@ } else if d == 1 { "1"@ } else if d == 2 { "2"@ } else if d == 3 { "3"@ }
    else if d == 4 { "4"@ } else if d == 5 { "5"@ } else if d == 6 { "6"@ } else if d == 7 { "7"@ }
    else if d == 8 { "8"@ } else { "9"@ }
}

/// `n` written in decimal, without leading zeros.
pub open spec fn decimal_text(n: nat) -> Seq<char>
    decreases n,
{
    if n < 10 {
        digit_text(n as int)
    } else {
        decimal_text(n / 10) + digit_text((n % 10) as int)
    }
}

/// An amount in hundredths written with two decimals ("12.05").
pub open spec fn hundredths_text(n: nat) -> Seq<char> {
    decimal_text(n / 100) + "."@ + digit_text(((n / 10) % 10) as int) + digit_text((n % 10) as int)
}

/// A percentage written with two decimals, with a minus sign where it is
/// negative, also where its size rounds to zero ("-0.00").
pub open spec fn percentage_text(p: Percentage) -> Seq<char> {
    if p.negative {
        "-"@ + hundredths_text(p.hundredths as nat)
    } else {
        hundredths_text(p.hundredths as nat)
    }
}

/// The body of a notification.
pub open spec fn body_text(
    c: Classification,
    heading: Seq<char>,
    price: u64,
    previous: Option<u64>,
    percentage: Option<Percentage>,
) -> Seq<char> {
    if c == Classification::FirstObservation {
        "**"@ + heading + "**\n£"@ + hundredths_text(price as nat)
    } else {
        match (previous, percentage) {
            (Option::Some(old), Option::Some(p)) => "**"@ + heading + "**\n**£"@ + hundredths_text(
                price as nat,
            ) + "** changed from £"@ + hundredths_text(old as nat) + " | "@ + percentage_text(p) + "%"@,
            _ => "**"@ + heading + "**\n**£"@ + hundredths_text(price as nat) + "**"@,
        }
    }
}

/// The footer of a notification, given the date of the historical low.
pub open spec fn footer_text(f: Option<LowFooter>, date: Seq<char>) -> Seq<char> {
    match f {
        Option::None => Seq::empty(),
        Option::Some(f) => "Historical low: £"@ + hundredths_text(f.low_price as nat)
            + ", which occurred on: "@ + date + " Difference of: £"@ + hundredths_text(
            f.difference as nat,
        ),
    }
}

fn digit_str(d: u128) -> (r: &'static str)
    requires
        d < 10,
    ensures
        r@ == digit_text(d as int),
{
    proof {
        reveal_strlit("0");
        reveal_strlit("1");
        reveal_strlit("2");
        reveal_strlit("3");
        reveal_strlit("4");
        reveal_strlit("5");
        reveal_strlit("6");
        reveal_strlit("7");
        reveal_strlit("8");
        reveal_strlit("9");
    }
    if d == 0 { "0" } else if d == 1 { "1" } else if d == 2 { "2" } else if d == 3 { "3" }
    else if d == 4 { "4" } else if d == 5 { "5" } else if d == 6 { "6" } else if d == 7 { "7" }
    else if d == 8 { "8" } else { "9" }
}

/// Appends `n` in decimal.
pub fn append_decimal(out: &mut String, n: u128)
    ensures
        final(out)@ == old(out)@ + decimal_text(n as nat),
    decreases n,
{
    if n >= 10 {
        append_decimal(out, n / 10);
    }
    out.append(digit_str(n % 10));
    proof {
        if n >= 10 {
            assert(final(out)@ =~= old(out)@ + decimal_text(n as nat));
        } else {
            assert(final(out)@ =~= old(out)@ + decimal_text(n as nat));
        }
    }
}

/// Appends an amount in hundredths with two decimals.
pub fn append_hundredths(out: &mut String, n: u128)
    ensures
        final(out)@ == old(out)@ + hundredths_text(n as nat),
{
    append_decimal(out, n / 100);
    out.append(".");
    out.append(digit_str((n / 10) % 10));
    out.append(digit_str(n % 10));
    proof {
        assert(final(out)@ =~= old(out)@ + hundredths_text(n as nat));
    }
}

/// An amount of pence as pounds with two decimals ("12.05").
pub fn money_text(pence: u64) -> (r: String)
    ensures
        r@ == hundredths_text(pence as nat),
{
    let mut out = String::new();
    append_hundredths(&mut out, pence as u128);
    proof {
        assert(out@ =~= hundredths_text(pence as nat));
    }
    out
}

/// A percentage with two decimals ("-50.00").
pub fn percentage_string(p: Percentage) -> (r: String)
    ensures
        r@ == percentage_text(p),
{
    let mut out = String::new();
    if p.negative {
        out.append("-");
    }
    append_hundredths(&mut out, p.hundredths);
    proof {
        assert(out@ =~= percentage_text(p));
    }
    out
}

/// The body of a notification.
pub fn notification_body(n: &NotificationContent) -> (r: String)
    ensures
        r@ == body_text(n.classification, n.heading@, n.price, n.previous_price, n.percentage),
{
    let mut out = String::new();
    out.append("**");
    out.append(n.heading);
    if n.classification == Classification::FirstObservation {
        out.append("**\n£");
        append_hundredths(&mut out, n.price as u128);
    } else {
        match (n.previous_price, n.percentage) {
            (Option::Some(old), Option::Some(p)) => {
                out.append("**\n**£");
                append_hundredths(&mut out, n.price as u128);
                out.append("** changed from £");
                append_hundredths(&mut out, old as u128);
                out.append(" | ");
                let pct = percentage_string(p);
                out.append(pct.as_str());
                out.append("%");
            },
            _ => {
                out.append("**\n**£");
                append_hundredths(&mut out, n.price as u128);
                out.append("**");
            },
        }
    }
    proof {
        assert(out@ =~= body_text(n.classification, n.heading@, n.price, n.previous_price, n.percentage));
    }
    out
}

/// The footer of a notification; `date` is when the historical low
/// occurred, as the reader's calendar shows it.
pub fn notification_footer(f: Option<LowFooter>, date: &str) -> (r: String)
    ensures
        r@ == footer_text(f, date@),
{
    let mut out = String::new();
    match f {
        Option::None => {},
        Option::Some(f) => {
            out.append("Historical low: £");
            append_hundredths(&mut out, f.low_price as u128);
            out.append(", which occurred on: ");
            out.append(date);
            out.append(" Difference of: £");
            append_hundredths(&mut out, f.difference as u128);
        },
    }
    proof {
        assert(out@ =~= footer_text(f, date@));
    }
    out
}

} // verus!
