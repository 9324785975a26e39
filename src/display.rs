use vstd::prelude::*;

verus! {

/// The decimal digit for `d`, which is below ten.
pub open spec fn digit_char(d: nat) -> char {
    if d == 0 {
        '0'
    } else if d == 1 {
        '1'
    } else if d == 2 {
        '2'
    } else if d == 3 {
        '3'
    } else if d == 4 {
        '4'
    } else if d == 5 {
        '5'
    } else if d == 6 {
        '6'
    } else if d == 7 {
        '7'
    } else if d == 8 {
        '8'
    } else {
        '9'
    }
}

/// `n` written in decimal, without leading zeros.
pub open spec fn decimal(n: nat) -> Seq<char>
    decreases n,
{
    if n < 10 {
        seq![digit_char(n)]
    } else {
        decimal(n / 10) + seq![digit_char(n % 10)]
    }
}

/// A count of milliseconds as text: hours, minutes, seconds and milliseconds,
/// as in `1h 2m 3s 4ms`. Leading units that are zero are left out; the
/// milliseconds are always shown.
pub open spec fn render_ms(ms: nat) -> Seq<char> {
    let hours = ms / 3_600_000;
    let minutes = ms / 60_000 % 60;
    let seconds = ms / 1000 % 60;
    let millis = decimal(ms % 1000) + seq!['m', 's'];
    let secs = decimal(seconds) + seq!['s', ' '] + millis;
    let mins = decimal(minutes) + seq!['m', ' '] + secs;
    if hours > 0 {
        decimal(hours) + seq!['h', ' '] + mins
    } else if minutes > 0 {
        mins
    } else if seconds > 0 {
        secs
    } else {
        millis
    }
}

/// The one-character text for digit `d`.
fn digit_str(d: u64) -> (r: &'static str)
    requires
        d < 10,
    ensures
        r@ == seq![digit_char(d as nat)],
{
    proof {
        reveal_strlit("0");
        reveal_strlit("1");
        reveal_strlit("2");
        reveal_strlit("3");
        reveal_strlit("4");
        reveal_strlit("5");
        reveal_strlit("6");
        reveal_strlit("7");
        reveal_strlit("8");
        reveal_strlit("9");
    }
    if d == 0 {
        "0"
    } else if d == 1 {
        "1"
    } else if d == 2 {
        "2"
    } else if d == 3 {
        "3"
    } else if d == 4 {
        "4"
    } else if d == 5 {
        "5"
    } else if d == 6 {
        "6"
    } else if d == 7 {
        "7"
    } else if d == 8 {
        "8"
    } else {
        "9"
    }
}

/// Appends `n` in decimal to `buf`.
fn push_decimal(buf: &mut String, n: u64)
    ensures
        final(buf)@ == old(buf)@ + decimal(n as nat),
    decreases n,
{
    if n >= 10 {
        push_decimal(buf, n / 10);
    }
    buf.append(digit_str(n % 10));
    proof {
        if n >= 10 {
            assert(decimal(n as nat) == decimal((n / 10) as nat) + seq![digit_char((n % 10) as nat)]);
        }
    }
}

/// `ms` milliseconds as text, in the form of `render_ms`.
pub fn format_ms(ms: u64) -> (r: String)
    ensures
        r@ == render_ms(ms as nat),
{
    let hours = ms / 3_600_000;
    let minutes = ms / 60_000 % 60;
    let seconds = ms / 1000 % 60;
    let mut buf = String::new();
    proof {
        reveal_strlit("h ");
        reveal_strlit("m ");
        reveal_strlit("s ");
        reveal_strlit("ms");
    }
    if hours > 0 {
        push_decimal(&mut buf, hours);
        buf.append("h ");
    }
    if hours > 0 || minutes > 0 {
        push_decimal(&mut buf, minutes);
        buf.append("m ");
    }
    if hours > 0 || minutes > 0 || seconds > 0 {
        push_decimal(&mut buf, seconds);
        buf.append("s ");
    }
    push_decimal(&mut buf, ms % 1000);
    buf.append("ms");
    proof {
        let millis = decimal((ms % 1000) as nat) + seq!['m', 's'];
        let secs = decimal(seconds as nat) + seq!['s', ' '] + millis;
        let mins = decimal(minutes as nat) + seq!['m', ' '] + secs;
        if hours > 0 {
            assert(buf@ =~= decimal(hours as nat) + seq!['h', ' '] + mins);
        } else if minutes > 0 {
            assert(buf@ =~= mins);
        } else if seconds > 0 {
            assert(buf@ =~= secs);
        } else {
            assert(buf@ =~= millis);
        }
    }
    buf
}

} // verus!
