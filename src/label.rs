//! The one-line summary shown in the status bar.
use vstd::prelude::*;
use crate::sampler::DisplayMetrics;

verus! {

pub open spec fn digit_char(d: nat) -> char {
    if d == 0 {
        '0'
    } else if d == 1 {
        '1'
    } else if d == 2 {
        '2'
    } else if d == 3 {
        '3'
    } else if d == 4 {
        '4'
    } else if d == 5 {
        '5'
    } else if d == 6 {
        '6'
    } else if d == 7 {
        '7'
    } else if d == 8 {
        '8'
    } else {
        '9'
    }
}

/// The decimal digits of `n`, without leading zeros.
pub open spec fn decimal(n: nat) -> Seq<char>
    decreases n,
{
    if n < 10 {
        seq![digit_char(n)]
    } else {
        decimal(n / 10).push(digit_char(n % 10))
    }
}

/// `n / d` rounded to the nearest integer, an exact half rounded to the even one.
pub open spec fn rounded_div(n: nat, d: nat) -> nat {
    if d == 0 {
        0
    } else {
        let q = n / d;
        let twice_rest = 2 * (n % d);
        q + if twice_rest > d || (twice_rest == d && q % 2 == 1) {
            1nat
        } else {
            0nat
        }
    }
}

/// A percentage given in hundredths, shown as a whole number.
pub open spec fn percent_text(hundredths: nat) -> Seq<char> {
    decimal(rounded_div(hundredths, 100))
}

/// A byte count shown in kibibytes with one decimal place.
///
/// The count is what moved during one tick (about 800 ms), not during one
/// second: the figure is not divided by the time that actually passed, so it
/// drifts from a true rate when ticks come late.
pub open spec fn kib_text(bytes: nat) -> Seq<char> {
    let tenths = rounded_div(bytes * 10, 1024);
    decimal(tenths / 10) + seq!['.', digit_char(tenths % 10)]
}

/// The summary of one tick: CPU, memory, download and upload.
pub open spec fn label_text(m: DisplayMetrics) -> Seq<char> {
    seq!['\u{26a1}'] + percent_text(m.cpu_hundredths as nat) + seq![
        '%',
        ' ',
        '\u{b7}',
        ' ',
        '\u{1f9e0}',
    ] + percent_text(m.memory_hundredths as nat) + seq!['%', ' ', '\u{b7}', ' ', '\u{2193}']
        + kib_text(m.download_rate_bytes_per_tick as nat) + seq![
        'K',
        'B',
        '/',
        's',
        ' ',
        '\u{2191}',
    ] + kib_text(m.upload_rate_bytes_per_tick as nat) + seq!['K', 'B', '/', 's']
}

fn append_digit(s: &mut String, d: u128)
    requires
        d < 10,
    ensures
        final(s)@ == old(s)@.push(digit_char(d as nat)),
{
    let ghost before = s@;
    if d == 0 {
        proof { reveal_strlit("0"); }
        s.append("0");
    } else if d == 1 {
        proof { reveal_strlit("1"); }
        s.append("1");
    } else if d == 2 {
        proof { reveal_strlit("2"); }
        s.append("2");
    } else if d == 3 {
        proof { reveal_strlit("3"); }
        s.append("3");
    } else if d == 4 {
        proof { reveal_strlit("4"); }
        s.append("4");
    } else if d == 5 {
        proof { reveal_strlit("5"); }
        s.append("5");
    } else if d == 6 {
        proof { reveal_strlit("6"); }
        s.append("6");
    } else if d == 7 {
        proof { reveal_strlit("7"); }
        s.append("7");
    } else if d == 8 {
        proof { reveal_strlit("8"); }
        s.append("8");
    } else {
        proof { reveal_strlit("9"); }
        s.append("9");
    }
    assert(s@ =~= before.push(digit_char(d as nat)));
}

/// Appends the decimal digits of `n`.
pub fn append_decimal(s: &mut String, n: u128)
    ensures
        final(s)@ == old(s)@ + decimal(n as nat),
    decreases n,
{
    if n < 10 {
        append_digit(s, n);
        assert(decimal(n as nat) =~= seq![digit_char(n as nat)]);
        assert(s@ =~= old(s)@ + decimal(n as nat));
    } else {
        append_decimal(s, n / 10);
        append_digit(s, n % 10);
        assert(s@ =~= old(s)@ + decimal(n as nat));
    }
}

fn round_div(n: u128, d: u128) -> (r: u128)
    requires
        0 < d <= 1024,
    ensures
        r == rounded_div(n as nat, d as nat),
{
    let q = n / d;
    proof {
        if d == 1 {
            assert(n % d == 0);
        } else {
            assert(q * 2 <= n) by (nonlinear_arith)
                requires
                    q == n / d,
                    d >= 2,
            ;
        }
    }
    let twice_rest = 2 * (n % d);
    if twice_rest > d || (twice_rest == d && q % 2 == 1) {
        q + 1
    } else {
        q
    }
}

/// Appends a percentage given in hundredths as a whole number.
pub fn append_percent(s: &mut String, hundredths: u128)
    ensures
        final(s)@ == old(s)@ + percent_text(hundredths as nat),
{
    let whole = round_div(hundredths, 100);
    append_decimal(s, whole);
}

/// Appends a byte count in kibibytes with one decimal place (see `kib_text`).
pub fn append_kib(s: &mut String, bytes: u64)
    ensures
        final(s)@ == old(s)@ + kib_text(bytes as nat),
{
    let tenths = round_div((bytes as u128) * 10, 1024);
    append_decimal(s, tenths / 10);
    proof { reveal_strlit("."); }
    s.append(".");
    append_digit(s, tenths % 10);
    assert(s@ =~= old(s)@ + kib_text(bytes as nat));
}

/// Renders the summary of one tick.
///
/// The network figures are labelled KB/s but are kibibytes per tick; see
/// `kib_text`.
pub fn render_label(m: &DisplayMetrics) -> (r: String)
    ensures
        r@ == label_text(*m),
{
    let mut s = String::new();
    proof { reveal_strlit("\u{26a1}"); }
    s.append("\u{26a1}");
    append_percent(&mut s, m.cpu_hundredths as u128);
    proof { reveal_strlit("% \u{b7} \u{1f9e0}"); }
    s.append("% \u{b7} \u{1f9e0}");
    append_percent(&mut s, m.memory_hundredths);
    proof { reveal_strlit("% \u{b7} \u{2193}"); }
    s.append("% \u{b7} \u{2193}");
    append_kib(&mut s, m.download_rate_bytes_per_tick);
    proof { reveal_strlit("KB/s \u{2191}"); }
    s.append("KB/s \u{2191}");
    append_kib(&mut s, m.upload_rate_bytes_per_tick);
    proof { reveal_strlit("KB/s"); }
    s.append("KB/s");
    assert(s@ =~= label_text(*m));
    s
}

} // verus!
