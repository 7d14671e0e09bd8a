//! Text shown on the race HUD: times and counters.
use vstd::prelude::*;
use crate::race::Race;

verus! {

/// The character of the decimal digit `d`.
pub open spec fn digit_char(d: nat) -> char {
    if d == 0 {
        '0'
    } else if d == 1 {
        '1'
    } else if d == 2 {
        '2'
    } else if d == 3 {
        '3'
    } else if d == 4 {
        '4'
    } else if d == 5 {
        '5'
    } else if d == 6 {
        '6'
    } else if d == 7 {
        '7'
    } else if d == 8 {
        '8'
    } else {
        '9'
    }
}

/// The decimal digits of `n`, most significant first, without leading
/// zeros (`0` is written `"0"`).
pub open spec fn decimal(n: nat) -> Seq<char>
    decreases n,
{
    if n < 10 {
        seq![digit_char(n)]
    } else {
        decimal(n / 10).push(digit_char(n % 10))
    }
}

/// `n` in decimal, padded on the left with zeros to at least `width`
/// characters.
pub open spec fn zero_padded(n: nat, width: nat) -> Seq<char> {
    let digits = decimal(n);
    if digits.len() < width {
        Seq::new((width - digits.len()) as nat, |i: int| '0') + digits
    } else {
        digits
    }
}

/// The one-character string of the digit `d`.
fn digit_str(d: u64) -> (s: &'static str)
    requires
        d < 10,
    ensures
        s@ == seq![digit_char(d as nat)],
{
    proof {
        reveal_strlit("0");
        reveal_strlit("1");
        reveal_strlit("2");
        reveal_strlit("3");
        reveal_strlit("4");
        reveal_strlit("5");
        reveal_strlit("6");
        reveal_strlit("7");
        reveal_strlit("8");
        reveal_strlit("9");
    }
    match d {
        0 => "0",
        1 => "1",
        2 => "2",
        3 => "3",
        4 => "4",
        5 => "5",
        6 => "6",
        7 => "7",
        8 => "8",
        _ => "9",
    }
}

/// Appends the decimal digits of `n`.
pub fn push_decimal(text: &mut String, n: u64)
    ensures
        final(text)@ == old(text)@ + decimal(n as nat),
    decreases n,
{
    if n >= 10 {
        push_decimal(text, n / 10);
    }
    text.append(digit_str(n % 10));
    assert(text@ =~= old(text)@ + decimal(n as nat));
}

/// How many decimal digits `n` has.
pub fn decimal_len(n: u64) -> (len: u64)
    ensures
        len == decimal(n as nat).len(),
        1 <= len <= n + 1,
    decreases n,
{
    if n >= 10 {
        decimal_len(n / 10) + 1
    } else {
        1
    }
}

/// Appends `n` in decimal, padded with zeros to at least `width` characters.
pub fn push_zero_padded(text: &mut String, n: u64, width: u64)
    ensures
        final(text)@ == old(text)@ + zero_padded(n as nat, width as nat),
{
    let len = decimal_len(n);
    let mut pad: u64 = if len < width {
        width - len
    } else {
        0
    };
    let ghost start = old(text)@;
    while pad > 0
        invariant
            text@ == start + Seq::new(
                ((if len < width {
                    width - len
                } else {
                    0
                }) - pad) as nat,
                |i: int| '0',
            ),
            pad <= (if len < width {
                width - len
            } else {
                0
            }),
        decreases pad,
    {
        let ghost before = text@;
        text.append("0");
        proof {
            reveal_strlit("0");
        }
        pad = pad - 1;
        assert(text@ =~= start + Seq::new(
            ((if len < width {
                width - len
            } else {
                0
            }) - pad) as nat,
            |i: int| '0',
        ));
    }
    push_decimal(text, n);
    assert(text@ =~= old(text)@ + zero_padded(n as nat, width as nat));
}

/// A race time of `total_millis` milliseconds as `MM:SS.mmm`: minutes
/// (at least two digits), seconds within the minute, and milliseconds.
pub open spec fn time_text(total_millis: nat) -> Seq<char> {
    zero_padded(total_millis / 60_000, 2) + seq![':'] + zero_padded((total_millis / 1000) % 60, 2)
        + seq!['.'] + zero_padded(total_millis % 1000, 3)
}

/// A race time of `total_millis` milliseconds as `MM:SS.mmm`.
pub fn format_millis(total_millis: u64) -> (text: String)
    ensures
        text@ == time_text(total_millis as nat),
{
    let minutes = total_millis / 60_000;
    let seconds = (total_millis / 1000) % 60;
    let millis = total_millis % 1000;
    let mut text = String::new();
    push_zero_padded(&mut text, minutes, 2);
    text.append(":");
    push_zero_padded(&mut text, seconds, 2);
    text.append(".");
    push_zero_padded(&mut text, millis, 3);
    proof {
        reveal_strlit(":");
        reveal_strlit(".");
    }
    assert(text@ =~= time_text(total_millis as nat));
    text
}

/// The three parts of a time shown as `MM:SS.mmm` recompose it: minutes,
/// seconds below sixty, and milliseconds below a thousand.
pub proof fn lemma_time_parts(total_millis: nat)
    ensures
        (total_millis / 60_000) * 60_000 + ((total_millis / 1000) % 60) * 1000 + total_millis % 1000
            == total_millis,
        (total_millis / 1000) % 60 < 60,
        total_millis % 1000 < 1000,
{
    let s = total_millis / 1000;
    assert(s * 1000 + total_millis % 1000 == total_millis);
    assert((s / 60) * 60 + s % 60 == s);
    assert(s / 60 == total_millis / 60_000) by {
        vstd::arithmetic::div_mod::lemma_div_denominator(total_millis as int, 1000, 60);
    }
    assert((s / 60) * 60_000 == ((s / 60) * 60) * 1000) by (nonlinear_arith);
    assert((s / 60) * 60 * 1000 + (s % 60) * 1000 == s * 1000) by (nonlinear_arith)
        requires
            (s / 60) * 60 + s % 60 == s,
    ;
}

/// The lap counter of the HUD: `VUELTA lap/laps`.
pub open spec fn lap_text_spec(lap: nat, laps: nat) -> Seq<char> {
    "VUELTA "@ + decimal(lap) + seq!['/'] + decimal(laps)
}

/// The lap counter of the HUD for `race`.
pub fn lap_text(race: &Race) -> (text: String)
    ensures
        text@ == lap_text_spec(race@.current_lap, race@.total_laps),
{
    let mut text = String::from_str("VUELTA ");
    push_decimal(&mut text, race.current_lap() as u64);
    text.append("/");
    push_decimal(&mut text, race.total_laps() as u64);
    proof {
        reveal_strlit("/");
    }
    assert(text@ =~= lap_text_spec(race@.current_lap, race@.total_laps));
    text
}

/// The objective line of the HUD: `META` when the finish line is next,
/// otherwise `CHECKPOINT n/m`, counting the checkpoints before the finish line
/// from one.
pub open spec fn objective_text_spec(checkpoint: nat, count: nat) -> Seq<char> {
    if checkpoint + 1 == count {
        "META"@
    } else {
        "CHECKPOINT "@ + decimal(checkpoint + 1) + seq!['/'] + decimal((count - 1) as nat)
    }
}

/// The objective line of the HUD for a race that is not over.
pub fn objective_text(race: &Race) -> (text: String)
    ensures
        text@ == objective_text_spec(race@.current_checkpoint, race@.checkpoints.len()),
{
    let checkpoint = race.current_checkpoint();
    let count = race.checkpoint_count();
    let label = race.active_checkpoint_label();
    if checkpoint + 1 == count {
        return String::from_str(label);
    }
    let mut text = String::from_str("CHECKPOINT ");
    push_decimal(&mut text, (checkpoint + 1) as u64);
    text.append("/");
    push_decimal(&mut text, (count - 1) as u64);
    proof {
        reveal_strlit("/");
    }
    assert(text@ =~= objective_text_spec(race@.current_checkpoint, race@.checkpoints.len()));
    text
}

} // verus!
