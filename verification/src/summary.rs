//! The summary of a run: the mean latency of its successes and the one-line
//! record that reports it.

use vstd::prelude::*;
use vstd::string::StringExecFns;

verus! {

/// The mean latency of the successes: the summed latency divided by their
/// number, rounded down, and zero when there is none.
pub open spec fn mean(exitosas: usize, tiempos_ms: usize) -> usize {
    if exitosas > 0 {
        (tiempos_ms as int / exitosas as int) as usize
    } else {
        0
    }
}

/// The character that writes a digit.
pub open spec fn digit(d: nat) -> char
    recommends
        d < 10,
{
    if d == 0 {
        '0'
    } else if d == 1 {
        '1'
    } else if d == 2 {
        '2'
    } else if d == 3 {
        '3'
    } else if d == 4 {
        '4'
    } else if d == 5 {
        '5'
    } else if d == 6 {
        '6'
    } else if d == 7 {
        '7'
    } else if d == 8 {
        '8'
    } else {
        '9'
    }
}

/// A number written in decimal, without sign or leading zeros.
pub open spec fn decimal(n: nat) -> Seq<char>
    decreases n,
{
    if n < 10 {
        seq![digit(n)]
    } else {
        decimal(n / 10).push(digit(n % 10))
    }
}

/// The record of a run: the number of attempts, the isolation level as it
/// was given, in double quotes, the successes, the failures and the mean
/// latency, separated by commas.
pub open spec fn summary_text(
    usuarios: usize,
    nivel_aislamiento: Seq<char>,
    snapshot: (usize, usize, usize),
) -> Seq<char> {
    decimal(usuarios as nat) + seq![',', '"'] + nivel_aislamiento + seq!['"', ','] + decimal(
        snapshot.0 as nat,
    ) + seq![','] + decimal(snapshot.1 as nat) + seq![','] + decimal(
        mean(snapshot.0, snapshot.2) as nat,
    )
}

/// The mean latency of the successes, in whole milliseconds.
pub fn mean_ms(exitosas: usize, tiempos_ms: usize) -> (mean_ms: usize)
    ensures
        mean_ms == mean(exitosas, tiempos_ms),
        exitosas == 0 ==> mean_ms == 0,
        exitosas > 0 ==> mean_ms * exitosas <= tiempos_ms < (mean_ms + 1) * exitosas,
{
    if exitosas > 0 {
        let quotient = tiempos_ms / exitosas;
        proof {
            vstd::arithmetic::div_mod::lemma_fundamental_div_mod(
                tiempos_ms as int,
                exitosas as int,
            );
            vstd::arithmetic::div_mod::lemma_mod_bound(tiempos_ms as int, exitosas as int);
            assert((quotient + 1) * exitosas == quotient * exitosas + exitosas)
                by (nonlinear_arith);
            assert(exitosas * quotient == quotient * exitosas) by (nonlinear_arith);
        }
        quotient
    } else {
        0
    }
}

/// The text of one digit.
fn digit_text(d: usize) -> (text: &'static str)
    requires
        d < 10,
    ensures
        text@ == seq![digit(d as nat)],
{
    proof {
        reveal_strlit("0");
        reveal_strlit("1");
        reveal_strlit("2");
        reveal_strlit("3");
        reveal_strlit("4");
        reveal_strlit("5");
        reveal_strlit("6");
        reveal_strlit("7");
        reveal_strlit("8");
        reveal_strlit("9");
    }
    let text = if d == 0 {
        "0"
    } else if d == 1 {
        "1"
    } else if d == 2 {
        "2"
    } else if d == 3 {
        "3"
    } else if d == 4 {
        "4"
    } else if d == 5 {
        "5"
    } else if d == 6 {
        "6"
    } else if d == 7 {
        "7"
    } else if d == 8 {
        "8"
    } else {
        "9"
    };
    assert(text@ =~= seq![digit(d as nat)]);
    text
}

/// Writes a number in decimal.
pub fn decimal_string(n: usize) -> (text: String)
    ensures
        text@ == decimal(n as nat),
    decreases n,
{
    if n < 10 {
        String::from_str(digit_text(n))
    } else {
        let mut text = decimal_string(n / 10);
        text.append(digit_text(n % 10));
        assert(text@ =~= decimal(n as nat));
        text
    }
}

/// Renders the record of a run from the number of attempts, the isolation
/// level as the operator gave it, and the accumulator as read after all
/// attempts have ended.
pub fn summary_line(usuarios: usize, nivel_aislamiento: &str, snapshot: (usize, usize, usize)) -> (line:
    String)
    ensures
        line@ == summary_text(usuarios, nivel_aislamiento@, snapshot),
{
    proof {
        reveal_strlit(",\"");
        reveal_strlit("\",");
        reveal_strlit(",");
    }
    let exitosas = snapshot.0;
    let fallidas = snapshot.1;
    let mut line = decimal_string(usuarios);
    line.append(",\"");
    line.append(nivel_aislamiento);
    line.append("\",");
    line.append(decimal_string(exitosas).as_str());
    line.append(",");
    line.append(decimal_string(fallidas).as_str());
    line.append(",");
    line.append(decimal_string(mean_ms(exitosas, snapshot.2)).as_str());
    assert(line@ =~= summary_text(usuarios, nivel_aislamiento@, snapshot)) by {
        assert(",\""@ =~= seq![',', '"']);
        assert("\","@ =~= seq!['"', ',']);
        assert(","@ =~= seq![',']);
    }
    line
}

} // verus!
