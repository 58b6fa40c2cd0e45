//! Verified text building: decimal rendering of identifiers and counters,
//! the two notification bodies, and the status page's metric lines.

use vstd::prelude::*;
use crate::solve::{Solve, SolveView};

verus! {

/// The character for one decimal digit.
pub open spec fn dec_digit(d: nat) -> char
    recommends
        d < 10,
{
    if d == 0 {
        '0'
    } else if d == 1 {
        '1'
    } else if d == 2 {
        '2'
    } else if d == 3 {
        '3'
    } else if d == 4 {
        '4'
    } else if d == 5 {
        '5'
    } else if d == 6 {
        '6'
    } else if d == 7 {
        '7'
    } else if d == 8 {
        '8'
    } else {
        '9'
    }
}

/// The decimal representation of a natural number, most significant digit
/// first, with no leading zeros (and `"0"` for zero itself).
pub open spec fn dec_rep(n: nat) -> Seq<char>
    decreases n,
{
    if n < 10 {
        seq![dec_digit(n)]
    } else {
        dec_rep(n / 10).push(dec_digit(n % 10))
    }
}

fn digit_str(d: u128) -> (r: &'static str)
    requires
        d < 10,
    ensures
        r@ == seq![dec_digit(d as nat)],
{
    proof {
        reveal_strlit("0");
        reveal_strlit("1");
        reveal_strlit("2");
        reveal_strlit("3");
        reveal_strlit("4");
        reveal_strlit("5");
        reveal_strlit("6");
        reveal_strlit("7");
        reveal_strlit("8");
        reveal_strlit("9");
    }
    let r: &'static str = if d == 0 {
        "0"
    } else if d == 1 {
        "1"
    } else if d == 2 {
        "2"
    } else if d == 3 {
        "3"
    } else if d == 4 {
        "4"
    } else if d == 5 {
        "5"
    } else if d == 6 {
        "6"
    } else if d == 7 {
        "7"
    } else if d == 8 {
        "8"
    } else {
        "9"
    };
    proof {
        assert(r@ =~= seq![dec_digit(d as nat)]);
    }
    r
}

/// Appends the decimal representation of `n` to `out`.
pub fn push_dec(n: u128, out: &mut String)
    ensures
        final(out)@ == old(out)@ + dec_rep(n as nat),
    decreases n,
{
    if n >= 10 {
        proof {
            vstd::arithmetic::div_mod::lemma_div_decreases(n as int, 10);
        }
        push_dec(n / 10, out);
    }
    let d = digit_str(n % 10);
    out.append(d);
    proof {
        if n >= 10 {
            assert(final(out)@ =~= old(out)@ + dec_rep(n as nat));
        } else {
            assert(final(out)@ =~= old(out)@ + dec_rep(n as nat));
        }
    }
}

/// The decimal representation of `n` as a fresh string.
pub fn dec_string(n: u128) -> (r: String)
    ensures
        r@ == dec_rep(n as nat),
{
    let mut s = String::new();
    push_dec(n, &mut s);
    proof {
        assert(s@ =~= dec_rep(n as nat));
    }
    s
}

/// The team marker used while no team directory is wired in: the spec leaves
/// the team "unresolved in absence" of the external collaborator.
pub open spec fn team_marker() -> Seq<char> {
    "unknown team"@
}

/// The body of a first-blood announcement for `s`.
pub open spec fn first_blood_body_spec(s: SolveView) -> Seq<char> {
    "🩸 **"@ + dec_rep(s.player_id as nat) + "** from **"@ + team_marker() + "** solved **"@
        + s.challenge_name + "**"@
}

/// The body of a regular solve announcement for `s`.
pub open spec fn solve_body_spec(s: SolveView) -> Seq<char> {
    "⭐ **"@ + dec_rep(s.player_id as nat) + "** from **"@ + team_marker() + "** solved **"@
        + s.challenge_name + "**"@
}

/// Builds the first-blood announcement body.
pub fn first_blood_body(solve: &Solve) -> (r: String)
    ensures
        r@ == first_blood_body_spec(solve@),
{
    let mut s = String::new();
    s.append("🩸 **");
    push_dec(solve.player_id, &mut s);
    s.append("** from **");
    s.append("unknown team");
    s.append("** solved **");
    s.append(solve.challenge_name.as_str());
    s.append("**");
    proof {
        assert(s@ =~= first_blood_body_spec(solve@));
    }
    s
}

/// Builds the regular solve announcement body.
pub fn solve_body(solve: &Solve) -> (r: String)
    ensures
        r@ == solve_body_spec(solve@),
{
    let mut s = String::new();
    s.append("⭐ **");
    push_dec(solve.player_id, &mut s);
    s.append("** from **");
    s.append("unknown team");
    s.append("** solved **");
    s.append(solve.challenge_name.as_str());
    s.append("**");
    proof {
        assert(s@ =~= solve_body_spec(solve@));
    }
    s
}

/// The status page's text: one metric per line, each a name, a space and the
/// counter's decimal value.
pub open spec fn metrics_spec(restarts: nat, dropped: nat) -> Seq<char> {
    "restart_count "@ + dec_rep(restarts) + "\n"@ + "dropped_solves_count "@ + dec_rep(dropped)
        + "\n"@
}

/// Renders the ingestor's two health counters for the status endpoint.
pub fn render_metrics(restarts: u64, dropped: u64) -> (r: String)
    ensures
        r@ == metrics_spec(restarts as nat, dropped as nat),
{
    let mut s = String::new();
    s.append("restart_count ");
    push_dec(restarts as u128, &mut s);
    s.append("\n");
    s.append("dropped_solves_count ");
    push_dec(dropped as u128, &mut s);
    s.append("\n");
    proof {
        assert(s@ =~= metrics_spec(restarts as nat, dropped as nat));
    }
    s
}

} // verus!
