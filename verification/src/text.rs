//! Verified text rendering: decimal numbers, the countdown clock, and the
//! end-screen summary lines.

use vstd::prelude::*;
use vstd::string::StringExecFns;
use crate::summary::GameSummary;

verus! {

/// The decimal digit character for a value below ten.
pub open spec fn spec_dec_digit(d: int) -> char {
    if d == 0 {
        '0'
    } else if d == 1 {
        '1'
    } else if d == 2 {
        '2'
    } else if d == 3 {
        '3'
    } else if d == 4 {
        '4'
    } else if d == 5 {
        '5'
    } else if d == 6 {
        '6'
    } else if d == 7 {
        '7'
    } else if d == 8 {
        '8'
    } else {
        '9'
    }
}

/// The usual decimal rendering of a nonnegative number, most significant
/// digit first, with no leading zeros except for zero itself.
pub open spec fn spec_dec(n: int) -> Seq<char>
    decreases n,
{
    if n < 10 {
        seq![spec_dec_digit(n)]
    } else {
        spec_dec(n / 10).push(spec_dec_digit(n % 10))
    }
}

/// The one-character string for a decimal digit.
fn dec_digit_str(d: u64) -> (r: &'static str)
    requires
        d < 10,
    ensures
        r@ == seq![spec_dec_digit(d as int)],
{
    proof {
        reveal_strlit("0");
        reveal_strlit("1");
        reveal_strlit("2");
        reveal_strlit("3");
        reveal_strlit("4");
        reveal_strlit("5");
        reveal_strlit("6");
        reveal_strlit("7");
        reveal_strlit("8");
        reveal_strlit("9");
    }
    let r = match d {
        0 => "0",
        1 => "1",
        2 => "2",
        3 => "3",
        4 => "4",
        5 => "5",
        6 => "6",
        7 => "7",
        8 => "8",
        _ => "9",
    };
    proof {
        assert(r@ =~= seq![spec_dec_digit(d as int)]);
    }
    r
}

/// Renders a number in decimal.
pub fn u64_to_dec_string(n: u64) -> (r: String)
    ensures
        r@ == spec_dec(n as int),
    decreases n,
{
    if n < 10 {
        String::from_str(dec_digit_str(n))
    } else {
        let mut prefix = u64_to_dec_string(n / 10);
        prefix.append(dec_digit_str(n % 10));
        proof {
            assert(prefix@ =~= spec_dec(n as int));
        }
        prefix
    }
}

/// The countdown clock text for a remaining time in milliseconds: whole
/// seconds, rounded up, shown as minutes and two-digit seconds.
pub open spec fn spec_timer_text(ms: int) -> Seq<char> {
    let s = (ms + 999) / 1000;
    let secs = s % 60;
    spec_dec(s / 60) + ":"@ + (if secs < 10 {
        seq!['0'].push(spec_dec_digit(secs))
    } else {
        spec_dec(secs)
    })
}

/// Formats the timer text, as minutes and zero-padded seconds.
pub fn format_timer_text(remaining_ms: u64) -> (r: String)
    requires
        remaining_ms <= crate::fixed::MAX_TIME_MS,
    ensures
        r@ == spec_timer_text(remaining_ms as int),
{
    let s = (remaining_ms + 999) / 1000;
    let minutes = s / 60;
    let secs = s % 60;
    let mut text = u64_to_dec_string(minutes);
    text.append(":");
    if secs < 10 {
        text.append("0");
        text.append(dec_digit_str(secs));
        proof {
            reveal_strlit("0");
            assert("0"@ =~= seq!['0']);
            assert(spec_dec(secs as int) =~= seq![spec_dec_digit(secs as int)]);
            assert(text@ =~= spec_timer_text(remaining_ms as int));
        }
    } else {
        let digits = u64_to_dec_string(secs);
        text.append(digits.as_str());
        proof {
            assert(text@ =~= spec_timer_text(remaining_ms as int));
        }
    }
    text
}

/// One summary line: a bullet, the word "Killed", a count and "people".
pub open spec fn spec_killed_people_line(n: int) -> Seq<char> {
    "- Killed "@ + spec_dec(n) + " people"@
}

/// One summary line: a bullet, the word "Saved", a count and "people".
pub open spec fn spec_saved_people_line(n: int) -> Seq<char> {
    "- Saved "@ + spec_dec(n) + " people"@
}

/// One summary line for killed lobsters.
pub open spec fn spec_killed_lobsters_line(n: int) -> Seq<char> {
    "- Killed "@ + spec_dec(n) + " lobsters"@
}

/// One summary line for saved lobsters.
pub open spec fn spec_saved_lobsters_line(n: int) -> Seq<char> {
    "- Saved "@ + spec_dec(n) + " lobsters"@
}

/// The flag lines for the first achievements group, in display order.
pub open spec fn spec_flag_lines_a(s: GameSummary) -> Seq<Seq<char>> {
    (if s.killed_hitler { seq!["- Killed Hitler"@] } else { Seq::empty() })
        + (if s.got_cool_hat { seq!["- Got a cool hat"@] } else { Seq::empty() })
        + (if s.caused_preventable_tragedy {
            seq!["- Caused an entirely preventable tragedy"@]
        } else {
            Seq::empty()
        })
        + (if s.enforced_darwinism { seq!["- Enforced Darwinism"@] } else { Seq::empty() })
        + (if s.did_sick_loop { seq!["- Did a sick loop-da-loop"@] } else { Seq::empty() })
}

/// The lobster-count and cart lines, in display order.
pub open spec fn spec_flag_lines_b(s: GameSummary) -> Seq<Seq<char>> {
    (if s.lobsters_killed > 0 {
        seq![spec_killed_lobsters_line(s.lobsters_killed as int)]
    } else {
        Seq::empty()
    })
        + (if s.lobsters_saved > 0 {
            seq![spec_saved_lobsters_line(s.lobsters_saved as int)]
        } else {
            Seq::empty()
        })
        + (if s.returned_shopping_cart {
            seq!["- Returned a shopping cart"@]
        } else {
            Seq::empty()
        })
        + (if s.doubled_it {
            seq!["- Doubled it and gave it to the next person"@]
        } else {
            Seq::empty()
        })
}

/// The flag lines for the last achievements group, in display order.
pub open spec fn spec_flag_lines_c(s: GameSummary) -> Seq<Seq<char>> {
    (if s.watched_thomas_kill_people {
        seq!["- Watched Thomas the Tank Engine run multiple people over"@]
    } else {
        Seq::empty()
    })
        + (if s.did_viral_prank {
            seq!["- Contributed to a viral YouTube prank"@]
        } else {
            Seq::empty()
        })
        + (if s.killed_self { seq!["- Killed yourself"@] } else { Seq::empty() })
        + (if s.solved_philosophy { seq!["- Solved philosophy"@] } else { Seq::empty() })
}

/// The bullet lines of the end screen, in display order: the people counts
/// always, then one line for each flag that is set, with the lobster counts
/// shown only when nonzero.
pub open spec fn spec_summary_lines(s: GameSummary) -> Seq<Seq<char>> {
    seq![spec_killed_people_line(s.people_killed as int)]
        + seq![spec_saved_people_line(s.people_saved as int)]
        + spec_flag_lines_a(s) + spec_flag_lines_b(s) + spec_flag_lines_c(s)
}

/// A counted line such as "- Killed 5 people".
fn counted_line(prefix: &str, n: u64, suffix: &str) -> (r: String)
    ensures
        r@ == prefix@ + spec_dec(n as int) + suffix@,
{
    let mut text = String::from_str(prefix);
    let digits = u64_to_dec_string(n);
    text.append(digits.as_str());
    text.append(suffix);
    proof {
        assert(text@ =~= prefix@ + spec_dec(n as int) + suffix@);
    }
    text
}

/// Builds the first achievements group of lines.
fn flag_lines_a(s: &GameSummary) -> (r: Vec<String>)
    ensures
        r@.map_values(|line: String| line@) == spec_flag_lines_a(*s),
{
    let mut lines: Vec<String> = Vec::new();
    if s.killed_hitler {
        lines.push(String::from_str("- Killed Hitler"));
    }
    if s.got_cool_hat {
        lines.push(String::from_str("- Got a cool hat"));
    }
    if s.caused_preventable_tragedy {
        lines.push(String::from_str("- Caused an entirely preventable tragedy"));
    }
    if s.enforced_darwinism {
        lines.push(String::from_str("- Enforced Darwinism"));
    }
    if s.did_sick_loop {
        lines.push(String::from_str("- Did a sick loop-da-loop"));
    }
    proof {
        assert(lines@.map_values(|line: String| line@) =~= spec_flag_lines_a(*s));
    }
    lines
}

/// Builds the lobster-count and cart group of lines.
fn flag_lines_b(s: &GameSummary) -> (r: Vec<String>)
    ensures
        r@.map_values(|line: String| line@) == spec_flag_lines_b(*s),
{
    let mut lines: Vec<String> = Vec::new();
    if s.lobsters_killed > 0 {
        lines.push(counted_line("- Killed ", s.lobsters_killed as u64, " lobsters"));
    }
    if s.lobsters_saved > 0 {
        lines.push(counted_line("- Saved ", s.lobsters_saved as u64, " lobsters"));
    }
    if s.returned_shopping_cart {
        lines.push(String::from_str("- Returned a shopping cart"));
    }
    if s.doubled_it {
        lines.push(String::from_str("- Doubled it and gave it to the next person"));
    }
    proof {
        assert(lines@.map_values(|line: String| line@) =~= spec_flag_lines_b(*s));
    }
    lines
}

/// Builds the last achievements group of lines.
fn flag_lines_c(s: &GameSummary) -> (r: Vec<String>)
    ensures
        r@.map_values(|line: String| line@) == spec_flag_lines_c(*s),
{
    let mut lines: Vec<String> = Vec::new();
    if s.watched_thomas_kill_people {
        lines.push(String::from_str("- Watched Thomas the Tank Engine run multiple people over"));
    }
    if s.did_viral_prank {
        lines.push(String::from_str("- Contributed to a viral YouTube prank"));
    }
    if s.killed_self {
        lines.push(String::from_str("- Killed yourself"));
    }
    if s.solved_philosophy {
        lines.push(String::from_str("- Solved philosophy"));
    }
    proof {
        assert(lines@.map_values(|line: String| line@) =~= spec_flag_lines_c(*s));
    }
    lines
}

/// Computes the end-screen bullet lines for a finished playthrough.
pub fn summary_lines(s: &GameSummary) -> (r: Vec<String>)
    ensures
        r@.map_values(|line: String| line@) == spec_summary_lines(*s),
{
    let mut lines: Vec<String> = Vec::new();
    lines.push(counted_line("- Killed ", s.people_killed as u64, " people"));
    lines.push(counted_line("- Saved ", s.people_saved as u64, " people"));
    let mut group_a = flag_lines_a(s);
    let mut group_b = flag_lines_b(s);
    let mut group_c = flag_lines_c(s);
    lines.append(&mut group_a);
    lines.append(&mut group_b);
    lines.append(&mut group_c);
    proof {
        assert(lines@.map_values(|line: String| line@) =~= spec_summary_lines(*s));
    }
    lines
}

} // verus!
