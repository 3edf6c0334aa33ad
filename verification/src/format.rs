//! Display derivations for the presenter: percent computation, progress bar,
//! duration formatting and the per-task text, each pinned to an exact
//! character-sequence specification.

use crate::client_state::ClientState;
use crate::client_state::TaskStatus;
use crate::client_store::sat_sub;
use vstd::prelude::*;
use vstd::string::StringExecFns;

verus! {

/// The character for one decimal digit.
pub open spec fn digit_char(d: int) -> char {
    if d == 0 {
        '0'
    } else if d == 1 {
        '1'
    } else if d == 2 {
        '2'
    } else if d == 3 {
        '3'
    } else if d == 4 {
        '4'
    } else if d == 5 {
        '5'
    } else if d == 6 {
        '6'
    } else if d == 7 {
        '7'
    } else if d == 8 {
        '8'
    } else {
        '9'
    }
}

/// The decimal digits of `n`, most significant first, no leading zeros
/// (a single zero for zero).
pub open spec fn dec_seq(n: nat) -> Seq<char>
    decreases n,
{
    if n < 10 {
        seq![digit_char(n as int)]
    } else {
        dec_seq(n / 10) + seq![digit_char((n % 10) as int)]
    }
}

/// The decimal digits of `n`, zero-padded on the left to two places.
pub open spec fn dec2_seq(n: nat) -> Seq<char> {
    if n < 10 {
        seq!['0'] + dec_seq(n)
    } else {
        dec_seq(n)
    }
}

/// A run of spaces.
pub open spec fn space_seq(n: nat) -> Seq<char> {
    Seq::new(n, |i: int| ' ')
}

/// The single-character string for one decimal digit.
fn digit_str(d: u64) -> (r: &'static str)
    requires
        d < 10,
    ensures
        r@ == seq![digit_char(d as int)],
{
    let r: &'static str = if d == 0 {
        "0"
    } else if d == 1 {
        "1"
    } else if d == 2 {
        "2"
    } else if d == 3 {
        "3"
    } else if d == 4 {
        "4"
    } else if d == 5 {
        "5"
    } else if d == 6 {
        "6"
    } else if d == 7 {
        "7"
    } else if d == 8 {
        "8"
    } else {
        "9"
    };
    proof {
        reveal_strlit("0");
        reveal_strlit("1");
        reveal_strlit("2");
        reveal_strlit("3");
        reveal_strlit("4");
        reveal_strlit("5");
        reveal_strlit("6");
        reveal_strlit("7");
        reveal_strlit("8");
        reveal_strlit("9");
        assert(r@ =~= seq![digit_char(d as int)]);
    }
    r
}

/// Append the decimal digits of `n`.
fn push_dec(out: &mut String, n: u64)
    ensures
        final(out)@ == old(out)@ + dec_seq(n as nat),
    decreases n,
{
    if n >= 10 {
        push_dec(out, n / 10);
        out.append(digit_str(n % 10));
        proof {
            assert((n as nat) / 10 == (n / 10) as nat);
            assert((n as nat) % 10 == (n % 10) as nat);
            assert(out@ =~= old(out)@ + dec_seq(n as nat));
        }
    } else {
        out.append(digit_str(n));
        proof {
            assert(out@ =~= old(out)@ + dec_seq(n as nat));
        }
    }
}

/// The decimal rendering of `n`.
pub fn u64_to_dec(n: u64) -> (r: String)
    ensures
        r@ == dec_seq(n as nat),
{
    let mut out = String::new();
    push_dec(&mut out, n);
    proof {
        assert(out@ =~= dec_seq(n as nat));
    }
    out
}

/// Append the decimal digits of `n`, zero-padded to two places.
fn push_dec2(out: &mut String, n: u64)
    ensures
        final(out)@ == old(out)@ + dec2_seq(n as nat),
{
    if n < 10 {
        out.append("0");
        proof {
            reveal_strlit("0");
            assert("0"@ =~= seq!['0']);
        }
    }
    push_dec(out, n);
    proof {
        assert(out@ =~= old(out)@ + dec2_seq(n as nat));
    }
}

/// The percent of work done, truncated: zero when the total is zero, else
/// `current * 100 / total` with the product saturating and the quotient
/// taken into sixteen bits.
pub open spec fn spec_percent(current: u64, total: u64) -> u16 {
    if total == 0 {
        0u16
    } else {
        let sat: u64 = if current * 100 > u64::MAX {
            u64::MAX
        } else {
            (current * 100) as u64
        };
        (sat / total) as u16
    }
}

/// Percent of work done, or `None` when the total is indeterminate.
///
/// A zero total displays as zero percent; there is never a division error.
pub fn percent_of(current: u64, total: Option<u64>) -> (r: Option<u16>)
    ensures
        match total {
            Some(t) => r == Some(spec_percent(current, t)),
            None => r is None,
        },
{
    match total {
        Some(t) => {
            if t == 0 {
                Some(0)
            } else {
                let sat = match current.checked_mul(100) {
                    Some(v) => v,
                    None => u64::MAX,
                };
                let p: u16 = #[verifier::truncate] ((sat / t) as u16);
                Some(p)
            }
        },
        None => None,
    }
}

/// The progress bar: `width` cells between brackets, the leading
/// `percent * width / 100` of them (at most all of them) filled.
pub open spec fn spec_bar(percent: Option<u16>, width: nat) -> Seq<char> {
    let filled = match percent {
        Some(p) => if p * width / 100 < width {
            p * width / 100
        } else {
            width as int
        },
        None => 0,
    };
    seq!['['] + Seq::new(width, |i: int| if i < filled { '#' } else { '-' }) + seq![']']
}

/// Render the progress bar for a known or indeterminate percentage.
///
/// An indeterminate percentage renders an unfilled bar.
pub fn render_bar(percent: Option<u16>, width: usize) -> (r: String)
    requires
        width * 0xffff < usize::MAX,
    ensures
        r@ == spec_bar(percent, width as nat),
{
    let filled: usize = match percent {
        Some(p) => {
            proof {
                assert((p as int) * (width as int) <= 0xffff * (width as int))
                    by (nonlinear_arith)
                    requires
                        p <= 0xffff,
                ;
            }
            let f = (p as usize) * width / 100;
            if f < width {
                f
            } else {
                width
            }
        },
        None => 0,
    };
    let mut bar = String::new();
    bar.append("[");
    proof {
        reveal_strlit("[");
        reveal_strlit("]");
        reveal_strlit("#");
        reveal_strlit("-");
        assert(bar@ =~= seq!['['] + Seq::new(0nat, |j: int| if j < filled { '#' } else { '-' }));
    }
    let mut i: usize = 0;
    while i < width
        invariant
            i <= width,
            filled == (match percent {
                Some(p) => if p * width / 100 < width {
                    p * width / 100
                } else {
                    width as int
                },
                None => 0,
            }),
            bar@ =~= seq!['['] + Seq::new(i as nat, |j: int| if j < filled { '#' } else { '-' }),
        decreases width - i,
    {
        if i < filled {
            bar.append("#");
        } else {
            bar.append("-");
        }
        proof {
            reveal_strlit("#");
            reveal_strlit("-");
            assert(bar@ =~= seq!['['] + Seq::new(
                (i + 1) as nat,
                |j: int| if j < filled { '#' } else { '-' },
            ));
        }
        i = i + 1;
    }
    bar.append("]");
    proof {
        reveal_strlit("[");
        reveal_strlit("]");
        assert(bar@ =~= spec_bar(percent, width as nat));
    }
    bar
}

/// How a span of milliseconds is shown: plain milliseconds below one second,
/// seconds with one (truncated) decimal below a minute, minutes and seconds
/// below an hour, hours and minutes beyond.
pub open spec fn spec_duration(ms: u64) -> Seq<char> {
    let secs = ms / 1000;
    if secs < 1 {
        dec_seq(ms as nat) + "ms"@
    } else if secs < 60 {
        dec_seq(secs as nat) + "."@ + dec_seq(((ms % 1000) / 100) as nat) + "s"@
    } else if secs < 3600 {
        dec_seq((secs / 60) as nat) + "m"@ + dec2_seq((secs % 60) as nat) + "s"@
    } else {
        dec_seq((secs / 3600) as nat) + "h"@ + dec2_seq(((secs % 3600) / 60) as nat) + "m"@
    }
}

/// Format a span of milliseconds for display.
pub fn format_duration(ms: u64) -> (r: String)
    ensures
        r@ == spec_duration(ms),
{
    let secs = ms / 1000;
    let mut out = String::new();
    if secs < 1 {
        push_dec(&mut out, ms);
        out.append("ms");
    } else if secs < 60 {
        push_dec(&mut out, secs);
        out.append(".");
        push_dec(&mut out, (ms % 1000) / 100);
        out.append("s");
    } else if secs < 3600 {
        push_dec(&mut out, secs / 60);
        out.append("m");
        push_dec2(&mut out, secs % 60);
        out.append("s");
    } else {
        push_dec(&mut out, secs / 3600);
        out.append("h");
        push_dec2(&mut out, (secs % 3600) / 60);
        out.append("m");
    }
    proof {
        assert(out@ =~= spec_duration(ms));
    }
    out
}

/// The header line: the project label (or `Project`) and the elapsed time
/// since the render loop started.
pub open spec fn spec_header(label: Option<Seq<char>>, elapsed_ms: u64) -> Seq<char> {
    (match label {
        Some(l) => l,
        None => "Project"@,
    }) + " | elapsed "@ + spec_duration(elapsed_ms)
}

/// Format the project header for a label and an elapsed time.
pub fn format_project_header(label: Option<&str>, elapsed_ms: u64) -> (r: String)
    ensures
        r@ == spec_header(
            match label {
                Some(l) => Some(l@),
                None => None,
            },
            elapsed_ms,
        ),
{
    let mut out: String = match label {
        Some(l) => l.to_owned(),
        None => "Project".to_owned(),
    };
    out.append(" | elapsed ");
    let d = format_duration(elapsed_ms);
    out.append(d.as_str());
    proof {
        assert(out@ =~= spec_header(
            match label {
                Some(l) => Some(l@),
                None => None,
            },
            elapsed_ms,
        ));
    }
    out
}

/// The display name of a lifecycle state; `Unknown` when unset.
pub open spec fn spec_status_text(status: Option<TaskStatus>) -> Seq<char> {
    match status {
        Some(TaskStatus::Running) => "Running"@,
        Some(TaskStatus::Completed) => "Completed"@,
        Some(TaskStatus::Failed) => "Failed"@,
        Some(TaskStatus::Canceled) => "Canceled"@,
        None => "Unknown"@,
    }
}

/// The display name of a task's lifecycle state.
pub fn status_text(status: Option<TaskStatus>) -> (r: &'static str)
    ensures
        r@ == spec_status_text(status),
{
    match status {
        Some(TaskStatus::Running) => "Running",
        Some(TaskStatus::Completed) => "Completed",
        Some(TaskStatus::Failed) => "Failed",
        Some(TaskStatus::Canceled) => "Canceled",
        None => "Unknown",
    }
}

/// The display label of a task; `unnamed` until one is reported.
pub fn label_text<'a>(state: &'a ClientState) -> (r: &'a str)
    ensures
        r@ == (match state.label {
            Some(l) => l@,
            None => "unnamed"@,
        }),
{
    match &state.label {
        Some(l) => l.as_str(),
        None => "unnamed",
    }
}

/// The textual tail of one task's display line: progress counts, bar,
/// percentage and the age of the last update, measured against `now_ms`.
pub open spec fn spec_task_detail(state: ClientState, now_ms: u64) -> Seq<char> {
    let current: u64 = match state.current {
        Some(c) => c,
        None => 0,
    };
    let total_part = match state.total {
        Some(t) => dec_seq(t as nat),
        None => "?"@,
    };
    let percent = match state.total {
        Some(t) => Some(spec_percent(current, t)),
        None => None,
    };
    let pct_part = match percent {
        Some(p) => space_seq(if dec_seq(p as nat).len() < 3 {
            (3 - dec_seq(p as nat).len()) as nat
        } else {
            0
        }) + dec_seq(p as nat) + "%"@,
        None => " ??%"@,
    };
    " | "@ + dec_seq(current as nat) + "/"@ + total_part + " | "@ + spec_bar(percent, 20) + " "@
        + pct_part + " | last "@ + spec_duration(sat_sub(now_ms, state.last_update))
}

/// Append a percentage right-aligned to three columns, as `{p:3}%`.
fn push_pct(out: &mut String, p: u16)
    ensures
        final(out)@ == old(out)@ + space_seq(
            if dec_seq(p as nat).len() < 3 {
                (3 - dec_seq(p as nat).len()) as nat
            } else {
                0
            },
        ) + dec_seq(p as nat) + "%"@,
{
    proof {
        lemma_dec_len_bounds(p as nat);
    }
    if p < 10 {
        out.append("  ");
        proof {
            reveal_strlit("  ");
            assert("  "@ =~= space_seq(2));
        }
    } else if p < 100 {
        out.append(" ");
        proof {
            reveal_strlit(" ");
            assert(" "@ =~= space_seq(1));
        }
    }
    push_dec(out, p as u64);
    out.append("%");
    proof {
        assert(out@ =~= old(out)@ + space_seq(
            if dec_seq(p as nat).len() < 3 {
                (3 - dec_seq(p as nat).len()) as nat
            } else {
                0
            },
        ) + dec_seq(p as nat) + "%"@);
    }
}

/// How many digits a number has: one below ten, two below a hundred, and so
/// on up to the five digits of the largest sixteen-bit value.
proof fn lemma_dec_len_bounds(n: nat)
    ensures
        n < 10 ==> dec_seq(n).len() == 1,
        10 <= n < 100 ==> dec_seq(n).len() == 2,
        100 <= n < 1000 ==> dec_seq(n).len() == 3,
        1000 <= n < 10000 ==> dec_seq(n).len() == 4,
        10000 <= n < 100000 ==> dec_seq(n).len() == 5,
    decreases n,
{
    if n >= 10 {
        lemma_dec_len_bounds(n / 10);
    }
}

/// Format the textual tail of one task's display line.
pub fn task_detail_text(state: &ClientState, now_ms: u64) -> (r: String)
    ensures
        r@ == spec_task_detail(*state, now_ms),
{
    let current: u64 = match state.current {
        Some(c) => c,
        None => 0,
    };
    let percent = percent_of(current, state.total);
    let mut out = String::new();
    out.append(" | ");
    push_dec(&mut out, current);
    out.append("/");
    match state.total {
        Some(t) => push_dec(&mut out, t),
        None => out.append("?"),
    }
    out.append(" | ");
    let bar = render_bar(percent, 20);
    out.append(bar.as_str());
    out.append(" ");
    match percent {
        Some(p) => push_pct(&mut out, p),
        None => out.append(" ??%"),
    }
    out.append(" | last ");
    let age = now_ms.saturating_sub(state.last_update);
    let dur = format_duration(age);
    out.append(dur.as_str());
    proof {
        assert(out@ =~= spec_task_detail(*state, now_ms));
    }
    out
}

} // verus!
