//! Progress reporting and aggregation for concurrently running tasks.
//!
//! Worker threads send full or partial progress records through a channel
//! (`ClientReporter`, `ClientHandle`); a single consumer drains them into a
//! keyed store (`ClientStore`) whose merge semantics are specified and
//! verified field by field. A width-padded line logger rides along for
//! incidental diagnostic output.

use std::io::Write;
use vstd::prelude::*;
use vstd::string::StrSliceExecFns;
use vstd::string::StringExecFns;

mod channel;
mod client_reporter;
mod client_state;
pub mod client_store;
mod clock;
pub mod format;
pub mod prelude;
pub mod runtime;
mod task;

pub use client_reporter::ClientHandle;
pub use client_reporter::ClientReporter;
pub use client_reporter::ReportError;
pub use client_state::ClientState;
pub use client_state::TaskId;
pub use client_state::TaskStatus;
pub use client_store::ClientStore;
pub use format::format_duration;
pub use format::format_project_header;
pub use format::label_text;
pub use format::percent_of;
pub use format::render_bar;
pub use format::status_text;
pub use format::task_detail_text;
pub use format::u64_to_dec;
pub use runtime::Key;
pub use runtime::QuitAction;
pub use runtime::Runtime;
pub use runtime::quit_action;
pub use runtime::remaining_budget_millis;
pub use task::Task;
pub use task::default_task_label;
pub use task::default_task_total;
pub use task::run_worker;

use format::space_seq;

verus! {

/// Severity of a diagnostic line.
#[derive(Clone, Copy, Debug)]
pub enum Level {
    Info,
    Warn,
    Crit,
}

/// The tag a severity prints as.
pub open spec fn spec_level_tag(level: Level) -> Seq<char> {
    match level {
        Level::Info => "INFO"@,
        Level::Warn => "WARN"@,
        Level::Crit => "CRIT"@,
    }
}

impl Level {
    /// The tag this severity prints as.
    pub fn as_str(self) -> (r: &'static str)
        ensures
            r@ == spec_level_tag(self),
    {
        match self {
            Level::Info => "INFO",
            Level::Warn => "WARN",
            Level::Crit => "CRIT",
        }
    }
}

/// The display width of a string in terminal columns, as the Unicode East
/// Asian Width tables define it; only the width wrapper below speaks for it.
pub uninterp spec fn display_width(s: Seq<char>) -> nat;

/// Relies on `unicode_width::UnicodeWidthStr::width`: the display width of
/// the string in terminal columns; an empty string has width zero.
#[verifier::external_body]
fn width_of(s: &str) -> (r: usize)
    ensures
        r == display_width(s@),
        s@.len() == 0 ==> r == 0,
{
    unicode_width::UnicodeWidthStr::width(s)
}

/// Relies on `owo_colors::OwoColorize::red` and its `Display` rendering:
/// the text between the red-foreground escape and the foreground reset.
#[verifier::external_body]
fn paint_red(s: &str) -> (r: String)
    ensures
        r@ == "\u{1b}[31m"@ + s@ + "\u{1b}[39m"@,
{
    owo_colors::OwoColorize::red(&s).to_string()
}

/// Relies on `owo_colors::OwoColorize::green` and its `Display` rendering:
/// the text between the green-foreground escape and the foreground reset.
#[verifier::external_body]
fn paint_green(s: &str) -> (r: String)
    ensures
        r@ == "\u{1b}[32m"@ + s@ + "\u{1b}[39m"@,
{
    owo_colors::OwoColorize::green(&s).to_string()
}

/// Relies on `std::io::stdout` and `std::io::Write`: prints the text to
/// standard output and flushes; failures are ignored.
#[verifier::external_body]
fn emit_line(line: &str) {
    let mut out = std::io::stdout();
    let _ = write!(out, "{}", line);
    let _ = out.flush();
}

/// `padded` is `obj` cut down to a prefix that fits in `width_cols` display
/// columns (cutting from the end, stopping at the first prefix that fits),
/// filled up with spaces to that width.
pub open spec fn is_padded(obj: Seq<char>, width_cols: nat, padded: Seq<char>) -> bool {
    exists|k: int|
        0 <= k <= obj.len() && display_width(#[trigger] obj.take(k)) <= width_cols && (k == obj.len()
            || display_width(obj.take(k + 1)) > width_cols) && padded == obj.take(k) + space_seq(
            (width_cols - display_width(obj.take(k))) as nat,
        )
}

/// Cut `obj` down to at most `width_cols` display columns and fill it up
/// with spaces to that width.
pub fn pad_obj(obj: &str, width_cols: usize) -> (r: String)
    ensures
        is_padded(obj@, width_cols as nat, r@),
{
    let n = obj.unicode_len();
    let mut k: usize = n;
    let whole = obj.substring_char(0, k);
    let mut prefix_w: usize = width_of(whole);
    proof {
        assert(obj@.take(k as int) =~= whole@);
    }
    while prefix_w > width_cols
        invariant
            k <= n,
            n == obj@.len(),
            prefix_w == display_width(obj@.take(k as int)),
            k == n || display_width(obj@.take(k as int + 1)) > width_cols,
            k == 0 ==> prefix_w == 0,
        decreases k,
    {
        k = k - 1;
        let p = obj.substring_char(0, k);
        proof {
            assert(obj@.take(k as int) =~= p@);
        }
        prefix_w = width_of(p);
    }
    let p = obj.substring_char(0, k);
    proof {
        assert(obj@.take(k as int) =~= p@);
    }
    let mut s = p.to_owned();
    let mut c: usize = prefix_w;
    proof {
        assert(s@ =~= obj@.take(k as int) + space_seq(0));
    }
    while c < width_cols
        invariant
            prefix_w <= c,
            c <= width_cols || c == prefix_w,
            prefix_w == display_width(obj@.take(k as int)),
            s@ =~= obj@.take(k as int) + space_seq((c - prefix_w) as nat),
        decreases width_cols - c,
    {
        s.append(" ");
        c = c + 1;
        proof {
            reveal_strlit(" ");
            assert(s@ =~= obj@.take(k as int) + space_seq((c - prefix_w) as nat));
        }
    }
    s
}

/// One rendered log line: the red level tag and the green padded object in
/// brackets, the gap, the message, a newline.
pub open spec fn spec_line(level: Level, padded: Seq<char>, gap: nat, msg: Seq<char>) -> Seq<
    char,
> {
    "["@ + "\u{1b}[31m"@ + spec_level_tag(level) + "\u{1b}[39m"@ + "] ["@ + "\u{1b}[32m"@ + padded
        + "\u{1b}[39m"@ + "]:"@ + space_seq(gap) + msg + "\n"@
}

/// A leveled, width-padded line logger for incidental diagnostic output.
///
/// It is not part of the aggregation protocol; lines go to standard output.
pub struct Logger {
    obj_width: usize,
    gap_after_colon: usize,
}

impl Logger {
    /// The column width objects are padded to.
    pub closed spec fn spec_obj_width(&self) -> nat {
        self.obj_width as nat
    }

    /// The number of spaces between the colon and the message.
    pub closed spec fn spec_gap(&self) -> nat {
        self.gap_after_colon as nat
    }

    /// A logger padding objects to the given width, writing to standard
    /// output.
    pub fn new(obj_width: usize) -> (r: Self)
        ensures
            r.spec_obj_width() == obj_width as nat,
            r.spec_gap() == 4,
    {
        Logger { obj_width, gap_after_colon: 4 }
    }

    /// Render one log line without printing it.
    pub fn format_line(&self, level: Level, obj: &str, msg: &str) -> (r: String)
        ensures
            exists|padded: Seq<char>|
                is_padded(obj@, self.spec_obj_width(), padded) && r@ == spec_line(
                    level,
                    padded,
                    self.spec_gap(),
                    msg@,
                ),
    {
        let padded = pad_obj(obj, self.obj_width);
        let lvl_out = paint_red(level.as_str());
        let obj_out = paint_green(padded.as_str());
        let mut line = String::new();
        line.append("[");
        line.append(lvl_out.as_str());
        line.append("] [");
        line.append(obj_out.as_str());
        line.append("]:");
        let ghost head = line@;
        let mut c: usize = 0;
        while c < self.gap_after_colon
            invariant
                c <= self.gap_after_colon,
                line@ =~= head + space_seq(c as nat),
            decreases self.gap_after_colon - c,
        {
            line.append(" ");
            c = c + 1;
            proof {
                reveal_strlit(" ");
                assert(line@ =~= head + space_seq(c as nat));
            }
        }
        line.append(msg);
        line.append("\n");
        proof {
            assert(is_padded(obj@, self.spec_obj_width(), padded@));
            assert(line@ =~= spec_line(level, padded@, self.spec_gap(), msg@));
        }
        line
    }

    /// Format a line at the given level and print it to standard output.
    pub fn log(&self, level: Level, obj: &str, msg: &str) {
        let line = self.format_line(level, obj, msg);
        emit_line(line.as_str());
    }

    /// Print an informational line.
    pub fn info(&self, obj: &str, msg: &str) {
        self.log(Level::Info, obj, msg)
    }

    /// Print a warning line.
    pub fn warn(&self, obj: &str, msg: &str) {
        self.log(Level::Warn, obj, msg)
    }

    /// Print a critical line.
    pub fn crit(&self, obj: &str, msg: &str) {
        self.log(Level::Crit, obj, msg)
    }
}

} // verus!
