//! The report of a panic, line by line.
//!
//! A report is a sequence of lines. Each goes to the error stream followed by
//! a newline; a line may itself hold newlines (the header opens with one, to
//! set the report off from earlier output, and a stack trace has one row per
//! frame).

use vstd::prelude::*;
use vstd::string::*;
use crate::decimal::{decimal, push_decimal};
use crate::model::{Backtrace, BacktraceView, Location, LocationView, PanicInfo, PanicView};

verus! {

/// The name printed for a thread that has none.
pub const UNNAMED: &'static str = "<unnamed>";

/// The value of `RUST_BACKTRACE` that asks for the extended trace.
pub const FULL: &'static str = "full";

/// The title line above a stack trace.
pub const TRACE_TITLE: &'static str = "stack backtrace:\n";

/// The hint printed once per process when traces are switched off.
pub const HINT: &'static str =
    "note: run with `RUST_BACKTRACE=1` environment variable to display a backtrace";

/// The second hint, printed with the first when running under Miri.
pub const MIRI_HINT: &'static str =
    "note: in Miri, you may have to set `MIRIFLAGS=-Zmiri-env-forward=RUST_BACKTRACE` for the environment variable to have an effect";

/// A location as text: file, line and column, separated by colons.
pub open spec fn location_text(l: LocationView) -> Seq<char> {
    l.file + ":"@ + decimal(l.line) + ":"@ + decimal(l.column)
}

/// The name a thread is reported under.
pub open spec fn shown_name(thread_name: Option<Seq<char>>) -> Seq<char> {
    match thread_name {
        Some(n) => n,
        None => UNNAMED@,
    }
}

/// The first line of a report: a newline, the thread, and the location if
/// there is one.
pub open spec fn header(thread_name: Option<Seq<char>>, location: Option<LocationView>) -> Seq<
    char,
> {
    let head = "\nthread '"@ + shown_name(thread_name) + "' panicked"@;
    match location {
        Some(l) => head + " at "@ + location_text(l),
        None => head,
    }
}

/// The lines that do not depend on the stack trace: the header, then the
/// message if there is one.
pub open spec fn preamble(info: PanicView) -> Seq<Seq<char>> {
    let first = seq![header(info.thread_name, info.location)];
    match info.message {
        Some(m) => first.push(m),
        None => first,
    }
}

/// Whether the environment asks for the extended trace: `RUST_BACKTRACE` is
/// set, and to exactly `full`.
pub open spec fn wants_full(rust_backtrace: Option<Seq<char>>) -> bool {
    rust_backtrace == Some(FULL@)
}

/// The hint lines: the hint, and under Miri the second one after it.
pub open spec fn hint_lines(miri: bool) -> Seq<Seq<char>> {
    if miri {
        seq![HINT@, MIRI_HINT@]
    } else {
        seq![HINT@]
    }
}

/// The lines that follow the preamble.
///
/// A captured trace gives one line, the title with the chosen rendering
/// under it. With traces switched off the hint lines are given if this is
/// the first such report of the process, and nothing after that. Where
/// traces cannot be taken nothing is given.
pub open spec fn trace_lines(
    backtrace: BacktraceView,
    rust_backtrace: Option<Seq<char>>,
    miri: bool,
    first_panic: bool,
) -> Seq<Seq<char>> {
    match backtrace {
        BacktraceView::Captured { standard, full } => {
            if wants_full(rust_backtrace) {
                seq![TRACE_TITLE@ + full]
            } else {
                seq![TRACE_TITLE@ + standard]
            }
        },
        BacktraceView::Disabled => {
            if first_panic {
                hint_lines(miri)
            } else {
                Seq::empty()
            }
        },
        BacktraceView::Unsupported => Seq::empty(),
    }
}

/// The whole report.
pub open spec fn report(
    info: PanicView,
    rust_backtrace: Option<Seq<char>>,
    miri: bool,
    first_panic: bool,
) -> Seq<Seq<char>> {
    preamble(info) + trace_lines(info.backtrace, rust_backtrace, miri, first_panic)
}

/// The flag after a report: it is cleared by the first report made with
/// traces switched off, and never set again.
pub open spec fn still_first(backtrace: BacktraceView, first_panic: bool) -> bool {
    first_panic && !(backtrace is Disabled)
}

/// What an optional string holds, as mathematics.
pub open spec fn opt_text(s: Option<&str>) -> Option<Seq<char>> {
    match s {
        Some(t) => Some(t@),
        None => None,
    }
}

/// Appends a location to `out`, as `file:line:column`.
pub fn push_location(out: &mut String, location: &Location)
    ensures
        final(out)@ == old(out)@ + location_text(location@),
{
    out.append(location.file.as_str());
    out.append(":");
    push_decimal(out, location.line);
    out.append(":");
    push_decimal(out, location.column);
    assert(out@ =~= old(out)@ + location_text(location@));
}

/// The first line of the report of `info`.
pub fn header_line(info: &PanicInfo) -> (line: String)
    ensures
        line@ == header(info@.thread_name, info@.location),
{
    let mut line = String::from_str("\nthread '");
    match &info.thread_name {
        Some(name) => line.append(name.as_str()),
        None => line.append(UNNAMED),
    }
    line.append("' panicked");
    let ghost head = line@;
    assert(head =~= "\nthread '"@ + shown_name(info@.thread_name) + "' panicked"@);
    match &info.location {
        Some(location) => {
            line.append(" at ");
            push_location(&mut line, location);
            assert(line@ =~= head + " at "@ + location_text(location@));
        },
        None => {},
    }
    line
}

/// Whether `rust_backtrace`, the value of the variable of that name, asks
/// for the extended trace.
pub fn is_full(rust_backtrace: Option<&str>) -> (full: bool)
    ensures
        full == wants_full(opt_text(rust_backtrace)),
{
    match rust_backtrace {
        Some(value) => String::from_str(value) == String::from_str(FULL),
        None => false,
    }
}

/// Reports a panic: returns the lines of the report, first to last.
///
/// `rust_backtrace` is the value of the environment variable of that name,
/// `miri` says whether the program runs under Miri, and `first_panic` is the
/// process-wide flag that starts out set. The flag is read, and cleared, only
/// when traces are switched off: the report that finds it set carries the
/// hint, and no later one does.
pub fn panic_hook(
    info: &PanicInfo,
    rust_backtrace: Option<&str>,
    miri: bool,
    first_panic: &mut bool,
) -> (lines: Vec<String>)
    ensures
        lines.deep_view() == report(info@, opt_text(rust_backtrace), miri, *old(first_panic)),
        *final(first_panic) == still_first(info@.backtrace, *old(first_panic)),
{
    let mut lines: Vec<String> = Vec::new();
    lines.push(header_line(info));
    match &info.message {
        Some(message) => lines.push(message.clone()),
        None => {},
    }
    assert(lines.deep_view() =~= preamble(info@));
    match &info.backtrace {
        Backtrace::Captured { standard, full } => {
            let mut line = String::from_str(TRACE_TITLE);
            if is_full(rust_backtrace) {
                line.append(full.as_str());
            } else {
                line.append(standard.as_str());
            }
            lines.push(line);
        },
        Backtrace::Disabled => {
            if *first_panic {
                *first_panic = false;
                lines.push(String::from_str(HINT));
                if miri {
                    lines.push(String::from_str(MIRI_HINT));
                }
            }
        },
        Backtrace::Unsupported => {},
    }
    assert(lines.deep_view() =~= report(
        info@,
        opt_text(rust_backtrace),
        miri,
        *old(first_panic),
    ));
    lines
}

} // verus!
