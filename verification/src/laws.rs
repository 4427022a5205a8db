//! What holds of every report.

use vstd::prelude::*;
use crate::model::{BacktraceView, PanicView};
use crate::report::{
    header, hint_lines, location_text, preamble, report, shown_name, still_first, trace_lines,
    FULL, TRACE_TITLE, UNNAMED,
};
use crate::text::{lemma_text_concat, lemma_text_one, text};

verus! {

/// A panic with a known location and no message is reported by one header
/// line, which names the location, and no message line: the trace lines
/// follow the header at once.
pub proof fn lemma_location_without_message(
    info: PanicView,
    rust_backtrace: Option<Seq<char>>,
    miri: bool,
    first_panic: bool,
)
    requires
        info.location is Some,
        info.message is None,
    ensures
        report(info, rust_backtrace, miri, first_panic) == seq![
            "\nthread '"@ + shown_name(info.thread_name) + "' panicked at "@ + location_text(
                info.location->0,
            ),
        ] + trace_lines(info.backtrace, rust_backtrace, miri, first_panic),
{
    reveal_strlit("' panicked");
    reveal_strlit(" at ");
    reveal_strlit("' panicked at ");
    assert("' panicked"@ + " at "@ =~= "' panicked at "@);
    assert(header(info.thread_name, info.location) =~= "\nthread '"@ + shown_name(
        info.thread_name,
    ) + "' panicked at "@ + location_text(info.location->0));
}

/// A message is reported verbatim, as the line after the header: it is the
/// second line of the report, and in the text it starts right after the
/// header's newline and is closed by a newline of its own.
pub proof fn lemma_message_follows_header(
    info: PanicView,
    rust_backtrace: Option<Seq<char>>,
    miri: bool,
    first_panic: bool,
)
    requires
        info.message is Some,
    ensures
        ({
            let lines = report(info, rust_backtrace, miri, first_panic);
            let head = header(info.thread_name, info.location);
            let message = info.message->0;
            &&& lines.len() >= 2
            &&& lines[0] == head
            &&& lines[1] == message
            &&& text(lines) == head + seq!['\n'] + message + seq!['\n'] + text(
                trace_lines(info.backtrace, rust_backtrace, miri, first_panic),
            )
        }),
{
    let head = header(info.thread_name, info.location);
    let message = info.message->0;
    let rest = trace_lines(info.backtrace, rust_backtrace, miri, first_panic);
    assert(preamble(info) =~= seq![head] + seq![message]);
    lemma_text_concat(preamble(info), rest);
    lemma_text_concat(seq![head], seq![message]);
    lemma_text_one(head);
    lemma_text_one(message);
}

/// A report is a function of what is reported. Where no trace was captured,
/// two panics that agree in location, message, thread name and trace status
/// get the same report, whatever `RUST_BACKTRACE` holds in either run.
pub proof fn lemma_report_deterministic(
    a: PanicView,
    b: PanicView,
    rust_backtrace_a: Option<Seq<char>>,
    rust_backtrace_b: Option<Seq<char>>,
    miri: bool,
    first_panic: bool,
)
    requires
        a.location == b.location,
        a.message == b.message,
        a.thread_name == b.thread_name,
        (a.backtrace is Disabled && b.backtrace is Disabled) || (a.backtrace is Unsupported
            && b.backtrace is Unsupported),
    ensures
        report(a, rust_backtrace_a, miri, first_panic) == report(
            b,
            rust_backtrace_b,
            miri,
            first_panic,
        ),
        text(report(a, rust_backtrace_a, miri, first_panic)) == text(
            report(b, rust_backtrace_b, miri, first_panic),
        ),
{
}

/// A captured trace is printed in its extended rendering if `RUST_BACKTRACE`
/// is set to exactly `full`, and in its standard rendering if the variable
/// is unset or holds anything else.
pub proof fn lemma_rendering_follows_environment(
    standard: Seq<char>,
    full: Seq<char>,
    rust_backtrace: Option<Seq<char>>,
    miri: bool,
    first_panic: bool,
)
    ensures
        trace_lines(
            BacktraceView::Captured { standard, full },
            rust_backtrace,
            miri,
            first_panic,
        ) == if rust_backtrace == Some(FULL@) {
            seq![TRACE_TITLE@ + full]
        } else {
            seq![TRACE_TITLE@ + standard]
        },
        still_first(BacktraceView::Captured { standard, full }, first_panic) == first_panic,
{
}

/// A thread without a name is reported as the thread named `<unnamed>`.
pub proof fn lemma_unnamed_thread(
    info: PanicView,
    rust_backtrace: Option<Seq<char>>,
    miri: bool,
    first_panic: bool,
)
    requires
        info.thread_name is None,
    ensures
        shown_name(info.thread_name) == UNNAMED@,
        report(info, rust_backtrace, miri, first_panic) == report(
            PanicView { thread_name: Some(UNNAMED@), ..info },
            rust_backtrace,
            miri,
            first_panic,
        ),
{
}

/// Where traces cannot be taken the report ends with its preamble: there
/// is no trace section and no hint, and the flag is left as it was.
pub proof fn lemma_unsupported_is_bare(
    info: PanicView,
    rust_backtrace: Option<Seq<char>>,
    miri: bool,
    first_panic: bool,
)
    requires
        info.backtrace is Unsupported,
    ensures
        report(info, rust_backtrace, miri, first_panic) == preamble(info),
        still_first(info.backtrace, first_panic) == first_panic,
{
    assert(preamble(info) + Seq::<Seq<char>>::empty() =~= preamble(info));
}

/// The flag as the `i`-th of `infos` finds it, when the panics are reported
/// one after another and the first finds `first_panic`.
pub open spec fn flag_before(infos: Seq<PanicView>, first_panic: bool, i: int) -> bool
    decreases i,
{
    if i <= 0 {
        first_panic
    } else {
        still_first(infos[i - 1].backtrace, flag_before(infos, first_panic, i - 1))
    }
}

/// The report of the `i`-th of `infos` in such a run.
pub open spec fn nth_report(
    infos: Seq<PanicView>,
    rust_backtrace: Option<Seq<char>>,
    miri: bool,
    first_panic: bool,
    i: int,
) -> Seq<Seq<char>> {
    report(infos[i], rust_backtrace, miri, flag_before(infos, first_panic, i))
}

/// In a process, whose flag starts out set, a report finds the flag set
/// exactly if no earlier report was made with traces switched off.
pub proof fn lemma_flag_until_first_disabled(infos: Seq<PanicView>, i: int)
    requires
        0 <= i <= infos.len(),
    ensures
        flag_before(infos, true, i) <==> forall|j: int|
            0 <= j < i ==> !(#[trigger] infos[j].backtrace is Disabled),
    decreases i,
{
    if i > 0 {
        lemma_flag_until_first_disabled(infos, i - 1);
    }
}

/// The flag is never set again: once a report finds it cleared, so does
/// every later one.
pub proof fn lemma_flag_stays_cleared(infos: Seq<PanicView>, first_panic: bool, i: int, k: int)
    requires
        0 <= i <= k,
        !flag_before(infos, first_panic, i),
    ensures
        !flag_before(infos, first_panic, k),
    decreases k - i,
{
    if i < k {
        lemma_flag_stays_cleared(infos, first_panic, i, k - 1);
    }
}

/// The hint is printed once per process. Of the reports made with traces
/// switched off, the first carries the hint lines after its preamble, and
/// every later one ends with its preamble.
pub proof fn lemma_hint_once(
    infos: Seq<PanicView>,
    rust_backtrace: Option<Seq<char>>,
    miri: bool,
    i: int,
)
    requires
        0 <= i < infos.len(),
        infos[i].backtrace is Disabled,
    ensures
        nth_report(infos, rust_backtrace, miri, true, i) == if forall|j: int|
            0 <= j < i ==> !(#[trigger] infos[j].backtrace is Disabled) {
            preamble(infos[i]) + hint_lines(miri)
        } else {
            preamble(infos[i])
        },
{
    lemma_flag_until_first_disabled(infos, i);
    assert(preamble(infos[i]) + Seq::<Seq<char>>::empty() =~= preamble(infos[i]));
}

/// Where every report of a process is made with traces switched off, the
/// hint stands in the first report and in no other.
pub proof fn lemma_hint_only_in_first(
    infos: Seq<PanicView>,
    rust_backtrace: Option<Seq<char>>,
    miri: bool,
    i: int,
)
    requires
        0 <= i < infos.len(),
        forall|j: int| 0 <= j < infos.len() ==> #[trigger] infos[j].backtrace is Disabled,
    ensures
        nth_report(infos, rust_backtrace, miri, true, i) == if i == 0 {
            preamble(infos[i]) + hint_lines(miri)
        } else {
            preamble(infos[i])
        },
{
    lemma_hint_once(infos, rust_backtrace, miri, i);
    if i > 0 {
        assert(infos[0].backtrace is Disabled);
    }
}

} // verus!
