//! What is known of a panic when it is reported, as plain data.

use vstd::prelude::*;

verus! {

/// The place in the source where a panic was raised.
pub struct Location {
    pub file: String,
    pub line: u32,
    pub column: u32,
}

/// A [`Location`] as mathematics.
pub struct LocationView {
    pub file: Seq<char>,
    pub line: nat,
    pub column: nat,
}

impl View for Location {
    type V = LocationView;

    open spec fn view(&self) -> LocationView {
        LocationView { file: self.file@, line: self.line as nat, column: self.column as nat }
    }
}

/// The stack trace taken when the panic is reported.
///
/// A captured trace comes in both of its renderings; which of them is
/// printed is decided when the report is made.
pub enum Backtrace {
    /// A trace was taken.
    Captured {
        /// The short rendering.
        standard: String,
        /// The extended rendering.
        full: String,
    },
    /// Taking traces is switched off for this run.
    Disabled,
    /// Traces cannot be taken here.
    Unsupported,
}

/// A [`Backtrace`] as mathematics.
pub enum BacktraceView {
    Captured { standard: Seq<char>, full: Seq<char> },
    Disabled,
    Unsupported,
}

impl View for Backtrace {
    type V = BacktraceView;

    open spec fn view(&self) -> BacktraceView {
        match self {
            Backtrace::Captured { standard, full } => BacktraceView::Captured {
                standard: standard@,
                full: full@,
            },
            Backtrace::Disabled => BacktraceView::Disabled,
            Backtrace::Unsupported => BacktraceView::Unsupported,
        }
    }
}

/// Everything a report is made from.
pub struct PanicInfo {
    /// Where the panic was raised, if that is known.
    pub location: Option<Location>,
    /// The panic message, if the payload is text.
    pub message: Option<String>,
    /// The name of the panicking thread, if it has one.
    pub thread_name: Option<String>,
    /// The stack trace.
    pub backtrace: Backtrace,
}

/// A [`PanicInfo`] as mathematics.
pub struct PanicView {
    pub location: Option<LocationView>,
    pub message: Option<Seq<char>>,
    pub thread_name: Option<Seq<char>>,
    pub backtrace: BacktraceView,
}

impl View for PanicInfo {
    type V = PanicView;

    open spec fn view(&self) -> PanicView {
        PanicView {
            location: match self.location {
                Some(l) => Some(l@),
                None => None,
            },
            message: match self.message {
                Some(m) => Some(m@),
                None => None,
            },
            thread_name: match self.thread_name {
                Some(n) => Some(n@),
                None => None,
            },
            backtrace: self.backtrace@,
        }
    }
}

} // verus!
