//! The capture pipeline: sources, sessions, recovery, previews.

use vstd::prelude::*;
use vstd::string::*;
use crate::model::{text_option, CaptureConfig, SourceType};
use crate::text::{number_between, parse_number};

pub mod laws;
pub mod recovery;
pub mod sources;
pub mod thumbnail;

verus! {

/// Errors that can occur during screen capture.
#[derive(Debug)]
pub enum CaptureError {
    CapturerCreationFailed,
    NoSourcesAvailable,
    SourceNotFound(String),
    CaptureFailed(String),
}

pub ghost enum CaptureErrorView {
    CapturerCreationFailed,
    NoSourcesAvailable,
    SourceNotFound(Seq<char>),
    CaptureFailed(Seq<char>),
}

impl View for CaptureError {
    type V = CaptureErrorView;

    open spec fn view(&self) -> CaptureErrorView {
        match self {
            CaptureError::CapturerCreationFailed => CaptureErrorView::CapturerCreationFailed,
            CaptureError::NoSourcesAvailable => CaptureErrorView::NoSourcesAvailable,
            CaptureError::SourceNotFound(id) => CaptureErrorView::SourceNotFound(id@),
            CaptureError::CaptureFailed(reason) => CaptureErrorView::CaptureFailed(reason@),
        }
    }
}

impl CaptureErrorView {
    /// The error in words.
    pub open spec fn message(self) -> Seq<char> {
        match self {
            CaptureErrorView::CapturerCreationFailed => "Failed to create DesktopCapturer"@,
            CaptureErrorView::NoSourcesAvailable => "Capture source list is empty"@,
            CaptureErrorView::SourceNotFound(id) => "Selected source not found: "@ + id,
            CaptureErrorView::CaptureFailed(reason) => "Capture failed: "@ + reason,
        }
    }
}

impl CaptureError {
    /// The error in words.
    pub fn message(&self) -> (text: String)
        ensures
            text@ == self@.message(),
    {
        match self {
            CaptureError::CapturerCreationFailed => "Failed to create DesktopCapturer".to_owned(),
            CaptureError::NoSourcesAvailable => "Capture source list is empty".to_owned(),
            CaptureError::SourceNotFound(id) => {
                "Selected source not found: ".to_owned().concat(id.as_str())
            },
            CaptureError::CaptureFailed(reason) => {
                "Capture failed: ".to_owned().concat(reason.as_str())
            },
        }
    }
}

/// Where the first colon of `text` at or after `from` stands; the length of
/// `text` where there is none.
pub open spec fn colon_from(text: Seq<char>, from: int) -> int
    decreases text.len() - from,
{
    if from >= text.len() {
        text.len() as int
    } else if text[from] == ':' {
        from
    } else {
        colon_from(text, from + 1)
    }
}

/// The native id in a source id such as `screen:3`: the number between the
/// first colon and the second, or the end. `None` where there is no colon,
/// or no number there.
pub open spec fn source_number(source_id: Seq<char>) -> Option<u64> {
    let first = colon_from(source_id, 0);
    if first >= source_id.len() {
        None
    } else {
        let second = colon_from(source_id, first + 1);
        parse_number(source_id.subrange(first + 1, second))
    }
}

proof fn lemma_colon_bounds(text: Seq<char>, from: int)
    requires
        0 <= from <= text.len(),
    ensures
        from <= colon_from(text, from) <= text.len(),
        forall|k: int| from <= k < colon_from(text, from) ==> text[k] != ':',
        colon_from(text, from) < text.len() ==> text[colon_from(text, from)] == ':',
    decreases text.len() - from,
{
    if from < text.len() && text[from] != ':' {
        lemma_colon_bounds(text, from + 1);
    }
}

fn find_colon(text: &str, length: usize, from: usize) -> (at: usize)
    requires
        length == text@.len(),
        from <= length,
    ensures
        at == colon_from(text@, from as int),
        from <= at <= length,
{
    let mut i: usize = from;
    proof {
        lemma_colon_bounds(text@, from as int);
    }
    while i < length
        invariant
            from <= i <= length,
            length == text@.len(),
            colon_from(text@, from as int) == colon_from(text@, i as int),
        decreases length - i,
    {
        if text.get_char(i) == ':' {
            return i;
        }
        i = i + 1;
    }
    i
}

/// The native id in a source id such as `screen:3`.
pub fn parse_source_id(source_id: &str) -> (number: Option<u64>)
    ensures
        number == source_number(source_id@),
{
    let length: usize = source_id.unicode_len();
    let first: usize = find_colon(source_id, length, 0);
    if first >= length {
        return None;
    }
    let second: usize = find_colon(source_id, length, first + 1);
    number_between(source_id, length, first + 1, second)
}

/// What starting a capture has to do.
#[derive(Debug, Clone, Copy, PartialEq, Eq, Structural)]
pub struct CaptureStart {
    /// The native id of the source.
    pub source: u64,
    pub width: u32,
    pub height: u32,
}

/// The answer to a request to start a capture.
#[derive(Debug)]
pub struct StartOutcome {
    /// A session was running: signal its worker to stop and wait for it,
    /// before anything else.
    pub stop_previous: bool,
    /// The session to start, or why none is started.
    pub start: Result<CaptureStart, CaptureError>,
}

/// Which source is being captured, if any. At most one session runs at a
/// time; the worker of the session lives with the caller.
pub struct Capturer {
    current_source: Option<String>,
}

pub ghost struct CapturerView {
    pub is_capturing: bool,
    pub current_source: Option<Seq<char>>,
}

impl View for Capturer {
    type V = CapturerView;

    closed spec fn view(&self) -> CapturerView {
        CapturerView {
            is_capturing: self.current_source is Some,
            current_source: text_option(self.current_source),
        }
    }
}

impl CapturerView {
    /// A session runs exactly where a source is being captured.
    pub open spec fn wf(self) -> bool {
        self.is_capturing <==> self.current_source is Some
    }

    pub open spec fn idle() -> CapturerView {
        CapturerView { is_capturing: false, current_source: None }
    }

    pub open spec fn capturing(source_id: Seq<char>) -> CapturerView {
        CapturerView { is_capturing: true, current_source: Some(source_id) }
    }
}

impl Capturer {
    /// A capturer without a session.
    pub fn new() -> (capturer: Self)
        ensures
            capturer@ == CapturerView::idle(),
    {
        Capturer { current_source: None }
    }

    /// Starts capturing the given source. A session that is running is
    /// stopped first, whether or not the new one can start.
    pub fn start_capture(
        &mut self,
        source_id: &str,
        source_type: SourceType,
        config: &CaptureConfig,
    ) -> (outcome: StartOutcome)
        ensures
            outcome.stop_previous == old(self)@.is_capturing,
            match source_number(source_id@) {
                Some(source) => {
                    &&& outcome.start == Ok::<CaptureStart, CaptureError>(
                        CaptureStart { source, width: config.width, height: config.height },
                    )
                    &&& final(self)@ == CapturerView::capturing(source_id@)
                },
                None => {
                    &&& outcome.start matches Err(error)
                    &&& error@ == CaptureErrorView::SourceNotFound(source_id@)
                    &&& final(self)@ == CapturerView::idle()
                },
            },
    {
        let stop_previous = self.stop_capture();
        match parse_source_id(source_id) {
            Some(source) => {
                self.current_source = Some(source_id.to_owned());
                StartOutcome {
                    stop_previous,
                    start: Ok(CaptureStart { source, width: config.width, height: config.height }),
                }
            },
            None => StartOutcome {
                stop_previous,
                start: Err(CaptureError::SourceNotFound(source_id.to_owned())),
            },
        }
    }

    /// Stops the session, if one is running. Returns whether there was one:
    /// the caller then signals its worker and waits for it to end. On a
    /// capturer without a session this changes nothing.
    pub fn stop_capture(&mut self) -> (was_capturing: bool)
        ensures
            old(self)@.wf(),
            was_capturing == old(self)@.is_capturing,
            final(self)@ == CapturerView::idle(),
            !was_capturing ==> final(self)@ == old(self)@,
    {
        let was_capturing = self.current_source.is_some();
        self.current_source = None;
        was_capturing
    }

    /// Whether a session is running.
    pub fn is_capturing(&self) -> (b: bool)
        ensures
            self@.wf(),
            b == self@.is_capturing,
    {
        self.current_source.is_some()
    }

    /// The id of the source being captured.
    pub fn current_source(&self) -> (source: Option<&str>)
        ensures
            self@.wf(),
            match source {
                Some(id) => self@.current_source == Some(id@),
                None => self@.current_source is None,
            },
    {
        match &self.current_source {
            Some(id) => Some(id.as_str()),
            None => None,
        }
    }
}

impl Default for Capturer {
    fn default() -> (capturer: Self)
        ensures
            capturer@ == CapturerView::idle(),
    {
        Capturer::new()
    }
}

} // verus!
