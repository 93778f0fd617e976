//! Capture sources as the host UI sees them, and the frames they deliver.

use vstd::prelude::*;
use vstd::string::*;
use crate::event::{UserEvent, UserEventView};
use crate::model::{ScreenInfo, ScreenInfoView};
use crate::capture::thumbnail::{frame_thumbnail, thumbnail_from_frame};
use crate::text::{decimal_text, push_decimal};

verus! {

/// Position and size of a display in the desktop.
#[derive(Debug, Clone, Copy, PartialEq, Eq, Structural)]
pub struct DisplayBounds {
    pub x: i32,
    pub y: i32,
    pub width: u32,
    pub height: u32,
}

/// One source as the capturer lists it, with the bounds of its display where
/// the platform tells them.
#[derive(Debug)]
pub struct CaptureSource {
    /// The native id.
    pub id: u64,
    pub title: String,
    pub bounds: Option<DisplayBounds>,
}

pub ghost struct CaptureSourceView {
    pub id: u64,
    pub title: Seq<char>,
    pub bounds: Option<DisplayBounds>,
}

impl View for CaptureSource {
    type V = CaptureSourceView;

    open spec fn view(&self) -> CaptureSourceView {
        CaptureSourceView { id: self.id, title: self.title@, bounds: self.bounds }
    }
}

impl DeepView for CaptureSource {
    type V = CaptureSourceView;

    open spec fn deep_view(&self) -> CaptureSourceView {
        self.view()
    }
}

/// The id under which a source is shown: `screen:` and its native id.
pub open spec fn source_id_text(id: u64) -> Seq<char> {
    "screen:"@ + decimal_text(id as nat)
}

/// The name under which a source is shown: its title, or `Display` and its
/// place in the list, counted from one, where it has none.
pub open spec fn display_name(title: Seq<char>, index: int) -> Seq<char> {
    if title.len() == 0 {
        "Display "@ + decimal_text((index + 1) as nat)
    } else {
        title
    }
}

/// The bounds assumed for a display whose bounds the platform does not tell.
pub open spec fn assumed_bounds() -> DisplayBounds {
    DisplayBounds { x: 0, y: 0, width: 1920, height: 1080 }
}

/// The descriptor of the source at `index`: the first source is the primary
/// one, and no thumbnail has been taken yet.
pub open spec fn descriptor(source: CaptureSourceView, index: int) -> ScreenInfoView {
    let bounds = match source.bounds {
        Some(b) => b,
        None => assumed_bounds(),
    };
    ScreenInfoView {
        id: source_id_text(source.id),
        name: display_name(source.title, index),
        x: bounds.x,
        y: bounds.y,
        width: bounds.width,
        height: bounds.height,
        is_primary: index == 0,
        thumbnail: None,
    }
}

/// The id under which the source with the native id `id` is shown.
pub fn format_source_id(id: u64) -> (text: String)
    ensures
        text@ == source_id_text(id),
{
    let mut text = "screen:".to_owned();
    push_decimal(&mut text, id);
    text
}

fn describe(source: &CaptureSource, index: usize) -> (screen: ScreenInfo)
    requires
        index < usize::MAX,
    ensures
        screen@ == descriptor(source@, index as int),
{
    let name: String = if source.title.as_str().is_empty() {
        let mut text = "Display ".to_owned();
        push_decimal(&mut text, index as u64 + 1);
        text
    } else {
        source.title.clone()
    };
    let bounds: DisplayBounds = match source.bounds {
        Some(b) => b,
        None => DisplayBounds { x: 0, y: 0, width: 1920, height: 1080 },
    };
    ScreenInfo {
        id: format_source_id(source.id),
        name,
        x: bounds.x,
        y: bounds.y,
        width: bounds.width,
        height: bounds.height,
        is_primary: index == 0,
        thumbnail: None,
    }
}

/// The descriptors of the sources, in their order.
pub fn describe_sources(sources: &Vec<CaptureSource>) -> (screens: Vec<ScreenInfo>)
    ensures
        screens.len() == sources.len(),
        forall|i: int|
            0 <= i < sources.len() ==> (#[trigger] screens[i])@ == descriptor(sources[i]@, i),
{
    let mut screens: Vec<ScreenInfo> = Vec::new();
    let mut i: usize = 0;
    while i < sources.len()
        invariant
            i <= sources.len(),
            screens.len() == i,
            forall|k: int| 0 <= k < i ==> (#[trigger] screens[k])@ == descriptor(sources[k]@, k),
        decreases sources.len() - i,
    {
        screens.push(describe(&sources[i], i));
        i = i + 1;
    }
    screens
}

/// Where the source with the native id `id` stands at or after `from`.
pub open spec fn source_place(ids: Seq<u64>, id: u64, from: int) -> Option<int>
    decreases ids.len() - from,
{
    if from < 0 || from >= ids.len() {
        None
    } else if ids[from] == id {
        Some(from)
    } else {
        source_place(ids, id, from + 1)
    }
}

/// Finds the source with the native id `id` among those just listed.
pub fn find_source(ids: &Vec<u64>, id: u64) -> (place: Option<usize>)
    ensures
        match place {
            Some(i) => i < ids.len() && source_place(ids@, id, 0) == Some(i as int),
            None => source_place(ids@, id, 0) is None,
        },
{
    let mut i: usize = 0;
    while i < ids.len()
        invariant
            i <= ids.len(),
            source_place(ids@, id, 0) == source_place(ids@, id, i as int),
        decreases ids.len() - i,
    {
        if ids[i] == id {
            return Some(i);
        }
        i = i + 1;
    }
    None
}

/// What the worker of one source has to show for its attempt at a
/// thumbnail. An empty text stands for a failure.
#[derive(Debug)]
pub struct ThumbnailResult {
    pub source_id: u64,
    /// The place of the source in the list of descriptors.
    pub index: usize,
    pub thumbnail: String,
}

pub ghost struct ThumbnailResultView {
    pub source_id: u64,
    pub index: usize,
    pub thumbnail: Seq<char>,
}

impl View for ThumbnailResult {
    type V = ThumbnailResultView;

    open spec fn view(&self) -> ThumbnailResultView {
        ThumbnailResultView {
            source_id: self.source_id,
            index: self.index,
            thumbnail: self.thumbnail@,
        }
    }
}

impl DeepView for ThumbnailResult {
    type V = ThumbnailResultView;

    open spec fn deep_view(&self) -> ThumbnailResultView {
        self.view()
    }
}

/// Whether a result for the source is there already.
pub open spec fn has_result(results: Seq<ThumbnailResultView>, source_id: u64) -> bool {
    exists|k: int| 0 <= k < results.len() && (#[trigger] results[k]).source_id == source_id
}

/// Whether a result for the source is there already: its worker then has
/// nothing to do.
pub fn already_captured(results: &Vec<ThumbnailResult>, source_id: u64) -> (found: bool)
    ensures
        found == has_result(results.deep_view(), source_id),
{
    let mut k: usize = 0;
    let ghost views = results.deep_view();
    while k < results.len()
        invariant
            k <= results.len(),
            views == results.deep_view(),
            forall|j: int| 0 <= j < k ==> (#[trigger] views[j]).source_id != source_id,
        decreases results.len() - k,
    {
        assert(views[k as int] == results[k as int]@);
        if results[k].source_id == source_id {
            return true;
        }
        k = k + 1;
    }
    false
}

/// The thumbnail that a result stands for: none for a failure.
pub open spec fn result_thumbnail(result: ThumbnailResultView) -> Option<Seq<char>> {
    if result.thumbnail.len() == 0 {
        None
    } else {
        Some(result.thumbnail)
    }
}

/// The descriptors after the results were filed, each under its index; a
/// later result for an index overrules an earlier one, and a result whose
/// index is beyond the list is dropped.
pub open spec fn with_thumbnails(
    screens: Seq<ScreenInfoView>,
    results: Seq<ThumbnailResultView>,
) -> Seq<ScreenInfoView>
    decreases results.len(),
{
    if results.len() == 0 {
        screens
    } else {
        let earlier = with_thumbnails(screens, results.drop_last());
        let result = results.last();
        if result.index < earlier.len() {
            earlier.update(
                result.index as int,
                ScreenInfoView {
                    thumbnail: result_thumbnail(result),
                    ..earlier[result.index as int]
                },
            )
        } else {
            earlier
        }
    }
}

/// Filing results changes no descriptor but in its thumbnail, and leaves
/// alone every descriptor for which no result came.
pub proof fn lemma_thumbnails_touch_nothing_else(
    screens: Seq<ScreenInfoView>,
    results: Seq<ThumbnailResultView>,
)
    ensures
        with_thumbnails(screens, results).len() == screens.len(),
        forall|i: int|
            0 <= i < screens.len() ==> (#[trigger] with_thumbnails(screens, results)[i])
                == (ScreenInfoView {
                thumbnail: with_thumbnails(screens, results)[i].thumbnail,
                ..screens[i]
            }),
        forall|i: int|
            0 <= i < screens.len() && (forall|k: int|
                0 <= k < results.len() ==> (#[trigger] results[k]).index != i) ==> (
            #[trigger] with_thumbnails(screens, results)[i]) == screens[i],
    decreases results.len(),
{
    if results.len() > 0 {
        let front = results.drop_last();
        lemma_thumbnails_touch_nothing_else(screens, front);
        assert forall|i: int|
            0 <= i < screens.len() && (forall|k: int|
                0 <= k < results.len() ==> (#[trigger] results[k]).index != i) implies (
        #[trigger] with_thumbnails(screens, results)[i]) == screens[i] by {
            assert(results[results.len() - 1].index != i);
            assert forall|k: int| 0 <= k < front.len() implies (#[trigger] front[k]).index != i by {
                assert(front[k] == results[k]);
            }
        }
    }
}

/// Files the results of the thumbnail workers with the descriptors. A
/// source whose worker failed, or did not answer in time, goes without a
/// thumbnail.
pub fn apply_thumbnails(screens: &mut Vec<ScreenInfo>, results: &Vec<ThumbnailResult>)
    ensures
        final(screens).deep_view() == with_thumbnails(
            old(screens).deep_view(),
            results.deep_view(),
        ),
{
    let ghost start = screens.deep_view();
    let ghost all = results.deep_view();
    let mut k: usize = 0;
    assert(all.take(0) =~= Seq::<ThumbnailResultView>::empty());
    while k < results.len()
        invariant
            k <= results.len(),
            all == results.deep_view(),
            screens.deep_view() == with_thumbnails(start, all.take(k as int)),
        decreases results.len() - k,
    {
        let ghost before = screens.deep_view();
        proof {
            assert(all.take(k + 1).drop_last() =~= all.take(k as int));
            assert(all.take(k + 1).last() == results[k as int]@);
        }
        let index: usize = results[k].index;
        if index < screens.len() {
            let mut screen = screens.remove(index);
            let text: &str = results[k].thumbnail.as_str();
            screen.thumbnail = if text.is_empty() {
                None
            } else {
                Some(results[k].thumbnail.clone())
            };
            let ghost updated = screen@;
            screens.insert(index, screen);
            assert(screens.deep_view() =~= before.update(index as int, updated));
        }
        k = k + 1;
    }
    assert(all.take(k as int) =~= all);
}

/// Whether the wait for the thumbnails is over: every source has answered,
/// or the time is up.
pub fn enumeration_finished(answered: usize, expected: usize, elapsed_ms: u64) -> (done: bool)
    ensures
        done == (answered >= expected || elapsed_ms > 10_000),
{
    answered >= expected || elapsed_ms > 10_000
}

/// The size of a frame as the frame buffer needs it; `None` for a frame
/// without pixels, which is dropped.
pub fn frame_size(width: i32, height: i32) -> (size: Option<(u32, u32)>)
    ensures
        size == if width > 0 && height > 0 {
            Some((width as u32, height as u32))
        } else {
            None
        },
{
    if width > 0 && height > 0 {
        Some((width as u32, height as u32))
    } else {
        None
    }
}

/// Whether the rows of a frame lie within its data: each row holds its
/// pixels, four bytes each, and the last row ends within the data.
pub fn frame_fits(data_len: usize, width: u32, height: u32, stride: u32) -> (fits: bool)
    ensures
        fits == (stride >= width * 4 && stride * height <= data_len),
{
    let row: u64 = width as u64 * 4;
    assert(stride * height <= 0xffff_ffff * 0xffff_ffff) by (nonlinear_arith)
        requires
            stride <= 0xffff_ffff,
            height <= 0xffff_ffff,
    ;
    let rows: u64 = stride as u64 * height as u64;
    stride as u64 >= row && rows <= data_len as u64
}

/// The size for which the frame buffer of a session is laid out. The buffer
/// is kept from frame to frame, and laid out anew only for a frame of
/// another size.
pub struct FrameBuffer {
    width: u32,
    height: u32,
}

impl View for FrameBuffer {
    type V = (u32, u32);

    closed spec fn view(&self) -> (u32, u32) {
        (self.width, self.height)
    }
}

impl FrameBuffer {
    /// A buffer laid out for the size that was asked for.
    pub fn new(width: u32, height: u32) -> (buffer: Self)
        ensures
            buffer@ == (width, height),
    {
        FrameBuffer { width, height }
    }

    /// The size for which the buffer is laid out.
    pub fn size(&self) -> (size: (u32, u32))
        ensures
            size == self@,
    {
        (self.width, self.height)
    }

    /// Makes the buffer fit a frame. Returns whether it has to be laid out
    /// anew: only where the frame's size is not the buffer's.
    pub fn fit(&mut self, width: u32, height: u32) -> (reallocate: bool)
        ensures
            reallocate == (old(self)@ != (width, height)),
            final(self)@ == (width, height),
    {
        if self.width != width || self.height != height {
            self.width = width;
            self.height = height;
            true
        } else {
            false
        }
    }
}

/// Why a capture worker gave up.
#[derive(Debug, Clone, Copy, PartialEq, Eq, Structural)]
pub enum WorkerFailure {
    /// No capturer could be created.
    CapturerCreationFailed,
    /// The source was not among those listed.
    SourceNotFound,
    /// A restart did not find the source again.
    RestartFailed,
    /// The restarts of the session are spent.
    RestartsExhausted,
}

impl WorkerFailure {
    /// The code under which the failure is reported.
    pub open spec fn code(self) -> Seq<char> {
        match self {
            WorkerFailure::CapturerCreationFailed => "capture_failed"@,
            WorkerFailure::SourceNotFound => "source_not_found"@,
            WorkerFailure::RestartFailed => "restart_failed"@,
            WorkerFailure::RestartsExhausted => "restart_exhausted"@,
        }
    }

    /// The failure in words.
    pub open spec fn message(self, source: u64) -> Seq<char> {
        match self {
            WorkerFailure::CapturerCreationFailed => "Failed to create DesktopCapturer"@,
            WorkerFailure::SourceNotFound => "Source "@ + decimal_text(source as nat)
                + " not found"@,
            WorkerFailure::RestartFailed => "Failed to restart capture for source "@
                + decimal_text(source as nat),
            WorkerFailure::RestartsExhausted => "Restart attempts exhausted for source "@
                + decimal_text(source as nat),
        }
    }

    /// The command by which a worker reports that it gave up on `source`.
    pub fn report(self, source: u64) -> (event: UserEvent)
        ensures
            event@ == (UserEventView::Error {
                code: self.code(),
                message: self.message(source),
            }),
    {
        match self {
            WorkerFailure::CapturerCreationFailed => UserEvent::Error {
                code: "capture_failed".to_owned(),
                message: "Failed to create DesktopCapturer".to_owned(),
            },
            WorkerFailure::SourceNotFound => {
                let mut message = "Source ".to_owned();
                push_decimal(&mut message, source);
                message.append(" not found");
                UserEvent::Error { code: "source_not_found".to_owned(), message }
            },
            WorkerFailure::RestartFailed => {
                let mut message = "Failed to restart capture for source ".to_owned();
                push_decimal(&mut message, source);
                UserEvent::Error { code: "restart_failed".to_owned(), message }
            },
            WorkerFailure::RestartsExhausted => {
                let mut message = "Restart attempts exhausted for source ".to_owned();
                push_decimal(&mut message, source);
                UserEvent::Error { code: "restart_exhausted".to_owned(), message }
            },
        }
    }
}

/// Whether a capture worker can go to work: it needs a capturer, and its
/// source among those the capturer lists. Where it cannot, it ends with the
/// one failure to report.
pub fn worker_start(capturer_created: bool, source_found: bool) -> (start: Result<
    (),
    WorkerFailure,
>)
    ensures
        start == if !capturer_created {
            Err::<(), WorkerFailure>(WorkerFailure::CapturerCreationFailed)
        } else if !source_found {
            Err::<(), WorkerFailure>(WorkerFailure::SourceNotFound)
        } else {
            Ok::<(), WorkerFailure>(())
        },
{
    if !capturer_created {
        Err(WorkerFailure::CapturerCreationFailed)
    } else if !source_found {
        Err(WorkerFailure::SourceNotFound)
    } else {
        Ok(())
    }
}

/// What the capturer reported to a thumbnail worker for one frame request.
#[derive(Debug)]
pub enum FrameOutcome<'a> {
    /// The request failed, and the next one may well succeed.
    Temporary,
    /// The request failed, and asking again is not expected to help.
    Permanent,
    /// A frame was delivered.
    Frame { data: &'a [u8], width: i32, height: i32, stride: u32 },
}

pub ghost enum FrameOutcomeView {
    Temporary,
    Permanent,
    Frame { data: Seq<u8>, width: i32, height: i32, stride: u32 },
}

impl<'a> View for FrameOutcome<'a> {
    type V = FrameOutcomeView;

    open spec fn view(&self) -> FrameOutcomeView {
        match self {
            FrameOutcome::Temporary => FrameOutcomeView::Temporary,
            FrameOutcome::Permanent => FrameOutcomeView::Permanent,
            FrameOutcome::Frame { data, width, height, stride } => FrameOutcomeView::Frame {
                data: data@,
                width: *width,
                height: *height,
                stride: *stride,
            },
        }
    }
}

/// The work of taking the thumbnail of one source.
#[derive(Debug, Clone, Copy, PartialEq, Eq, Structural)]
pub struct ThumbnailTask {
    pub source_id: u64,
    /// The place of the source in the list of descriptors.
    pub index: usize,
    /// A result was filed; nothing more is to be done.
    pub done: bool,
}

/// The view of a result that may be absent.
pub open spec fn result_view(result: Option<ThumbnailResult>) -> Option<ThumbnailResultView> {
    match result {
        Some(r) => Some(r@),
        None => None,
    }
}

impl ThumbnailTask {
    /// The result that stands for a failure.
    pub open spec fn failure(self) -> ThumbnailResultView {
        ThumbnailResultView {
            source_id: self.source_id,
            index: self.index,
            thumbnail: Seq::empty(),
        }
    }

    /// The result to file at the start, if any: a failure where the worker
    /// cannot go to work.
    pub open spec fn answer_at_start(self, capturer_created: bool, source_found: bool) -> Option<
        ThumbnailResultView,
    > {
        if !self.done && !(capturer_created && source_found) {
            Some(self.failure())
        } else {
            None
        }
    }

    /// The result to file after a frame request, if any: none for a
    /// temporary error, a failure for a permanent one, the thumbnail for a
    /// frame that has one.
    pub open spec fn answer_to(self, outcome: FrameOutcomeView) -> Option<ThumbnailResultView> {
        if self.done {
            None
        } else {
            match outcome {
                FrameOutcomeView::Temporary => None,
                FrameOutcomeView::Permanent => Some(self.failure()),
                FrameOutcomeView::Frame { data, width, height, stride } => match frame_thumbnail(
                    data,
                    width,
                    height,
                    stride,
                ) {
                    Some(text) => Some(
                        ThumbnailResultView {
                            source_id: self.source_id,
                            index: self.index,
                            thumbnail: text,
                        },
                    ),
                    None => None,
                },
            }
        }
    }

    /// The task for the source at `index`. It is done from the start where
    /// a result for the source is there already.
    pub fn new(source_id: u64, index: usize, results: &Vec<ThumbnailResult>) -> (task: Self)
        ensures
            task == (ThumbnailTask {
                source_id,
                index,
                done: has_result(results.deep_view(), source_id),
            }),
    {
        ThumbnailTask { source_id, index, done: already_captured(results, source_id) }
    }

    /// Takes in whether the worker has a capturer and found its source.
    /// Returns the result to file, if any; the task is done once one is
    /// returned.
    pub fn start(&mut self, capturer_created: bool, source_found: bool) -> (result: Option<
        ThumbnailResult,
    >)
        ensures
            result_view(result) == old(self).answer_at_start(capturer_created, source_found),
            *final(self) == (ThumbnailTask { done: old(self).done || result is Some, ..*old(self) }),
    {
        if !self.done && !(capturer_created && source_found) {
            self.done = true;
            Some(
                ThumbnailResult {
                    source_id: self.source_id,
                    index: self.index,
                    thumbnail: String::new(),
                },
            )
        } else {
            None
        }
    }

    /// Takes in the outcome of one frame request. Returns the result to
    /// file, if any; the task is done once one is returned, and goes on
    /// asking for frames until then.
    pub fn on_outcome(&mut self, outcome: FrameOutcome) -> (result: Option<ThumbnailResult>)
        ensures
            result_view(result) == old(self).answer_to(outcome@),
            *final(self) == (ThumbnailTask { done: old(self).done || result is Some, ..*old(self) }),
    {
        if self.done {
            return None;
        }
        let result = match outcome {
            FrameOutcome::Temporary => None,
            FrameOutcome::Permanent => Some(
                ThumbnailResult {
                    source_id: self.source_id,
                    index: self.index,
                    thumbnail: String::new(),
                },
            ),
            FrameOutcome::Frame { data, width, height, stride } => match thumbnail_from_frame(
                data,
                width,
                height,
                stride,
            ) {
                Some(text) => Some(
                    ThumbnailResult { source_id: self.source_id, index: self.index, thumbnail: text },
                ),
                None => None,
            },
        };
        if result.is_some() {
            self.done = true;
        }
        result
    }
}

/// Frames delivered per second, told once for every second that has passed.
pub struct FrameRate {
    frames: u64,
    since_ms: u64,
}

pub ghost struct FrameRateView {
    pub frames: u64,
    pub since_ms: u64,
}

impl View for FrameRate {
    type V = FrameRateView;

    closed spec fn view(&self) -> FrameRateView {
        FrameRateView { frames: self.frames, since_ms: self.since_ms }
    }
}

impl FrameRateView {
    /// The count after one more frame at `now_ms`, and the rate to tell, in
    /// whole frames per second: told, and the count begun anew, once a second
    /// or more has passed since the count began.
    pub open spec fn after_frame(self, now_ms: u64) -> (FrameRateView, Option<u64>) {
        let frames = if self.frames < u64::MAX {
            (self.frames + 1) as u64
        } else {
            self.frames
        };
        if now_ms - self.since_ms >= 1000 {
            (
                FrameRateView { frames: 0, since_ms: now_ms },
                Some((frames * 1000 / (now_ms - self.since_ms)) as u64),
            )
        } else {
            (FrameRateView { frames, ..self }, None)
        }
    }
}

impl FrameRate {
    /// A count that begins at `now_ms`.
    pub fn new(now_ms: u64) -> (rate: Self)
        ensures
            rate@ == (FrameRateView { frames: 0, since_ms: now_ms }),
    {
        FrameRate { frames: 0, since_ms: now_ms }
    }

    /// Counts a frame delivered at `now_ms`. Returns the rate once a second
    /// or more has passed since the count began.
    pub fn on_frame(&mut self, now_ms: u64) -> (rate: Option<u64>)
        ensures
            (final(self)@, rate) == old(self)@.after_frame(now_ms),
    {
        let frames: u64 = if self.frames < u64::MAX {
            self.frames + 1
        } else {
            self.frames
        };
        if now_ms >= self.since_ms && now_ms - self.since_ms >= 1000 {
            let elapsed: u64 = now_ms - self.since_ms;
            let scaled: u128 = frames as u128 * 1000;
            assert(scaled / (elapsed as u128) <= frames) by (nonlinear_arith)
                requires
                    scaled == frames * 1000,
                    elapsed >= 1000,
            ;
            let rate: u64 = (scaled / elapsed as u128) as u64;
            self.frames = 0;
            self.since_ms = now_ms;
            Some(rate)
        } else {
            self.frames = frames;
            None
        }
    }
}

} // verus!
