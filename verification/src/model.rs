//! Plain data shared by every component: sources, tools, colours, participants.

use vstd::prelude::*;

verus! {

/// A single-precision number carried as its IEEE-754 bit pattern.
///
/// The engine never computes with coordinates or pressure; it stores them and
/// hands them on, so the bit pattern is all it needs.
#[derive(Debug, Clone, Copy, PartialEq, Eq, Structural)]
pub struct Scalar {
    pub bits: u32,
}

impl Scalar {
    /// Bit pattern of `0.0`.
    pub const ZERO_BITS: u32 = 0;

    /// Bit pattern of `1.0`.
    pub const ONE_BITS: u32 = 0x3f80_0000;

    /// The number `0.0`.
    pub fn zero() -> (s: Scalar)
        ensures
            s.bits == 0,
    {
        Scalar { bits: 0 }
    }

    /// The number `1.0`, the pressure of a sample that carries none.
    pub fn one() -> (s: Scalar)
        ensures
            s.bits == 0x3f80_0000,
    {
        Scalar { bits: 0x3f80_0000 }
    }
}

/// What kind of surface a capture source is.
#[derive(Debug, Clone, Copy, PartialEq, Eq, Structural)]
pub enum SourceType {
    Screen,
    Window,
}

/// Requested capture parameters.
#[derive(Debug, Clone, Copy, PartialEq, Eq, Structural)]
pub struct CaptureConfig {
    pub width: u32,
    pub height: u32,
    pub framerate: u32,
    pub bitrate: u32,
}

impl Default for CaptureConfig {
    fn default() -> (c: Self)
        ensures
            c == CaptureConfig::spec_default(),
    {
        CaptureConfig { width: 1920, height: 1080, framerate: 60, bitrate: 6_000_000 }
    }
}

impl CaptureConfig {
    /// 1920x1080 at 60 frames per second and 6 Mbps.
    pub open spec fn spec_default() -> CaptureConfig {
        CaptureConfig { width: 1920, height: 1080, framerate: 60, bitrate: 6_000_000 }
    }
}

/// A request to start sharing one source.
#[derive(Debug)]
pub struct ScreenShareMessage {
    pub source_id: String,
    pub source_type: SourceType,
    pub config: CaptureConfig,
}

pub ghost struct ScreenShareMessageView {
    pub source_id: Seq<char>,
    pub source_type: SourceType,
    pub config: CaptureConfig,
}

impl View for ScreenShareMessage {
    type V = ScreenShareMessageView;

    open spec fn view(&self) -> ScreenShareMessageView {
        ScreenShareMessageView {
            source_id: self.source_id@,
            source_type: self.source_type,
            config: self.config,
        }
    }
}

impl Clone for ScreenShareMessage {
    fn clone(&self) -> (r: Self)
        ensures
            r@ == self@,
    {
        ScreenShareMessage {
            source_id: self.source_id.clone(),
            source_type: self.source_type,
            config: self.config,
        }
    }
}

/// One capturable screen as shown to the host UI.
#[derive(Debug)]
pub struct ScreenInfo {
    pub id: String,
    pub name: String,
    /// Horizontal position of the display in the desktop.
    pub x: i32,
    /// Vertical position of the display in the desktop.
    pub y: i32,
    pub width: u32,
    pub height: u32,
    pub is_primary: bool,
    /// Base64 text of a JPEG preview, when one could be taken.
    pub thumbnail: Option<String>,
}

pub ghost struct ScreenInfoView {
    pub id: Seq<char>,
    pub name: Seq<char>,
    pub x: i32,
    pub y: i32,
    pub width: u32,
    pub height: u32,
    pub is_primary: bool,
    pub thumbnail: Option<Seq<char>>,
}

impl View for ScreenInfo {
    type V = ScreenInfoView;

    open spec fn view(&self) -> ScreenInfoView {
        ScreenInfoView {
            id: self.id@,
            name: self.name@,
            x: self.x,
            y: self.y,
            width: self.width,
            height: self.height,
            is_primary: self.is_primary,
            thumbnail: text_option(self.thumbnail),
        }
    }
}

impl DeepView for ScreenInfo {
    type V = ScreenInfoView;

    open spec fn deep_view(&self) -> ScreenInfoView {
        self.view()
    }
}

impl Clone for ScreenInfo {
    fn clone(&self) -> (r: Self)
        ensures
            r@ == self@,
    {
        ScreenInfo {
            id: self.id.clone(),
            name: self.name.clone(),
            x: self.x,
            y: self.y,
            width: self.width,
            height: self.height,
            is_primary: self.is_primary,
            thumbnail: clone_text_option(&self.thumbnail),
        }
    }
}

/// The characters of an optional string.
pub open spec fn text_option(o: Option<String>) -> Option<Seq<char>> {
    match o {
        Some(s) => Some(s@),
        None => None,
    }
}

/// Copies an optional string.
pub fn clone_text_option(o: &Option<String>) -> (r: Option<String>)
    ensures
        text_option(r) == text_option(*o),
{
    match o {
        Some(s) => Some(s.clone()),
        None => None,
    }
}

/// Drawing tools.
#[derive(Debug, Clone, Copy, PartialEq, Eq, Structural)]
pub enum AnnotationTool {
    Pen,
    Highlighter,
    Eraser,
}

/// One sample of a stroke: position normalised to the shared surface, and
/// pen pressure.
#[derive(Debug, Clone, Copy, PartialEq, Eq, Structural)]
pub struct Point {
    pub x: Scalar,
    pub y: Scalar,
    pub pressure: Scalar,
}

/// An RGBA colour with eight bits per channel.
#[derive(Debug, Clone, Copy, PartialEq, Eq, Structural)]
pub struct Color {
    pub r: u8,
    pub g: u8,
    pub b: u8,
    pub a: u8,
}

impl Color {
    pub fn red() -> (c: Color)
        ensures
            c == Color::palette()[0],
    {
        Color { r: 255, g: 87, b: 87, a: 255 }
    }

    pub fn blue() -> (c: Color)
        ensures
            c == Color::palette()[1],
    {
        Color { r: 87, g: 166, b: 255, a: 255 }
    }

    pub fn green() -> (c: Color)
        ensures
            c == Color::palette()[2],
    {
        Color { r: 87, g: 255, b: 144, a: 255 }
    }

    pub fn orange() -> (c: Color)
        ensures
            c == Color::palette()[3],
    {
        Color { r: 255, g: 193, b: 87, a: 255 }
    }

    pub fn purple() -> (c: Color)
        ensures
            c == Color::palette()[4],
    {
        Color { r: 200, g: 87, b: 255, a: 255 }
    }

    pub fn pink() -> (c: Color)
        ensures
            c == Color::palette()[5],
    {
        Color { r: 255, g: 87, b: 200, a: 255 }
    }

    /// The colours handed out to participants, in order.
    pub open spec fn palette() -> Seq<Color> {
        seq![
            Color { r: 255, g: 87, b: 87, a: 255 },
            Color { r: 87, g: 166, b: 255, a: 255 },
            Color { r: 87, g: 255, b: 144, a: 255 },
            Color { r: 255, g: 193, b: 87, a: 255 },
            Color { r: 200, g: 87, b: 255, a: 255 },
            Color { r: 255, g: 87, b: 200, a: 255 },
        ]
    }

    /// The colours handed out to participants, in order.
    pub fn all() -> (colors: Vec<Color>)
        ensures
            colors@ == Color::palette(),
    {
        let mut colors: Vec<Color> = Vec::new();
        colors.push(Color::red());
        colors.push(Color::blue());
        colors.push(Color::green());
        colors.push(Color::orange());
        colors.push(Color::purple());
        colors.push(Color::pink());
        assert(colors@ =~= Color::palette());
        colors
    }

    /// The palette colour at `index`, wrapping round at the palette's end.
    pub fn for_index(index: usize) -> (c: Color)
        ensures
            c == Color::palette()[(index % 6) as int],
    {
        let k: usize = index % 6;
        if k == 0 {
            Color::red()
        } else if k == 1 {
            Color::blue()
        } else if k == 2 {
            Color::green()
        } else if k == 3 {
            Color::orange()
        } else if k == 4 {
            Color::purple()
        } else {
            Color::pink()
        }
    }
}

/// How a remote cursor is drawn.
#[derive(Debug, Clone, Copy, PartialEq, Eq, Structural)]
pub enum CursorStyle {
    Default,
    Pen,
    Highlighter,
    Eraser,
    Hidden,
}

/// State of the link to the media server.
#[derive(Debug, Clone, Copy, PartialEq, Eq, Structural)]
pub enum ConnectionState {
    Disconnected,
    Connecting,
    Connected,
    Reconnecting,
}

/// Pixel layout of a relayed video frame.
#[derive(Debug, Clone, Copy, PartialEq, Eq, Structural)]
pub enum FrameFormat {
    Jpeg,
    Rgba,
    Nv12,
}

/// Role of a participant in the room.
#[derive(Debug, Clone, Copy, PartialEq, Eq, Structural)]
pub enum ParticipantRole {
    Host,
    Participant,
}

/// One participant of the room.
#[derive(Debug)]
pub struct ParticipantData {
    pub id: String,
    pub name: String,
    pub is_local: bool,
    pub role: ParticipantRole,
}

pub ghost struct ParticipantDataView {
    pub id: Seq<char>,
    pub name: Seq<char>,
    pub is_local: bool,
    pub role: ParticipantRole,
}

impl View for ParticipantData {
    type V = ParticipantDataView;

    open spec fn view(&self) -> ParticipantDataView {
        ParticipantDataView {
            id: self.id@,
            name: self.name@,
            is_local: self.is_local,
            role: self.role,
        }
    }
}

impl DeepView for ParticipantData {
    type V = ParticipantDataView;

    open spec fn deep_view(&self) -> ParticipantDataView {
        self.view()
    }
}

impl Clone for ParticipantData {
    fn clone(&self) -> (r: Self)
        ensures
            r@ == self@,
    {
        ParticipantData {
            id: self.id.clone(),
            name: self.name.clone(),
            is_local: self.is_local,
            role: self.role,
        }
    }
}

/// Where a remote participant's cursor is, and how it looks.
#[derive(Debug)]
pub struct RemoteCursor {
    pub participant_id: String,
    pub x: Scalar,
    pub y: Scalar,
    pub visible: bool,
    pub style: CursorStyle,
    pub color: Color,
}

pub ghost struct RemoteCursorView {
    pub participant_id: Seq<char>,
    pub x: Scalar,
    pub y: Scalar,
    pub visible: bool,
    pub style: CursorStyle,
    pub color: Color,
}

impl View for RemoteCursor {
    type V = RemoteCursorView;

    open spec fn view(&self) -> RemoteCursorView {
        RemoteCursorView {
            participant_id: self.participant_id@,
            x: self.x,
            y: self.y,
            visible: self.visible,
            style: self.style,
            color: self.color,
        }
    }
}

impl DeepView for RemoteCursor {
    type V = RemoteCursorView;

    open spec fn deep_view(&self) -> RemoteCursorView {
        self.view()
    }
}

impl Clone for RemoteCursor {
    fn clone(&self) -> (r: Self)
        ensures
            r@ == self@,
    {
        RemoteCursor {
            participant_id: self.participant_id.clone(),
            x: self.x,
            y: self.y,
            visible: self.visible,
            style: self.style,
            color: self.color,
        }
    }
}

} // verus!
