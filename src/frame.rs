//! The software rendering path and the small per-browser state cells the
//! render handler shares with the engine: the CPU frame buffer, pixel
//! conversion, cursor shape, drag state and background colour.
use vstd::prelude::*;

verus! {

/// The latest CPU-rendered frame, RGBA, with a dirty flag the consumer
/// clears once it has uploaded the frame.
#[derive(Debug, Default)]
pub struct FrameBuffer {
    pub data: Vec<u8>,
    pub width: u32,
    pub height: u32,
    pub dirty: bool,
}

impl FrameBuffer {
    pub fn new() -> (r: FrameBuffer)
        ensures
            r.data@ == Seq::<u8>::empty(),
            r.width == 0,
            r.height == 0,
            !r.dirty,
    {
        FrameBuffer { data: Vec::new(), width: 0, height: 0, dirty: false }
    }

    /// Stores a new frame and marks the buffer dirty.
    pub fn update(&mut self, data: Vec<u8>, width: u32, height: u32)
        ensures
            final(self).data@ == data@,
            final(self).width == width,
            final(self).height == height,
            final(self).dirty,
    {
        self.data = data;
        self.width = width;
        self.height = height;
        self.dirty = true;
    }

    /// Marks the frame as consumed.
    pub fn mark_clean(&mut self)
        ensures
            final(self).data@ == old(self).data@,
            final(self).width == old(self).width,
            final(self).height == old(self).height,
            !final(self).dirty,
    {
        self.dirty = false;
    }
}

/// Where byte `i` of the converted buffer comes from: each 4-byte pixel
/// swaps its first and third bytes.
pub open spec fn swapped_index(i: int) -> int {
    let k = i % 4;
    if k == 0 {
        i + 2
    } else if k == 2 {
        i - 2
    } else {
        i
    }
}

/// BGRA bytes converted to RGBA; a trailing partial pixel is dropped.
pub open spec fn bgra_to_rgba_spec(bgra: Seq<u8>) -> Seq<u8> {
    Seq::new((bgra.len() - bgra.len() % 4) as nat, |i: int| bgra[swapped_index(i)])
}

/// Converts a BGRA pixel buffer to RGBA.
pub fn bgra_to_rgba(bgra: &[u8]) -> (rgba: Vec<u8>)
    ensures
        rgba@ == bgra_to_rgba_spec(bgra@),
{
    let n = bgra.len();
    let mut rgba: Vec<u8> = Vec::with_capacity(n);
    let mut i: usize = 0;
    while 4 <= n - i
        invariant
            n == bgra@.len(),
            i <= n,
            i % 4 == 0,
            rgba@.len() == i,
            forall|j: int| 0 <= j < i ==> rgba@[j] == bgra@[swapped_index(j)],
        decreases n - i,
    {
        rgba.push(bgra[i + 2]);
        rgba.push(bgra[i + 1]);
        rgba.push(bgra[i]);
        rgba.push(bgra[i + 3]);
        i = i + 4;
    }
    assert(rgba@ =~= bgra_to_rgba_spec(bgra@));
    rgba
}

/// Cursor shapes the engine can show.
#[derive(Clone, Copy, Debug, Default, PartialEq, Eq, Structural)]
pub enum CursorType {
    #[default]
    Arrow,
    IBeam,
    Hand,
    Cross,
    Wait,
    Help,
    Move,
    ResizeNS,
    ResizeEW,
    ResizeNESW,
    ResizeNWSE,
    NotAllowed,
    Progress,
}

/// The cursor shape for a browser cursor type, given by its numeric code.
/// Codes without an engine counterpart show the arrow.
pub open spec fn cursor_of(code: u32) -> CursorType {
    if code == 3 {
        CursorType::IBeam
    } else if code == 2 {
        CursorType::Hand
    } else if code == 1 {
        CursorType::Cross
    } else if code == 4 {
        CursorType::Wait
    } else if code == 5 {
        CursorType::Help
    } else if code == 29 {
        CursorType::Move
    } else if code == 7 || code == 10 || code == 14 {
        CursorType::ResizeNS
    } else if code == 6 || code == 13 || code == 15 {
        CursorType::ResizeEW
    } else if code == 8 || code == 12 || code == 16 {
        CursorType::ResizeNESW
    } else if code == 9 || code == 11 || code == 17 {
        CursorType::ResizeNWSE
    } else if code == 38 {
        CursorType::NotAllowed
    } else if code == 34 {
        CursorType::Progress
    } else {
        CursorType::Arrow
    }
}

/// Browser cursor type codes.
pub const CT_POINTER: u32 = 0;
pub const CT_CROSS: u32 = 1;
pub const CT_HAND: u32 = 2;
pub const CT_IBEAM: u32 = 3;
pub const CT_WAIT: u32 = 4;
pub const CT_HELP: u32 = 5;
pub const CT_EASTRESIZE: u32 = 6;
pub const CT_NORTHRESIZE: u32 = 7;
pub const CT_NORTHEASTRESIZE: u32 = 8;
pub const CT_NORTHWESTRESIZE: u32 = 9;
pub const CT_SOUTHRESIZE: u32 = 10;
pub const CT_SOUTHEASTRESIZE: u32 = 11;
pub const CT_SOUTHWESTRESIZE: u32 = 12;
pub const CT_WESTRESIZE: u32 = 13;
pub const CT_NORTHSOUTHRESIZE: u32 = 14;
pub const CT_EASTWESTRESIZE: u32 = 15;
pub const CT_NORTHEASTSOUTHWESTRESIZE: u32 = 16;
pub const CT_NORTHWESTSOUTHEASTRESIZE: u32 = 17;
pub const CT_MOVE: u32 = 29;
pub const CT_PROGRESS: u32 = 34;
pub const CT_NOTALLOWED: u32 = 38;

/// Maps a browser cursor type code to the engine's cursor shape.
pub fn cursor_from_code(code: u32) -> (r: CursorType)
    ensures
        r == cursor_of(code),
{
    match code {
        CT_POINTER => CursorType::Arrow,
        CT_IBEAM => CursorType::IBeam,
        CT_HAND => CursorType::Hand,
        CT_CROSS => CursorType::Cross,
        CT_WAIT => CursorType::Wait,
        CT_HELP => CursorType::Help,
        CT_MOVE => CursorType::Move,
        CT_NORTHRESIZE | CT_SOUTHRESIZE | CT_NORTHSOUTHRESIZE => CursorType::ResizeNS,
        CT_EASTRESIZE | CT_WESTRESIZE | CT_EASTWESTRESIZE => CursorType::ResizeEW,
        CT_NORTHEASTRESIZE | CT_SOUTHWESTRESIZE | CT_NORTHEASTSOUTHWESTRESIZE => CursorType::ResizeNESW,
        CT_NORTHWESTRESIZE | CT_SOUTHEASTRESIZE | CT_NORTHWESTSOUTHEASTRESIZE => CursorType::ResizeNWSE,
        CT_NOTALLOWED => CursorType::NotAllowed,
        CT_PROGRESS => CursorType::Progress,
        _ => CursorType::Arrow,
    }
}

/// Packs colour channels into the browser's 32-bit ARGB colour value.
pub fn pack_argb(a: u8, r: u8, g: u8, b: u8) -> (c: u32)
    ensures
        c == a as int * 0x1000000 + r as int * 0x10000 + g as int * 0x100 + b as int,
{
    (a as u32) * 0x1000000 + (r as u32) * 0x10000 + (g as u32) * 0x100 + (b as u32)
}

/// Drag-and-drop state of one browser.
#[derive(Clone, Copy, Debug, Default, PartialEq, Eq, Structural)]
pub struct DragState {
    pub is_drag_over: bool,
    pub is_dragging_from_browser: bool,
    pub allowed_ops: u32,
}

impl DragState {
    /// The state with no drag in progress.
    pub fn idle() -> (r: DragState)
        ensures
            !r.is_drag_over && !r.is_dragging_from_browser && r.allowed_ops == 0,
    {
        DragState { is_drag_over: false, is_dragging_from_browser: false, allowed_ops: 0 }
    }
}

} // verus!
