//! The decisions of the client-side window frame (title bar and borders
//! drawn around a Wayland window): which part of the frame the pointer is
//! over, what a click there does, how the frame follows the window's state,
//! its geometry, and what to paint. The surfaces themselves are created,
//! positioned and painted by the caller, as each operation's result says.
use vstd::prelude::*;

verus! {

/// The size of the header bar.
pub const HEADER_SIZE: u32 = 0;

/// The size of the border.
pub const BORDER_SIZE: u32 = 4;

/// The size of the corner hit area.
pub const CORNER_SIZE: u32 = 16;

/// Frame color (ARGB) of the focused window.
pub const PRIMARY_COLOR_ACTIVE: u32 = 0xFF3A3A3A;

/// Frame color (ARGB) of an unfocused window.
pub const PRIMARY_COLOR_INACTIVE: u32 = 0xFF242424;

/// Sub-pixel units per logical pixel in pointer coordinates (Wayland's
/// 24.8 fixed-point numbers).
pub const FIXED_ONE: i32 = 256;

/// The location inside the frame.
#[derive(Debug, Copy, Clone, PartialEq, Eq, Structural)]
pub enum Location {
    /// The location doesn't belong to the frame.
    Outside,
    /// Header bar.
    Head,
    /// Top border.
    Top,
    /// Top right corner.
    TopRight,
    /// Right border.
    Right,
    /// Bottom right corner.
    BottomRight,
    /// Bottom border.
    Bottom,
    /// Bottom left corner.
    BottomLeft,
    /// Left border.
    Left,
    /// Top left corner.
    TopLeft,
}

#[derive(Debug, Copy, Clone, PartialEq, Eq, Structural)]
pub enum LayoutState {
    Normal,
    Maximized,
}

#[derive(Debug, Copy, Clone, PartialEq, Eq, Structural)]
pub struct Position {
    pub x: i32,
    pub y: i32,
}

/// One part of the frame: its size in logical pixels, the position of its
/// subsurface relative to the window, and the location it stands for.
#[derive(Debug, Copy, Clone, PartialEq, Eq, Structural)]
pub struct FramePart {
    pub width: u32,
    pub height: u32,
    pub pos: Position,
    pub base_location: Location,
}

/// The five parts of a visible frame.
#[derive(Debug, Copy, Clone, PartialEq, Eq, Structural)]
pub struct FrameRenderData {
    pub header: FramePart,
    pub top_border: FramePart,
    pub right_border: FramePart,
    pub bottom_border: FramePart,
    pub left_border: FramePart,
}

#[derive(Debug, Copy, Clone, PartialEq, Eq, Structural)]
pub enum WeztermFrameState {
    Hidden,
    Visible { layout: LayoutState, active: bool, render_data: FrameRenderData },
    Fullscreen,
}

/// The window manager's capabilities that the frame knows of.
#[derive(Debug, Copy, Clone, PartialEq, Eq, Structural)]
pub struct WmCapabilities {
    pub window_menu: bool,
    pub maximize: bool,
    pub fullscreen: bool,
    pub minimize: bool,
}

/// Which button was clicked on the frame.
#[derive(Debug, Copy, Clone, PartialEq, Eq, Structural)]
pub enum FrameClick {
    Normal,
    Alternate,
}

/// The edge or corner by which the window is resized.
#[derive(Debug, Copy, Clone, PartialEq, Eq, Structural)]
pub enum ResizeEdge {
    Top,
    Bottom,
    Left,
    TopLeft,
    BottomLeft,
    Right,
    TopRight,
    BottomRight,
}

/// What the window should do after a click on the frame.
#[derive(Debug, Copy, Clone, PartialEq, Eq, Structural)]
pub enum FrameAction {
    /// Start an interactive move.
    Move,
    /// Start an interactive resize.
    Resize(ResizeEdge),
    /// Show the window menu at this point (logical pixels, relative to the window).
    ShowMenu(i32, i32),
}

/// The pointer cursor to show over the frame.
#[derive(Debug, Copy, Clone, PartialEq, Eq, Structural)]
pub enum FrameCursor {
    Default,
    NResize,
    NeResize,
    EResize,
    SeResize,
    SResize,
    SwResize,
    WResize,
    NwResize,
}

/// What becomes of the frame's surfaces after a change of state.
#[derive(Debug, Copy, Clone, PartialEq, Eq, Structural)]
pub enum PartsChange {
    /// The surfaces stay as they are.
    Keep,
    /// Five new surfaces are created, one for each part of a fresh `FrameRenderData`.
    Create,
    /// The surfaces are destroyed.
    Destroy,
    /// Each surface is emptied (no buffer attached, then committed), then destroyed.
    DetachAndDestroy,
}

/// How one part is painted.
#[derive(Debug, Copy, Clone, PartialEq, Eq, Structural)]
pub enum PartDrawing {
    /// The part has no area: its surface gets no buffer and is committed.
    Clear,
    /// A buffer of `width` x `height` pixels with `stride` bytes per row is
    /// filled with the frame color and attached; the subsurface is moved to
    /// `(x, y)`.
    Paint { width: i32, height: i32, stride: i32, x: i32, y: i32 },
}

/// What `draw` asks the caller to do.
#[derive(Debug, Copy, Clone)]
pub struct FrameDrawing {
    /// Whether the subsurfaces are synchronized with the parent (and the
    /// value `draw` returns).
    pub should_sync: bool,
    /// The ARGB color with which every painted buffer is filled.
    pub fill_color: u32,
    /// The buffer scale of each surface.
    pub scale: i32,
    /// One entry per part, in the order of `FrameRenderData::parts`.
    pub parts: [PartDrawing; 5],
}


/// The whole-pixel part of a fixed-point coordinate, rounded toward zero
/// (the `as i32` of the same coordinate as a float).
pub open spec fn whole_pixels(fixed: int) -> int {
    if fixed >= 0 {
        fixed / FIXED_ONE as int
    } else {
        -((-fixed) / FIXED_ONE as int)
    }
}

/// The border locations, where a press starts a resize.
pub open spec fn is_border(location: Location) -> bool {
    match location {
        Location::Top | Location::TopLeft | Location::TopRight | Location::Bottom
        | Location::BottomLeft | Location::BottomRight | Location::Left | Location::Right => true,
        _ => false,
    }
}

/// The edge that a border location resizes.
pub open spec fn resize_edge(location: Location) -> Option<ResizeEdge> {
    match location {
        Location::Top => Some(ResizeEdge::Top),
        Location::TopLeft => Some(ResizeEdge::TopLeft),
        Location::Left => Some(ResizeEdge::Left),
        Location::BottomLeft => Some(ResizeEdge::BottomLeft),
        Location::Bottom => Some(ResizeEdge::Bottom),
        Location::BottomRight => Some(ResizeEdge::BottomRight),
        Location::Right => Some(ResizeEdge::Right),
        Location::TopRight => Some(ResizeEdge::TopRight),
        _ => None,
    }
}

/// The cursor shown over a location.
pub open spec fn cursor_for(location: Location) -> FrameCursor {
    match location {
        Location::Top => FrameCursor::NResize,
        Location::TopRight => FrameCursor::NeResize,
        Location::Right => FrameCursor::EResize,
        Location::BottomRight => FrameCursor::SeResize,
        Location::Bottom => FrameCursor::SResize,
        Location::BottomLeft => FrameCursor::SwResize,
        Location::Left => FrameCursor::WResize,
        Location::TopLeft => FrameCursor::NwResize,
        _ => FrameCursor::Default,
    }
}

/// Where on a part the pointer is, at fixed-point abscissa `x`: the top and
/// bottom borders end in corners of `CORNER_SIZE` pixels.
pub open spec fn spec_precise_location(part: FramePart, x: int) -> Location {
    let near_start = x <= CORNER_SIZE as int * FIXED_ONE as int;
    let near_end = x >= (part.width as int - CORNER_SIZE as int) * FIXED_ONE as int;
    match part.base_location {
        Location::Top => if near_start {
            Location::TopLeft
        } else if near_end {
            Location::TopRight
        } else {
            Location::Top
        },
        Location::Bottom => if near_start {
            Location::BottomLeft
        } else if near_end {
            Location::BottomRight
        } else {
            Location::Bottom
        },
        other => other,
    }
}

/// The far corner of a part can be measured at fixed-point abscissa `x`:
/// past the near corner, a top or bottom border must be at least as wide as
/// a corner (its far corner starts `CORNER_SIZE` pixels before its end).
pub open spec fn corners_defined(part: FramePart, x: int) -> bool {
    x > CORNER_SIZE as int * FIXED_ONE as int ==> ((part.base_location == Location::Top
        || part.base_location == Location::Bottom) ==> part.width >= CORNER_SIZE)
}

impl FramePart {
    pub fn new(width: u32, height: u32, pos: Position, base_location: Location) -> (part: Self)
        ensures
            part == (FramePart { width, height, pos, base_location }),
    {
        FramePart { width, height, pos, base_location }
    }

    /// The location under the pointer at fixed-point abscissa `x` (in
    /// 1/`FIXED_ONE` logical pixels) on this part.
    pub fn precise_location(&self, x: i32) -> (location: Location)
        requires
            corners_defined(*self, x as int),
        ensures
            location == spec_precise_location(*self, x as int),
    {
        let x: i64 = x as i64;
        let corner: i64 = (CORNER_SIZE as i64) * (FIXED_ONE as i64);
        match self.base_location {
            Location::Top => {
                if x <= corner {
                    Location::TopLeft
                } else if x >= ((self.width - CORNER_SIZE) as i64) * (FIXED_ONE as i64) {
                    Location::TopRight
                } else {
                    Location::Top
                }
            },
            Location::Bottom => {
                if x <= corner {
                    Location::BottomLeft
                } else if x >= ((self.width - CORNER_SIZE) as i64) * (FIXED_ONE as i64) {
                    Location::BottomRight
                } else {
                    Location::Bottom
                }
            },
            other => other,
        }
    }
}

/// The parts of a frame that was just created: the header above the
/// window, and the borders around header and window.
pub open spec fn fresh_render_data() -> FrameRenderData {
    FrameRenderData {
        header: FramePart {
            width: 0,
            height: HEADER_SIZE,
            pos: Position { x: 0, y: -(HEADER_SIZE as int) as i32 },
            base_location: Location::Head,
        },
        top_border: FramePart {
            width: 0,
            height: BORDER_SIZE,
            pos: Position {
                x: -(BORDER_SIZE as int) as i32,
                y: (-(HEADER_SIZE as int) - BORDER_SIZE as int) as i32,
            },
            base_location: Location::Top,
        },
        right_border: FramePart {
            width: BORDER_SIZE,
            height: 0,
            pos: Position { x: 0, y: -(HEADER_SIZE as int) as i32 },
            base_location: Location::Right,
        },
        bottom_border: FramePart {
            width: 0,
            height: BORDER_SIZE,
            pos: Position { x: -(BORDER_SIZE as int) as i32, y: 0 },
            base_location: Location::Bottom,
        },
        left_border: FramePart {
            width: BORDER_SIZE,
            height: 0,
            pos: Position { x: -(BORDER_SIZE as int) as i32, y: -(HEADER_SIZE as int) as i32 },
            base_location: Location::Left,
        },
    }
}

/// The layout of a frame's parts that no operation changes: which part
/// stands where, the thickness of header and borders, and the positions
/// that do not follow the window's size.
pub open spec fn render_data_wf(rd: FrameRenderData) -> bool {
    let fresh = fresh_render_data();
    &&& rd.header.height == fresh.header.height
    &&& rd.header.pos == fresh.header.pos
    &&& rd.header.base_location == fresh.header.base_location
    &&& rd.top_border.height == fresh.top_border.height
    &&& rd.top_border.pos == fresh.top_border.pos
    &&& rd.top_border.base_location == fresh.top_border.base_location
    &&& rd.right_border.width == fresh.right_border.width
    &&& rd.right_border.pos.y == fresh.right_border.pos.y
    &&& rd.right_border.base_location == fresh.right_border.base_location
    &&& rd.bottom_border.height == fresh.bottom_border.height
    &&& rd.bottom_border.pos.x == fresh.bottom_border.pos.x
    &&& rd.bottom_border.base_location == fresh.bottom_border.base_location
    &&& rd.left_border.width == fresh.left_border.width
    &&& rd.left_border.pos == fresh.left_border.pos
    &&& rd.left_border.base_location == fresh.left_border.base_location
}

/// The parts in drawing order.
pub open spec fn spec_parts(rd: FrameRenderData) -> Seq<FramePart> {
    seq![rd.header, rd.top_border, rd.right_border, rd.bottom_border, rd.left_border]
}

impl FrameRenderData {
    pub fn new() -> (rd: Self)
        ensures
            rd == fresh_render_data(),
            render_data_wf(rd),
    {
        FrameRenderData {
            header: FramePart::new(
                0,
                HEADER_SIZE,
                Position { x: 0, y: -(HEADER_SIZE as i32) },
                Location::Head,
            ),
            top_border: FramePart::new(
                0,
                BORDER_SIZE,
                Position { x: -(BORDER_SIZE as i32), y: -(HEADER_SIZE as i32 + BORDER_SIZE as i32) },
                Location::Top,
            ),
            right_border: FramePart::new(
                BORDER_SIZE,
                0,
                Position { x: 0, y: -(HEADER_SIZE as i32) },
                Location::Right,
            ),
            bottom_border: FramePart::new(
                0,
                BORDER_SIZE,
                Position { x: -(BORDER_SIZE as i32), y: 0 },
                Location::Bottom,
            ),
            left_border: FramePart::new(
                BORDER_SIZE,
                0,
                Position { x: -(BORDER_SIZE as i32), y: -(HEADER_SIZE as i32) },
                Location::Left,
            ),
        }
    }

    /// The parts in drawing order: header, top, right, bottom, left.
    pub fn parts(&self) -> (parts: [FramePart; 5])
        ensures
            parts@ == spec_parts(*self),
    {
        let parts = [
            self.header,
            self.top_border,
            self.right_border,
            self.bottom_border,
            self.left_border,
        ];
        assert(parts@ =~= spec_parts(*self));
        parts
    }

    /// The position of the frame's top-left corner relative to the window.
    pub fn location(&self) -> (loc: (i32, i32))
        ensures
            loc == (self.top_border.pos.x, self.top_border.pos.y),
    {
        (self.top_border.pos.x, self.top_border.pos.y)
    }

    /// The part at `index` in drawing order.
    pub fn find_part(&self, index: usize) -> (part: Option<FramePart>)
        ensures
            part == if index < 5 {
                Some(spec_parts(*self)[index as int])
            } else {
                None::<FramePart>
            },
    {
        if index < 5 {
            let parts = self.parts();
            Some(parts[index])
        } else {
            None
        }
    }
}


/// The state of a frame as contracts see it.
pub struct FrameView {
    pub state: WeztermFrameState,
    pub wm_capabilities: WmCapabilities,
    pub resizable: bool,
    pub dirty: bool,
    pub mouse_location: Location,
    pub mouse_coords: (i32, i32),
    pub should_sync: bool,
    pub buffer_scale: i32,
}

/// The frame's decisions. The pointer position is kept in Wayland's
/// fixed-point units (1/`FIXED_ONE` logical pixel); the scale is the whole
/// buffer scale that the frame is painted at.
#[derive(Debug)]
pub struct WeztermFrame {
    state: WeztermFrameState,
    wm_capabilities: WmCapabilities,
    resizable: bool,
    dirty: bool,
    mouse_location: Location,
    mouse_coords: (i32, i32),
    should_sync: bool,
    buffer_scale: i32,
}

impl View for WeztermFrame {
    type V = FrameView;

    closed spec fn view(&self) -> FrameView {
        FrameView {
            state: self.state,
            wm_capabilities: self.wm_capabilities,
            resizable: self.resizable,
            dirty: self.dirty,
            mouse_location: self.mouse_location,
            mouse_coords: self.mouse_coords,
            should_sync: self.should_sync,
            buffer_scale: self.buffer_scale,
        }
    }
}

/// All four capabilities.
pub open spec fn all_capabilities() -> WmCapabilities {
    WmCapabilities { window_menu: true, maximize: true, fullscreen: true, minimize: true }
}

/// A visible frame's parts keep their layout.
pub open spec fn state_wf(state: WeztermFrameState) -> bool {
    match state {
        WeztermFrameState::Visible { render_data, .. } => render_data_wf(render_data),
        _ => true,
    }
}

pub open spec fn is_visible(state: WeztermFrameState) -> bool {
    state is Visible
}

/// What a click does, given the frame's state before it.
pub open spec fn spec_on_click(v: FrameView, click: FrameClick, pressed: bool) -> Option<
    FrameAction,
> {
    if click == FrameClick::Alternate {
        if v.mouse_location != Location::Head || !v.wm_capabilities.window_menu {
            None
        } else {
            Some(
                FrameAction::ShowMenu(
                    whole_pixels(v.mouse_coords.0 as int) as i32,
                    (whole_pixels(v.mouse_coords.1 as int) - HEADER_SIZE as int) as i32,
                ),
            )
        }
    } else if v.mouse_location == Location::Head {
        if pressed {
            Some(FrameAction::Move)
        } else {
            None
        }
    } else if pressed && v.resizable && is_border(v.mouse_location) {
        Some(FrameAction::Resize(resize_edge(v.mouse_location).unwrap()))
    } else {
        None
    }
}

/// The location the frame records for the pointer: a maximized window
/// cannot be resized, so its borders do not count.
pub open spec fn recorded_location(state: WeztermFrameState, location: Location) -> Location {
    if state matches WeztermFrameState::Visible { layout: LayoutState::Maximized, .. }
        && is_border(location) {
        Location::Outside
    } else {
        location
    }
}

/// The frame state after `update_state`, and what becomes of the surfaces.
pub open spec fn spec_update_state(
    state: WeztermFrameState,
    active: bool,
    fullscreen: bool,
    maximized: bool,
) -> (WeztermFrameState, PartsChange) {
    let new_layout = if maximized {
        LayoutState::Maximized
    } else {
        LayoutState::Normal
    };
    match state {
        WeztermFrameState::Hidden => (WeztermFrameState::Hidden, PartsChange::Keep),
        WeztermFrameState::Fullscreen => if !fullscreen {
            (
                WeztermFrameState::Visible {
                    layout: new_layout,
                    active,
                    render_data: fresh_render_data(),
                },
                PartsChange::Create,
            )
        } else {
            (WeztermFrameState::Fullscreen, PartsChange::Keep)
        },
        WeztermFrameState::Visible { render_data, .. } => if fullscreen {
            (WeztermFrameState::Fullscreen, PartsChange::DetachAndDestroy)
        } else {
            (
                WeztermFrameState::Visible { layout: new_layout, active, render_data },
                PartsChange::Keep,
            )
        },
    }
}

/// Whether `update_state` marks the frame for redrawing.
pub open spec fn update_makes_dirty(
    state: WeztermFrameState,
    active: bool,
    fullscreen: bool,
    maximized: bool,
) -> bool {
    let new_layout = if maximized {
        LayoutState::Maximized
    } else {
        LayoutState::Normal
    };
    match state {
        WeztermFrameState::Hidden => false,
        WeztermFrameState::Fullscreen => !fullscreen,
        WeztermFrameState::Visible { layout, active: current, .. } => fullscreen || layout
            != new_layout || current != active,
    }
}

/// The frame state after `set_hidden`, and what becomes of the surfaces.
pub open spec fn spec_set_hidden(state: WeztermFrameState, hidden: bool) -> (
    WeztermFrameState,
    PartsChange,
) {
    if hidden {
        (
            WeztermFrameState::Hidden,
            if state is Visible {
                PartsChange::Destroy
            } else {
                PartsChange::Keep
            },
        )
    } else if state is Hidden {
        (
            WeztermFrameState::Visible {
                layout: LayoutState::Normal,
                active: false,
                render_data: fresh_render_data(),
            },
            PartsChange::Create,
        )
    } else {
        (state, PartsChange::Keep)
    }
}

/// The parts after the window is resized to `width` x `height`.
pub open spec fn resized_render_data(rd: FrameRenderData, width: u32, height: u32) -> FrameRenderData {
    let bordered = (width + 2 * BORDER_SIZE) as u32;
    let side = (height + HEADER_SIZE) as u32;
    FrameRenderData {
        header: FramePart { width, ..rd.header },
        top_border: FramePart { width: bordered, ..rd.top_border },
        bottom_border: FramePart {
            width: bordered,
            pos: Position { y: height as i32, ..rd.bottom_border.pos },
            ..rd.bottom_border
        },
        left_border: FramePart { height: side, ..rd.left_border },
        right_border: FramePart {
            height: side,
            pos: Position { x: width as i32, ..rd.right_border.pos },
            ..rd.right_border
        },
    }
}

/// Neither the window's state is fullscreen nor hidden: the frame adds its borders.
pub open spec fn has_borders(state: WeztermFrameState) -> bool {
    state is Visible
}

/// The window size without the frame (`None` for nothing left).
pub open spec fn spec_subtract_borders(state: WeztermFrameState, width: u32, height: u32) -> (
    Option<u32>,
    Option<u32>,
) {
    if has_borders(state) {
        let w = width as int - 2 * BORDER_SIZE as int;
        let h = height as int - (HEADER_SIZE as int + 2 * BORDER_SIZE as int);
        (
            if w > 0 {
                Some(w as u32)
            } else {
                None
            },
            if h > 0 {
                Some(h as u32)
            } else {
                None
            },
        )
    } else {
        (Some(width), Some(height))
    }
}

/// The window size with the frame.
pub open spec fn spec_add_borders(state: WeztermFrameState, width: u32, height: u32) -> (int, int) {
    if has_borders(state) {
        (width + 2 * BORDER_SIZE, height + (HEADER_SIZE + 2 * BORDER_SIZE))
    } else {
        (width as int, height as int)
    }
}

/// How a part is painted at `scale`.
pub open spec fn spec_part_drawing(part: FramePart, scale: i32) -> PartDrawing {
    if part.width == 0 || part.height == 0 {
        PartDrawing::Clear
    } else {
        PartDrawing::Paint {
            width: ((part.width as i32) as int * scale) as i32,
            height: ((part.height as i32) as int * scale) as i32,
            stride: ((part.width as i32) as int * 4 * scale) as i32,
            x: part.pos.x,
            y: part.pos.y,
        }
    }
}

/// The buffer of a part fits: its sizes in pixels and bytes are `i32`s.
pub open spec fn part_fits(part: FramePart, scale: i32) -> bool {
    let w = (part.width as i32) as int;
    let h = (part.height as i32) as int;
    (part.width != 0 && part.height != 0) ==> {
        &&& i32::MIN <= w * scale <= i32::MAX
        &&& i32::MIN <= h * scale <= i32::MAX
        &&& i32::MIN <= w * 4 <= i32::MAX
        &&& i32::MIN <= w * 4 * scale <= i32::MAX
    }
}

/// Every part of a visible frame can be painted at its scale.
pub open spec fn drawable(v: FrameView) -> bool {
    match v.state {
        WeztermFrameState::Visible { render_data, .. } => forall|i: int|
            0 <= i < 5 ==> part_fits(#[trigger] spec_parts(render_data)[i], v.buffer_scale),
        _ => true,
    }
}

pub open spec fn fill_color(active: bool) -> u32 {
    if active {
        PRIMARY_COLOR_ACTIVE
    } else {
        PRIMARY_COLOR_INACTIVE
    }
}


/// The fixed-point coordinate's whole pixels, rounded toward zero.
fn fixed_to_pixels(fixed: i32) -> (pixels: i32)
    ensures
        pixels == whole_pixels(fixed as int),
{
    if fixed >= 0 {
        fixed / FIXED_ONE
    } else {
        let magnitude: i64 = -(fixed as i64);
        -((magnitude / (FIXED_ONE as i64)) as i32)
    }
}

proof fn lemma_mul_bound(a: int, b: int, ba: int, bb: int)
    by (nonlinear_arith)
    requires
        -ba <= a <= ba,
        -bb <= b <= bb,
    ensures
        -(ba * bb) <= a * b <= ba * bb,
{
}

fn part_fits_exec(part: &FramePart, scale: i32) -> (ok: bool)
    ensures
        ok == part_fits(*part, scale),
{
    if part.width == 0 || part.height == 0 {
        return true;
    }
    let w: i128 = (part.width as i32) as i128;
    let h: i128 = (part.height as i32) as i128;
    let s: i128 = scale as i128;
    let ghost bound: int = 0x8000_0000;
    proof {
        lemma_mul_bound(w as int, s as int, bound, bound);
        lemma_mul_bound(h as int, s as int, bound, bound);
        lemma_mul_bound(w as int * 4, s as int, 4 * bound, bound);
    }
    let min: i128 = i32::MIN as i128;
    let max: i128 = i32::MAX as i128;
    let ws = w * s;
    let hs = h * s;
    let w4 = w * 4;
    let w4s = w4 * s;
    min <= ws && ws <= max && min <= hs && hs <= max && min <= w4 && w4 <= max && min <= w4s
        && w4s <= max
}

/// How one part is painted at `scale`.
fn part_drawing(part: &FramePart, scale: i32) -> (d: PartDrawing)
    requires
        part_fits(*part, scale),
    ensures
        d == spec_part_drawing(*part, scale),
{
    if part.width == 0 || part.height == 0 {
        PartDrawing::Clear
    } else {
        PartDrawing::Paint {
            width: part.width as i32 * scale,
            height: part.height as i32 * scale,
            stride: part.width as i32 * 4 * scale,
            x: part.pos.x,
            y: part.pos.y,
        }
    }
}

impl WeztermFrame {
    #[verifier::type_invariant]
    spec fn layout_kept(self) -> bool {
        state_wf(self.state)
    }

    /// A visible, inactive frame with fresh parts, that needs drawing and
    /// syncing, with every window manager capability, at scale 1.
    pub fn new() -> (frame: Self)
        ensures
            frame@ == (FrameView {
                state: WeztermFrameState::Visible {
                    layout: LayoutState::Normal,
                    active: false,
                    render_data: fresh_render_data(),
                },
                wm_capabilities: all_capabilities(),
                resizable: true,
                dirty: true,
                mouse_location: Location::Outside,
                mouse_coords: (0, 0),
                should_sync: true,
                buffer_scale: 1,
            }),
    {
        WeztermFrame {
            state: WeztermFrameState::Visible {
                layout: LayoutState::Normal,
                active: false,
                render_data: FrameRenderData::new(),
            },
            wm_capabilities: WmCapabilities {
                window_menu: true,
                maximize: true,
                fullscreen: true,
                minimize: true,
            },
            resizable: true,
            dirty: true,
            mouse_location: Location::Outside,
            mouse_coords: (0, 0),
            should_sync: true,
            buffer_scale: 1,
        }
    }

    /// The part at `index` (drawing order) of a visible frame.
    pub fn part_for_surface(&self, index: usize) -> (part: Option<FramePart>)
        ensures
            part == match self@.state {
                WeztermFrameState::Visible { render_data, .. } => if index < 5 {
                    Some(spec_parts(render_data)[index as int])
                } else {
                    None::<FramePart>
                },
                _ => None::<FramePart>,
            },
    {
        match &self.state {
            WeztermFrameState::Visible { render_data, .. } => render_data.find_part(index),
            _ => None,
        }
    }

    /// The scale changed: paint at `buffer_scale` and resync.
    pub fn set_scaling_factor(&mut self, buffer_scale: i32)
        ensures
            final(self)@ == (FrameView { buffer_scale, dirty: true, should_sync: true, ..old(self)@ }),
    {
        proof {
            use_type_invariant(&*self);
        }
        self.buffer_scale = buffer_scale;
        self.dirty = true;
        self.should_sync = true;
    }

    /// What a click of `click` (pressed or released) on the frame does.
    pub fn on_click(&self, click: FrameClick, pressed: bool) -> (action: Option<FrameAction>)
        ensures
            action == spec_on_click(self@, click, pressed),
    {
        if click == FrameClick::Alternate {
            return if self.mouse_location != Location::Head || !self.wm_capabilities.window_menu {
                None
            } else {
                let x = fixed_to_pixels(self.mouse_coords.0);
                let y = fixed_to_pixels(self.mouse_coords.1);
                Some(FrameAction::ShowMenu(x, y - HEADER_SIZE as i32))
            };
        }
        let resize = pressed && self.resizable;
        match self.mouse_location {
            Location::Head => if pressed {
                Some(FrameAction::Move)
            } else {
                None
            },
            Location::Top if resize => Some(FrameAction::Resize(ResizeEdge::Top)),
            Location::TopLeft if resize => Some(FrameAction::Resize(ResizeEdge::TopLeft)),
            Location::Left if resize => Some(FrameAction::Resize(ResizeEdge::Left)),
            Location::BottomLeft if resize => Some(FrameAction::Resize(ResizeEdge::BottomLeft)),
            Location::Bottom if resize => Some(FrameAction::Resize(ResizeEdge::Bottom)),
            Location::BottomRight if resize => Some(FrameAction::Resize(ResizeEdge::BottomRight)),
            Location::Right if resize => Some(FrameAction::Resize(ResizeEdge::Right)),
            Location::TopRight if resize => Some(FrameAction::Resize(ResizeEdge::TopRight)),
            _ => None,
        }
    }

    /// Whether the pointer can be placed at fixed-point abscissa `x` on the
    /// part at `index`: its corners, if it has any, can be told apart there.
    pub open spec fn pointer_placeable(v: FrameView, index: usize, x: i32) -> bool {
        match v.state {
            WeztermFrameState::Visible { render_data, .. } => index < 5 ==> corners_defined(
                spec_parts(render_data)[index as int],
                x as int,
            ),
            _ => true,
        }
    }

    /// Whether the pointer can be placed at `x` on the part at `index` (see
    /// `pointer_placeable`).
    pub fn can_place_pointer(&self, index: usize, x: i32) -> (ok: bool)
        ensures
            ok == Self::pointer_placeable(self@, index, x),
    {
        if (x as i64) <= (CORNER_SIZE as i64) * (FIXED_ONE as i64) {
            return true;
        }
        match self.part_for_surface(index) {
            Some(part) => match part.base_location {
                Location::Top | Location::Bottom => part.width >= CORNER_SIZE,
                _ => true,
            },
            None => true,
        }
    }

    /// The pointer moved to fixed-point `(x, y)` on the part at `index`.
    /// Returns the cursor to show, or `None` (and changes nothing) when the
    /// frame is not visible or has no such part.
    pub fn click_point_moved(&mut self, index: usize, x: i32, y: i32) -> (cursor: Option<
        FrameCursor,
    >)
        requires
            Self::pointer_placeable(old(self)@, index, x),
        ensures
            match old(self)@.state {
                WeztermFrameState::Visible { render_data, .. } if index < 5 => {
                    let location = recorded_location(
                        old(self)@.state,
                        spec_precise_location(spec_parts(render_data)[index as int], x as int),
                    );
                    &&& final(self)@ == (FrameView {
                        mouse_coords: (x, y),
                        mouse_location: location,
                        ..old(self)@
                    })
                    &&& cursor == Some(cursor_for(location))
                },
                _ => final(self)@ == old(self)@ && cursor == None::<FrameCursor>,
            },
    {
        proof {
            use_type_invariant(&*self);
        }
        let part = match self.part_for_surface(index) {
            Some(part) => part,
            None => return None,
        };
        let location = part.precise_location(x);
        self.mouse_coords = (x, y);
        let maximized = match self.state {
            WeztermFrameState::Visible { layout: LayoutState::Maximized, .. } => true,
            _ => false,
        };
        self.mouse_location = if maximized {
            match location {
                Location::Top | Location::TopLeft | Location::TopRight | Location::Bottom
                | Location::BottomLeft | Location::BottomRight | Location::Left
                | Location::Right => Location::Outside,
                other => other,
            }
        } else {
            location
        };
        Some(
            match self.mouse_location {
                Location::Top => FrameCursor::NResize,
                Location::TopRight => FrameCursor::NeResize,
                Location::Right => FrameCursor::EResize,
                Location::BottomRight => FrameCursor::SeResize,
                Location::Bottom => FrameCursor::SResize,
                Location::BottomLeft => FrameCursor::SwResize,
                Location::Left => FrameCursor::WResize,
                Location::TopLeft => FrameCursor::NwResize,
                _ => FrameCursor::Default,
            },
        )
    }

    /// The pointer left the frame.
    pub fn click_point_left(&mut self)
        ensures
            final(self)@ == (FrameView {
                mouse_location: Location::Outside,
                dirty: true,
                ..old(self)@
            }),
    {
        proof {
            use_type_invariant(&*self);
        }
        self.mouse_location = Location::Outside;
        self.dirty = true;
    }

    /// Hides or shows the frame.
    pub fn set_hidden(&mut self, hidden: bool) -> (change: PartsChange)
        ensures
            final(self)@ == (FrameView { state: spec_set_hidden(old(self)@.state, hidden).0, ..old(self)@ }),
            change == spec_set_hidden(old(self)@.state, hidden).1,
    {
        match (&self.state, hidden) {
            (WeztermFrameState::Hidden, false) => {
                self.state = WeztermFrameState::Visible {
                    layout: LayoutState::Normal,
                    active: false,
                    render_data: FrameRenderData::new(),
                };
                PartsChange::Create
            },
            (WeztermFrameState::Visible { .. }, true) => {
                self.state = WeztermFrameState::Hidden;
                PartsChange::Destroy
            },
            (_, true) => {
                self.state = WeztermFrameState::Hidden;
                PartsChange::Keep
            },
            _ => PartsChange::Keep,
        }
    }

    pub fn set_resizable(&mut self, resizable: bool)
        ensures
            final(self)@ == (FrameView { resizable, ..old(self)@ }),
    {
        proof {
            use_type_invariant(&*self);
        }
        self.resizable = resizable;
    }

    /// Follows the window's state: whether it is focused, fullscreen, maximized.
    pub fn update_state(&mut self, active: bool, fullscreen: bool, maximized: bool) -> (change:
        PartsChange)
        ensures
            final(self)@ == (FrameView {
                state: spec_update_state(old(self)@.state, active, fullscreen, maximized).0,
                dirty: old(self)@.dirty || update_makes_dirty(
                    old(self)@.state,
                    active,
                    fullscreen,
                    maximized,
                ),
                ..old(self)@
            }),
            change == spec_update_state(old(self)@.state, active, fullscreen, maximized).1,
    {
        proof {
            use_type_invariant(&*self);
        }
        let new_layout = if maximized {
            LayoutState::Maximized
        } else {
            LayoutState::Normal
        };
        match self.state {
            WeztermFrameState::Hidden => PartsChange::Keep,
            WeztermFrameState::Fullscreen => {
                if !fullscreen {
                    self.state = WeztermFrameState::Visible {
                        layout: new_layout,
                        active,
                        render_data: FrameRenderData::new(),
                    };
                    self.dirty = true;
                    PartsChange::Create
                } else {
                    PartsChange::Keep
                }
            },
            WeztermFrameState::Visible { layout, active: current_active, render_data } => {
                if fullscreen {
                    self.state = WeztermFrameState::Fullscreen;
                    self.dirty = true;
                    PartsChange::DetachAndDestroy
                } else {
                    let dirty = layout != new_layout || current_active != active;
                    self.dirty = self.dirty || dirty;
                    self.state = WeztermFrameState::Visible { layout: new_layout, active, render_data };
                    PartsChange::Keep
                }
            },
        }
    }

    /// The window was resized to `width` x `height`: the parts follow.
    pub fn resize(&mut self, width: u32, height: u32)
        requires
            old(self)@.state is Visible,
            width > 0,
            height > 0,
            width + 2 * BORDER_SIZE <= u32::MAX,
        ensures
            old(self)@.state matches WeztermFrameState::Visible { layout, active, render_data }
                && final(self)@ == (FrameView {
                state: WeztermFrameState::Visible {
                    layout,
                    active,
                    render_data: resized_render_data(render_data, width, height),
                },
                dirty: true,
                should_sync: true,
                ..old(self)@
            }),
    {
        proof {
            use_type_invariant(&*self);
        }
        let (layout, active, render_data) = match self.state {
            WeztermFrameState::Visible { layout, active, render_data } => (
                layout,
                active,
                render_data,
            ),
            _ => {
                proof {
                    assert(false);
                }
                return ;
            },
        };
        let mut render_data = render_data;
        render_data.header.width = width;
        render_data.top_border.width = width + 2 * BORDER_SIZE;
        render_data.bottom_border.width = width + 2 * BORDER_SIZE;
        render_data.bottom_border.pos.y = height as i32;
        render_data.left_border.height = height + HEADER_SIZE;
        render_data.right_border.height = render_data.left_border.height;
        render_data.right_border.pos.x = width as i32;
        self.state = WeztermFrameState::Visible { layout, active, render_data };
        self.dirty = true;
        self.should_sync = true;
    }

    /// The window size inside the frame, for a window of `width` x `height`.
    pub fn subtract_borders(&self, width: u32, height: u32) -> (size: (Option<u32>, Option<u32>))
        requires
            width > 0,
            height > 0,
        ensures
            size == spec_subtract_borders(self@.state, width, height),
    {
        match self.state {
            WeztermFrameState::Visible { .. } => {
                let w = if width > 2 * BORDER_SIZE {
                    Some(width - 2 * BORDER_SIZE)
                } else {
                    None
                };
                let h = if height > HEADER_SIZE + 2 * BORDER_SIZE {
                    Some(height - (HEADER_SIZE + 2 * BORDER_SIZE))
                } else {
                    None
                };
                (w, h)
            },
            _ => (Some(width), Some(height)),
        }
    }

    /// The window size with the frame, for a window of `width` x `height` inside it.
    pub fn add_borders(&self, width: u32, height: u32) -> (size: (u32, u32))
        requires
            has_borders(self@.state) ==> width + 2 * BORDER_SIZE <= u32::MAX && height + (
            HEADER_SIZE + 2 * BORDER_SIZE) <= u32::MAX,
        ensures
            (size.0 as int, size.1 as int) == spec_add_borders(self@.state, width, height),
    {
        match self.state {
            WeztermFrameState::Visible { .. } => (
                width + 2 * BORDER_SIZE,
                height + (HEADER_SIZE + 2 * BORDER_SIZE),
            ),
            _ => (width, height),
        }
    }

    pub fn is_hidden(&self) -> (hidden: bool)
        ensures
            hidden == (self@.state is Hidden),
    {
        match self.state {
            WeztermFrameState::Hidden => true,
            _ => false,
        }
    }

    /// The position of the frame's top-left corner relative to the window:
    /// one border (and the header) above and to the left of it while it is
    /// visible, the window's own corner otherwise.
    pub fn location(&self) -> (loc: (i32, i32))
        ensures
            self@.state matches WeztermFrameState::Visible { render_data, .. } ==> loc == (
                render_data.top_border.pos.x,
                render_data.top_border.pos.y,
            ),
            loc == if is_visible(self@.state) {
                (-(BORDER_SIZE as int) as i32, (-(HEADER_SIZE as int) - BORDER_SIZE as int) as i32)
            } else {
                (0i32, 0i32)
            },
    {
        proof {
            use_type_invariant(self);
        }
        match &self.state {
            WeztermFrameState::Visible { render_data, .. } => render_data.location(),
            _ => (0, 0),
        }
    }

    pub fn is_dirty(&self) -> (dirty: bool)
        ensures
            dirty == self@.dirty,
    {
        self.dirty
    }

    /// Whether every part can be painted at the frame's scale (see `drawable`).
    pub fn is_drawable(&self) -> (ok: bool)
        ensures
            ok == drawable(self@),
    {
        match &self.state {
            WeztermFrameState::Visible { render_data, .. } => {
                let parts = render_data.parts();
                let mut i: usize = 0;
                while i < 5
                    invariant
                        i <= 5,
                        parts@ == spec_parts(*render_data),
                        self.state matches WeztermFrameState::Visible { render_data: rd, .. } && rd
                            == *render_data,
                        forall|j: int| 0 <= j < i ==> part_fits(#[trigger] parts@[j], self.buffer_scale),
                    decreases 5 - i,
                {
                    if !part_fits_exec(&parts[i], self.buffer_scale) {
                        assert(!part_fits(spec_parts(*render_data)[i as int], self.buffer_scale));
                        return false;
                    }
                    i = i + 1;
                }
                assert(forall|j: int| 0 <= j < 5 ==> part_fits(#[trigger] spec_parts(*render_data)[j], self.buffer_scale));
                true
            },
            _ => true,
        }
    }

    /// What to paint. `None` (and nothing changes) when the frame is not
    /// visible; otherwise the frame is no longer dirty and the next drawing
    /// is not synchronized unless something asks for it again.
    pub fn draw(&mut self) -> (drawing: Option<FrameDrawing>)
        requires
            drawable(old(self)@),
        ensures
            match old(self)@.state {
                WeztermFrameState::Visible { active, render_data, .. } => {
                    &&& final(self)@ == (FrameView { dirty: false, should_sync: false, ..old(self)@ })
                    &&& drawing matches Some(d) && {
                        &&& d.should_sync == old(self)@.should_sync
                        &&& d.fill_color == fill_color(active)
                        &&& d.scale == old(self)@.buffer_scale
                        &&& d.parts@ == spec_parts(render_data).map_values(
                            |p: FramePart| spec_part_drawing(p, old(self)@.buffer_scale),
                        )
                    }
                },
                _ => final(self)@ == old(self)@ && drawing is None,
            },
    {
        proof {
            use_type_invariant(&*self);
        }
        let (active, render_data) = match self.state {
            WeztermFrameState::Visible { active, render_data, .. } => (active, render_data),
            _ => return None,
        };
        self.dirty = false;
        let should_sync = self.should_sync;
        self.should_sync = false;
        let fill_color = if active {
            PRIMARY_COLOR_ACTIVE
        } else {
            PRIMARY_COLOR_INACTIVE
        };
        let scale = self.buffer_scale;
        let parts = render_data.parts();
        proof {
            let sp = spec_parts(render_data);
            assert(part_fits(sp[0], scale));
            assert(part_fits(sp[1], scale));
            assert(part_fits(sp[2], scale));
            assert(part_fits(sp[3], scale));
            assert(part_fits(sp[4], scale));
        }
        let drawn = [
            part_drawing(&parts[0], scale),
            part_drawing(&parts[1], scale),
            part_drawing(&parts[2], scale),
            part_drawing(&parts[3], scale),
            part_drawing(&parts[4], scale),
        ];
        assert(drawn@ =~= spec_parts(render_data).map_values(
            |p: FramePart| spec_part_drawing(p, scale),
        ));
        Some(FrameDrawing { should_sync, fill_color, scale, parts: drawn })
    }

    /// The window manager's capabilities changed.
    pub fn update_wm_capabilities(&mut self, capabilities: WmCapabilities)
        ensures
            final(self)@ == (FrameView {
                wm_capabilities: capabilities,
                dirty: old(self)@.dirty || old(self)@.wm_capabilities != capabilities,
                ..old(self)@
            }),
    {
        proof {
            use_type_invariant(&*self);
        }
        self.dirty = self.dirty || self.wm_capabilities != capabilities;
        self.wm_capabilities = capabilities;
    }
}


/// Adding the frame to a window size and taking it off again gives the
/// window size back.
pub proof fn law_borders_round_trip(state: WeztermFrameState, width: u32, height: u32)
    requires
        width > 0,
        height > 0,
        width + 2 * BORDER_SIZE <= u32::MAX,
        height + HEADER_SIZE + 2 * BORDER_SIZE <= u32::MAX,
    ensures
        ({
            let (w, h) = spec_add_borders(state, width, height);
            spec_subtract_borders(state, w as u32, h as u32) == (Some(width), Some(height))
        }),
{
}

/// Resizing keeps the layout of the parts: what stands where, the
/// thickness of header and borders, and the frame's position.
pub proof fn law_resize_keeps_layout(rd: FrameRenderData, width: u32, height: u32)
    requires
        render_data_wf(rd),
        width + 2 * BORDER_SIZE <= u32::MAX,
    ensures
        render_data_wf(resized_render_data(rd, width, height)),
        resized_render_data(rd, width, height).top_border.pos == rd.top_border.pos,
{
}

/// Hiding a frame and showing it again gives a visible, normal, inactive
/// frame with fresh parts.
pub proof fn law_hide_then_show(state: WeztermFrameState)
    ensures
        spec_set_hidden(spec_set_hidden(state, true).0, false) == (
            WeztermFrameState::Visible {
                layout: LayoutState::Normal,
                active: false,
                render_data: fresh_render_data(),
            },
            PartsChange::Create,
        ),
{
}

/// Leaving fullscreen after entering it from a visible frame gives fresh parts
/// in the layout and focus of the last update.
pub proof fn law_fullscreen_round_trip(
    state: WeztermFrameState,
    active: bool,
    maximized: bool,
    active_after: bool,
    maximized_after: bool,
)
    requires
        state is Visible,
    ensures
        spec_update_state(state, active, true, maximized) == (
            WeztermFrameState::Fullscreen,
            PartsChange::DetachAndDestroy,
        ),
        spec_update_state(
            spec_update_state(state, active, true, maximized).0,
            active_after,
            false,
            maximized_after,
        ) == (
            WeztermFrameState::Visible {
                layout: if maximized_after {
                    LayoutState::Maximized
                } else {
                    LayoutState::Normal
                },
                active: active_after,
                render_data: fresh_render_data(),
            },
            PartsChange::Create,
        ),
{
}

/// A maximized window is not resized by a press on its frame: after the
/// pointer moves anywhere on a maximized frame, no click starts a resize.
pub proof fn law_maximized_frame_never_resizes(
    v: FrameView,
    location: Location,
    click: FrameClick,
    pressed: bool,
)
    requires
        v.state matches WeztermFrameState::Visible { layout: LayoutState::Maximized, .. },
    ensures
        !(spec_on_click(
            FrameView { mouse_location: recorded_location(v.state, location), ..v },
            click,
            pressed,
        ) matches Some(FrameAction::Resize(_))),
{
}

/// Only a press on a border of a resizable frame starts a resize, and only
/// a press on the header starts a move.
pub proof fn law_click_actions(v: FrameView, click: FrameClick, pressed: bool)
    ensures
        spec_on_click(v, click, pressed) matches Some(FrameAction::Resize(_)) ==> pressed
            && v.resizable && is_border(v.mouse_location),
        spec_on_click(v, click, pressed) matches Some(FrameAction::Move) ==> pressed
            && v.mouse_location == Location::Head,
{
}

/// The border location that a resize edge belongs to.
pub open spec fn edge_location(edge: ResizeEdge) -> Location {
    match edge {
        ResizeEdge::Top => Location::Top,
        ResizeEdge::Bottom => Location::Bottom,
        ResizeEdge::Left => Location::Left,
        ResizeEdge::TopLeft => Location::TopLeft,
        ResizeEdge::BottomLeft => Location::BottomLeft,
        ResizeEdge::Right => Location::Right,
        ResizeEdge::TopRight => Location::TopRight,
        ResizeEdge::BottomRight => Location::BottomRight,
    }
}

/// The location a resize cursor points at.
pub open spec fn cursor_location(cursor: FrameCursor) -> Location {
    match cursor {
        FrameCursor::Default => Location::Outside,
        FrameCursor::NResize => Location::Top,
        FrameCursor::NeResize => Location::TopRight,
        FrameCursor::EResize => Location::Right,
        FrameCursor::SeResize => Location::BottomRight,
        FrameCursor::SResize => Location::Bottom,
        FrameCursor::SwResize => Location::BottomLeft,
        FrameCursor::WResize => Location::Left,
        FrameCursor::NwResize => Location::TopLeft,
    }
}

/// On a top or bottom border, a pointer within `CORNER_SIZE` pixels of the
/// start is on the near corner; past it and within `CORNER_SIZE` pixels of
/// the end, on the far corner; strictly between the two, on the plain
/// border. Other parts are where they stand.
pub proof fn law_pointer_location_on_part(part: FramePart, x: int)
    ensures
        ({
            let loc = spec_precise_location(part, x);
            let corner = CORNER_SIZE as int * FIXED_ONE as int;
            let far = (part.width as int - CORNER_SIZE as int) * FIXED_ONE as int;
            &&& part.base_location == Location::Top ==> {
                &&& x <= corner ==> loc == Location::TopLeft
                &&& corner < x < far ==> loc == Location::Top
                &&& corner < x && far <= x ==> loc == Location::TopRight
            }
            &&& part.base_location == Location::Bottom ==> {
                &&& x <= corner ==> loc == Location::BottomLeft
                &&& corner < x < far ==> loc == Location::Bottom
                &&& corner < x && far <= x ==> loc == Location::BottomRight
            }
            &&& (part.base_location != Location::Top && part.base_location != Location::Bottom)
                ==> loc == part.base_location
        }),
{
}

/// The cursor over the frame points where the pointer is: a resize arrow
/// toward the border or corner under it, the default cursor elsewhere; and
/// a maximized frame records no border under the pointer, while any other
/// frame records the location as it is.
pub proof fn law_cursor_matches_location(state: WeztermFrameState, location: Location)
    ensures
        is_border(location) ==> cursor_location(cursor_for(location)) == location,
        !is_border(location) ==> cursor_for(location) == FrameCursor::Default,
        !(state matches WeztermFrameState::Visible { layout: LayoutState::Maximized, .. })
            ==> recorded_location(state, location) == location,
        state matches WeztermFrameState::Visible { layout: LayoutState::Maximized, .. } ==> (
        recorded_location(state, location) == if is_border(location) {
            Location::Outside
        } else {
            location
        }),
{
}

/// A resize starts only on a normal press of a resizable frame, and by the
/// edge of the very border or corner under the pointer; every such press
/// starts one. A move starts only on a normal press on the header, and a
/// window menu only on an alternate click on the header of a window
/// manager that offers one, at the pointer's whole-pixel position.
pub proof fn law_click_acts_on_the_pointed_part(v: FrameView, click: FrameClick, pressed: bool)
    ensures
        spec_on_click(v, click, pressed) matches Some(FrameAction::Resize(e)) ==> (click
            == FrameClick::Normal && pressed && v.resizable && edge_location(e)
            == v.mouse_location),
        click == FrameClick::Normal && pressed && v.resizable && is_border(v.mouse_location)
            ==> (spec_on_click(v, click, pressed) matches Some(FrameAction::Resize(e))
            && edge_location(e) == v.mouse_location),
        spec_on_click(v, click, pressed) == Some(FrameAction::Move) <==> (click
            == FrameClick::Normal && pressed && v.mouse_location == Location::Head),
        spec_on_click(v, click, pressed) matches Some(FrameAction::ShowMenu(x, y)) ==> (click
            == FrameClick::Alternate && v.mouse_location == Location::Head
            && v.wm_capabilities.window_menu && x as int == whole_pixels(v.mouse_coords.0 as int)
            && y as int == whole_pixels(v.mouse_coords.1 as int) - HEADER_SIZE as int),
        click == FrameClick::Alternate && v.mouse_location == Location::Head
            && v.wm_capabilities.window_menu ==> spec_on_click(v, click, pressed) is Some,
        !pressed && click == FrameClick::Normal ==> spec_on_click(v, click, pressed) is None,
{
    if click == FrameClick::Alternate && v.mouse_location == Location::Head
        && v.wm_capabilities.window_menu {
        let x = whole_pixels(v.mouse_coords.0 as int);
        let y = whole_pixels(v.mouse_coords.1 as int);
        assert(-0x80_0000 <= x <= 0x80_0000);
        assert(-0x80_0000 <= y <= 0x80_0000);
    }
}

/// Following the window's state never changes a hidden frame (only showing
/// it does); a visible frame that stays out of fullscreen keeps its parts
/// and takes the new focus and layout, and is redrawn exactly when one of
/// them changed; a fullscreen frame that stays fullscreen is untouched.
pub proof fn law_update_state_follows_window(
    state: WeztermFrameState,
    active: bool,
    fullscreen: bool,
    maximized: bool,
)
    ensures
        state is Hidden ==> spec_update_state(state, active, fullscreen, maximized) == (
            WeztermFrameState::Hidden,
            PartsChange::Keep,
        ) && !update_makes_dirty(state, active, fullscreen, maximized),
        state is Fullscreen && fullscreen ==> spec_update_state(
            state,
            active,
            fullscreen,
            maximized,
        ) == (WeztermFrameState::Fullscreen, PartsChange::Keep) && !update_makes_dirty(
            state,
            active,
            fullscreen,
            maximized,
        ),
        state matches WeztermFrameState::Visible { layout, active: was_active, render_data } ==> (
        !fullscreen ==> {
            &&& spec_update_state(state, active, fullscreen, maximized).1 == PartsChange::Keep
            &&& spec_update_state(state, active, fullscreen, maximized).0
                matches WeztermFrameState::Visible { layout: l, active: a, render_data: rd }
            &&& (l == LayoutState::Maximized) == maximized
            &&& a == active
            &&& rd == render_data
            &&& update_makes_dirty(state, active, fullscreen, maximized) == ((layout
                == LayoutState::Maximized) != maximized || was_active != active)
        }),
        fullscreen ==> !(spec_update_state(state, active, fullscreen, maximized).0 is Visible),
        !fullscreen && !(state is Hidden) ==> spec_update_state(
            state,
            active,
            fullscreen,
            maximized,
        ).0 is Visible,
{
}

/// Hiding always gives a hidden frame, and drops the parts exactly when
/// they existed; showing a frame that is not hidden changes nothing.
pub proof fn law_set_hidden(state: WeztermFrameState)
    ensures
        spec_set_hidden(state, true).0 == WeztermFrameState::Hidden,
        (spec_set_hidden(state, true).1 == PartsChange::Destroy) == (state is Visible),
        !(state is Hidden) ==> spec_set_hidden(state, false) == (state, PartsChange::Keep),
{
}

/// After the window is resized to `width` x `height`, the header spans the
/// window, the top and bottom borders span it with a border on each side,
/// the side borders span the header and the window, the bottom border sits
/// just below the window and the right border just right of it.
pub proof fn law_resize_spans_window(rd: FrameRenderData, width: u32, height: u32)
    requires
        width + 2 * BORDER_SIZE <= u32::MAX,
        height + HEADER_SIZE <= u32::MAX,
    ensures
        ({
            let r = resized_render_data(rd, width, height);
            &&& r.header.width == width
            &&& r.top_border.width == width + 2 * BORDER_SIZE
            &&& r.bottom_border.width == width + 2 * BORDER_SIZE
            &&& r.left_border.height == height + HEADER_SIZE
            &&& r.right_border.height == height + HEADER_SIZE
            &&& r.bottom_border.pos.y == height as i32
            &&& r.right_border.pos.x == width as i32
            &&& r.header.height == rd.header.height
            &&& r.top_border.height == rd.top_border.height
            &&& r.bottom_border.height == rd.bottom_border.height
            &&& r.left_border.width == rd.left_border.width
            &&& r.right_border.width == rd.right_border.width
            &&& r.top_border.pos == rd.top_border.pos
            &&& r.left_border.pos == rd.left_border.pos
            &&& r.header.pos == rd.header.pos
        }),
{
}

/// A visible frame adds one border on each side and the header with a
/// border above and below; fullscreen and hidden frames add nothing; taking
/// the frame off never gives a size larger than the window.
pub proof fn law_border_sizes(state: WeztermFrameState, width: u32, height: u32)
    requires
        width > 0,
        height > 0,
    ensures
        state is Visible ==> spec_add_borders(state, width, height) == (
            width as int + 2 * BORDER_SIZE as int,
            height as int + HEADER_SIZE as int + 2 * BORDER_SIZE as int,
        ),
        !(state is Visible) ==> spec_add_borders(state, width, height) == (
            width as int,
            height as int,
        ),
        spec_subtract_borders(state, width, height).0 matches Some(w) ==> 0 < w <= width,
        spec_subtract_borders(state, width, height).1 matches Some(h) ==> 0 < h <= height,
        state is Visible ==> (spec_subtract_borders(state, width, height).0 is None <==> width
            <= 2 * BORDER_SIZE),
        !(state is Visible) ==> spec_subtract_borders(
            state,
            width,
            height,
        ) == (Some(width), Some(height)),
{
}

/// A part with no area is cleared; any other is painted at its position
/// with a buffer `scale` times its size, four bytes per pixel; a focused
/// frame is painted in the active color, an unfocused one in the other.
pub proof fn law_drawing(part: FramePart, scale: i32, active: bool)
    requires
        part_fits(part, scale),
    ensures
        (part.width == 0 || part.height == 0) <==> spec_part_drawing(part, scale)
            == PartDrawing::Clear,
        spec_part_drawing(part, scale) matches PartDrawing::Paint { width, height, stride, x, y }
            ==> {
            &&& width as int == (part.width as i32) as int * scale
            &&& height as int == (part.height as i32) as int * scale
            &&& stride as int == 4 * width as int
            &&& x == part.pos.x
            &&& y == part.pos.y
        },
        active ==> fill_color(active) == PRIMARY_COLOR_ACTIVE,
        !active ==> fill_color(active) == PRIMARY_COLOR_INACTIVE,
        PRIMARY_COLOR_ACTIVE != PRIMARY_COLOR_INACTIVE,
{
    if part.width != 0 && part.height != 0 {
        let w = (part.width as i32) as int;
        assert(w * 4 * scale == 4 * (w * scale)) by (nonlinear_arith);
    }
}

} // verus!
