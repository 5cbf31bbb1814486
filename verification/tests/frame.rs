use wezterm::frame::{
    FrameAction, FrameClick, FrameCursor, FramePart, FrameRenderData, Location, PartDrawing,
    PartsChange, Position, ResizeEdge, WeztermFrame, WmCapabilities, PRIMARY_COLOR_ACTIVE,
    PRIMARY_COLOR_INACTIVE,
};

const TOP: usize = 1;
const RIGHT: usize = 2;
const HEADER: usize = 0;

fn resized(width: u32, height: u32) -> WeztermFrame {
    let mut frame = WeztermFrame::new();
    frame.resize(width, height);
    frame
}

#[test]
fn fresh_render_data_layout() {
    let rd = FrameRenderData::new();
    let parts = rd.parts();
    assert_eq!(parts[0].base_location, Location::Head);
    assert_eq!(parts[1].pos, Position { x: -4, y: -4 });
    assert_eq!(parts[1].height, 4);
    assert_eq!(parts[2].width, 4);
    assert_eq!(parts[3].pos, Position { x: -4, y: 0 });
    assert_eq!(parts[4].base_location, Location::Left);
    assert_eq!(rd.location(), (-4, -4));
    assert_eq!(rd.find_part(5), None);
    assert_eq!(rd.find_part(2), Some(parts[2]));
}

#[test]
fn precise_location_corners() {
    let part = FramePart::new(100, 4, Position { x: -4, y: -4 }, Location::Top);
    assert_eq!(part.precise_location(16 * 256), Location::TopLeft);
    assert_eq!(part.precise_location(16 * 256 + 1), Location::Top);
    assert_eq!(part.precise_location(84 * 256), Location::TopRight);
    assert_eq!(part.precise_location(84 * 256 - 1), Location::Top);
    assert_eq!(part.precise_location(-256), Location::TopLeft);
    let bottom = FramePart::new(100, 4, Position { x: -4, y: 50 }, Location::Bottom);
    assert_eq!(bottom.precise_location(90 * 256), Location::BottomRight);
    let left = FramePart::new(4, 100, Position { x: -4, y: 0 }, Location::Left);
    assert_eq!(left.precise_location(0), Location::Left);
}

#[test]
fn new_frame_state() {
    let frame = WeztermFrame::new();
    assert!(frame.is_dirty());
    assert!(!frame.is_hidden());
    assert_eq!(frame.location(), (-4, -4));
    assert_eq!(frame.on_click(FrameClick::Normal, true), None);
}

#[test]
fn resize_moves_borders() {
    let frame = resized(200, 100);
    let top = frame.part_for_surface(TOP).unwrap();
    assert_eq!(top.width, 208);
    let right = frame.part_for_surface(RIGHT).unwrap();
    assert_eq!(right.height, 100);
    assert_eq!(right.pos, Position { x: 200, y: 0 });
    let bottom = frame.part_for_surface(3).unwrap();
    assert_eq!(bottom.pos, Position { x: -4, y: 100 });
    assert_eq!(bottom.width, 208);
    let header = frame.part_for_surface(HEADER).unwrap();
    assert_eq!(header.width, 200);
    assert_eq!(frame.location(), (-4, -4));
    assert_eq!(frame.part_for_surface(7), None);
}

#[test]
fn pointer_over_borders_sets_cursor_and_resizes() {
    let mut frame = resized(200, 100);
    assert_eq!(frame.click_point_moved(TOP, 100 * 256, 0), Some(FrameCursor::NResize));
    assert_eq!(
        frame.on_click(FrameClick::Normal, true),
        Some(FrameAction::Resize(ResizeEdge::Top))
    );
    assert_eq!(frame.on_click(FrameClick::Normal, false), None);
    assert_eq!(frame.click_point_moved(TOP, 2 * 256, 0), Some(FrameCursor::NwResize));
    assert_eq!(
        frame.on_click(FrameClick::Normal, true),
        Some(FrameAction::Resize(ResizeEdge::TopLeft))
    );
    assert_eq!(frame.click_point_moved(TOP, 200 * 256, 0), Some(FrameCursor::NeResize));
    assert_eq!(frame.click_point_moved(RIGHT, 0, 50 * 256), Some(FrameCursor::EResize));
    frame.set_resizable(false);
    assert_eq!(frame.on_click(FrameClick::Normal, true), None);
}

#[test]
fn header_moves_and_shows_menu() {
    let mut frame = resized(200, 100);
    assert_eq!(frame.click_point_moved(HEADER, 10 * 256 + 128, -(3 * 256 + 200)), Some(FrameCursor::Default));
    assert_eq!(frame.on_click(FrameClick::Normal, true), Some(FrameAction::Move));
    assert_eq!(frame.on_click(FrameClick::Normal, false), None);
    assert_eq!(
        frame.on_click(FrameClick::Alternate, true),
        Some(FrameAction::ShowMenu(10, -3))
    );
    frame.update_wm_capabilities(WmCapabilities {
        window_menu: false,
        maximize: true,
        fullscreen: true,
        minimize: true,
    });
    assert_eq!(frame.on_click(FrameClick::Alternate, true), None);
}

#[test]
fn maximized_frame_has_no_resize_borders() {
    let mut frame = resized(200, 100);
    assert_eq!(frame.update_state(true, false, true), PartsChange::Keep);
    assert_eq!(frame.click_point_moved(TOP, 100 * 256, 0), Some(FrameCursor::Default));
    assert_eq!(frame.on_click(FrameClick::Normal, true), None);
}

#[test]
fn pointer_leaving_clears_location() {
    let mut frame = resized(200, 100);
    frame.draw();
    assert!(!frame.is_dirty());
    frame.click_point_moved(TOP, 100 * 256, 0);
    frame.click_point_left();
    assert!(frame.is_dirty());
    assert_eq!(frame.on_click(FrameClick::Normal, true), None);
}

#[test]
fn hide_and_show() {
    let mut frame = resized(200, 100);
    assert_eq!(frame.set_hidden(true), PartsChange::Destroy);
    assert!(frame.is_hidden());
    assert_eq!(frame.location(), (0, 0));
    assert_eq!(frame.set_hidden(true), PartsChange::Keep);
    assert_eq!(frame.click_point_moved(TOP, 0, 0), None);
    assert!(frame.draw().is_none());
    assert_eq!(frame.set_hidden(false), PartsChange::Create);
    assert!(!frame.is_hidden());
    assert_eq!(frame.part_for_surface(TOP).unwrap().width, 0);
    assert_eq!(frame.set_hidden(false), PartsChange::Keep);
}

#[test]
fn fullscreen_round_trip() {
    let mut frame = resized(200, 100);
    frame.draw();
    assert_eq!(frame.update_state(false, true, false), PartsChange::DetachAndDestroy);
    assert!(frame.is_dirty());
    assert_eq!(frame.location(), (0, 0));
    assert_eq!(frame.add_borders(10, 20), (10, 20));
    assert_eq!(frame.update_state(true, true, false), PartsChange::Keep);
    assert_eq!(frame.update_state(true, false, false), PartsChange::Create);
    assert_eq!(frame.location(), (-4, -4));
}

#[test]
fn focus_change_marks_dirty() {
    let mut frame = resized(200, 100);
    frame.draw();
    assert_eq!(frame.update_state(false, false, false), PartsChange::Keep);
    assert!(!frame.is_dirty());
    frame.update_state(true, false, false);
    assert!(frame.is_dirty());
    let drawing = frame.draw().unwrap();
    assert_eq!(drawing.fill_color, PRIMARY_COLOR_ACTIVE);
}

#[test]
fn borders_add_and_subtract() {
    let frame = WeztermFrame::new();
    assert_eq!(frame.add_borders(100, 50), (108, 58));
    assert_eq!(frame.subtract_borders(108, 58), (Some(100), Some(50)));
    assert_eq!(frame.subtract_borders(8, 3), (None, None));
    assert_eq!(frame.subtract_borders(9, 9), (Some(1), Some(1)));
    let mut hidden = WeztermFrame::new();
    hidden.set_hidden(true);
    assert_eq!(hidden.subtract_borders(8, 3), (Some(8), Some(3)));
    assert_eq!(hidden.add_borders(u32::MAX, u32::MAX), (u32::MAX, u32::MAX));
}

#[test]
fn draw_plan() {
    let mut frame = resized(200, 100);
    frame.set_scaling_factor(2);
    let drawing = frame.draw().unwrap();
    assert!(drawing.should_sync);
    assert_eq!(drawing.fill_color, PRIMARY_COLOR_INACTIVE);
    assert_eq!(drawing.scale, 2);
    assert_eq!(drawing.parts[0], PartDrawing::Clear);
    assert_eq!(
        drawing.parts[1],
        PartDrawing::Paint { width: 416, height: 8, stride: 1664, x: -4, y: -4 }
    );
    assert_eq!(
        drawing.parts[2],
        PartDrawing::Paint { width: 8, height: 200, stride: 32, x: 200, y: 0 }
    );
    assert!(!frame.is_dirty());
    let again = frame.draw().unwrap();
    assert!(!again.should_sync);
}

#[test]
fn fresh_frame_draws_nothing_but_clears() {
    let mut frame = WeztermFrame::new();
    let drawing = frame.draw().unwrap();
    for part in drawing.parts.iter() {
        assert_eq!(*part, PartDrawing::Clear);
    }
}

#[test]
fn narrow_border_near_corner() {
    let empty_top = FramePart::new(0, 4, Position { x: -4, y: -4 }, Location::Top);
    assert_eq!(empty_top.precise_location(0), Location::TopLeft);
    assert_eq!(empty_top.precise_location(16 * 256), Location::TopLeft);
    let empty_bottom = FramePart::new(0, 4, Position { x: -4, y: 0 }, Location::Bottom);
    assert_eq!(empty_bottom.precise_location(3 * 256), Location::BottomLeft);
    let mut frame = WeztermFrame::new();
    assert!(frame.can_place_pointer(TOP, 10 * 256));
    assert!(!frame.can_place_pointer(TOP, 17 * 256));
    assert_eq!(frame.click_point_moved(TOP, 10 * 256, 0), Some(FrameCursor::NwResize));
}
