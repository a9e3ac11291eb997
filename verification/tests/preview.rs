use ember::preview::{
    canvas_size, check_corner_click, class_name_wide, clear_selection, client_to_canvas, create,
    destroy, emit_preview_params_change, grid_lines, mouse_move, mouse_point, owner_window, pan_to,
    picture_exists, press_left, press_middle, refresh_selection_rect, release_left, release_middle,
    reset_zoom, resize, resize_plan, resized_side, scale_is_usable, selection_box, set_canvas_size,
    set_grid, toggle_preview, viewport, viewport_is_defined, wheel_zooms_in, window_created, window_size, zoom_to, Along,
    BoxVertex, CanvasPoint, CanvasRect, CornerDistances, CornerGrab, DragAction, GridVertex,
    OwnerUse, PressProbe, PreviewModel, PreviewRelease, PreviewState, PreviewToggle, ResizeCorner,
    ResizePlan, Viewport, WindowChange, MK_LBUTTON, MK_MBUTTON, MK_SHIFT, PREVIEW_BACKGROUND,
};
use ember::single::Single;

fn s(x: f32) -> Single {
    Single { bits: x.to_bits() }
}

fn at(x: i16, y: i16) -> isize {
    (((y as u16 as u32) << 16) | (x as u16 as u32)) as isize
}

fn rect() -> CanvasRect {
    CanvasRect { x: s(10.0), y: s(20.0), w: s(300.0), h: s(200.0) }
}

fn probe(on_picture: bool, corner: Option<ResizeCorner>, overlay: Option<usize>) -> PressProbe {
    PressProbe {
        point: if on_picture { Some(CanvasPoint { x: s(11.0), y: s(22.0) }) } else { None },
        corner: corner.map(|corner| CornerGrab {
            corner,
            aspect_ratio: s(1.5),
            rect: rect(),
            scale_x: s(2.0),
            scale_y: s(3.0),
        }),
        overlay,
    }
}

#[test]
fn a_fresh_preview() {
    let m = PreviewModel::new();
    assert_eq!((m.params.zoom, m.params.pan_x, m.params.pan_y), (s(1.0), s(0.0), s(0.0)));
    assert_eq!(m.params.grid, "");
    assert_eq!(m.last_mouse, None);
    assert_eq!(m.selected, None);
    assert_eq!(m.drag, DragAction::Idle);
    assert_eq!(m.canvas, (1920, 1080));
    assert_eq!(m.selection_rect, None);
}

#[test]
fn the_selection_has_its_rectangle() {
    let mut m = PreviewModel::new();
    refresh_selection_rect(&mut m, Some(rect()));
    assert_eq!(m.selection_rect, None);
    press_left(&mut m, at(1, 1), &probe(true, None, Some(0)));
    refresh_selection_rect(&mut m, Some(rect()));
    assert_eq!(m.selection_rect, Some(rect()));
    clear_selection(&mut m);
    assert_eq!((m.selected, m.drag, m.selection_rect), (None, DragAction::Idle, None));
    assert_eq!(m.last_mouse, Some((1, 1)));
}

#[test]
fn canvas_and_view() {
    let mut m = PreviewModel::new();
    set_canvas_size(&mut m, 2560, 1440);
    assert_eq!(canvas_size(&m), (2560, 1440));
    assert_eq!(set_grid(&mut m, "thirds".to_string()).grid, "thirds");
    let p = pan_to(&mut m, s(3.5), s(-2.0));
    assert_eq!((p.pan_x, p.pan_y), (s(3.5), s(-2.0)));
    assert_eq!(zoom_to(&mut m, s(1.15)).zoom, s(1.15));
    assert_eq!(zoom_to(&mut m, s(0.01)).zoom, s(0.1));
    assert_eq!(zoom_to(&mut m, s(900.0)).zoom, s(20.0));
    let p = reset_zoom(&mut m);
    assert_eq!((p.zoom, p.pan_x, p.pan_y), (s(1.0), s(0.0), s(0.0)));
    assert_eq!(emit_preview_params_change(&m).grid, "thirds");
}

#[test]
fn mouse_messages_carry_signed_places() {
    assert_eq!(mouse_point(at(5, 9)), (5, 9));
    assert_eq!(mouse_point(at(-5, -9)), (-5, -9));
    assert_eq!(mouse_point(at(i16::MIN, i16::MAX)), (-32768, 32767));
    assert_eq!(mouse_point(-1), (-1, -1));
    for l in [0isize, 1, -2, 0x7FFF_8000, isize::MIN, isize::MAX] {
        let x = (l & 0xffff) as i16 as i32;
        let y = ((l >> 16) & 0xffff) as i16 as i32;
        assert_eq!(mouse_point(l), (x, y));
    }
}

#[test]
fn the_wheel_zooms_both_ways() {
    assert!(wheel_zooms_in(120 << 16));
    assert!(!wheel_zooms_in((((-120i16) as u16) as usize) << 16));
    assert!(!wheel_zooms_in(0xFFFF));
}

#[test]
fn pressing_selects_moves_and_resizes() {
    let mut m = PreviewModel::new();
    press_left(&mut m, at(7, 8), &probe(true, None, Some(2)));
    assert_eq!((m.selected, m.drag), (Some(2), DragAction::MoveOverlay(2)));
    assert_eq!(m.last_mouse, Some((7, 8)));
    press_left(&mut m, at(7, 8), &probe(true, Some(ResizeCorner::TopLeft), Some(0)));
    assert_eq!(m.selected, Some(2));
    assert_eq!(
        m.drag,
        DragAction::ResizeOverlay {
            index: 2,
            corner: ResizeCorner::TopLeft,
            aspect_ratio: s(1.5),
            initial_x: s(10.0),
            initial_y: s(20.0),
            initial_scale_x: s(2.0),
            initial_scale_y: s(3.0),
            initial_w: s(300.0),
            initial_h: s(200.0),
            click_canvas_x: s(11.0),
            click_canvas_y: s(22.0),
        }
    );
    press_left(&mut m, at(0, 0), &probe(true, None, None));
    assert_eq!((m.selected, m.drag), (None, DragAction::Pan));
    press_left(&mut m, at(0, 0), &probe(true, Some(ResizeCorner::TopLeft), Some(1)));
    assert_eq!((m.selected, m.drag), (Some(1), DragAction::MoveOverlay(1)));
    press_left(&mut m, at(0, 0), &probe(false, Some(ResizeCorner::TopLeft), Some(1)));
    assert_eq!((m.selected, m.drag), (None, DragAction::Pan));
}

#[test]
fn the_middle_button_only_pans() {
    let mut m = PreviewModel::new();
    press_left(&mut m, at(0, 0), &probe(true, None, Some(1)));
    let step = mouse_move(&mut m, MK_LBUTTON | MK_MBUTTON, at(3, 4)).unwrap();
    assert_eq!((step.action, step.dx, step.dy), (DragAction::Pan, 3, 4));
    refresh_selection_rect(&mut m, Some(rect()));
    press_middle(&mut m, at(9, 9));
    assert_eq!((m.selected, m.drag, m.last_mouse), (None, DragAction::Pan, Some((9, 9))));
    assert_eq!(m.selection_rect, None);
    press_left(&mut m, at(0, 0), &probe(true, None, Some(1)));
    refresh_selection_rect(&mut m, Some(rect()));
    press_left(&mut m, at(0, 0), &probe(true, None, None));
    assert_eq!(m.selection_rect, None);
    release_middle(&mut m);
    assert_eq!((m.drag, m.last_mouse), (DragAction::Idle, None));
}

#[test]
fn releasing_tells_of_a_dragged_overlay() {
    let mut m = PreviewModel::new();
    press_left(&mut m, at(0, 0), &probe(true, None, Some(1)));
    assert!(release_left(&mut m));
    assert_eq!((m.drag, m.last_mouse, m.selected), (DragAction::Idle, None, Some(1)));
    press_left(&mut m, at(0, 0), &probe(true, Some(ResizeCorner::BottomRight), None));
    assert!(release_left(&mut m));
    press_left(&mut m, at(0, 0), &probe(true, None, None));
    assert!(!release_left(&mut m));
    assert!(!release_left(&mut m));
}

#[test]
fn moving_reports_the_way_since_the_last_place() {
    let mut m = PreviewModel::new();
    assert_eq!(mouse_move(&mut m, MK_LBUTTON, at(5, 5)), None);
    let step = mouse_move(&mut m, MK_LBUTTON | MK_SHIFT, at(8, 1)).unwrap();
    assert_eq!((step.action, step.dx, step.dy, step.x, step.y), (DragAction::Pan, 3, -4, 8, 1));
    assert!(step.free);
    assert_eq!(mouse_move(&mut m, MK_LBUTTON, at(8, 1)), None);
    assert_eq!(mouse_move(&mut m, 0, at(9, 9)), None);
    assert_eq!(m.last_mouse, None);
    press_left(&mut m, at(0, 0), &probe(true, None, Some(4)));
    let a = mouse_move(&mut m, MK_LBUTTON, at(10, -3)).unwrap();
    let b = mouse_move(&mut m, MK_LBUTTON, at(-32768, 32767)).unwrap();
    assert_eq!(a.action, DragAction::MoveOverlay(4));
    assert_eq!((a.dx + b.dx, a.dy + b.dy), (-32768, 32767));
}

#[test]
fn places_on_the_picture() {
    assert!(picture_exists((1920, 1080), 100, 100));
    assert!(!picture_exists((0, 1080), 100, 100));
    assert!(!picture_exists((1920, 1080), 0, 100));
    let canvas = (1920, 1080);
    assert_eq!(client_to_canvas(canvas, 0, 150, 800, 750, (800, 450)), Some((0, 0)));
    assert_eq!(client_to_canvas(canvas, 799, 599, 800, 750, (800, 450)), Some((799, 449)));
    assert_eq!(client_to_canvas(canvas, 0, 149, 800, 750, (800, 450)), None);
    assert_eq!(client_to_canvas(canvas, 800, 150, 800, 750, (800, 450)), None);
    assert_eq!(client_to_canvas((0, 0), 0, 150, 800, 750, (800, 450)), None);
    assert_eq!(client_to_canvas(canvas, 0, 0, 1, 1, (4, 4)), Some((1, 1)));
}

#[test]
fn the_picture_stands_in_the_middle() {
    assert_eq!(
        viewport((1920, 1080), 800, 750, (800, 450)),
        Some(Viewport { x: 0, y: 150, width: 800, height: 450 })
    );
    assert_eq!(
        viewport((1920, 1080), 3, 1, (3, 0)),
        Some(Viewport { x: 0, y: 0, width: 3, height: 1 })
    );
    assert_eq!(viewport((1920, 1080), 0, 1, (1, 1)), None);
    assert_eq!(viewport((1920, 0), 5, 5, (1, 1)), None);
    let canvas = (1920, 1080);
    assert!(viewport_is_defined(canvas, 800, 750, (800, i32::MAX)));
    assert!(!viewport_is_defined(canvas, 1 << 31, 750, (800, 450)));
    assert!(!viewport_is_defined(canvas, 800, 1 << 31, (800, 0)));
    assert!(viewport_is_defined((0, 1080), 1 << 31, 750, (800, 450)));
    assert!(viewport_is_defined(canvas, u32::MAX, 1, (i32::MAX, 1)));
    assert_eq!(
        viewport((1920, 1080), u32::MAX, 1, (3, 1)),
        Some(Viewport { x: -2, y: 0, width: 3, height: 1 })
    );
    assert_eq!(
        viewport((10, 10), 1, 1, (4, 4)),
        Some(Viewport { x: -1, y: -1, width: 4, height: 4 })
    );
}

#[test]
fn the_mouse_finds_the_pixel_that_is_drawn() {
    for (size, fitted) in [((800, 751), (800, 450)), ((5, 5), (8, 8)), ((641, 480), (640, 360))] {
        let v = viewport((1920, 1080), size.0 as u32, size.1 as u32, fitted).unwrap();
        for (x, y) in [(0, 200), (3, 3), (400, 300)] {
            if let Some(p) = client_to_canvas((1920, 1080), x, y, size.0, size.1, fitted) {
                assert_eq!(p, (x - v.x, y - v.y));
            }
        }
    }
}

#[test]
fn the_pixel_never_goes_back() {
    let mut last = -1;
    for x in 0..641 {
        if let Some((px, py)) = client_to_canvas((1920, 1080), x, 100, 641, 480, (640, 360)) {
            assert!(last <= px && px < 640);
            assert_eq!(py, 40);
            last = px;
        }
    }
    assert_eq!(last, 639);
}

#[test]
fn the_wheel_stops_at_its_bounds() {
    let mut m = PreviewModel::new();
    let mut zoom = 1.0f32;
    for _ in 0..40 {
        let next = f32::from_bits(zoom_to(&mut m, s(zoom * 1.15)).zoom.bits);
        assert!(next >= zoom && next <= 20.0);
        zoom = next;
    }
    assert_eq!(zoom, 20.0);
    for _ in 0..80 {
        let next = f32::from_bits(zoom_to(&mut m, s(zoom * (1.0 / 1.15))).zoom.bits);
        assert!(next <= zoom && next >= 0.1);
        zoom = next;
    }
    assert_eq!(zoom, 0.1);
}

#[test]
fn the_window_and_its_class() {
    assert_eq!(window_size(0, -5), (1, 1));
    assert_eq!(window_size(640, 360), (640, 360));
    let expected: Vec<u16> = "EmberPreviewClass\0".encode_utf16().collect();
    assert_eq!(class_name_wide(), expected);
    assert_eq!(PREVIEW_BACKGROUND, 0xFF151212);
}

#[test]
fn opening_and_closing_the_preview() {
    assert_eq!(window_created(5), Ok(()));
    assert_eq!(
        window_created(0),
        Err("CreateWindowExW devolvio null para la ventana de preview".to_string())
    );
    let p = create(5, 6).ok().unwrap();
    assert_eq!(p, PreviewState { hwnd: 5, display: 6 });
    let f = create(5, 0).err().unwrap();
    assert_eq!(f.message, "obs_display_create devolvio null (¿ya se inicio libobs?)");
    assert_eq!(f.destroy, 5);
    assert_eq!(
        destroy(p),
        vec![PreviewRelease::DestroyDisplay(6), PreviewRelease::DestroyWindow(5)]
    );
    assert_eq!(
        resize(&p, -3, 4, 0, 90),
        WindowChange { hwnd: 5, display: 6, x: -3, y: 4, width: 1, height: 90 }
    );
}

#[test]
fn switching_the_preview() {
    let p = PreviewState { hwnd: 5, display: 6 };
    let mut slot = None;
    assert_eq!(toggle_preview(&mut slot, false), PreviewToggle::Stay);
    assert_eq!(toggle_preview(&mut slot, true), PreviewToggle::Open);
    assert_eq!(slot, None);
    slot = Some(p);
    assert_eq!(toggle_preview(&mut slot, true), PreviewToggle::Stay);
    assert_eq!(slot, Some(p));
    assert_eq!(toggle_preview(&mut slot, false), PreviewToggle::Close(p));
    assert_eq!(slot, None);
}

#[test]
fn the_owner_of_the_preview() {
    let e = || Err::<usize, String>("x".to_string());
    assert_eq!(owner_window(true, true, Ok(9), OwnerUse::Open), Ok(9));
    assert_eq!(
        owner_window(false, false, e(), OwnerUse::Open),
        Err("La app todavia no esta lista".to_string())
    );
    assert_eq!(
        owner_window(true, false, e(), OwnerUse::Follow),
        Err("No se encontro la ventana principal".to_string())
    );
    assert_eq!(
        owner_window(true, true, e(), OwnerUse::Open),
        Err("no se pudo obtener el HWND de la ventana: x".to_string())
    );
    assert_eq!(
        owner_window(true, true, e(), OwnerUse::Follow),
        Err("no se pudo obtener el HWND: x".to_string())
    );
}

#[test]
fn the_first_corner_in_reach_is_grabbed() {
    let d = |a: f32, b: f32, c: f32, e: f32| CornerDistances {
        top_left: s(a),
        top_right: s(b),
        bottom_left: s(c),
        bottom_right: s(e),
    };
    let reach = s(196.0);
    assert_eq!(check_corner_click(&d(1.0, 2.0, 3.0, 4.0), reach), Some(ResizeCorner::TopLeft));
    assert_eq!(check_corner_click(&d(196.0, 2.0, 3.0, 4.0), reach), Some(ResizeCorner::TopRight));
    assert_eq!(check_corner_click(&d(900.0, 900.0, 3.0, 4.0), reach), Some(ResizeCorner::BottomLeft));
    assert_eq!(check_corner_click(&d(900.0, 900.0, 900.0, 4.0), reach), Some(ResizeCorner::BottomRight));
    assert_eq!(check_corner_click(&d(900.0, 900.0, f32::NAN, 900.0), reach), None);
}

#[test]
fn resizing_keeps_the_opposite_edges() {
    let plan = |right: bool, down: bool, proportional: bool| ResizePlan {
        widens_rightward: right,
        grows_downward: down,
        keeps_right: !right,
        keeps_bottom: !down,
        proportional,
    };
    assert_eq!(resize_plan(ResizeCorner::TopLeft, false), plan(false, false, true));
    assert_eq!(resize_plan(ResizeCorner::TopRight, false), plan(true, false, true));
    assert_eq!(resize_plan(ResizeCorner::BottomLeft, true), plan(false, true, false));
    assert_eq!(resize_plan(ResizeCorner::BottomRight, true), plan(true, true, false));
    assert_eq!(resized_side(s(3.0)), s(10.0));
    assert_eq!(resized_side(s(30.0)), s(30.0));
    assert!(scale_is_usable(s(0.5)));
    assert!(!scale_is_usable(s(0.0)));
    assert!(!scale_is_usable(s(f32::NAN)));
}

#[test]
fn grids_and_their_lines() {
    assert!(grid_lines("").is_empty());
    assert!(grid_lines("none").is_empty());
    assert_eq!(grid_lines("other").len(), 8);
    assert_eq!(grid_lines("thirds").len(), 8 + 4 * 2);
    assert_eq!(grid_lines("grid10").len(), 8 + 4 * 9);
    assert_eq!(grid_lines("grid20").len(), 8 + 4 * 19);
    let thirds = grid_lines("thirds");
    assert_eq!(thirds[1], GridVertex { x: Along::End, y: Along::Start });
    let two = Along::Part { part: 2, parts: 3 };
    assert_eq!(
        &thirds[12..],
        &[
            GridVertex { x: two, y: Along::Start },
            GridVertex { x: two, y: Along::End },
            GridVertex { x: Along::Start, y: two },
            GridVertex { x: Along::End, y: two },
        ]
    );
}

#[test]
fn the_selection_box_has_four_handles() {
    let v = selection_box();
    assert_eq!(v.len(), 40);
    assert!(v[..8].iter().all(|b| b.dx == 0 && b.dy == 0));
    let corners: Vec<(bool, bool)> = (1..5).map(|i| (v[8 * i].right, v[8 * i].bottom)).collect();
    assert_eq!(corners, vec![(false, true), (false, false), (true, true), (true, false)]);
    assert_eq!(v[9], BoxVertex { right: false, bottom: true, dx: 1, dy: -1 });
}
