use ember::capture::{CaptureState, OverlayItem, Release};
use ember::config::{EmberioConfig, OverlayConfig, OverlayKind};
use ember::overlays::{
    add_overlay, can_reorder, dims_or_unit, drag_selected_overlay, finish_drag_overlay, live_transform,
    overlay_geometries, overlay_geometry, overlay_info_list, overlay_kind_str, overlay_scene,
    remove_overlay, reorder_overlay, resize_selected_overlay, set_overlay_locked,
    set_overlay_opacity, set_overlay_transform, set_overlay_visible, try_select_overlay, FarEdges,
    LiveTransform, OverlayInfo, SourceDims,
};
use ember::preview::{press_left, CanvasPoint, PressProbe, PreviewModel};
use ember::single::Single;

fn s(x: f32) -> Single {
    Single { bits: x.to_bits() }
}

fn item(n: usize) -> OverlayItem {
    OverlayItem { source: 100 + n, item: 200 + n, opacity_filter: 300 + n }
}

fn text(content: &str) -> OverlayConfig {
    OverlayConfig::new(OverlayKind::Text, content.to_string())
}

fn contents(list: &Vec<OverlayInfo>) -> Vec<String> {
    list.iter().map(|o| o.content.clone()).collect()
}

/// Overlays "a", "b" and "c", front to back, in capture and configuration.
fn three() -> (Option<CaptureState>, Option<EmberioConfig>) {
    let mut capture = Some(CaptureState {
        scene: 1,
        capture_source: 2,
        capture_item: 3,
        audio_sources: vec![],
        audio_volmeters: vec![],
        overlays: vec![],
    });
    let mut slot = None;
    for (n, content) in [(2, "c"), (1, "b"), (0, "a")] {
        add_overlay(&mut capture, &mut slot, text(content), item(n));
    }
    (capture, slot)
}

#[test]
fn kinds_have_names() {
    assert_eq!(overlay_kind_str(OverlayKind::Image), "image");
    assert_eq!(overlay_kind_str(OverlayKind::Text), "text");
    assert_eq!(overlay_kind_str(OverlayKind::Browser), "browser");
}

#[test]
fn overlays_as_the_window_shows_them() {
    let (_, mut slot) = three();
    slot.as_mut().unwrap().overlays[1].scale = s(2.0);
    let list = overlay_info_list(&mut slot);
    assert_eq!(contents(&list), vec!["a", "b", "c"]);
    let b = &list[1];
    assert_eq!((b.index, b.kind.as_str()), (1, "text"));
    assert_eq!((b.x, b.y, b.opacity), (s(100.0), s(100.0), s(1.0)));
    assert_eq!((b.scale, b.scale_x, b.scale_y), (s(2.0), s(2.0), s(2.0)));
    assert!(b.visible && !b.locked);
    assert!(overlay_info_list(&mut None).is_empty());
}

#[test]
fn one_overlay_is_changed() {
    let (_, mut slot) = three();
    assert!(set_overlay_locked(&mut slot, 1, true).value[1].locked);
    assert!(!set_overlay_visible(&mut slot, 2, false).value[2].visible);
    assert_eq!(set_overlay_opacity(&mut slot, 0, s(0.3)).value[0].opacity, s(0.3));
    assert_eq!(set_overlay_opacity(&mut slot, 0, s(7.0)).value[0].opacity, s(1.0));
    assert_eq!(set_overlay_opacity(&mut slot, 0, s(-7.0)).config.overlays[0].opacity, s(0.0));
    let r = set_overlay_transform(&mut slot, 0, s(5.0), s(6.0), s(2.0), s(3.0));
    let o = &r.value[0];
    assert_eq!((o.x, o.y, o.scale, o.scale_x, o.scale_y), (s(5.0), s(6.0), s(2.0), s(2.0), s(3.0)));
    assert!(r.value[1].locked && !r.value[2].visible);
    let before = format!("{:?}", slot);
    set_overlay_locked(&mut slot, 3, true);
    set_overlay_visible(&mut slot, 3, false);
    set_overlay_opacity(&mut slot, 3, s(0.5));
    set_overlay_transform(&mut slot, 3, s(0.0), s(0.0), s(0.0), s(0.0));
    assert_eq!(format!("{:?}", slot), before);
}

#[test]
fn scales_that_read_back_and_one_that_does_not() {
    let (_, mut slot) = three();
    let r = set_overlay_transform(&mut slot, 0, s(0.0), s(0.0), s(1.0), s(3.0));
    assert_eq!((r.value[0].scale_x, r.value[0].scale_y), (s(1.0), s(3.0)));
    let r = set_overlay_transform(&mut slot, 0, s(0.0), s(0.0), s(2.0), s(1.0));
    assert_eq!((r.value[0].scale_x, r.value[0].scale_y), (s(2.0), s(2.0)));
}

#[test]
fn new_overlays_go_in_front() {
    let (capture, slot) = three();
    let items: Vec<usize> = capture.as_ref().unwrap().overlays.iter().map(|o| o.item).collect();
    assert_eq!(items, vec![200, 201, 202]);
    let mut capture = capture;
    let mut slot = slot;
    let r = add_overlay(&mut capture, &mut slot, text("new"), item(9));
    assert_eq!(contents(&r.answer.value), vec!["new", "a", "b", "c"]);
    assert_eq!(r.z_order, Some(vec![3, 202, 201, 200, 209]));
    let r = add_overlay(&mut None, &mut slot, text("x"), item(8));
    assert!(r.z_order.is_none());
    assert_eq!(overlay_scene(&capture), Ok(1));
    assert_eq!(overlay_scene(&None), Err("La captura todavia no esta lista".to_string()));
}

#[test]
fn removing_an_overlay() {
    let (mut capture, mut slot) = three();
    let r = remove_overlay(&mut PreviewModel::new(), &mut capture, &mut slot, 1);
    assert_eq!(
        r.releases,
        vec![Release::RemoveItem(201), Release::ReleaseSource(301), Release::ReleaseSource(101)]
    );
    assert_eq!(r.z_order, Some(vec![3, 202, 200]));
    assert_eq!(contents(&r.answer.value), vec!["a", "c"]);
    let r = remove_overlay(&mut PreviewModel::new(), &mut capture, &mut slot, 5);
    assert_eq!((r.releases, r.z_order), (vec![], None));
    assert_eq!(r.answer.value.len(), 2);
    let r = remove_overlay(&mut PreviewModel::new(), &mut None, &mut slot, 0);
    assert!(r.releases.is_empty());
    assert_eq!(contents(&r.answer.value), vec!["c"]);
    let plain = OverlayItem { source: 5, item: 6, opacity_filter: 0 };
    add_overlay(&mut capture, &mut slot, text("plain"), plain);
    let r = remove_overlay(&mut PreviewModel::new(), &mut capture, &mut slot, 0);
    assert_eq!(r.releases, vec![Release::RemoveItem(6), Release::ReleaseSource(5)]);
}

#[test]
fn an_added_overlay_can_be_removed_again() {
    let (mut capture, mut slot) = three();
    let before = format!("{:?} {:?}", capture, slot);
    add_overlay(&mut capture, &mut slot, text("new"), item(9));
    let r = remove_overlay(&mut PreviewModel::new(), &mut capture, &mut slot, 0);
    assert_eq!(r.releases.last(), Some(&Release::ReleaseSource(109)));
    assert_eq!(format!("{:?} {:?}", capture, slot), before);
}

#[test]
fn overlays_change_places() {
    let (mut capture, mut slot) = three();
    assert!(can_reorder(&capture, &slot, 2, true));
    let r = reorder_overlay(&mut PreviewModel::new(), &mut capture, &mut slot, 2, true).ok().unwrap();
    assert_eq!(contents(&r.answer.value), vec!["a", "c", "b"]);
    assert_eq!(r.z_order, Some(vec![3, 201, 202, 200]));
    let r = reorder_overlay(&mut PreviewModel::new(), &mut capture, &mut slot, 1, false).ok().unwrap();
    assert_eq!(contents(&r.answer.value), vec!["a", "b", "c"]);
    assert_eq!(
        reorder_overlay(&mut PreviewModel::new(), &mut capture, &mut slot, 0, true).err().unwrap(),
        "Ya está al frente"
    );
    assert_eq!(
        reorder_overlay(&mut PreviewModel::new(), &mut capture, &mut slot, 2, false).err().unwrap(),
        "Ya está al fondo"
    );
}

#[test]
fn places_change_without_a_capture() {
    let (_, mut slot) = three();
    let mut none = None;
    let r = reorder_overlay(&mut PreviewModel::new(), &mut none, &mut slot, 0, false).ok().unwrap();
    assert_eq!(contents(&r.answer.value), vec!["b", "a", "c"]);
    assert!(r.z_order.is_none());
    let r = reorder_overlay(&mut PreviewModel::new(), &mut none, &mut slot, 0, true).ok().unwrap();
    assert_eq!(contents(&r.answer.value), vec!["b", "a", "c"]);
    let r = reorder_overlay(&mut PreviewModel::new(), &mut none, &mut slot, 2, false).ok().unwrap();
    assert_eq!(contents(&r.answer.value), vec!["b", "a", "c"]);
}

#[test]
fn unknown_places_cannot_be_exchanged() {
    let (capture, slot) = three();
    assert!(!can_reorder(&capture, &slot, 3, true));
    assert!(can_reorder(&capture, &slot, 3, false));
    assert!(!can_reorder(&None, &slot, 3, false));
    assert!(!can_reorder(&None, &None, 0, true));
    assert!(!can_reorder(&capture, &slot, usize::MAX, false));
}

#[test]
fn the_front_most_overlay_is_hit() {
    let (capture, mut slot) = three();
    let far = vec![FarEdges { right: s(200.0), bottom: s(150.0) }; 3];
    let hit = |slot: &Option<EmberioConfig>, x: f32, y: f32| {
        try_select_overlay(&overlay_geometries(&capture, slot), &far, s(x), s(y))
    };
    assert_eq!(hit(&slot, 100.0, 100.0), Some(0));
    assert_eq!(hit(&slot, 200.0, 150.0), Some(0));
    assert_eq!(hit(&slot, 200.5, 150.0), None);
    assert_eq!(hit(&slot, 99.0, 120.0), None);
    set_overlay_locked(&mut slot, 0, true);
    assert_eq!(hit(&slot, 150.0, 120.0), Some(1));
    set_overlay_visible(&mut slot, 1, false);
    assert_eq!(hit(&slot, 150.0, 120.0), Some(2));
    assert_eq!(hit(&slot, f32::NAN, 120.0), None);
}

#[test]
fn geometry_of_overlays() {
    let (capture, mut slot) = three();
    set_overlay_transform(&mut slot, 1, s(1.0), s(2.0), s(3.0), s(4.0));
    let g = overlay_geometry(&capture, &slot, 1).unwrap();
    assert_eq!((g.source, g.x, g.y, g.scale_x, g.scale_y), (101, s(1.0), s(2.0), s(3.0), s(4.0)));
    assert_eq!(overlay_geometry(&capture, &slot, 3), None);
    assert_eq!(overlay_geometry(&None, &slot, 0), None);
    assert_eq!(overlay_geometry(&capture, &None, 0), None);
    assert!(overlay_geometries(&capture, &None).is_empty());
    slot.as_mut().unwrap().overlays.pop();
    let all = overlay_geometries(&capture, &slot);
    assert_eq!(all.len(), 3);
    assert!(!all[2].selectable);
    assert_eq!((all[2].x, all[2].scale_x), (s(0.0), s(1.0)));
}

#[test]
fn dragging_and_resizing() {
    let (capture, mut slot) = three();
    assert_eq!(drag_selected_overlay(&capture, &mut slot, 1, s(7.0), s(8.0)), Some(201));
    let o = &slot.as_ref().unwrap().overlays[1];
    assert_eq!((o.x, o.y, o.scale_x), (s(7.0), s(8.0), s(1.0)));
    assert_eq!(
        resize_selected_overlay(&capture, &mut slot, 2, s(1.0), s(2.0), s(3.0), s(4.0)),
        Some(202)
    );
    let o = &slot.as_ref().unwrap().overlays[2];
    assert_eq!((o.x, o.y, o.scale, o.scale_x, o.scale_y), (s(1.0), s(2.0), s(3.0), s(3.0), s(4.0)));
    let before = format!("{:?}", slot);
    assert_eq!(drag_selected_overlay(&capture, &mut slot, 3, s(0.0), s(0.0)), None);
    assert_eq!(drag_selected_overlay(&None, &mut slot, 0, s(0.0), s(0.0)), None);
    assert_eq!(
        resize_selected_overlay(&None, &mut slot, 0, s(0.0), s(0.0), s(0.0), s(0.0)),
        None
    );
    assert_eq!(format!("{:?}", slot), before);
    assert_eq!(drag_selected_overlay(&capture, &mut None, 0, s(0.0), s(0.0)), None);
    let r = finish_drag_overlay(&mut slot);
    assert_eq!(contents(&r.value), vec!["a", "b", "c"]);
    assert_eq!(r.config.overlays[1].x, s(7.0));
}

#[test]
fn unknown_dimensions_are_one() {
    let d = SourceDims { width: s(4.0), height: s(5.0), scale_x: s(6.0), scale_y: s(7.0) };
    assert_eq!(dims_or_unit(Some(d)), d);
    let one = SourceDims { width: s(1.0), height: s(1.0), scale_x: s(1.0), scale_y: s(1.0) };
    assert_eq!(dims_or_unit(None), one);
}

#[test]
fn the_preview_lets_go_of_its_selection() {
    let (mut capture, mut slot) = three();
    let probe = PressProbe {
        point: Some(CanvasPoint { x: s(1.0), y: s(1.0) }),
        corner: None,
        overlay: Some(1),
    };
    let mut model = PreviewModel::new();
    press_left(&mut model, 0, &probe);
    remove_overlay(&mut model, &mut capture, &mut slot, 1);
    assert_eq!(model.selected, None);
    press_left(&mut model, 0, &probe);
    assert!(reorder_overlay(&mut model, &mut capture, &mut slot, 0, true).is_err());
    assert_eq!(model.selected, None);
}

#[test]
fn set_scales_are_kept_in_range() {
    let (capture, mut slot) = three();
    for (asked, kept) in [(10.0, 5.0), (5.0, 5.0), (0.5, 0.5), (0.1, 0.1), (0.0, 0.1), (-3.0, 0.1)] {
        let r = set_overlay_transform(&mut slot, 1, s(7.0), s(8.0), s(asked), s(asked));
        let o = &r.config.overlays[1];
        assert_eq!((o.scale, o.scale_x, o.scale_y), (s(kept), s(kept), s(kept)));
        assert_eq!(
            live_transform(&capture, 1, s(7.0), s(8.0), s(asked), s(asked)),
            Some(LiveTransform {
                item: 201,
                x: s(7.0),
                y: s(8.0),
                scale_x: s(kept),
                scale_y: s(kept)
            })
        );
    }
    assert_eq!(live_transform(&None, 0, s(0.0), s(0.0), s(1.0), s(1.0)), None);
}

#[test]
fn an_overlay_that_was_not_made_keeps_its_place() {
    let (mut capture, mut slot) = three();
    capture.as_mut().unwrap().overlays[1] = OverlayItem::absent();
    assert_eq!(overlay_geometry(&capture, &slot, 1), None);
    assert!(!overlay_geometries(&capture, &slot)[1].selectable);
    assert_eq!(drag_selected_overlay(&capture, &mut slot, 1, s(0.0), s(0.0)), None);
    assert_eq!(drag_selected_overlay(&capture, &mut slot, 2, s(0.0), s(0.0)), Some(202));
    let mut model = PreviewModel::new();
    let r = reorder_overlay(&mut model, &mut capture, &mut slot, 1, false).ok().unwrap();
    assert_eq!(contents(&r.answer.value), vec!["a", "c", "b"]);
    assert_eq!(r.z_order, Some(vec![3, 202, 200]));
    let r = remove_overlay(&mut model, &mut capture, &mut slot, 2);
    assert!(r.releases.is_empty());
    assert_eq!(contents(&r.answer.value), vec!["a", "c"]);
    let items: Vec<usize> = capture.unwrap().overlays.iter().map(|o| o.item).collect();
    assert_eq!(items, vec![200, 202]);
}
