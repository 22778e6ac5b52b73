use plotters_gpui::backend::GpuiBackend;
use plotters_gpui::color::{RgbaColor, SceneColor};
use plotters_gpui::geometry::{DevicePoint, PixelBounds, PixelPoint, Px};
use plotters_gpui::scene::{HorizAnchor, ScenePrimitive, TextExtent, TextStyle, VertAnchor};

fn bounds_px(ox: i32, oy: i32, w: i32, h: i32) -> PixelBounds {
    PixelBounds {
        origin: DevicePoint { x: Px::from_px(ox), y: Px::from_px(oy) },
        width: Px::from_px(w),
        height: Px::from_px(h),
    }
}

fn pt(x: i32, y: i32) -> PixelPoint {
    PixelPoint { x, y }
}

fn rgba(r: u8, g: u8, b: u8, a: u16) -> RgbaColor {
    RgbaColor { r, g, b, a }
}

#[test]
fn single_pixel_is_translated_unit_rect() {
    let mut backend = GpuiBackend::new(bounds_px(10, 20, 100, 50));
    let red = rgba(255, 0, 0, 65535);
    backend.draw_pixel(pt(5, 5), red).unwrap();
    assert_eq!(backend.scene.len(), 1);
    match &backend.scene[0] {
        ScenePrimitive::FillRect { corner, width, height, color } => {
            assert_eq!(corner.x.sub, 15 * 256);
            assert_eq!(corner.y.sub, 25 * 256);
            assert_eq!(width.sub, 256);
            assert_eq!(height.sub, 256);
            assert_eq!(*color, SceneColor { r: 65535, g: 0, b: 0, a: 65535 });
        }
        other => panic!("expected a filled rectangle, got {:?}", other),
    }
}

#[test]
fn line_keeps_both_endpoints_and_width() {
    let mut backend = GpuiBackend::new(bounds_px(0, 0, 100, 50));
    let black = rgba(0, 0, 0, 65535);
    backend.draw_line(pt(0, 0), pt(99, 49), black, Px::from_px(2)).unwrap();
    assert_eq!(backend.scene.len(), 1);
    match &backend.scene[0] {
        ScenePrimitive::StrokePath { points, width, color, closed } => {
            assert_eq!(points.len(), 2);
            assert_eq!((points[0].x.sub, points[0].y.sub), (0, 0));
            assert_eq!((points[1].x.sub, points[1].y.sub), (99 * 256, 49 * 256));
            assert_eq!(width.sub, 2 * 256);
            assert_eq!(*color, SceneColor { r: 0, g: 0, b: 0, a: 65535 });
            assert!(!closed);
        }
        other => panic!("expected a stroked path, got {:?}", other),
    }
}

#[test]
fn degenerate_line_becomes_pixel() {
    let mut backend = GpuiBackend::new(bounds_px(3, 4, 10, 10));
    backend.draw_line(pt(7, 8), pt(7, 8), rgba(1, 2, 3, 100), Px::from_px(5)).unwrap();
    match &backend.scene[0] {
        ScenePrimitive::FillRect { corner, width, height, .. } => {
            assert_eq!(corner.x.sub, 10 * 256);
            assert_eq!(corner.y.sub, 12 * 256);
            assert_eq!((width.sub, height.sub), (256, 256));
        }
        other => panic!("expected a filled rectangle, got {:?}", other),
    }
}

#[test]
fn filled_rect_spans_corners_with_area_600() {
    let mut backend = GpuiBackend::new(bounds_px(0, 0, 100, 50));
    let green = rgba(0, 255, 0, 65535);
    backend.draw_rect(pt(10, 10), pt(30, 40), green, true, Px::from_px(1)).unwrap();
    assert_eq!(backend.scene.len(), 1);
    match &backend.scene[0] {
        ScenePrimitive::FillRect { corner, width, height, color } => {
            assert_eq!((corner.x.sub, corner.y.sub), (10 * 256, 10 * 256));
            assert_eq!((width.sub, height.sub), (20 * 256, 30 * 256));
            assert_eq!((width.sub / 256) * (height.sub / 256), 600);
            assert_eq!(*color, SceneColor { r: 0, g: 65535, b: 0, a: 65535 });
        }
        other => panic!("expected a filled rectangle, got {:?}", other),
    }
}

#[test]
fn rect_corners_may_come_in_any_order() {
    let mut backend = GpuiBackend::new(bounds_px(0, 0, 100, 50));
    backend.draw_rect(pt(30, 40), pt(10, 10), rgba(0, 255, 0, 65535), true, Px::from_px(1)).unwrap();
    match &backend.scene[0] {
        ScenePrimitive::FillRect { corner, width, height, .. } => {
            assert_eq!((corner.x.sub, corner.y.sub), (10 * 256, 10 * 256));
            assert_eq!((width.sub, height.sub), (20 * 256, 30 * 256));
        }
        other => panic!("expected a filled rectangle, got {:?}", other),
    }
}

#[test]
fn zero_area_fill_is_skipped() {
    let mut backend = GpuiBackend::new(bounds_px(0, 0, 100, 50));
    backend.draw_rect(pt(10, 10), pt(10, 40), rgba(0, 0, 0, 65535), true, Px::from_px(1)).unwrap();
    assert!(backend.scene.is_empty());
}

#[test]
fn rect_outline_is_closed_path_of_four_corners() {
    let mut backend = GpuiBackend::new(bounds_px(1, 2, 100, 50));
    backend.draw_rect(pt(10, 10), pt(30, 40), rgba(9, 9, 9, 65535), false, Px::from_px(3)).unwrap();
    match &backend.scene[0] {
        ScenePrimitive::StrokePath { points, width, closed, .. } => {
            assert!(closed);
            assert_eq!(width.sub, 3 * 256);
            let got: Vec<(i64, i64)> = points.iter().map(|p| (p.x.sub, p.y.sub)).collect();
            let want: Vec<(i64, i64)> = [(10, 10), (30, 10), (30, 40), (10, 40)]
                .iter()
                .map(|&(x, y): &(i64, i64)| ((x + 1) * 256, (y + 2) * 256))
                .collect();
            assert_eq!(got, want);
        }
        other => panic!("expected a stroked path, got {:?}", other),
    }
}

#[test]
fn empty_path_draws_nothing() {
    let mut backend = GpuiBackend::new(bounds_px(0, 0, 10, 10));
    backend.draw_path(&Vec::new(), rgba(0, 0, 0, 65535), Px::from_px(1)).unwrap();
    assert!(backend.scene.is_empty());
}

#[test]
fn one_point_path_degrades_to_pixel() {
    let mut backend = GpuiBackend::new(bounds_px(0, 0, 10, 10));
    backend.draw_path(&vec![pt(4, 5)], rgba(0, 0, 0, 65535), Px::from_px(1)).unwrap();
    assert!(matches!(backend.scene[0], ScenePrimitive::FillRect { .. }));
}

#[test]
fn path_translates_every_point_in_order() {
    let mut backend = GpuiBackend::new(bounds_px(5, 6, 100, 100));
    let pts = vec![pt(0, 0), pt(10, 5), pt(20, 0)];
    backend.draw_path(&pts, rgba(0, 0, 0, 65535), Px::from_px(1)).unwrap();
    match &backend.scene[0] {
        ScenePrimitive::StrokePath { points, closed, .. } => {
            assert!(!closed);
            let got: Vec<(i64, i64)> = points.iter().map(|p| (p.x.sub, p.y.sub)).collect();
            assert_eq!(
                got,
                vec![(5 * 256, 6 * 256), (15 * 256, 11 * 256), (25 * 256, 6 * 256)]
            );
        }
        other => panic!("expected a stroked path, got {:?}", other),
    }
}

#[test]
fn polygon_is_filled_path_of_translated_vertices() {
    let mut backend = GpuiBackend::new(bounds_px(0, 0, 100, 100));
    let pts = vec![pt(0, 0), pt(10, 0), pt(5, 9)];
    backend.fill_polygon(&pts, rgba(7, 8, 9, 1000)).unwrap();
    match &backend.scene[0] {
        ScenePrimitive::FillPath { points, color } => {
            assert_eq!(points.len(), 3);
            assert_eq!((points[2].x.sub, points[2].y.sub), (5 * 256, 9 * 256));
            assert_eq!(color.a, 1000);
        }
        other => panic!("expected a filled path, got {:?}", other),
    }
}

#[test]
fn empty_polygon_draws_nothing() {
    let mut backend = GpuiBackend::new(bounds_px(0, 0, 100, 100));
    backend.fill_polygon(&Vec::new(), rgba(7, 8, 9, 1000)).unwrap();
    assert!(backend.scene.is_empty());
}

#[test]
fn circle_becomes_ellipse_with_equal_radii() {
    let mut backend = GpuiBackend::new(bounds_px(10, 10, 100, 100));
    backend.draw_circle(pt(50, 50), 7, rgba(0, 0, 255, 65535), true, Px::from_px(1)).unwrap();
    match &backend.scene[0] {
        ScenePrimitive::Ellipse { center, radius_x, radius_y, fill, .. } => {
            assert_eq!((center.x.sub, center.y.sub), (60 * 256, 60 * 256));
            assert_eq!(radius_x.sub, 7 * 256);
            assert_eq!(radius_y.sub, 7 * 256);
            assert!(fill);
        }
        other => panic!("expected an ellipse, got {:?}", other),
    }
}

#[test]
fn size_reports_rounded_bounds() {
    let backend = GpuiBackend::new(bounds_px(10, 20, 100, 50));
    assert_eq!(backend.size(), (100, 50));
}

#[test]
fn size_rounds_halves_away_from_zero() {
    let backend = GpuiBackend::new(PixelBounds {
        origin: DevicePoint { x: Px { sub: 0 }, y: Px { sub: 0 } },
        width: Px { sub: 100 * 256 + 128 },  // 100.5 px
        height: Px { sub: 50 * 256 + 127 },  // just under 50.5 px
    });
    assert_eq!(backend.size(), (101, 50));
}

#[test]
fn round_is_symmetric_about_zero() {
    assert_eq!(Px { sub: 640 }.round(), 3);  // 2.5 px
    assert_eq!(Px { sub: -640 }.round(), -3);
    assert_eq!(Px { sub: 639 }.round(), 2);
    assert_eq!(Px { sub: -639 }.round(), -2);
}

#[test]
fn hooks_change_nothing_in_any_order() {
    let mut backend = GpuiBackend::new(bounds_px(10, 20, 100, 50));
    backend.draw_pixel(pt(0, 0), rgba(1, 1, 1, 65535)).unwrap();
    backend.ensure_prepared().unwrap();
    backend.present().unwrap();
    backend.present().unwrap();
    backend.ensure_prepared().unwrap();
    assert_eq!(backend.scene.len(), 1);
    assert_eq!(backend.size(), (100, 50));
}

#[test]
fn color_translation_round_trips_exactly() {
    let samples = [
        rgba(0, 0, 0, 0),
        rgba(255, 255, 255, 65535),
        rgba(12, 200, 255, 30000),
        rgba(1, 254, 128, 1),
    ];
    for c in samples.iter() {
        let scene = c.to_scene();
        assert_eq!(scene.r, c.r as u16 * 257);
        assert_eq!(scene.a, c.a);
        assert_eq!(scene.to_rgba(), *c);
    }
}

#[test]
fn pure_red_maps_to_full_scene_red() {
    let scene = rgba(255, 0, 0, 65535).to_scene();
    assert_eq!(scene, SceneColor { r: 65535, g: 0, b: 0, a: 65535 });
}

#[test]
fn centered_text_centers_on_anchor() {
    let mut backend = GpuiBackend::new(bounds_px(0, 0, 100, 50));
    let style = TextStyle {
        family: "sans-serif".to_string(),
        size: Px::from_px(12),
        color: rgba(0, 0, 0, 65535),
        h_anchor: HorizAnchor::Middle,
        v_anchor: VertAnchor::Middle,
        rotation_deg: 0,
    };
    backend.draw_text("Hi", &style, pt(50, 25)).unwrap();
    match &backend.scene[0] {
        ScenePrimitive::TextRun { text, family, pos, rotate_about, .. } => {
            assert_eq!(text.as_str(), "Hi");
            assert_eq!(family.as_str(), "sans-serif");
            // nominal metric: 2 chars, half the font size each => 12 px wide,
            // 12 px tall; the measured center must sit on the anchor exactly.
            let w = 12 * 256;
            let h = 12 * 256;
            assert_eq!(pos.x.sub + w / 2, 50 * 256);
            assert_eq!(pos.y.sub + h / 2, 25 * 256);
            assert_eq!((rotate_about.x.sub, rotate_about.y.sub), (50 * 256, 25 * 256));
        }
        other => panic!("expected a text run, got {:?}", other),
    }
}

#[test]
fn measured_text_honors_anchor_and_rotation() {
    let mut backend = GpuiBackend::new(bounds_px(2, 3, 100, 50));
    let style = TextStyle {
        family: "serif".to_string(),
        size: Px::from_px(10),
        color: rgba(5, 6, 7, 65535),
        h_anchor: HorizAnchor::End,
        v_anchor: VertAnchor::Bottom,
        rotation_deg: 45,
    };
    let extent = TextExtent { w: Px { sub: 1000 }, h: Px { sub: 500 } };
    backend.draw_text_measured("abc", &style, pt(40, 20), extent).unwrap();
    match &backend.scene[0] {
        ScenePrimitive::TextRun { pos, rotate_about, rotation_deg, size, .. } => {
            assert_eq!(pos.x.sub, (40 + 2) * 256 - 1000);
            assert_eq!(pos.y.sub, (20 + 3) * 256 - 500);
            assert_eq!((rotate_about.x.sub, rotate_about.y.sub), (42 * 256, 23 * 256));
            assert_eq!(*rotation_deg, 45);
            assert_eq!(size.sub, 10 * 256);
        }
        other => panic!("expected a text run, got {:?}", other),
    }
}

#[test]
fn empty_text_sits_on_its_anchor() {
    let mut backend = GpuiBackend::new(bounds_px(0, 0, 100, 50));
    let style = TextStyle {
        family: "sans-serif".to_string(),
        size: Px::from_px(12),
        color: rgba(0, 0, 0, 65535),
        h_anchor: HorizAnchor::Start,
        v_anchor: VertAnchor::Top,
        rotation_deg: 0,
    };
    backend.draw_text("", &style, pt(7, 9)).unwrap();
    match &backend.scene[0] {
        ScenePrimitive::TextRun { text, pos, .. } => {
            assert_eq!(text.as_str(), "");
            // zero characters measure zero width; Start/Top shifts nothing
            assert_eq!((pos.x.sub, pos.y.sub), (7 * 256, 9 * 256));
        }
        other => panic!("expected a text run, got {:?}", other),
    }
}

#[test]
fn backend_error_carries_its_reason() {
    let e = plotters_gpui::DrawingErrorKind::BackendError("sink refused".to_string());
    match &e {
        plotters_gpui::DrawingErrorKind::BackendError(reason) => {
            assert_eq!(reason.as_str(), "sink refused");
        }
    }
}

#[test]
fn primitives_keep_call_order() {
    let mut backend = GpuiBackend::new(bounds_px(0, 0, 100, 100));
    backend.draw_pixel(pt(1, 1), rgba(1, 0, 0, 65535)).unwrap();
    backend.draw_circle(pt(5, 5), 2, rgba(0, 1, 0, 65535), false, Px::from_px(1)).unwrap();
    backend.draw_line(pt(0, 0), pt(9, 9), rgba(0, 0, 1, 65535), Px::from_px(1)).unwrap();
    assert_eq!(backend.scene.len(), 3);
    assert!(matches!(backend.scene[0], ScenePrimitive::FillRect { .. }));
    assert!(matches!(backend.scene[1], ScenePrimitive::Ellipse { .. }));
    assert!(matches!(backend.scene[2], ScenePrimitive::StrokePath { .. }));
}
