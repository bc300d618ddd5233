use gpu_dashboard::layout::{PanelAreas, Rect, HALF};

#[test]
fn rect_new_keeps_what_fits() {
    assert_eq!(Rect::new(1, 2, 3, 4), Rect { x: 1, y: 2, width: 3, height: 4 });
    assert_eq!(Rect::new(0, 0, u16::MAX, u16::MAX), Rect { x: 0, y: 0, width: u16::MAX, height: u16::MAX });
}

#[test]
fn rect_new_cuts_back_what_does_not_fit() {
    assert_eq!(Rect::new(65530, 65500, 100, 100), Rect { x: 65530, y: 65500, width: 5, height: 35 });
    assert_eq!(Rect::new(u16::MAX, u16::MAX, 1, 1), Rect { x: u16::MAX, y: u16::MAX, width: 0, height: 0 });
}

#[test]
fn grid_of_an_even_area_has_four_equal_panels() {
    let panels = PanelAreas::grid(Rect::new(0, 0, 50, 4));
    assert_eq!(
        panels,
        PanelAreas {
            top_left: Rect::new(0, 0, 25, 2),
            top_right: Rect::new(25, 0, 25, 2),
            bottom_left: Rect::new(0, 2, 25, 2),
            bottom_right: Rect::new(25, 2, 25, 2),
        }
    );
    assert_eq!(HALF, 50);
}

#[test]
fn grid_keeps_the_offset_of_its_area() {
    let panels = PanelAreas::grid(Rect::new(10, 20, 80, 24));
    assert_eq!(
        panels,
        PanelAreas {
            top_left: Rect::new(10, 20, 40, 12),
            top_right: Rect::new(50, 20, 40, 12),
            bottom_left: Rect::new(10, 32, 40, 12),
            bottom_right: Rect::new(50, 32, 40, 12),
        }
    );
}

#[test]
fn grid_panels_stand_in_two_columns() {
    for (width, height) in [(0u16, 0u16), (1, 1), (51, 5), (3, 7), (200, 61)] {
        let panels = PanelAreas::grid(Rect::new(4, 9, width, height));
        assert_eq!(panels.top_left.x, panels.bottom_left.x);
        assert_eq!(panels.top_left.width, panels.bottom_left.width);
        assert_eq!(panels.top_right.x, panels.bottom_right.x);
        assert_eq!(panels.top_right.width, panels.bottom_right.width);
        assert_eq!(panels.top_left.width + panels.top_right.width, width);
        assert_eq!(panels.top_left.height + panels.bottom_left.height, height);
    }
}

#[test]
fn grid_from_columns_names_the_four_panels() {
    let left = (Rect::new(0, 0, 3, 1), Rect::new(0, 1, 3, 2));
    let right = (Rect::new(3, 0, 4, 2), Rect::new(3, 2, 4, 1));
    let panels = PanelAreas::from_columns(left, right);
    assert_eq!(panels.top_left, left.0);
    assert_eq!(panels.bottom_left, left.1);
    assert_eq!(panels.top_right, right.0);
    assert_eq!(panels.bottom_right, right.1);
}

#[test]
fn grid_panels_end_on_the_grid() {
    for area in [
        Rect { x: 65000, y: 65000, width: 60000, height: 60000 },
        Rect { x: u16::MAX, y: u16::MAX, width: u16::MAX, height: u16::MAX },
        Rect::new(65000, 65000, 60000, 60000),
        Rect::new(0, 0, u16::MAX, u16::MAX),
    ] {
        let panels = PanelAreas::grid(area);
        for panel in [panels.top_left, panels.top_right, panels.bottom_left, panels.bottom_right] {
            assert!(u32::from(panel.x) + u32::from(panel.width) <= u32::from(u16::MAX));
            assert!(u32::from(panel.y) + u32::from(panel.height) <= u32::from(u16::MAX));
        }
        assert_eq!(panels.top_left.x, panels.bottom_left.x);
        assert_eq!(panels.top_right.width, panels.bottom_right.width);
    }
}

/// Fails unless every panel of the grid of `area` has only cells of `area`.
fn assert_grid_inside(area: Rect) {
    let right = (u32::from(area.x) + u32::from(area.width)).min(u32::from(u16::MAX));
    let bottom = (u32::from(area.y) + u32::from(area.height)).min(u32::from(u16::MAX));
    let panels = PanelAreas::grid(area);
    for panel in [panels.top_left, panels.top_right, panels.bottom_left, panels.bottom_right] {
        assert!(area.x <= panel.x, "{:?} in {:?}", panel, area);
        assert!(area.y <= panel.y, "{:?} in {:?}", panel, area);
        assert!(u32::from(panel.x) + u32::from(panel.width) <= right, "{:?} in {:?}", panel, area);
        assert!(u32::from(panel.y) + u32::from(panel.height) <= bottom, "{:?} in {:?}", panel, area);
    }
}

#[test]
fn grid_of_an_empty_area_stays_at_its_corner() {
    let corner = Rect { x: 10, y: 20, width: 0, height: 0 };
    let panels = PanelAreas::grid(corner);
    assert_eq!(
        panels,
        PanelAreas { top_left: corner, top_right: corner, bottom_left: corner, bottom_right: corner }
    );
}

#[test]
fn grid_panels_lie_inside_small_areas() {
    for width in 0..=24u16 {
        for height in 0..=12u16 {
            assert_grid_inside(Rect::new(0, 0, width, height));
            assert_grid_inside(Rect::new(7, 3, width, height));
        }
    }
}

#[test]
fn grid_panels_lie_inside_terminal_sized_areas() {
    for (width, height) in [(80u16, 24u16), (81, 25), (120, 40), (132, 43), (171, 51), (255, 255), (1000, 999)] {
        for (x, y) in [(0u16, 0u16), (1, 1), (13, 200), (4000, 9)] {
            assert_grid_inside(Rect::new(x, y, width, height));
        }
    }
}

#[test]
fn grid_panels_lie_inside_areas_at_the_far_edge() {
    for area in [
        Rect::new(u16::MAX, u16::MAX, 0, 0),
        Rect::new(u16::MAX - 1, u16::MAX - 1, 1, 1),
        Rect::new(65000, 65000, 535, 535),
        Rect::new(0, 0, u16::MAX, u16::MAX),
        Rect::new(1, 1, u16::MAX, u16::MAX),
        Rect { x: 65000, y: 65000, width: 60000, height: 60000 },
        Rect { x: u16::MAX, y: u16::MAX, width: u16::MAX, height: u16::MAX },
        Rect { x: 40000, y: 3, width: 40000, height: 7 },
    ] {
        assert_grid_inside(area);
    }
}

/// The four quarters of `area`: the larger half of an odd length comes first.
fn expected_quarters(area: Rect) -> PanelAreas {
    let right = (u32::from(area.x) + u32::from(area.width)).min(u32::from(u16::MAX)) as u16;
    let bottom = (u32::from(area.y) + u32::from(area.height)).min(u32::from(u16::MAX)) as u16;
    let width = right - area.x;
    let height = bottom - area.y;
    let left = width - width / 2;
    let upper = height - height / 2;
    PanelAreas {
        top_left: Rect { x: area.x, y: area.y, width: left, height: upper },
        top_right: Rect { x: area.x + left, y: area.y, width: width - left, height: upper },
        bottom_left: Rect { x: area.x, y: area.y + upper, width: left, height: height - upper },
        bottom_right: Rect {
            x: area.x + left,
            y: area.y + upper,
            width: width - left,
            height: height - upper,
        },
    }
}

#[test]
fn grid_of_an_odd_area_gives_the_larger_half_first() {
    let panels = PanelAreas::grid(Rect::new(0, 0, 51, 5));
    assert_eq!(
        panels,
        PanelAreas {
            top_left: Rect::new(0, 0, 26, 3),
            top_right: Rect::new(26, 0, 25, 3),
            bottom_left: Rect::new(0, 3, 26, 2),
            bottom_right: Rect::new(26, 3, 25, 2),
        }
    );
    let panels = PanelAreas::grid(Rect::new(3, 8, 1, 1));
    assert_eq!(
        panels,
        PanelAreas {
            top_left: Rect::new(3, 8, 1, 1),
            top_right: Rect::new(4, 8, 0, 1),
            bottom_left: Rect::new(3, 9, 1, 0),
            bottom_right: Rect::new(4, 9, 0, 0),
        }
    );
}

#[test]
fn grid_quarters_small_areas() {
    for width in 0..=40u16 {
        for height in 0..=16u16 {
            for (x, y) in [(0u16, 0u16), (7, 3)] {
                let area = Rect::new(x, y, width, height);
                assert_eq!(PanelAreas::grid(area), expected_quarters(area), "{:?}", area);
            }
        }
    }
}

#[test]
fn grid_quarters_terminal_sized_areas() {
    for (width, height) in [(80u16, 24u16), (81, 25), (120, 40), (133, 43), (171, 51), (255, 255), (1001, 999)] {
        for (x, y) in [(0u16, 0u16), (1, 1), (13, 200), (4000, 9)] {
            let area = Rect::new(x, y, width, height);
            assert_eq!(PanelAreas::grid(area), expected_quarters(area), "{:?}", area);
        }
    }
}

#[test]
fn grid_quarters_areas_at_the_far_edge() {
    for area in [
        Rect::new(u16::MAX, u16::MAX, 0, 0),
        Rect::new(u16::MAX - 1, u16::MAX - 1, 1, 1),
        Rect::new(65000, 65000, 535, 535),
        Rect::new(0, 0, u16::MAX, u16::MAX),
        Rect::new(1, 1, u16::MAX, u16::MAX),
        Rect::new(0, 0, u16::MAX - 1, u16::MAX - 1),
        Rect { x: 65000, y: 65000, width: 60000, height: 60000 },
        Rect { x: u16::MAX, y: u16::MAX, width: u16::MAX, height: u16::MAX },
        Rect { x: 40000, y: 3, width: 40000, height: 7 },
        Rect { x: 3, y: 40001, width: 7, height: 40000 },
    ] {
        assert_eq!(PanelAreas::grid(area), expected_quarters(area), "{:?}", area);
    }
}
