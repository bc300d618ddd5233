use gpu_dashboard::chart::{project, time_axis, ChartPoint, HISTORY_LEN, TIME_ORIGIN, TIME_SPAN};
use gpu_dashboard::metric::{Color, GraphType, Marker, Metric, Snapshot};
use gpu_dashboard::ring::RingSeries;

#[test]
fn projection_of_zero_history() {
    let ring = RingSeries::new(30);
    let points = project(&ring, TIME_ORIGIN, TIME_SPAN);
    assert_eq!(points.len(), 30);
    for (i, point) in points.iter().enumerate() {
        assert_eq!(*point, ChartPoint { x: i as i64 - 29, y: 0 });
    }
}

#[test]
fn projection_anchors_the_newest_sample_at_zero() {
    let mut ring = RingSeries::new(4);
    for sample in [10u32, 20, 30, 40, 50] {
        ring.push(sample);
    }
    let points = project(&ring, TIME_ORIGIN, TIME_SPAN);
    assert_eq!(
        points,
        vec![
            ChartPoint { x: -3, y: 20 },
            ChartPoint { x: -2, y: 30 },
            ChartPoint { x: -1, y: 40 },
            ChartPoint { x: 0, y: 50 },
        ]
    );
}

#[test]
fn projection_steps_by_one() {
    let mut ring = RingSeries::new(30);
    for sample in 0..100u32 {
        ring.push(sample * 7);
    }
    let points = project(&ring, TIME_ORIGIN, TIME_SPAN);
    assert_eq!(points.len(), ring.capacity());
    assert_eq!(points[0].x, -29);
    assert_eq!(points[29].x, 0);
    for pair in points.windows(2) {
        assert_eq!(pair[1].x, pair[0].x + 1);
    }
    for (point, sample) in points.iter().zip(ring.as_slice()) {
        assert_eq!(point.y, *sample);
    }
}

#[test]
fn projection_does_not_clip() {
    let mut ring = RingSeries::new(2);
    ring.push(u32::MAX);
    ring.push(5000);
    let points = project(&ring, TIME_ORIGIN, TIME_SPAN);
    assert_eq!(points, vec![ChartPoint { x: -1, y: u32::MAX }, ChartPoint { x: 0, y: 5000 }]);
}

#[test]
fn projection_does_not_depend_on_the_axis() {
    let mut ring = RingSeries::new(3);
    ring.push(1);
    ring.push(2);
    let anchored = project(&ring, TIME_ORIGIN, TIME_SPAN);
    assert_eq!(project(&ring, 17, 5), anchored);
    assert_eq!(project(&ring, -4, 0), anchored);
}

#[test]
fn projection_of_an_empty_series_is_empty() {
    let ring = RingSeries::new(0);
    assert!(project(&ring, TIME_ORIGIN, TIME_SPAN).is_empty());
}

#[test]
fn time_axis_spans_thirty_frames_up_to_now() {
    let axis = time_axis(TIME_ORIGIN, TIME_SPAN);
    assert_eq!(axis.title, "Time");
    assert_eq!(axis.lower, -30);
    assert_eq!(axis.upper, 0);
    assert_eq!(HISTORY_LEN, 30);
}

#[test]
fn time_axis_ends_at_its_origin() {
    let axis = time_axis(100, 40);
    assert_eq!((axis.lower, axis.upper), (60, 100));
}

#[test]
fn core_clock_descriptor() {
    let descriptor = Metric::CoreClock.descriptor();
    assert_eq!(descriptor.metric, Metric::CoreClock);
    assert_eq!(descriptor.name, "GPU Clock");
    assert_eq!(descriptor.title, "GPU Clock Speed");
    assert_eq!(descriptor.unit, "MHz");
    assert_eq!((descriptor.lower, descriptor.upper), (0, 2000));
    assert_eq!(descriptor.bound_labels, None);
    assert_eq!(descriptor.color, Color::Rgb(48, 226, 173));
    assert_eq!(descriptor.graph_type, GraphType::Line);
    assert_eq!(descriptor.marker, Marker::Dot);
    assert_eq!(descriptor.border_color, Some(Color::Rgb(117, 255, 0)));
    assert_eq!(descriptor.panel_color, None);
    assert_eq!(descriptor.heading, Some("NVIDIA GPU Monitor "));
}

#[test]
fn temperature_descriptor() {
    let descriptor = Metric::Temperature.descriptor();
    assert_eq!(descriptor.metric, Metric::Temperature);
    assert_eq!(descriptor.name, "GPU Temp");
    assert_eq!(descriptor.title, "Temp");
    assert_eq!(descriptor.unit, "\u{b0}C");
    assert_eq!((descriptor.lower, descriptor.upper), (20, 85));
    assert_eq!(descriptor.bound_labels, Some(("20", "85")));
    assert_eq!(descriptor.color, Color::Rgb(48, 226, 173));
    assert_eq!(descriptor.graph_type, GraphType::Line);
    assert_eq!(descriptor.marker, Marker::Dot);
    assert_eq!(descriptor.border_color, None);
    assert_eq!(descriptor.panel_color, Some(Color::Cyan));
    assert_eq!(descriptor.heading, None);
}

#[test]
fn snapshot_reading_picks_the_field_of_the_metric() {
    let snapshot = Snapshot { device_name: String::from("GPU"), core_clock_mhz: 1410, temperature_c: 63 };
    assert_eq!(snapshot.reading(Metric::CoreClock), 1410);
    assert_eq!(snapshot.reading(Metric::Temperature), 63);
}
