//! The tracked metrics, the per-frame snapshot, and how each metric is shown.

use vstd::prelude::*;

verus! {

/// A metric that the dashboard tracks; it names a field of a `Snapshot`.
#[derive(Clone, Copy, Debug, PartialEq, Eq, Structural)]
pub enum Metric {
    /// The graphics clock, in MHz.
    CoreClock,
    /// The temperature of the GPU die, in degrees Celsius.
    Temperature,
}

/// What the telemetry source reports for one frame.
#[derive(Clone, Debug, PartialEq, Eq)]
pub struct Snapshot {
    pub device_name: String,
    pub core_clock_mhz: u32,
    pub temperature_c: u32,
}

impl Snapshot {
    /// The field of the snapshot that `metric` names.
    pub open spec fn value(&self, metric: Metric) -> u32 {
        match metric {
            Metric::CoreClock => self.core_clock_mhz,
            Metric::Temperature => self.temperature_c,
        }
    }

    /// The reading of `metric` in this snapshot.
    pub fn reading(&self, metric: Metric) -> (reading: u32)
        ensures
            reading == self.value(metric),
    {
        match metric {
            Metric::CoreClock => self.core_clock_mhz,
            Metric::Temperature => self.temperature_c,
        }
    }
}

/// A colour of the terminal.
#[derive(Clone, Copy, Debug, PartialEq, Eq, Structural)]
pub enum Color {
    /// The terminal's own cyan.
    Cyan,
    /// A colour given by its red, green and blue parts.
    Rgb(u8, u8, u8),
}

/// The colour of every plotted line.
pub open spec fn teal() -> Color {
    Color::Rgb(48, 226, 173)
}

/// The colour of the border round the first chart.
pub open spec fn lime() -> Color {
    Color::Rgb(117, 255, 0)
}

/// How the points of a dataset are joined.
#[derive(Clone, Copy, Debug, PartialEq, Eq, Structural)]
pub enum GraphType {
    /// Points only.
    Scatter,
    /// Line segments from each point to the next.
    Line,
    /// A bar from the axis up to each point.
    Bar,
}

/// The glyph that marks a point.
#[derive(Clone, Copy, Debug, PartialEq, Eq, Structural)]
pub enum Marker {
    Dot,
    Block,
    Bar,
    Braille,
    HalfBlock,
}

/// How one metric is shown; fixed for each metric.
#[derive(Clone, Copy, Debug, PartialEq, Eq)]
pub struct MetricDescriptor {
    /// The snapshot field that feeds the chart.
    pub metric: Metric,
    /// The name of the dataset.
    pub name: &'static str,
    /// The title of the value axis.
    pub title: &'static str,
    /// The unit of the readings.
    pub unit: &'static str,
    /// The lower bound of the value axis.
    pub lower: u32,
    /// The upper bound of the value axis.
    pub upper: u32,
    /// The labels written at the two bounds, in bold, if any.
    pub bound_labels: Option<(&'static str, &'static str)>,
    /// The colour of the plotted line.
    pub color: Color,
    /// How the points are joined.
    pub graph_type: GraphType,
    /// The glyph at each point.
    pub marker: Marker,
    /// The colour of the panel's border lines, if not the terminal's own.
    pub border_color: Option<Color>,
    /// The colour of the whole panel, if not the terminal's own.
    pub panel_color: Option<Color>,
    /// What the heading of the panel starts with, if the panel has one; the
    /// device's name follows it.
    pub heading: Option<&'static str>,
}

impl Metric {
    /// What `descriptor` must hold to describe this metric.
    pub open spec fn described_by(self, descriptor: MetricDescriptor) -> bool {
        match self {
            Metric::CoreClock => {
                &&& descriptor.metric == Metric::CoreClock
                &&& descriptor.name@ == "GPU Clock"@
                &&& descriptor.title@ == "GPU Clock Speed"@
                &&& descriptor.unit@ == "MHz"@
                &&& descriptor.lower == 0
                &&& descriptor.upper == 2000
                &&& descriptor.bound_labels is None
                &&& descriptor.color == teal()
                &&& descriptor.graph_type == GraphType::Line
                &&& descriptor.marker == Marker::Dot
                &&& descriptor.border_color == Some(lime())
                &&& descriptor.panel_color == None::<Color>
                &&& descriptor.heading matches Some(heading) && heading@
                    == "NVIDIA GPU Monitor "@
            },
            Metric::Temperature => {
                &&& descriptor.metric == Metric::Temperature
                &&& descriptor.name@ == "GPU Temp"@
                &&& descriptor.title@ == "Temp"@
                &&& descriptor.unit@ == "°C"@
                &&& descriptor.lower == 20
                &&& descriptor.upper == 85
                &&& descriptor.bound_labels matches Some(labels) && labels.0@ == "20"@
                    && labels.1@ == "85"@
                &&& descriptor.color == teal()
                &&& descriptor.graph_type == GraphType::Line
                &&& descriptor.marker == Marker::Dot
                &&& descriptor.border_color == None::<Color>
                &&& descriptor.panel_color == Some(Color::Cyan)
                &&& descriptor.heading is None
            },
        }
    }

    /// How this metric is shown.
    pub fn descriptor(self) -> (descriptor: MetricDescriptor)
        ensures
            self.described_by(descriptor),
    {
        match self {
            Metric::CoreClock => MetricDescriptor {
                metric: Metric::CoreClock,
                name: "GPU Clock",
                title: "GPU Clock Speed",
                unit: "MHz",
                lower: 0,
                upper: 2000,
                bound_labels: None,
                color: Color::Rgb(48, 226, 173),
                graph_type: GraphType::Line,
                marker: Marker::Dot,
                border_color: Some(Color::Rgb(117, 255, 0)),
                panel_color: None,
                heading: Some("NVIDIA GPU Monitor "),
            },
            Metric::Temperature => MetricDescriptor {
                metric: Metric::Temperature,
                name: "GPU Temp",
                title: "Temp",
                unit: "°C",
                lower: 20,
                upper: 85,
                bound_labels: Some(("20", "85")),
                color: Color::Rgb(48, 226, 173),
                graph_type: GraphType::Line,
                marker: Marker::Dot,
                border_color: None,
                panel_color: Some(Color::Cyan),
                heading: None,
            },
        }
    }
}

} // verus!
