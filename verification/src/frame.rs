//! What one frame of the dashboard shows, as plain values to be drawn.

use vstd::prelude::*;
use crate::chart::{projection, Axis, ChartPoint, TIME_ORIGIN, TIME_SPAN};
use crate::layout::{PanelAreas, Rect};
use crate::metric::{Metric, MetricDescriptor};

verus! {

/// A chart of one metric inside a bordered panel.
#[derive(Clone, Debug, PartialEq, Eq)]
pub struct ChartPanel {
    /// How the metric is shown.
    pub descriptor: MetricDescriptor,
    /// The heading, centred in the top border, if the panel has one.
    pub heading: Option<String>,
    /// The axis of time.
    pub time_axis: Axis,
    /// The points of the one dataset, oldest first.
    pub points: Vec<ChartPoint>,
}

/// One panel to draw.
#[derive(Clone, Debug, PartialEq, Eq)]
pub enum Panel {
    /// A border round a reserved, empty area.
    Reserved(Rect),
    /// A chart that fills the area, border included.
    Chart(Rect, ChartPanel),
}

/// The panels of one frame, in the order in which they are drawn.
#[derive(Clone, Debug, PartialEq, Eq)]
pub struct Frame {
    pub panels: Vec<Panel>,
}

/// The heading of a panel whose descriptor asks for the start `lead`, on a
/// device called `device`.
pub open spec fn heading_text(lead: Option<&'static str>, device: Seq<char>) -> Option<Seq<char>> {
    match lead {
        Some(lead) => Some(lead@ + device),
        None => None,
    }
}

impl ChartPanel {
    /// The heading as a sequence of characters.
    pub open spec fn heading_view(self) -> Option<Seq<char>> {
        match self.heading {
            Some(heading) => Some(heading@),
            None => None,
        }
    }

    /// The panel charts `metric` for the history `samples` on the device
    /// called `device`.
    pub open spec fn charts(self, metric: Metric, device: Seq<char>, samples: Seq<u32>) -> bool {
        &&& metric.described_by(self.descriptor)
        &&& self.heading_view() == heading_text(self.descriptor.heading, device)
        &&& self.time_axis.spans(TIME_ORIGIN, TIME_SPAN)
        &&& self.points@ == projection(samples)
    }
}

impl Panel {
    /// The area that the panel is drawn into.
    pub open spec fn area(self) -> Rect {
        match self {
            Panel::Reserved(area) => area,
            Panel::Chart(area, _) => area,
        }
    }
}

impl Frame {
    /// The frame is the dashboard for the given state, laid out on `areas`:
    /// first the borders of the two reserved panels at the bottom, then the
    /// core clock chart at the top left and the temperature chart at the top
    /// right.
    pub open spec fn is_dashboard(
        self,
        areas: PanelAreas,
        device: Seq<char>,
        core_clock: Seq<u32>,
        temperature: Seq<u32>,
    ) -> bool {
        &&& self.panels@.len() == 4
        &&& self.panels@[0] == Panel::Reserved(areas.bottom_left)
        &&& self.panels@[1] == Panel::Reserved(areas.bottom_right)
        &&& self.panels@[2] matches Panel::Chart(area, chart) && area == areas.top_left
            && chart.charts(Metric::CoreClock, device, core_clock)
        &&& self.panels@[3] matches Panel::Chart(area, chart) && area == areas.top_right
            && chart.charts(Metric::Temperature, device, temperature)
    }

    /// The areas that the four panels of a dashboard frame are drawn into.
    pub open spec fn areas(self) -> PanelAreas {
        PanelAreas {
            top_left: self.panels@[2].area(),
            top_right: self.panels@[3].area(),
            bottom_left: self.panels@[0].area(),
            bottom_right: self.panels@[1].area(),
        }
    }
}

} // verus!
