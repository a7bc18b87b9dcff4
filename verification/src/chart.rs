//! The description of a chart: its series, its layout, and the ranges of its
//! axes.

use crate::host::{custom_type, printed, type_to_string};
use crate::range::{merged, merged_is_none_iff_all_absent, take_in, Range};
use crate::series::{x_extents, y_extents, Color, Series2d};
use crate::error::{DecodeError, DecodeErrorView};
use crate::value::{Data, DataView, Payload, PayloadView, Span, Value, ValueView};
use nu_protocol::Type;
use vstd::prelude::*;

verus! {

/// A chart of two axes.
///
/// `margin` and `label_area` count pixels around the plot, in the order top,
/// right, bottom, left. A range that is `None` is worked out from the series
/// each time it is asked for.
#[derive(Debug, PartialEq, Eq)]
pub struct Chart2d {
    pub series: Vec<Series2d>,
    pub width: u32,
    pub height: u32,
    pub background: Option<Color>,
    pub caption: Option<String>,
    pub margin: [u32; 4],
    pub label_area: [u32; 4],
    pub x_range: Option<Range>,
    pub y_range: Option<Range>,
}

/// A chart as plain values.
pub struct ChartView {
    pub series: Seq<Series2d>,
    pub width: u32,
    pub height: u32,
    pub background: Option<Color>,
    pub caption: Option<Seq<char>>,
    pub margin: Seq<u32>,
    pub label_area: Seq<u32>,
    pub x_range: Option<Range>,
    pub y_range: Option<Range>,
}

impl View for Chart2d {
    type V = ChartView;

    open spec fn view(&self) -> ChartView {
        ChartView {
            series: self.series@,
            width: self.width,
            height: self.height,
            background: self.background,
            caption: match self.caption {
                Some(text) => Some(text@),
                None => None,
            },
            margin: self.margin@,
            label_area: self.label_area@,
            x_range: self.x_range,
            y_range: self.y_range,
        }
    }
}

impl ChartView {
    /// Whether the chart can be drawn: both of its dimensions are positive, and
    /// its margins and label areas have a number for each of the four sides.
    /// The fields are open, so nothing enforces it; the chart that nothing was
    /// said about has it, and encoding and decoding keep it.
    pub open spec fn is_valid(self) -> bool {
        &&& self.width > 0
        &&& self.height > 0
        &&& self.margin.len() == 4
        &&& self.label_area.len() == 4
    }

    /// The chart that nothing was said about: no series, 600 by 400 pixels, no
    /// background and no caption, margins of 5 pixels, room for labels below
    /// and to the left, and both ranges left to the series.
    pub open spec fn initial() -> ChartView {
        ChartView {
            series: Seq::empty(),
            width: 600,
            height: 400,
            background: None,
            caption: None,
            margin: seq![5u32, 5u32, 5u32, 5u32],
            label_area: seq![0u32, 0u32, 35u32, 35u32],
            x_range: None,
            y_range: None,
        }
    }

    /// The range of the x axis: the one that the chart names, or else the one
    /// that the x extents of its series merge into.
    pub open spec fn resolved_x(self) -> Option<Range> {
        match self.x_range {
            Some(range) => Some(range),
            None => merged(x_extents(self.series)),
        }
    }

    /// The range of the y axis: the one that the chart names, or else the one
    /// that the y extents of its series merge into.
    pub open spec fn resolved_y(self) -> Option<Range> {
        match self.y_range {
            Some(range) => Some(range),
            None => merged(y_extents(self.series)),
        }
    }
}

impl Default for Chart2d {
    fn default() -> (chart: Chart2d)
        ensures
            chart@ == ChartView::initial(),
            chart@.is_valid(),
    {
        let chart = Chart2d {
            series: Vec::new(),
            width: 600,
            height: 400,
            background: None,
            caption: None,
            margin: [5, 5, 5, 5],
            label_area: [0, 0, 35, 35],
            x_range: None,
            y_range: None,
        };
        assert(chart.margin@ =~= seq![5u32, 5u32, 5u32, 5u32]);
        assert(chart.label_area@ =~= seq![0u32, 0u32, 35u32, 35u32]);
        chart
    }
}

impl Chart2d {
    /// The range of the x axis.
    pub fn x_range(&self) -> (r: Option<Range>)
        ensures
            r == self@.resolved_x(),
    {
        if let Some(range) = self.x_range {
            return Some(range);
        }
        let ghost extents = x_extents(self.series@);
        let mut so_far: Option<Range> = None;
        let mut i: usize = 0;
        assert(extents.take(0) =~= Seq::empty());
        while i < self.series.len()
            invariant
                i <= self.series.len(),
                extents == x_extents(self.series@),
                so_far == merged(extents.take(i as int)),
            decreases self.series.len() - i,
        {
            assert(extents.take(i + 1).drop_last() =~= extents.take(i as int));
            so_far = take_in(so_far, self.series[i].x_range());
            i += 1;
        }
        assert(extents.take(i as int) =~= extents);
        so_far
    }

    /// The range of the y axis.
    pub fn y_range(&self) -> (r: Option<Range>)
        ensures
            r == self@.resolved_y(),
    {
        if let Some(range) = self.y_range {
            return Some(range);
        }
        let ghost extents = y_extents(self.series@);
        let mut so_far: Option<Range> = None;
        let mut i: usize = 0;
        assert(extents.take(0) =~= Seq::empty());
        while i < self.series.len()
            invariant
                i <= self.series.len(),
                extents == y_extents(self.series@),
                so_far == merged(extents.take(i as int)),
            decreases self.series.len() - i,
        {
            assert(extents.take(i + 1).drop_last() =~= extents.take(i as int));
            so_far = take_in(so_far, self.series[i].y_range());
            i += 1;
        }
        assert(extents.take(i as int) =~= extents);
        so_far
    }
}

/// The name under which the host knows a chart.
pub open spec fn chart_label() -> Seq<char> {
    "plotters::chart-2d"@
}

/// The result of decoding a chart, as plain values.
pub open spec fn plainly_chart(r: Result<Chart2d, DecodeError>) -> Result<ChartView, DecodeErrorView> {
    match r {
        Ok(chart) => Ok(chart@),
        Err(error) => Err(error@),
    }
}

impl ChartView {
    /// The handle that carries this chart to the host: a custom value under
    /// the chart's name, with the chart as its payload.
    pub open spec fn handle(self, span: Span) -> ValueView {
        ValueView { data: DataView::Custom(PayloadView::Chart(self)), type_label: chart_label(), span }
    }

    /// The chart that a dynamic value carries. Only a custom handle carries
    /// one, and only by what its payload is: a handle to a value of another
    /// custom type is an error that names both types, whatever that value
    /// looks like. A value that is no handle is an error too.
    pub open spec fn decoded(v: ValueView) -> Result<ChartView, DecodeErrorView> {
        match v.data {
            DataView::Custom(PayloadView::Chart(chart)) => Ok(chart),
            DataView::Custom(PayloadView::Foreign) => Err(v.mismatch(chart_label())),
            _ => Err(v.mismatch("custom value"@)),
        }
    }
}

impl Clone for Chart2d {
    fn clone(&self) -> (copy: Chart2d)
        ensures
            copy@ == self@,
    {
        let mut series: Vec<Series2d> = Vec::new();
        let mut i: usize = 0;
        while i < self.series.len()
            invariant
                i <= self.series.len(),
                series@ == self.series@.take(i as int),
            decreases self.series.len() - i,
        {
            series.push(self.series[i]);
            assert(series@ =~= self.series@.take(i + 1));
            i += 1;
        }
        assert(series@ =~= self.series@);
        Chart2d {
            series,
            width: self.width,
            height: self.height,
            background: self.background,
            caption: match &self.caption {
                Some(text) => Some(text.clone()),
                None => None,
            },
            margin: self.margin,
            label_area: self.label_area,
            x_range: self.x_range,
            y_range: self.y_range,
        }
    }
}

impl Chart2d {
    /// The host's type of a chart: a custom type under the chart's name.
    pub fn ty() -> (ty: Type)
        ensures
            printed(ty) == chart_label(),
    {
        custom_type("plotters::chart-2d")
    }

    /// The type that a chart is decoded from, as errors name it.
    pub fn expected_type() -> (ty: Type)
        ensures
            printed(ty) == chart_label(),
    {
        Chart2d::ty()
    }

    /// The name under which the host knows a chart.
    pub fn type_label(&self) -> (name: String)
        ensures
            name@ == chart_label(),
    {
        type_to_string(&Chart2d::ty())
    }

    /// Encodes the chart as a custom handle that carries a copy of it.
    pub fn clone_value(&self, span: Span) -> (v: Value)
        ensures
            v@ == self@.handle(span),
    {
        Value { data: Data::Custom(Payload::Chart(self.clone())), type_label: self.type_label(), span }
    }

    /// Decodes a chart from a dynamic value.
    pub fn from_value(v: Value) -> (r: Result<Chart2d, DecodeError>)
        ensures
            plainly_chart(r) == ChartView::decoded(v@),
    {
        let ghost plain = v@;
        let Value { data, type_label, span } = v;
        match data {
            Data::Custom(Payload::Chart(chart)) => Ok(chart),
            Data::Custom(Payload::Foreign) => Err(
                DecodeError::CantConvert {
                    to_type: type_to_string(&Chart2d::ty()),
                    from_type: type_label,
                    span,
                    help: None,
                },
            ),
            _ => Err(
                DecodeError::CantConvert {
                    to_type: String::from_str("custom value"),
                    from_type: type_label,
                    span,
                    help: None,
                },
            ),
        }
    }
}

/// A chart that is encoded and then decoded comes back as it was, field for
/// field, whatever the fields hold and wherever the handle stood.
pub proof fn decoding_inverts_encoding(chart: ChartView, span: Span)
    ensures
        ChartView::decoded(chart.handle(span)) == Ok::<ChartView, DecodeErrorView>(chart),
{
}

/// A handle to a value of another custom type is refused with an error that
/// names the chart's type and the other one, and the place of the handle.
pub proof fn foreign_handle_is_refused(v: ValueView)
    requires
        v.data == DataView::Custom(PayloadView::Foreign),
    ensures
        ChartView::decoded(v) == Err::<ChartView, DecodeErrorView>(
            DecodeErrorView::CantConvert {
                to_type: chart_label(),
                from_type: v.type_label,
                span: v.span,
                help: None,
            },
        ),
{
}

/// A range that the chart names is the range of the axis, whatever the series
/// hold.
pub proof fn named_range_wins(chart: ChartView)
    ensures
        chart.x_range is Some ==> chart.resolved_x() == chart.x_range,
        chart.y_range is Some ==> chart.resolved_y() == chart.y_range,
{
}

/// An axis has no range exactly when the chart names none and no series has an
/// extent along it.
pub proof fn no_range_iff_nothing_contributes(chart: ChartView)
    ensures
        chart.resolved_x() is None <==> chart.x_range is None && forall|i: int|
            0 <= i < chart.series.len() ==> (#[trigger] chart.series[i]).x_extent is None,
        chart.resolved_y() is None <==> chart.y_range is None && forall|i: int|
            0 <= i < chart.series.len() ==> (#[trigger] chart.series[i]).y_extent is None,
{
    let xs = x_extents(chart.series);
    let ys = y_extents(chart.series);
    merged_is_none_iff_all_absent(xs);
    merged_is_none_iff_all_absent(ys);
    assert forall|i: int| 0 <= i < chart.series.len() implies xs[i] == chart.series[i].x_extent
        && ys[i] == chart.series[i].y_extent by {}
    if forall|i: int| 0 <= i < chart.series.len() ==> (#[trigger] chart.series[i]).x_extent is None {
        assert forall|i: int| 0 <= i < xs.len() implies xs[i] is None by {
            assert(chart.series[i].x_extent is None);
        }
    }
    if forall|i: int| 0 <= i < chart.series.len() ==> (#[trigger] chart.series[i]).y_extent is None {
        assert forall|i: int| 0 <= i < ys.len() implies ys[i] is None by {
            assert(chart.series[i].y_extent is None);
        }
    }
    if forall|i: int| 0 <= i < xs.len() ==> xs[i] is None {
        assert forall|i: int| 0 <= i < chart.series.len() implies (
        #[trigger] chart.series[i]).x_extent is None by {
            assert(xs[i] is None);
        }
    }
    if forall|i: int| 0 <= i < ys.len() ==> ys[i] is None {
        assert forall|i: int| 0 <= i < chart.series.len() implies (
        #[trigger] chart.series[i]).y_extent is None by {
            assert(ys[i] is None);
        }
    }
}

} // verus!
