use vstd::prelude::*;
use crate::path::FillEvent;
use lyon::math::Point;

verus! {

#[verifier::external_type_specification]
#[verifier::external_body]
#[verifier::reject_recursive_types(Endpoint)]
#[verifier::reject_recursive_types(ControlPoint)]
pub struct ExEvent<Endpoint, ControlPoint>(lyon::path::Event<Endpoint, ControlPoint>);

#[verifier::external_type_specification]
#[verifier::external_body]
#[verifier::reject_recursive_types(T)]
#[verifier::reject_recursive_types(U)]
pub struct ExPoint2D<T, U>(lyon::geom::euclid::Point2D<T, U>);

#[verifier::external_type_specification]
#[verifier::external_body]
pub struct ExUnknownUnit(lyon::geom::euclid::UnknownUnit);

/// The library-level event a tessellator path event stands for.
pub uninterp spec fn event_rep(e: lyon::path::PathEvent) -> FillEvent;

/// What the fill tessellator produces for an event sequence: positions and
/// triangle indices, or `None` when tessellation fails. The result depends
/// on the events alone (the fill options are always the defaults).
pub uninterp spec fn fill_tessellation(events: Seq<FillEvent>) -> Option<(Seq<Point>, Seq<u16>)>;

/// Relies on lyon_path's `Event::Begin` constructor: carries the point through.
#[verifier::external_body]
fn ev_begin(at: Point) -> (r: lyon::path::PathEvent)
    ensures
        event_rep(r) == (FillEvent::Begin { at }),
{
    lyon::path::PathEvent::Begin { at }
}

/// Relies on lyon_path's `Event::Line` constructor: carries the points through.
#[verifier::external_body]
fn ev_line(from: Point, to: Point) -> (r: lyon::path::PathEvent)
    ensures
        event_rep(r) == (FillEvent::Line { from, to }),
{
    lyon::path::PathEvent::Line { from, to }
}

/// Relies on lyon_path's `Event::Quadratic` constructor: carries the points through.
#[verifier::external_body]
fn ev_quadratic(from: Point, ctrl: Point, to: Point) -> (r: lyon::path::PathEvent)
    ensures
        event_rep(r) == (FillEvent::Quadratic { from, ctrl, to }),
{
    lyon::path::PathEvent::Quadratic { from, ctrl, to }
}

/// Relies on lyon_path's `Event::Cubic` constructor: carries the points through.
#[verifier::external_body]
fn ev_cubic(from: Point, ctrl1: Point, ctrl2: Point, to: Point) -> (r: lyon::path::PathEvent)
    ensures
        event_rep(r) == (FillEvent::Cubic { from, ctrl1, ctrl2, to }),
{
    lyon::path::PathEvent::Cubic {
        from,
        ctrl1,
        ctrl2,
        to,
    }
}

/// Relies on lyon_path's `Event::End` constructor: carries the points and the
/// close flag through.
#[verifier::external_body]
fn ev_end(last: Point, first: Point, close: bool) -> (r: lyon::path::PathEvent)
    ensures
        event_rep(r) == (FillEvent::End { last, first, close }),
{
    lyon::path::PathEvent::End { last, first, close }
}

/// Relies on lyon_tessellation's `FillTessellator::tessellate` with the
/// default `FillOptions` and a `simple_builder` output: fills the path that
/// the events describe, or reports a tessellation error (degenerate input,
/// non-finite coordinates). Callers hand it event streams produced by
/// [`crate::path::events_of_path`].
#[verifier::external_body]
fn tessellate_fill(events: &Vec<lyon::path::PathEvent>) -> (r: Option<(Vec<Point>, Vec<u16>)>)
    ensures
        match r {
            Some(buffers) => fill_tessellation(
                events@.map_values(|e: lyon::path::PathEvent| event_rep(e)),
            ) == Some((buffers.0@, buffers.1@)),
            None => fill_tessellation(
                events@.map_values(|e: lyon::path::PathEvent| event_rep(e)),
            ) == None::<(Seq<Point>, Seq<u16>)>,
        },
{
    let mut buf: lyon::tessellation::VertexBuffers<Point, u16> =
        lyon::tessellation::VertexBuffers::new();
    let mut tess = lyon::tessellation::FillTessellator::new();
    let result = tess.tessellate(
        events.iter().cloned(),
        &lyon::tessellation::FillOptions::default(),
        &mut lyon::tessellation::geometry_builder::simple_builder(&mut buf),
    );
    match result {
        Ok(()) => Some((buf.vertices, buf.indices)),
        Err(_) => None,
    }
}

/// Build the tessellator's event values from the library's own.
fn lyon_events_of(events: &Vec<FillEvent>) -> (r: Vec<lyon::path::PathEvent>)
    ensures
        r@.len() == events@.len(),
        forall|i: int| 0 <= i < events@.len() ==> event_rep(r@[i]) == events@[i],
{
    let mut out: Vec<lyon::path::PathEvent> = Vec::new();
    let mut i: usize = 0;
    while i < events.len()
        invariant
            0 <= i <= events@.len(),
            out@.len() == i,
            forall|j: int| 0 <= j < i ==> event_rep(out@[j]) == events@[j],
        decreases events@.len() - i,
    {
        let ev = match events[i] {
            FillEvent::Begin { at } => ev_begin(at),
            FillEvent::Line { from, to } => ev_line(from, to),
            FillEvent::Quadratic { from, ctrl, to } => ev_quadratic(from, ctrl, to),
            FillEvent::Cubic { from, ctrl1, ctrl2, to } => ev_cubic(from, ctrl1, ctrl2, to),
            FillEvent::End { last, first, close } => ev_end(last, first, close),
        };
        out.push(ev);
        i = i + 1;
    }
    out
}

/// Tessellate the fill of an event sequence into positions and triangle
/// indices, exactly as [`fill_tessellation`] gives them.
pub fn tessellate_events(events: &Vec<FillEvent>) -> (r: Option<(Vec<Point>, Vec<u16>)>)
    ensures
        match r {
            Some(buffers) => fill_tessellation(events@) == Some((buffers.0@, buffers.1@)),
            None => fill_tessellation(events@) == None::<(Seq<Point>, Seq<u16>)>,
        },
{
    let lyon_events = lyon_events_of(events);
    proof {
        assert(lyon_events@.map_values(|e: lyon::path::PathEvent| event_rep(e)) =~= events@);
    }
    tessellate_fill(&lyon_events)
}

} // verus!
