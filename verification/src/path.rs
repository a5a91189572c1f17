use vstd::prelude::*;
use lyon::math::Point;

verus! {

/// One drawing command of a vector path, in the order they are replayed.
///
/// Coordinates are opaque single-precision points: the engine stores them and
/// hands them to the tessellator, and never computes with them on the CPU.
#[derive(Copy, Clone)]
pub enum PathCmd {
    /// Start a new contour at the given point.
    MoveTo { to: Point },
    /// Straight edge from the current point.
    LineTo { to: Point },
    /// Quadratic bezier edge from the current point.
    QuadraticTo { ctrl: Point, to: Point },
    /// Cubic bezier edge from the current point.
    CubicTo { ctrl1: Point, ctrl2: Point, to: Point },
    /// Close the current contour back to its first point.
    Close,
}

/// One edge or contour boundary of a path, with every endpoint made explicit.
///
/// This is the form the fill tessellator consumes: each edge carries the point
/// it leaves from, and each contour is bracketed by `Begin` and `End`.
#[derive(Copy, Clone)]
pub enum FillEvent {
    Begin { at: Point },
    Line { from: Point, to: Point },
    Quadratic { from: Point, ctrl: Point, to: Point },
    Cubic { from: Point, ctrl1: Point, ctrl2: Point, to: Point },
    End { last: Point, first: Point, close: bool },
}

/// The events that terminate an open contour, if one is open.
///
/// `st` is the converter state: `None` when no contour is open, otherwise the
/// contour's first point and the current point.
pub open spec fn end_events(st: Option<(Point, Point)>) -> Seq<FillEvent> {
    match st {
        None => Seq::empty(),
        Some((first, cur)) => seq![FillEvent::End { last: cur, first: first, close: false }],
    }
}

/// Replay of path commands into fill events, from state `st`.
///
/// Returns `None` when a command draws or closes while no contour is open:
/// such a path is malformed and is rejected at upload time.
pub open spec fn events_rec(
    cmds: Seq<PathCmd>,
    st: Option<(Point, Point)>,
) -> Option<Seq<FillEvent>>
    decreases cmds.len(),
{
    if cmds.len() == 0 {
        Some(end_events(st))
    } else {
        match cmds[0] {
            PathCmd::MoveTo { to } => match events_rec(cmds.drop_first(), Some((to, to))) {
                None => None,
                Some(tail) => Some(end_events(st) + seq![FillEvent::Begin { at: to }] + tail),
            },
            PathCmd::LineTo { to } => match st {
                None => None,
                Some((first, cur)) => match events_rec(cmds.drop_first(), Some((first, to))) {
                    None => None,
                    Some(tail) => Some(seq![FillEvent::Line { from: cur, to: to }] + tail),
                },
            },
            PathCmd::QuadraticTo { ctrl, to } => match st {
                None => None,
                Some((first, cur)) => match events_rec(cmds.drop_first(), Some((first, to))) {
                    None => None,
                    Some(tail) => Some(
                        seq![FillEvent::Quadratic { from: cur, ctrl: ctrl, to: to }] + tail,
                    ),
                },
            },
            PathCmd::CubicTo { ctrl1, ctrl2, to } => match st {
                None => None,
                Some((first, cur)) => match events_rec(cmds.drop_first(), Some((first, to))) {
                    None => None,
                    Some(tail) => Some(
                        seq![FillEvent::Cubic { from: cur, ctrl1: ctrl1, ctrl2: ctrl2, to: to }]
                            + tail,
                    ),
                },
            },
            PathCmd::Close => match st {
                None => None,
                Some((first, cur)) => match events_rec(cmds.drop_first(), None) {
                    None => None,
                    Some(tail) => Some(
                        seq![FillEvent::End { last: cur, first: first, close: true }] + tail,
                    ),
                },
            },
        }
    }
}

/// The fill events a command sequence describes, or `None` when the path is
/// malformed: empty, or drawing or closing while no contour is open.
pub open spec fn path_events(cmds: Seq<PathCmd>) -> Option<Seq<FillEvent>> {
    if cmds.len() == 0 {
        None
    } else {
        events_rec(cmds, None)
    }
}

/// Convert path commands into explicit fill events.
///
/// Rejects the malformed paths that [`path_events`] rejects, and returns
/// exactly the event sequence it describes otherwise.
pub fn events_of_path(cmds: &Vec<PathCmd>) -> (r: Option<Vec<FillEvent>>)
    ensures
        match r {
            Some(evs) => path_events(cmds@) == Some(evs@),
            None => path_events(cmds@) == None::<Seq<FillEvent>>,
        },
{
    if cmds.len() == 0 {
        return None;
    }
    let mut acc: Vec<FillEvent> = Vec::new();
    let mut st: Option<(Point, Point)> = None;
    let mut i: usize = 0;
    proof {
        assert(cmds@.skip(0) =~= cmds@);
        match events_rec(cmds@, None) {
            None => {},
            Some(tail) => {
                assert(Seq::<FillEvent>::empty() + tail =~= tail);
            },
        }
    }
    while i < cmds.len()
        invariant
            0 <= i <= cmds@.len(),
            cmds@.len() > 0,
            match events_rec(cmds@.skip(i as int), st) {
                None => events_rec(cmds@, None) == None::<Seq<FillEvent>>,
                Some(tail) => events_rec(cmds@, None) == Some(acc@ + tail),
            },
        decreases cmds@.len() - i,
    {
        let ghost st0 = st;
        let ghost acc0 = acc@;
        proof {
            assert(cmds@.skip(i as int).len() > 0);
            assert(cmds@.skip(i as int)[0] == cmds@[i as int]);
            assert(cmds@.skip(i as int).drop_first() =~= cmds@.skip(i as int + 1));
        }
        match cmds[i] {
            PathCmd::MoveTo { to } => {
                if let Some((first, cur)) = st {
                    acc.push(FillEvent::End { last: cur, first: first, close: false });
                }
                acc.push(FillEvent::Begin { at: to });
                proof {
                    assert(acc@ =~= acc0 + end_events(st0) + seq![FillEvent::Begin { at: to }]);
                    match events_rec(cmds@.skip(i as int + 1), Some((to, to))) {
                        None => {},
                        Some(tail) => {
                            assert(acc0 + (end_events(st0) + seq![FillEvent::Begin { at: to }]
                                + tail) =~= acc@ + tail);
                        },
                    }
                }
                st = Some((to, to));
            },
            PathCmd::LineTo { to } => {
                match st {
                    None => {
                        return None;
                    },
                    Some((first, cur)) => {
                        acc.push(FillEvent::Line { from: cur, to: to });
                        proof {
                            match events_rec(cmds@.skip(i as int + 1), Some((first, to))) {
                                None => {},
                                Some(tail) => {
                                    assert(acc0 + (seq![FillEvent::Line { from: cur, to: to }]
                                        + tail) =~= acc@ + tail);
                                },
                            }
                        }
                        st = Some((first, to));
                    },
                }
            },
            PathCmd::QuadraticTo { ctrl, to } => {
                match st {
                    None => {
                        return None;
                    },
                    Some((first, cur)) => {
                        acc.push(FillEvent::Quadratic { from: cur, ctrl: ctrl, to: to });
                        proof {
                            match events_rec(cmds@.skip(i as int + 1), Some((first, to))) {
                                None => {},
                                Some(tail) => {
                                    assert(acc0 + (seq![FillEvent::Quadratic {
                                        from: cur,
                                        ctrl: ctrl,
                                        to: to,
                                    }] + tail) =~= acc@ + tail);
                                },
                            }
                        }
                        st = Some((first, to));
                    },
                }
            },
            PathCmd::CubicTo { ctrl1, ctrl2, to } => {
                match st {
                    None => {
                        return None;
                    },
                    Some((first, cur)) => {
                        acc.push(FillEvent::Cubic { from: cur, ctrl1: ctrl1, ctrl2: ctrl2, to: to });
                        proof {
                            match events_rec(cmds@.skip(i as int + 1), Some((first, to))) {
                                None => {},
                                Some(tail) => {
                                    assert(acc0 + (seq![FillEvent::Cubic {
                                        from: cur,
                                        ctrl1: ctrl1,
                                        ctrl2: ctrl2,
                                        to: to,
                                    }] + tail) =~= acc@ + tail);
                                },
                            }
                        }
                        st = Some((first, to));
                    },
                }
            },
            PathCmd::Close => {
                match st {
                    None => {
                        return None;
                    },
                    Some((first, cur)) => {
                        acc.push(FillEvent::End { last: cur, first: first, close: true });
                        proof {
                            match events_rec(cmds@.skip(i as int + 1), None::<(Point, Point)>) {
                                None => {},
                                Some(tail) => {
                                    assert(acc0 + (seq![FillEvent::End {
                                        last: cur,
                                        first: first,
                                        close: true,
                                    }] + tail) =~= acc@ + tail);
                                },
                            }
                        }
                        st = None;
                    },
                }
            },
        }
        i = i + 1;
    }
    let ghost st_end = st;
    let ghost acc0 = acc@;
    if let Some((first, cur)) = st {
        acc.push(FillEvent::End { last: cur, first: first, close: false });
    }
    proof {
        assert(cmds@.skip(cmds@.len() as int) =~= Seq::<PathCmd>::empty());
        assert(acc0 + end_events(st_end) =~= acc@);
    }
    Some(acc)
}

} // verus!
