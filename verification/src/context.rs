//! The drawing model: the commands the widget issues against a 2D context,
//! the kinds of pointer events that drive it, and a mathematical model of
//! the context state that the commands act on.

use vstd::prelude::*;

verus! {

/// Width of the fixed logical drawing region cleared by a fill.
pub const SURFACE_WIDTH: i32 = 400;

/// Height of the fixed logical drawing region cleared by a fill.
pub const SURFACE_HEIGHT: i32 = 400;

/// A stroke style. The context starts out with `Black`; a release always
/// switches to the fixed `Red`.
#[derive(Clone, Copy, Debug, PartialEq, Eq, Structural)]
pub enum StrokeColor {
    Black,
    Red,
}

/// One primitive operation on the 2D drawing context. The host executes
/// these, in order, against the real context.
#[derive(Clone, Copy, Debug, PartialEq, Eq, Structural)]
pub enum DrawCmd {
    BeginPath,
    MoveTo { x: i32, y: i32 },
    LineTo { x: i32, y: i32 },
    Stroke,
    SetStrokeColor { color: StrokeColor },
    ClearRect { x: i32, y: i32, width: i32, height: i32 },
}

/// A pointer event's position, in surface coordinates.
#[derive(Clone, Copy, Debug, PartialEq, Eq, Structural)]
pub struct PointerEvent {
    pub x: i32,
    pub y: i32,
}

/// The kind of a pointer event, which doubles as the key under which the
/// corresponding subscription is registered.
#[derive(Clone, Copy, Debug, PartialEq, Eq, Structural)]
pub enum EventKind {
    Press,
    Move,
    Release,
}

/// A line segment rendered by a stroke, with the style it was stroked in.
pub struct Segment {
    pub start: (i32, i32),
    pub end: (i32, i32),
    pub color: StrokeColor,
}

/// Model of the 2D context: the current subpath (as the points visited by
/// the latest begin-path / move-to / line-to operations), the current stroke
/// style, every segment stroked so far, and every rectangle cleared so far.
///
/// The widget begins a fresh path before every move-to, so a single current
/// subpath models the context exactly for the command sequences the widget
/// emits. A stroke paints the whole current path and leaves it in place,
/// as the real context does.
pub struct CanvasState {
    pub path: Seq<(i32, i32)>,
    pub color: StrokeColor,
    pub stroked: Seq<Segment>,
    pub cleared: Seq<(i32, i32, i32, i32)>,
}

/// The segments a stroke renders from a path: one per adjacent pair of
/// points, in the given style.
pub open spec fn path_segments(path: Seq<(i32, i32)>, color: StrokeColor) -> Seq<Segment> {
    if path.len() <= 1 {
        Seq::empty()
    } else {
        Seq::new((path.len() - 1) as nat, |i: int| (Segment { start: path[i], end: path[i + 1], color }))
    }
}

/// The effect of one command on the context model. A line-to on an empty
/// path starts the path at the target point, as the real context does.
pub open spec fn apply_cmd(state: CanvasState, cmd: DrawCmd) -> CanvasState {
    match cmd {
        DrawCmd::BeginPath => CanvasState {
            path: Seq::empty(),
            color: state.color,
            stroked: state.stroked,
            cleared: state.cleared,
        },
        DrawCmd::MoveTo { x, y } => CanvasState {
            path: seq![(x, y)],
            color: state.color,
            stroked: state.stroked,
            cleared: state.cleared,
        },
        DrawCmd::LineTo { x, y } => CanvasState {
            path: if state.path.len() == 0 {
                seq![(x, y)]
            } else {
                state.path.push((x, y))
            },
            color: state.color,
            stroked: state.stroked,
            cleared: state.cleared,
        },
        DrawCmd::Stroke => CanvasState {
            path: state.path,
            color: state.color,
            stroked: state.stroked + path_segments(state.path, state.color),
            cleared: state.cleared,
        },
        DrawCmd::SetStrokeColor { color } => CanvasState {
            path: state.path,
            color: color,
            stroked: state.stroked,
            cleared: state.cleared,
        },
        DrawCmd::ClearRect { x, y, width, height } => CanvasState {
            path: state.path,
            color: state.color,
            stroked: state.stroked,
            cleared: state.cleared.push((x, y, width, height)),
        },
    }
}

/// The effect of a command sequence, applied left to right.
pub open spec fn apply_cmds(state: CanvasState, cmds: Seq<DrawCmd>) -> CanvasState
    decreases cmds.len(),
{
    if cmds.len() == 0 {
        state
    } else {
        apply_cmd(apply_cmds(state, cmds.drop_last()), cmds.last())
    }
}

/// The pointer state machine's transition on the pressed flag: a press
/// raises it, a release lowers it, a move leaves it alone.
pub open spec fn step_pressed(pressed: bool, kind: EventKind) -> bool {
    match kind {
        EventKind::Press => true,
        EventKind::Release => false,
        EventKind::Move => pressed,
    }
}

/// The commands the widget issues for one pointer event, given the pressed
/// flag before the event.
pub open spec fn event_cmds(pressed: bool, kind: EventKind, x: i32, y: i32) -> Seq<DrawCmd> {
    match kind {
        EventKind::Press => seq![DrawCmd::BeginPath, (DrawCmd::MoveTo { x, y })],
        EventKind::Move => if pressed {
            seq![
                (DrawCmd::LineTo { x, y }),
                DrawCmd::Stroke,
                DrawCmd::BeginPath,
                (DrawCmd::MoveTo { x, y }),
            ]
        } else {
            Seq::empty()
        },
        EventKind::Release => seq![
            (DrawCmd::SetStrokeColor { color: StrokeColor::Red }),
            (DrawCmd::LineTo { x, y }),
            DrawCmd::Stroke,
        ],
    }
}

/// The pressed flag after a whole history of pointer events.
pub open spec fn pressed_after(init: bool, kinds: Seq<EventKind>) -> bool
    decreases kinds.len(),
{
    if kinds.len() == 0 {
        init
    } else {
        step_pressed(pressed_after(init, kinds.drop_last()), kinds.last())
    }
}

/// After any history of pointer events, however long, the pressed flag is
/// true immediately after a press, false immediately after a release, and
/// unchanged by a move: the position `i` in the history at which the event
/// arrives is arbitrary.
pub proof fn lemma_pressed_history(init: bool, kinds: Seq<EventKind>, i: int)
    requires
        0 <= i < kinds.len(),
    ensures
        kinds[i] == EventKind::Press ==> pressed_after(init, kinds.take(i + 1)),
        kinds[i] == EventKind::Release ==> !pressed_after(init, kinds.take(i + 1)),
        kinds[i] == EventKind::Move ==> pressed_after(init, kinds.take(i + 1)) == pressed_after(
            init,
            kinds.take(i),
        ),
{
    assert(kinds.take(i + 1).drop_last() =~= kinds.take(i));
    assert(kinds.take(i + 1).last() == kinds[i]);
}

/// Unrolling a command sequence from the right.
proof fn lemma_apply_cmds_push(state: CanvasState, cmds: Seq<DrawCmd>, cmd: DrawCmd)
    ensures
        apply_cmds(state, cmds.push(cmd)) == apply_cmd(apply_cmds(state, cmds), cmd),
{
    assert(cmds.push(cmd).drop_last() =~= cmds);
    assert(cmds.push(cmd).last() == cmd);
}

/// A press followed immediately by a release strokes exactly one new
/// segment, from the press point to the release point, in the fixed
/// release color — whatever the context held before, and whether or not
/// the pointer was already pressed.
pub proof fn lemma_press_release_one_segment(
    state: CanvasState,
    pressed: bool,
    px: i32,
    py: i32,
    rx: i32,
    ry: i32,
)
    ensures
        ({
            let cmds = event_cmds(pressed, EventKind::Press, px, py) + event_cmds(
                step_pressed(pressed, EventKind::Press),
                EventKind::Release,
                rx,
                ry,
            );
            apply_cmds(state, cmds).stroked == state.stroked.push(
                (Segment { start: (px, py), end: (rx, ry), color: StrokeColor::Red }),
            )
        }),
{
    let c1 = DrawCmd::BeginPath;
    let c2 = DrawCmd::MoveTo { x: px, y: py };
    let c3 = DrawCmd::SetStrokeColor { color: StrokeColor::Red };
    let c4 = DrawCmd::LineTo { x: rx, y: ry };
    let c5 = DrawCmd::Stroke;
    let cmds = event_cmds(pressed, EventKind::Press, px, py) + event_cmds(
        step_pressed(pressed, EventKind::Press),
        EventKind::Release,
        rx,
        ry,
    );
    let empty = Seq::<DrawCmd>::empty();
    assert(cmds =~= empty.push(c1).push(c2).push(c3).push(c4).push(c5));
    let s0 = apply_cmds(state, empty);
    assert(s0 == state);
    lemma_apply_cmds_push(state, empty, c1);
    let s1 = apply_cmd(s0, c1);
    lemma_apply_cmds_push(state, empty.push(c1), c2);
    let s2 = apply_cmd(s1, c2);
    lemma_apply_cmds_push(state, empty.push(c1).push(c2), c3);
    let s3 = apply_cmd(s2, c3);
    lemma_apply_cmds_push(state, empty.push(c1).push(c2).push(c3), c4);
    let s4 = apply_cmd(s3, c4);
    lemma_apply_cmds_push(state, empty.push(c1).push(c2).push(c3).push(c4), c5);
    let s5 = apply_cmd(s4, c5);
    assert(apply_cmds(state, cmds) == s5);
    assert(s2.path =~= seq![(px, py)]);
    assert(s4.path =~= seq![(px, py), (rx, ry)]);
    assert(s4.color == StrokeColor::Red);
    assert(path_segments(s4.path, StrokeColor::Red) =~= seq![
        (Segment { start: (px, py), end: (rx, ry), color: StrokeColor::Red }),
    ]);
    assert(s5.stroked =~= state.stroked.push(
        (Segment { start: (px, py), end: (rx, ry), color: StrokeColor::Red }),
    ));
}

/// A fill's clear command erases exactly the fixed logical region at the
/// origin and touches nothing else in the context: the path, the stroke
/// style and everything stroked so far are untouched, and exactly one more
/// rectangle — the 400 by 400 one at the origin — has been cleared.
pub proof fn lemma_fill_clears_fixed_region(state: CanvasState)
    ensures
        ({
            let after = apply_cmd(
                state,
                (DrawCmd::ClearRect { x: 0, y: 0, width: SURFACE_WIDTH, height: SURFACE_HEIGHT }),
            );
            &&& after.path == state.path
            &&& after.color == state.color
            &&& after.stroked == state.stroked
            &&& after.cleared == state.cleared.push((0, 0, 400, 400))
        }),
{
}

} // verus!
