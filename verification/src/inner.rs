//! The widget core: pointer state, the subscription registry, and the
//! handlers that turn pointer events into drawing commands.
//!
//! The host attaches a real listener for each event kind, hands the
//! resulting opaque token to [`Inner::add_closure`], and on shutdown detaches
//! exactly the tokens [`Inner::shutdown`] drains from the registry. The
//! registry is thus the single source of truth for what is attached, and
//! teardown is an explicit, idempotent operation.

use vstd::prelude::*;

use crate::context::{DrawCmd, EventKind, PointerEvent, SURFACE_HEIGHT, SURFACE_WIDTH};
use crate::context::{event_cmds, step_pressed, StrokeColor};

verus! {

/// An opaque handle to one attached listener, issued by the host when it
/// attaches the listener and handed back to it on teardown.
#[derive(Clone, Copy, Debug, PartialEq, Eq, Structural)]
pub struct Token {
    pub id: u64,
}

/// What can go wrong at the surface boundary.
#[derive(Clone, Copy, Debug, PartialEq, Eq, Structural)]
pub enum Error {
    /// The surface could not produce a usable 2D context.
    ContextUnavailable,
    /// The surface refused a listener subscription.
    ListenerAttachFailed,
    /// At least one listener could not be detached.
    ListenerDetachFailed,
}

/// The subscription registry: at most one token per event kind. Keys are
/// unique by construction; every stored token corresponds to one listener
/// the host currently has attached.
#[derive(Clone, Copy, Debug, PartialEq, Eq, Structural)]
pub struct ClosureSet {
    pub press: Option<Token>,
    pub pointer_move: Option<Token>,
    pub release: Option<Token>,
}

impl ClosureSet {
    /// The token registered under one event kind, if any.
    pub open spec fn entry(self, kind: EventKind) -> Option<Token> {
        match kind {
            EventKind::Press => self.press,
            EventKind::Move => self.pointer_move,
            EventKind::Release => self.release,
        }
    }

    /// The registered entries, as pairs, in the fixed order press, move,
    /// release.
    pub open spec fn entries(self) -> Seq<(EventKind, Token)> {
        opt_entry(EventKind::Press, self.press) + opt_entry(EventKind::Move, self.pointer_move)
            + opt_entry(EventKind::Release, self.release)
    }

    /// An empty registry.
    pub fn new() -> (s: ClosureSet)
        ensures
            s.entry(EventKind::Press) is None,
            s.entry(EventKind::Move) is None,
            s.entry(EventKind::Release) is None,
            s.entries().len() == 0,
    {
        let s = ClosureSet { press: None, pointer_move: None, release: None };
        proof {
            assert(s.entries() =~= Seq::<(EventKind, Token)>::empty());
        }
        s
    }

    /// Store `token` under `kind`, returning any token previously stored
    /// there so that the caller can detach its listener rather than leak it.
    pub fn register(&mut self, kind: EventKind, token: Token) -> (prior: Option<Token>)
        ensures
            final(self).entry(kind) == Some(token),
            kind != EventKind::Press ==> final(self).press == old(self).press,
            kind != EventKind::Move ==> final(self).pointer_move == old(self).pointer_move,
            kind != EventKind::Release ==> final(self).release == old(self).release,
            prior == old(self).entry(kind),
    {
        match kind {
            EventKind::Press => {
                let was = self.press;
                self.press = Some(token);
                was
            }
            EventKind::Move => {
                let was = self.pointer_move;
                self.pointer_move = Some(token);
                was
            }
            EventKind::Release => {
                let was = self.release;
                self.release = Some(token);
                was
            }
        }
    }

    /// Drain the registry: every stored entry is handed back, in the fixed
    /// order of `entries`, and nothing remains registered.
    pub fn take_all(&mut self) -> (drained: Vec<(EventKind, Token)>)
        ensures
            final(self).entry(EventKind::Press) is None,
            final(self).entry(EventKind::Move) is None,
            final(self).entry(EventKind::Release) is None,
            final(self).entries().len() == 0,
            drained@ == old(self).entries(),
    {
        let mut out: Vec<(EventKind, Token)> = Vec::new();
        match self.press {
            Some(t) => out.push((EventKind::Press, t)),
            None => {}
        }
        match self.pointer_move {
            Some(t) => out.push((EventKind::Move, t)),
            None => {}
        }
        match self.release {
            Some(t) => out.push((EventKind::Release, t)),
            None => {}
        }
        self.press = None;
        self.pointer_move = None;
        self.release = None;
        proof {
            assert(out@ =~= old(self).entries());
            assert(self.entries() =~= Seq::<(EventKind, Token)>::empty());
        }
        out
    }

    /// How many subscriptions are currently registered.
    pub fn len(&self) -> (n: usize)
        ensures
            n == self.entries().len(),
    {
        let mut n: usize = 0;
        if self.press.is_some() {
            n = n + 1;
        }
        if self.pointer_move.is_some() {
            n = n + 1;
        }
        if self.release.is_some() {
            n = n + 1;
        }
        n
    }
}

/// The entries contributed to `ClosureSet::entries` by one slot.
pub open spec fn opt_entry(kind: EventKind, token: Option<Token>) -> Seq<(EventKind, Token)> {
    match token {
        Some(t) => seq![(kind, t)],
        None => Seq::empty(),
    }
}

/// The widget itself: the pressed flag of the pointer state machine, and
/// the registry of live subscriptions. The pressed flag is true exactly
/// while a stroke is open, i.e. between a press and the next release.
pub struct Inner {
    pub pressed: bool,
    pub closures: ClosureSet,
}

impl Inner {
    /// A fresh widget: not pressed, nothing registered. Listeners are not
    /// attached here; construction is separate from activation.
    pub fn new() -> (inner: Inner)
        ensures
            !inner.pressed,
            inner.closures.entry(EventKind::Press) is None,
            inner.closures.entry(EventKind::Move) is None,
            inner.closures.entry(EventKind::Release) is None,
            inner.closures.entries().len() == 0,
    {
        Inner { pressed: false, closures: ClosureSet::new() }
    }

    /// Record that the host attached a listener for `kind` under `token`.
    /// Any token previously registered for `kind` is handed back so that
    /// the host can detach the old listener rather than leak it.
    pub fn add_closure(&mut self, kind: EventKind, token: Token) -> (prior: Option<Token>)
        ensures
            final(self).pressed == old(self).pressed,
            final(self).closures.entry(kind) == Some(token),
            kind != EventKind::Press ==> final(self).closures.press == old(self).closures.press,
            kind != EventKind::Move ==> final(self).closures.pointer_move == old(
                self,
            ).closures.pointer_move,
            kind != EventKind::Release ==> final(self).closures.release == old(
                self,
            ).closures.release,
            prior == old(self).closures.entry(kind),
    {
        self.closures.register(kind, token)
    }

    /// A press: open a fresh path at the event's position and raise the
    /// pressed flag. Any previously open path is abandoned unstroked.
    pub fn mouse_down(&mut self, event: PointerEvent) -> (cmds: Vec<DrawCmd>)
        ensures
            final(self).pressed,
            final(self).closures == old(self).closures,
            cmds@ == seq![DrawCmd::BeginPath, (DrawCmd::MoveTo { x: event.x, y: event.y })],
    {
        self.pressed = true;
        let mut cmds: Vec<DrawCmd> = Vec::new();
        cmds.push(DrawCmd::BeginPath);
        cmds.push(DrawCmd::MoveTo { x: event.x, y: event.y });
        proof {
            assert(cmds@ =~= seq![DrawCmd::BeginPath, (DrawCmd::MoveTo { x: event.x, y: event.y })]);
        }
        cmds
    }

    /// A move: while pressed, stroke one segment from the path cursor to
    /// the event's position and reopen the path there, so a long drag
    /// renders one short segment per event. While not pressed, do nothing
    /// at all: no command is issued and the flag is unchanged.
    pub fn mouse_move(&mut self, event: PointerEvent) -> (cmds: Vec<DrawCmd>)
        ensures
            final(self).pressed == old(self).pressed,
            final(self).closures == old(self).closures,
            old(self).pressed ==> cmds@ == seq![
                (DrawCmd::LineTo { x: event.x, y: event.y }),
                DrawCmd::Stroke,
                DrawCmd::BeginPath,
                (DrawCmd::MoveTo { x: event.x, y: event.y }),
            ],
            !old(self).pressed ==> cmds@ == Seq::<DrawCmd>::empty(),
    {
        let mut cmds: Vec<DrawCmd> = Vec::new();
        if self.pressed {
            cmds.push(DrawCmd::LineTo { x: event.x, y: event.y });
            cmds.push(DrawCmd::Stroke);
            cmds.push(DrawCmd::BeginPath);
            cmds.push(DrawCmd::MoveTo { x: event.x, y: event.y });
            proof {
                assert(cmds@ =~= seq![
                    (DrawCmd::LineTo { x: event.x, y: event.y }),
                    DrawCmd::Stroke,
                    DrawCmd::BeginPath,
                    (DrawCmd::MoveTo { x: event.x, y: event.y }),
                ]);
            }
        } else {
            proof {
                assert(cmds@ =~= Seq::<DrawCmd>::empty());
            }
        }
        cmds
    }

    /// A release: lower the pressed flag, switch to the fixed release
    /// color, and stroke a final segment to the event's position. As in
    /// the state machine's idle-release edge, this draws even when the
    /// flag was already down; on an empty path the line-to starts the path
    /// at the event's position, so such a stroke renders nothing.
    pub fn mouse_up(&mut self, event: PointerEvent) -> (cmds: Vec<DrawCmd>)
        ensures
            !final(self).pressed,
            final(self).closures == old(self).closures,
            cmds@ == seq![
                (DrawCmd::SetStrokeColor { color: StrokeColor::Red }),
                (DrawCmd::LineTo { x: event.x, y: event.y }),
                DrawCmd::Stroke,
            ],
    {
        self.pressed = false;
        let mut cmds: Vec<DrawCmd> = Vec::new();
        cmds.push(DrawCmd::SetStrokeColor { color: StrokeColor::Red });
        cmds.push(DrawCmd::LineTo { x: event.x, y: event.y });
        cmds.push(DrawCmd::Stroke);
        proof {
            assert(cmds@ =~= seq![
                (DrawCmd::SetStrokeColor { color: StrokeColor::Red }),
                (DrawCmd::LineTo { x: event.x, y: event.y }),
                DrawCmd::Stroke,
            ]);
        }
        cmds
    }

    /// One step of the pointer state machine: route an event to its
    /// handler. The new pressed flag and the issued commands are exactly
    /// `step_pressed` and `event_cmds` of the old flag.
    pub fn dispatch(&mut self, kind: EventKind, event: PointerEvent) -> (cmds: Vec<DrawCmd>)
        ensures
            final(self).pressed == step_pressed(old(self).pressed, kind),
            final(self).closures == old(self).closures,
            cmds@ == event_cmds(old(self).pressed, kind, event.x, event.y),
    {
        match kind {
            EventKind::Press => self.mouse_down(event),
            EventKind::Move => self.mouse_move(event),
            EventKind::Release => self.mouse_up(event),
        }
    }

    /// Clear the fixed 400 by 400 logical region at the origin. Purely a
    /// command against the context: the receiver is shared, so neither the
    /// pressed flag nor the registry can change.
    pub fn fill(&self) -> (cmds: Vec<DrawCmd>)
        ensures
            cmds@ == seq![
                (DrawCmd::ClearRect { x: 0, y: 0, width: SURFACE_WIDTH, height: SURFACE_HEIGHT }),
            ],
    {
        let mut cmds: Vec<DrawCmd> = Vec::new();
        cmds.push(DrawCmd::ClearRect { x: 0, y: 0, width: SURFACE_WIDTH, height: SURFACE_HEIGHT });
        proof {
            assert(cmds@ =~= seq![
                (DrawCmd::ClearRect { x: 0, y: 0, width: SURFACE_WIDTH, height: SURFACE_HEIGHT }),
            ]);
        }
        cmds
    }

    /// Tear down: drain the registry and hand every drained entry to the
    /// host for detachment. Idempotent: once the registry is empty, a
    /// further call drains nothing, so the host performs zero detach
    /// operations.
    pub fn shutdown(&mut self) -> (detached: Vec<(EventKind, Token)>)
        ensures
            final(self).pressed == old(self).pressed,
            final(self).closures.entry(EventKind::Press) is None,
            final(self).closures.entry(EventKind::Move) is None,
            final(self).closures.entry(EventKind::Release) is None,
            final(self).closures.entries().len() == 0,
            detached@ == old(self).closures.entries(),
            old(self).closures.entries().len() == 0 ==> detached@.len() == 0,
    {
        self.closures.take_all()
    }
}

/// Whether every detach attempt in a teardown succeeded.
pub open spec fn all_detached(outcomes: Seq<bool>) -> bool {
    forall|i: int| 0 <= i < outcomes.len() ==> outcomes[i]
}

/// The teardown policy over the host's per-entry detach outcomes: every
/// detach is attempted regardless of earlier failures, and afterwards the
/// result is a success exactly when every attempt succeeded, and the
/// detach failure otherwise.
pub fn detach_report(outcomes: &Vec<bool>) -> (r: Result<(), Error>)
    ensures
        r is Ok <==> all_detached(outcomes@),
        !all_detached(outcomes@) ==> r == Err::<(), Error>(Error::ListenerDetachFailed),
{
    let mut i: usize = 0;
    let mut ok = true;
    while i < outcomes.len()
        invariant
            0 <= i <= outcomes@.len(),
            ok <==> (forall|j: int| 0 <= j < i ==> outcomes@[j]),
        decreases outcomes@.len() - i,
    {
        if !outcomes[i] {
            ok = false;
        }
        i = i + 1;
    }
    if ok {
        Ok(())
    } else {
        Err(Error::ListenerDetachFailed)
    }
}

} // verus!
