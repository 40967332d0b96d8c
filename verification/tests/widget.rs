use canvas_art::{detach_report, DrawCmd, Error, EventKind, Inner, PointerEvent, StrokeColor, Token};

fn ev(x: i32, y: i32) -> PointerEvent {
    PointerEvent { x, y }
}

#[test]
fn pressed_tracks_press_and_release() {
    let mut inner = Inner::new();
    assert!(!inner.pressed);
    inner.mouse_down(ev(1, 1));
    assert!(inner.pressed);
    inner.mouse_move(ev(2, 2));
    assert!(inner.pressed);
    inner.mouse_up(ev(3, 3));
    assert!(!inner.pressed);
    inner.mouse_move(ev(4, 4));
    assert!(!inner.pressed);
    inner.mouse_up(ev(5, 5));
    assert!(!inner.pressed);
}

#[test]
fn press_then_release_strokes_one_red_segment() {
    let mut inner = Inner::new();
    let mut cmds = inner.mouse_down(ev(10, 10));
    cmds.extend(inner.mouse_up(ev(30, 40)));
    assert_eq!(
        cmds,
        vec![
            DrawCmd::BeginPath,
            DrawCmd::MoveTo { x: 10, y: 10 },
            DrawCmd::SetStrokeColor { color: StrokeColor::Red },
            DrawCmd::LineTo { x: 30, y: 40 },
            DrawCmd::Stroke,
        ]
    );
}

#[test]
fn move_while_not_pressed_is_a_no_op() {
    let mut inner = Inner::new();
    let cmds = inner.mouse_move(ev(50, 60));
    assert_eq!(cmds, Vec::new());
    assert!(!inner.pressed);
}

#[test]
fn shutdown_twice_second_detaches_nothing() {
    let mut inner = Inner::new();
    inner.add_closure(EventKind::Press, Token { id: 1 });
    inner.add_closure(EventKind::Move, Token { id: 2 });
    inner.add_closure(EventKind::Release, Token { id: 3 });
    let first = inner.shutdown();
    assert_eq!(first.len(), 3);
    let second = inner.shutdown();
    assert_eq!(second.len(), 0);
    let no_outcomes: Vec<bool> = Vec::new();
    assert_eq!(detach_report(&no_outcomes), Ok(()));
}

#[test]
fn shutdown_empties_a_full_registry() {
    let mut inner = Inner::new();
    inner.add_closure(EventKind::Press, Token { id: 7 });
    inner.add_closure(EventKind::Move, Token { id: 8 });
    inner.add_closure(EventKind::Release, Token { id: 9 });
    assert_eq!(inner.closures.len(), 3);
    let drained = inner.shutdown();
    assert_eq!(
        drained,
        vec![
            (EventKind::Press, Token { id: 7 }),
            (EventKind::Move, Token { id: 8 }),
            (EventKind::Release, Token { id: 9 }),
        ]
    );
    assert_eq!(inner.closures.len(), 0);
}

#[test]
fn register_hands_back_the_replaced_token() {
    let mut inner = Inner::new();
    assert_eq!(inner.add_closure(EventKind::Move, Token { id: 1 }), None);
    assert_eq!(inner.add_closure(EventKind::Move, Token { id: 2 }), Some(Token { id: 1 }));
    assert_eq!(inner.closures.len(), 1);
    let drained = inner.shutdown();
    assert_eq!(drained, vec![(EventKind::Move, Token { id: 2 })]);
}

#[test]
fn fill_clears_the_fixed_region_and_keeps_pressed() {
    let mut inner = Inner::new();
    let expected = vec![DrawCmd::ClearRect { x: 0, y: 0, width: 400, height: 400 }];
    assert_eq!(inner.fill(), expected);
    assert!(!inner.pressed);
    inner.mouse_down(ev(5, 5));
    assert_eq!(inner.fill(), expected);
    assert!(inner.pressed);
}

#[test]
fn end_to_end_press_move_release() {
    let mut inner = Inner::new();
    inner.add_closure(EventKind::Press, Token { id: 1 });
    inner.add_closure(EventKind::Move, Token { id: 2 });
    inner.add_closure(EventKind::Release, Token { id: 3 });

    let press_cmds = inner.dispatch(EventKind::Press, ev(10, 10));
    assert_eq!(press_cmds, vec![DrawCmd::BeginPath, DrawCmd::MoveTo { x: 10, y: 10 }]);
    assert!(inner.pressed);

    let move_cmds = inner.dispatch(EventKind::Move, ev(20, 20));
    assert_eq!(
        move_cmds,
        vec![
            DrawCmd::LineTo { x: 20, y: 20 },
            DrawCmd::Stroke,
            DrawCmd::BeginPath,
            DrawCmd::MoveTo { x: 20, y: 20 },
        ]
    );
    assert!(inner.pressed);

    let release_cmds = inner.dispatch(EventKind::Release, ev(30, 30));
    assert_eq!(
        release_cmds,
        vec![
            DrawCmd::SetStrokeColor { color: StrokeColor::Red },
            DrawCmd::LineTo { x: 30, y: 30 },
            DrawCmd::Stroke,
        ]
    );
    assert!(!inner.pressed);

    let drained = inner.shutdown();
    assert_eq!(drained.len(), 3);
}

#[test]
fn detach_report_is_ok_only_when_every_detach_succeeded() {
    assert_eq!(detach_report(&vec![true, true, true]), Ok(()));
    assert_eq!(detach_report(&vec![true, false, true]), Err(Error::ListenerDetachFailed));
    assert_eq!(detach_report(&vec![false]), Err(Error::ListenerDetachFailed));
}
