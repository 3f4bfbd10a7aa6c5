use playbook::dispatch::{classify, handle_key, handle_mouse, PointerTriggers, SingleCommand};
use playbook::event::{Event, Key, MouseButton, MouseEvent, MouseEventKind};
use playbook::geometry::Size;

fn press(column: u16, row: u16) -> MouseEvent {
    MouseEvent { kind: MouseEventKind::Down(MouseButton::Left), column, row }
}

#[test]
fn small_q_quits() {
    assert_eq!(handle_key(&Key::Char('q')), Some(SingleCommand::Quit));
}

#[test]
fn capital_q_quits() {
    assert_eq!(handle_key(&Key::Char('Q')), Some(SingleCommand::Quit));
}

#[test]
fn other_keys_do_nothing() {
    assert_eq!(handle_key(&Key::Char('x')), None);
    assert_eq!(handle_key(&Key::Char(' ')), None);
    assert_eq!(handle_key(&Key::Other), None);
}

#[test]
fn press_inside_maps_to_the_cell_one_up_and_left() {
    let dimensions = Size::from_sizes(25, 10);
    let triggers = PointerTriggers::press_only();
    assert_eq!(
        handle_mouse(&press(1, 1), &dimensions, &triggers),
        Some(SingleCommand::Switch { col: 0, row: 0 })
    );
    assert_eq!(
        handle_mouse(&press(25, 10), &dimensions, &triggers),
        Some(SingleCommand::Switch { col: 24, row: 9 })
    );
    assert_eq!(
        handle_mouse(&press(7, 3), &dimensions, &triggers),
        Some(SingleCommand::Switch { col: 6, row: 2 })
    );
}

#[test]
fn every_position_inside_maps_to_its_cell() {
    let dimensions = Size::from_sizes(4, 3);
    let triggers = PointerTriggers::press_only();
    for column in 1..=4u16 {
        for row in 1..=3u16 {
            assert_eq!(
                handle_mouse(&press(column, row), &dimensions, &triggers),
                Some(SingleCommand::Switch { col: column as usize - 1, row: row as usize - 1 })
            );
        }
    }
}

#[test]
fn press_on_the_border_does_nothing() {
    let dimensions = Size::from_sizes(4, 3);
    let triggers = PointerTriggers::press_only();
    assert_eq!(handle_mouse(&press(0, 0), &dimensions, &triggers), None);
    assert_eq!(handle_mouse(&press(0, 2), &dimensions, &triggers), None);
    assert_eq!(handle_mouse(&press(2, 0), &dimensions, &triggers), None);
    assert_eq!(handle_mouse(&press(5, 2), &dimensions, &triggers), None);
    assert_eq!(handle_mouse(&press(2, 4), &dimensions, &triggers), None);
    assert_eq!(handle_mouse(&press(5, 4), &dimensions, &triggers), None);
}

#[test]
fn press_far_outside_does_nothing() {
    let dimensions = Size::from_sizes(4, 3);
    let triggers = PointerTriggers::press_only();
    assert_eq!(handle_mouse(&press(u16::MAX, 1), &dimensions, &triggers), None);
    assert_eq!(handle_mouse(&press(1, u16::MAX), &dimensions, &triggers), None);
}

#[test]
fn empty_grid_has_no_cell_to_press() {
    let triggers = PointerTriggers::every_kind();
    assert_eq!(handle_mouse(&press(1, 1), &Size::from_sizes(0, 0), &triggers), None);
    assert_eq!(handle_mouse(&press(1, 1), &Size::from_sizes(3, 0), &triggers), None);
    assert_eq!(handle_mouse(&press(1, 1), &Size::from_sizes(0, 3), &triggers), None);
}

#[test]
fn press_only_ignores_movement_and_release() {
    let dimensions = Size::from_sizes(4, 3);
    let triggers = PointerTriggers::press_only();
    let moved = MouseEvent { kind: MouseEventKind::Moved, column: 2, row: 2 };
    let up = MouseEvent { kind: MouseEventKind::Up(MouseButton::Left), column: 2, row: 2 };
    assert_eq!(handle_mouse(&moved, &dimensions, &triggers), None);
    assert_eq!(handle_mouse(&up, &dimensions, &triggers), None);
}

#[test]
fn every_kind_takes_movement_press_and_release() {
    let dimensions = Size::from_sizes(4, 3);
    let triggers = PointerTriggers::every_kind();
    let expected = Some(SingleCommand::Switch { col: 1, row: 1 });
    let moved = MouseEvent { kind: MouseEventKind::Moved, column: 2, row: 2 };
    let up = MouseEvent { kind: MouseEventKind::Up(MouseButton::Left), column: 2, row: 2 };
    assert_eq!(handle_mouse(&moved, &dimensions, &triggers), expected);
    assert_eq!(handle_mouse(&up, &dimensions, &triggers), expected);
    assert_eq!(handle_mouse(&press(2, 2), &dimensions, &triggers), expected);
}

#[test]
fn other_buttons_and_kinds_never_switch() {
    let dimensions = Size::from_sizes(4, 3);
    let triggers = PointerTriggers::every_kind();
    let kinds = [
        MouseEventKind::Down(MouseButton::Right),
        MouseEventKind::Down(MouseButton::Middle),
        MouseEventKind::Up(MouseButton::Right),
        MouseEventKind::Up(MouseButton::Middle),
        MouseEventKind::Drag(MouseButton::Left),
        MouseEventKind::Drag(MouseButton::Right),
        MouseEventKind::ScrollDown,
        MouseEventKind::ScrollUp,
    ];
    for kind in kinds {
        let mouse = MouseEvent { kind, column: 2, row: 2 };
        assert_eq!(handle_mouse(&mouse, &dimensions, &triggers), None);
    }
}

#[test]
fn triggers_can_be_chosen_one_by_one() {
    let triggers = PointerTriggers { moved: true, pressed: false, released: false };
    assert!(triggers.accepts(&MouseEventKind::Moved));
    assert!(!triggers.accepts(&MouseEventKind::Down(MouseButton::Left)));
    assert!(!triggers.accepts(&MouseEventKind::Up(MouseButton::Left)));
    let triggers = PointerTriggers { moved: false, pressed: false, released: true };
    assert!(!triggers.accepts(&MouseEventKind::Moved));
    assert!(triggers.accepts(&MouseEventKind::Up(MouseButton::Left)));
}

#[test]
fn classify_tells_the_four_events_apart() {
    let dimensions = Size::from_sizes(4, 3);
    let triggers = PointerTriggers::press_only();
    assert_eq!(classify(&Event::Frame, &dimensions, &triggers), None);
    assert_eq!(classify(&Event::Resize(80, 24), &dimensions, &triggers), None);
    assert_eq!(
        classify(&Event::Key(Key::Char('q')), &dimensions, &triggers),
        Some(SingleCommand::Quit)
    );
    assert_eq!(classify(&Event::Key(Key::Char('w')), &dimensions, &triggers), None);
    assert_eq!(
        classify(&Event::Mouse(press(4, 3)), &dimensions, &triggers),
        Some(SingleCommand::Switch { col: 3, row: 2 })
    );
    assert_eq!(classify(&Event::Mouse(press(0, 3)), &dimensions, &triggers), None);
}

#[test]
fn names_of_the_commands() {
    assert_eq!(SingleCommand::Switch { col: 1, row: 2 }.to_string(), "Switch");
    assert_eq!(SingleCommand::Quit.to_string(), "Quit");
}
