use sokoban_editor::editor::{frame_sleep_millis, EditorAction, EditorEvent, EditorState, WindowEventKind};

#[test]
fn short_frames_sleep_the_rest() {
    assert_eq!(frame_sleep_millis(0), Some(16));
    assert_eq!(frame_sleep_millis(10), Some(6));
    assert_eq!(frame_sleep_millis(15), Some(1));
    assert_eq!(frame_sleep_millis(16), None);
    assert_eq!(frame_sleep_millis(1000), None);
}

#[test]
fn events_map_to_actions() {
    let mut state = EditorState::new();
    assert!(!state.resize && !state.exit);
    assert_eq!(state.run_event(EditorEvent::Window(WindowEventKind::CloseRequested)), EditorAction::Exit);
    assert_eq!(state.run_event(EditorEvent::Window(WindowEventKind::RedrawRequested)), EditorAction::Draw);
    assert_eq!(state.run_event(EditorEvent::MouseMotion), EditorAction::MouseMotion);
    assert_eq!(state.run_event(EditorEvent::Key { identified: true }), EditorAction::KeyPress);
    assert_eq!(state.run_event(EditorEvent::LoopExiting), EditorAction::Destroy);
    assert_eq!(state.run_event(EditorEvent::AboutToWait), EditorAction::Nothing);
    assert!(!state.resize);
    assert_eq!(state.run_event(EditorEvent::Window(WindowEventKind::Resized)), EditorAction::Nothing);
    assert!(state.resize);
    assert!(!state.exit);
}
