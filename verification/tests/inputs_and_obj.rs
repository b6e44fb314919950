use rendercore::input::{Inputs, UserInput};
use rendercore::obj::resolve_face_index;

#[test]
fn get_all_drains_the_queue_newest_first() {
    let mut inputs = Inputs::new();
    inputs.push(UserInput::CloseRequested);
    inputs.push(UserInput::CloseRequested);
    let drained = inputs.get_all();
    assert_eq!(drained, vec![UserInput::CloseRequested, UserInput::CloseRequested]);
    assert!(inputs.get_all().is_empty());
}

#[test]
fn positive_face_entries_are_one_based() {
    assert_eq!(resolve_face_index(1, 0), 0);
    assert_eq!(resolve_face_index(4, 9), 3);
}

#[test]
fn negative_face_entries_are_relative_to_the_running_count() {
    assert_eq!(resolve_face_index(-1, 9), 10);
    assert_eq!(resolve_face_index(-3, 12), 15);
}
