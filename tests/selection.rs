use blaze_ssh::instance_details::{InstanceDetails, InstanceSet};
use blaze_ssh::stateful_list::StatefulList;
use blaze_ssh::ui::{event_for_key, Key, Phase, SelectionError, Ui, UiEvent};

fn named(name: &str) -> InstanceDetails {
    InstanceDetails {
        public_ip: None,
        private_ip: None,
        instance_id: None,
        instance_name: Some(String::from(name)),
    }
}

fn three() -> InstanceSet {
    InstanceSet::new(vec![named("a"), named("b"), named("c")])
}

#[test]
fn next_wraps_after_n_steps() {
    for start in 0..3usize {
        let mut l = StatefulList::with_items(vec![1, 2, 3]);
        l.selected = Some(start);
        for _ in 0..3 {
            l.next();
        }
        assert_eq!(l.selected, Some(start));
    }
}

#[test]
fn previous_wraps_after_n_steps() {
    for start in 0..3usize {
        let mut l = StatefulList::with_items(vec![1, 2, 3]);
        l.selected = Some(start);
        for _ in 0..3 {
            l.previous();
        }
        assert_eq!(l.selected, Some(start));
    }
}

#[test]
fn cursor_wraps_at_both_ends() {
    let mut l = StatefulList::with_items(vec!['x', 'y']);
    assert_eq!(l.selected, Some(0));
    l.previous();
    assert_eq!(l.selected, Some(1));
    l.next();
    assert_eq!(l.selected, Some(0));
    l.last();
    assert_eq!(l.selected, Some(1));
    l.first();
    assert_eq!(l.selected, Some(0));
}

#[test]
fn empty_list_does_not_move() {
    let mut l: StatefulList<u8> = StatefulList::with_items(vec![]);
    assert_eq!(l.selected, None);
    l.next();
    l.previous();
    l.last();
    l.first();
    assert_eq!(l.selected, None);
}

#[test]
fn confirm_commits_the_highlighted_record() {
    let mut ui = Ui::new(three(), String::from("cfg"));
    assert_eq!(ui.outcome(), None);
    ui.handle_event(UiEvent::ListNext);
    ui.handle_event(UiEvent::Noop);
    ui.handle_event(UiEvent::Selected);
    assert_eq!(ui.phase, Phase::Committed(1));
    assert!(ui.is_finished());
    assert_eq!(ui.outcome(), Some(Ok(named("b"))));
    ui.handle_event(UiEvent::ListNext);
    ui.handle_event(UiEvent::Quit);
    assert_eq!(ui.outcome(), Some(Ok(named("b"))));
}

#[test]
fn quit_cancels() {
    let mut ui = Ui::new(three(), String::new());
    ui.handle_event(UiEvent::ListPrevious);
    ui.handle_event(UiEvent::Quit);
    assert_eq!(ui.phase, Phase::Cancelled);
    assert_eq!(ui.outcome(), Some(Err(SelectionError::Cancelled)));
    ui.handle_event(UiEvent::Selected);
    assert_eq!(ui.outcome(), Some(Err(SelectionError::Cancelled)));
}

#[test]
fn confirm_on_empty_list_never_commits() {
    let mut ui = Ui::new(InstanceSet::new(vec![]), String::new());
    ui.handle_event(UiEvent::Selected);
    ui.handle_event(UiEvent::ListNext);
    ui.handle_event(UiEvent::Selected);
    assert_eq!(ui.phase, Phase::Browsing);
    assert_eq!(ui.outcome(), Some(Err(SelectionError::Empty)));
}

#[test]
fn labels_are_display_names() {
    let ui = Ui::new(three(), String::new());
    assert_eq!(ui.list.items.len(), 3);
    assert_eq!(ui.list.items[2].0, named("c").display_name());
    assert_eq!(ui.list.items[2].1, named("c"));
}

#[test]
fn keys_map_to_events() {
    assert_eq!(event_for_key(Key::Char('q')), UiEvent::Quit);
    assert_eq!(event_for_key(Key::Esc), UiEvent::Quit);
    assert_eq!(event_for_key(Key::Char('j')), UiEvent::ListNext);
    assert_eq!(event_for_key(Key::Down), UiEvent::ListNext);
    assert_eq!(event_for_key(Key::Char('k')), UiEvent::ListPrevious);
    assert_eq!(event_for_key(Key::Up), UiEvent::ListPrevious);
    assert_eq!(event_for_key(Key::Enter), UiEvent::Selected);
    assert_eq!(event_for_key(Key::Char('x')), UiEvent::Noop);
    assert_eq!(event_for_key(Key::Other), UiEvent::Noop);
}

#[test]
fn render_rows_flag_the_cursor_only() {
    let mut ui = Ui::new(three(), String::new());
    ui.handle_event(UiEvent::ListPrevious);
    let rows = ui.render_rows();
    assert_eq!(rows.len(), 3);
    assert_eq!(rows[0], (named("a").display_name(), false));
    assert_eq!(rows[1].1, false);
    assert_eq!(rows[2], (named("c").display_name(), true));
    assert_eq!(ui.list.selected, Some(2));
}
