use ideas::event::Handler as KeyHandler;
use ideas::event::{Key, Persist};
use ideas::listing::Tone;
use ideas::state::Handler as StoreHandler;
use ideas::state::{App, Focus, Idea, Mode};

fn type_text(app: &mut App, text: &str) {
    for c in text.chars() {
        assert_eq!(app.handle_key_event(Key::Char(c)), Persist::Nothing);
    }
}

fn with_ideas(titles: &[&str], active: usize) -> App {
    let mut app = App::new();
    let ideas = titles.iter().map(|t| Idea::new(t, &format!("{} text", t))).collect();
    app.restore(ideas, active);
    app
}

fn titles(app: &App) -> Vec<String> {
    app.ideas.iter().map(|i| i.title.clone()).collect()
}

#[test]
fn new_app_browses_nothing() {
    let app = App::new();
    assert_eq!(app.mode, Mode::Read);
    assert_eq!(app.focus, None);
    assert!(app.ideas.is_empty());
    assert_eq!(app.active_index, 0);
    assert!(!app.exit);
}

#[test]
fn compose_and_commit_one_idea() {
    let mut app = App::new();
    assert_eq!(app.handle_key_event(Key::Char('a')), Persist::Nothing);
    assert_eq!(app.mode, Mode::Write);
    assert_eq!(app.focus, Some(Focus::Title));
    type_text(&mut app, "Idea");
    app.handle_key_event(Key::Tab);
    assert_eq!(app.focus, Some(Focus::Description));
    type_text(&mut app, "Desc");
    assert_eq!(app.handle_key_event(Key::Enter), Persist::Ideas);
    assert_eq!(app.ideas.len(), 1);
    assert_eq!(app.ideas[0].title, "Idea");
    assert_eq!(app.ideas[0].description, "Desc");
    assert_eq!(app.title, "");
    assert_eq!(app.description, "");
    assert_eq!(app.mode, Mode::Write);
    assert_eq!(app.focus, Some(Focus::Title));
}

#[test]
fn tab_refused_on_blank_title() {
    let mut app = App::new();
    app.handle_key_event(Key::Char('i'));
    app.handle_key_event(Key::Tab);
    assert_eq!(app.focus, Some(Focus::Title));
    type_text(&mut app, " \t ");
    app.handle_key_event(Key::Tab);
    assert_eq!(app.focus, Some(Focus::Title));
    type_text(&mut app, "x");
    app.handle_key_event(Key::Tab);
    assert_eq!(app.focus, Some(Focus::Description));
    app.handle_key_event(Key::Tab);
    assert_eq!(app.focus, Some(Focus::Add));
    app.handle_key_event(Key::Tab);
    assert_eq!(app.focus, Some(Focus::Title));
}

#[test]
fn deleting_the_only_idea_keeps_selection_in_range() {
    let mut app = with_ideas(&["only"], 0);
    assert_eq!(app.handle_key_event(Key::Char('d')), Persist::Nothing);
    assert!(app.ideas.is_empty());
    assert_eq!(app.active_index, 0);
    app.handle_key_event(Key::Char('d'));
    app.handle_key_event(Key::Down);
    app.handle_key_event(Key::Char('j'));
    assert_eq!(app.active_index, 0);
    assert!(app.ideas.is_empty());
}

#[test]
fn deleting_the_last_idea_selects_the_one_before() {
    let mut app = with_ideas(&["a", "b", "c"], 2);
    app.handle_key_event(Key::Char('d'));
    assert_eq!(titles(&app), vec!["a", "b"]);
    assert_eq!(app.active_index, 1);
    app.handle_key_event(Key::Up);
    app.handle_key_event(Key::Char('d'));
    assert_eq!(titles(&app), vec!["b"]);
    assert_eq!(app.active_index, 0);
}

#[test]
fn selection_moves_within_bounds() {
    let mut app = with_ideas(&["a", "b", "c"], 0);
    app.handle_key_event(Key::Up);
    assert_eq!(app.active_index, 0);
    app.handle_key_event(Key::Down);
    app.handle_key_event(Key::Char('j'));
    app.handle_key_event(Key::Down);
    assert_eq!(app.active_index, 2);
    app.handle_key_event(Key::Char('k'));
    assert_eq!(app.active_index, 1);
}

#[test]
fn restore_clamps_the_selection() {
    let app = with_ideas(&["a", "b"], 7);
    assert_eq!(app.active_index, 1);
    let app = with_ideas(&[], 3);
    assert_eq!(app.active_index, 0);
    let app = with_ideas(&["a", "b"], 0);
    assert_eq!(app.active_index, 0);
}

#[test]
fn edit_changes_the_selected_idea() {
    let mut app = with_ideas(&["a", "b"], 1);
    app.handle_key_event(Key::Char('e'));
    assert_eq!(app.mode, Mode::Edit);
    assert_eq!(app.focus, Some(Focus::Title));
    assert_eq!(app.title, "b");
    assert_eq!(app.description, "b text");
    type_text(&mut app, "2");
    app.handle_key_event(Key::Tab);
    app.handle_key_event(Key::Backspace);
    assert_eq!(app.handle_key_event(Key::Enter), Persist::Ideas);
    assert_eq!(titles(&app), vec!["a", "b2"]);
    assert_eq!(app.ideas[1].description, "b tex");
    assert_eq!(app.title, "");
    assert_eq!(app.mode, Mode::Edit);
    app.handle_key_event(Key::Esc);
    assert_eq!(app.mode, Mode::Read);
    assert_eq!(app.focus, None);
}

#[test]
fn edit_commit_on_empty_list_changes_nothing() {
    let mut app = App::new();
    app.handle_key_event(Key::Char('c'));
    assert_eq!(app.mode, Mode::Edit);
    type_text(&mut app, "t");
    assert_eq!(app.handle_key_event(Key::Enter), Persist::Ideas);
    assert!(app.ideas.is_empty());
    assert_eq!(app.title, "");
}

#[test]
fn typing_on_add_button_is_ignored() {
    let mut app = App::new();
    app.handle_key_event(Key::Char('a'));
    type_text(&mut app, "t");
    app.handle_key_event(Key::Tab);
    app.handle_key_event(Key::Tab);
    assert_eq!(app.focus, Some(Focus::Add));
    type_text(&mut app, "zz");
    app.handle_key_event(Key::Backspace);
    assert_eq!(app.title, "t");
    assert_eq!(app.description, "");
}

#[test]
fn backspace_on_empty_draft_is_harmless() {
    let mut app = App::new();
    app.handle_key_event(Key::Char('a'));
    app.handle_key_event(Key::Backspace);
    assert_eq!(app.title, "");
    type_text(&mut app, "ab");
    app.handle_key_event(Key::Backspace);
    assert_eq!(app.title, "a");
}

#[test]
fn caret_column_moves() {
    let mut app = App::new();
    app.handle_key_event(Key::Char('a'));
    type_text(&mut app, "abc");
    assert_eq!(app.cursor_position.0, 3);
    app.handle_key_event(Key::Left);
    assert_eq!(app.cursor_position.0, 2);
    app.handle_key_event(Key::Right);
    assert_eq!(app.cursor_position.0, 3);
    app.handle_key_event(Key::Tab);
    assert_eq!(app.cursor_position.0, 0);
    type_text(&mut app, "de");
    app.handle_key_event(Key::Tab);
    assert_eq!(app.cursor_position.0, 2);
}

#[test]
fn right_moves_left_in_edit_mode() {
    let mut app = with_ideas(&["a"], 0);
    app.handle_key_event(Key::Char('e'));
    type_text(&mut app, "xyz");
    assert_eq!(app.cursor_position.0, 3);
    app.handle_key_event(Key::Right);
    assert_eq!(app.cursor_position.0, 2);
    app.handle_key_event(Key::Left);
    assert_eq!(app.cursor_position.0, 1);
    app.handle_key_event(Key::Left);
    app.handle_key_event(Key::Left);
    assert_eq!(app.cursor_position.0, 0);
}

#[test]
fn quit_asks_to_store_the_index() {
    let mut app = with_ideas(&["a", "b"], 1);
    assert_eq!(app.handle_key_event(Key::Char('q')), Persist::Index);
    assert!(app.exit);
    assert_eq!(app.active_index, 1);
}

#[test]
fn other_keys_do_nothing() {
    let mut app = with_ideas(&["a"], 0);
    assert_eq!(app.handle_key_event(Key::Char('x')), Persist::Nothing);
    assert_eq!(app.handle_key_event(Key::Other), Persist::Nothing);
    assert_eq!(app.mode, Mode::Read);
    app.handle_key_event(Key::Char('a'));
    assert_eq!(app.handle_key_event(Key::Other), Persist::Nothing);
    assert_eq!(app.mode, Mode::Write);
    assert_eq!(app.title, "");
}

#[test]
fn store_operations() {
    let mut app = App::new();
    app.add_idea("", "no title");
    app.add_idea("t", "d");
    assert_eq!(titles(&app), vec!["", "t"]);
    app.active_index = 1;
    assert!(app.load_buffer());
    assert_eq!(app.title, "t");
    app.clear_buffer();
    assert_eq!(app.title, "");
    app.save_edit();
    assert_eq!(app.ideas[1].title, "");
    app.remove_idea(5);
    assert_eq!(app.ideas.len(), 2);
    app.remove_idea(1);
    assert_eq!(app.ideas.len(), 1);
    assert_eq!(app.active_index, 0);
    app.quit();
    assert!(app.exit);
}

#[test]
fn idea_lines_expand_the_selection() {
    let mut app = with_ideas(&["a", "b"], 0);
    app.ideas[1].description = String::new();
    let got: Vec<(String, Tone)> = app.idea_lines().into_iter().map(|l| (l.text, l.tone)).collect();
    assert_eq!(
        got,
        vec![
            (String::new(), Tone::Spacer),
            ("> a".to_string(), Tone::Selected),
            ("      a text".to_string(), Tone::Detail),
            (String::new(), Tone::Spacer),
            ("b".to_string(), Tone::Plain),
        ]
    );
    app.active_index = 1;
    let got: Vec<(String, Tone)> = app.idea_lines().into_iter().map(|l| (l.text, l.tone)).collect();
    assert_eq!(
        got,
        vec![
            ("a".to_string(), Tone::Plain),
            (String::new(), Tone::Spacer),
            ("> b".to_string(), Tone::Selected),
            (String::new(), Tone::Spacer),
        ]
    );
}
