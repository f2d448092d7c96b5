use lineshell::KeyEvent;
use lineshell::Session;
use lineshell::SessionAction;

fn chars(s: &str) -> Vec<char> {
    s.chars().collect()
}

fn text_of(v: &[char]) -> String {
    v.iter().collect()
}

fn type_line(s: &mut Session, line: &str) {
    for c in line.chars() {
        assert!(matches!(s.handle_event(KeyEvent::Char(c)), SessionAction::Redraw));
    }
}

#[test]
fn typed_line_commits_and_resets_buffer() {
    let mut s = Session::new();
    type_line(&mut s, "ls");
    assert!(matches!(s.handle_event(KeyEvent::Enter), SessionAction::Commit));
    let line = s.commit_line();
    assert_eq!(text_of(&line), "ls");
    assert!(s.buffer.text.is_empty());
    assert_eq!(s.buffer.cursor, 0);
    assert_eq!(s.history.entries.len(), 2);
    assert_eq!(text_of(&s.history.entries[0]), "ls");
}

#[test]
fn empty_commit_leaves_history_alone() {
    let mut s = Session::new();
    assert!(matches!(s.handle_event(KeyEvent::Enter), SessionAction::Commit));
    let line = s.commit_line();
    assert!(line.is_empty());
    assert_eq!(s.history.entries.len(), 1);
}

#[test]
fn up_recalls_older_commands_then_alerts_at_oldest() {
    let mut s = Session::new();
    type_line(&mut s, "ls");
    s.commit_line();
    type_line(&mut s, "pwd");
    s.commit_line();

    assert!(matches!(s.handle_event(KeyEvent::Up), SessionAction::Redraw));
    assert_eq!(text_of(&s.buffer.text), "pwd");
    assert!(matches!(s.handle_event(KeyEvent::Up), SessionAction::Redraw));
    assert_eq!(text_of(&s.buffer.text), "ls");
    assert!(matches!(s.handle_event(KeyEvent::Up), SessionAction::Alert));
    assert_eq!(text_of(&s.buffer.text), "ls");
    assert_eq!(s.history.entries.len(), 3);

    assert!(matches!(s.handle_event(KeyEvent::Down), SessionAction::Redraw));
    assert_eq!(text_of(&s.buffer.text), "pwd");
    assert!(matches!(s.handle_event(KeyEvent::Down), SessionAction::Redraw));
    assert_eq!(text_of(&s.buffer.text), "");
    assert!(matches!(s.handle_event(KeyEvent::Down), SessionAction::Alert));
}

#[test]
fn editing_mirrors_into_the_live_slot() {
    let mut s = Session::new();
    type_line(&mut s, "cat");
    assert_eq!(text_of(&s.history.entries[0]), "cat");
    assert!(matches!(s.handle_event(KeyEvent::Backspace), SessionAction::Redraw));
    assert_eq!(text_of(&s.history.entries[0]), "ca");
}

#[test]
fn backspace_at_start_only_alerts() {
    let mut s = Session::new();
    assert!(matches!(s.handle_event(KeyEvent::Backspace), SessionAction::Alert));
    assert!(s.buffer.text.is_empty());
    assert_eq!(s.history.entries.len(), 1);
}

#[test]
fn arrows_at_boundaries_only_alert() {
    let mut s = Session::new();
    assert!(matches!(s.handle_event(KeyEvent::Left), SessionAction::Alert));
    assert!(matches!(s.handle_event(KeyEvent::Right), SessionAction::Alert));
    type_line(&mut s, "x");
    assert!(matches!(s.handle_event(KeyEvent::Right), SessionAction::Alert));
    assert!(matches!(s.handle_event(KeyEvent::Left), SessionAction::Redraw));
    assert_eq!(s.buffer.cursor, 0);
}

#[test]
fn tab_without_argument_alerts() {
    let mut s = Session::new();
    assert!(matches!(s.handle_event(KeyEvent::Tab), SessionAction::Alert));
    type_line(&mut s, "ls");
    assert!(matches!(s.handle_event(KeyEvent::Tab), SessionAction::Alert));
    assert_eq!(text_of(&s.buffer.text), "ls");
}

#[test]
fn tab_splits_command_from_argument() {
    let mut s = Session::new();
    type_line(&mut s, "cd  my docs");
    match s.handle_event(KeyEvent::Tab) {
        SessionAction::Complete(req) => {
            assert_eq!(text_of(&req.fixed_prefix), "cd");
            assert_eq!(text_of(&req.raw_argument), "my docs");
        }
        _ => panic!("expected a completion request"),
    }
    assert_eq!(text_of(&s.buffer.text), "cd  my docs");
}

#[test]
fn accepted_completion_replaces_the_argument() {
    let mut s = Session::new();
    type_line(&mut s, "cd Doc");
    s.accept_completion(&chars("cd"), &chars("Documents/"));
    assert_eq!(text_of(&s.buffer.text), "cd Documents/");
    assert_eq!(s.buffer.cursor, s.buffer.text.len());
}

#[test]
fn editing_a_recalled_entry_rewrites_only_the_live_slot() {
    let mut s = Session::new();
    type_line(&mut s, "ls");
    s.commit_line();
    assert!(matches!(s.handle_event(KeyEvent::Up), SessionAction::Redraw));
    assert_eq!(text_of(&s.buffer.text), "ls");
    assert!(matches!(s.handle_event(KeyEvent::Char('x')), SessionAction::Redraw));
    assert_eq!(text_of(&s.buffer.text), "lsx");
    assert_eq!(text_of(&s.history.entries[0]), "ls");
    assert_eq!(text_of(&s.history.entries[1]), "lsx");
}

#[test]
fn ignored_keys_do_nothing() {
    let mut s = Session::new();
    type_line(&mut s, "ab");
    assert!(matches!(s.handle_event(KeyEvent::Other), SessionAction::Quiet));
    assert_eq!(text_of(&s.buffer.text), "ab");
    assert_eq!(s.buffer.cursor, 2);
}
