use design_patterns::command::{
    execute, undo, AnyCommand, Command, CopyCommand, CutCommand, Editor, History, PasteCommand,
};

fn editor(text: &str) -> Editor {
    Editor { text: text.to_string(), clipboard: String::new() }
}

#[test]
fn copy_keeps_text_and_is_not_recorded() {
    let mut app = editor("hello");
    let mut history = History::new();
    assert!(!execute(&mut app, &mut history, AnyCommand::Copy(CopyCommand)));
    assert_eq!(app.text, "hello");
    assert_eq!(app.clipboard, "hello");
    assert_eq!(history.len(), 0);
}

#[test]
fn cut_then_undo() {
    let mut app = editor("hello");
    let mut history = History::new();
    assert!(execute(&mut app, &mut history, AnyCommand::Cut(CutCommand::default())));
    assert_eq!(app.text, "");
    assert_eq!(app.clipboard, "hello");
    assert_eq!(history.len(), 1);
    assert!(undo(&mut app, &mut history));
    assert_eq!(app.text, "hello");
    assert_eq!(app.clipboard, "hello");
    assert_eq!(history.len(), 0);
    assert!(!undo(&mut app, &mut history));
    assert_eq!(app.text, "hello");
}

#[test]
fn paste_then_undo() {
    let mut app = editor("old");
    app.clipboard = "new".to_string();
    let mut history = History::new();
    assert!(execute(&mut app, &mut history, AnyCommand::Paste(PasteCommand::default())));
    assert_eq!(app.text, "new");
    assert!(undo(&mut app, &mut history));
    assert_eq!(app.text, "old");
}

#[test]
fn undo_goes_back_in_order() {
    let mut app = editor("one");
    let mut history = History::new();
    execute(&mut app, &mut history, AnyCommand::Cut(CutCommand::default()));
    app.text = "two".to_string();
    execute(&mut app, &mut history, AnyCommand::Paste(PasteCommand::default()));
    assert_eq!(app.text, "one");
    assert!(undo(&mut app, &mut history));
    assert_eq!(app.text, "two");
    assert!(undo(&mut app, &mut history));
    assert_eq!(app.text, "one");
}

#[test]
fn commands_on_their_own() {
    let mut app = editor("abc");
    let mut cut = CutCommand::default();
    assert!(cut.execute(&mut app));
    app.text = "zzz".to_string();
    cut.undo(&mut app);
    assert_eq!(app.text, "abc");
    let mut copy = CopyCommand::default();
    copy.undo(&mut app);
    assert_eq!(app.text, "abc");
    assert_eq!(Editor::new().text, "");
}
