use singularity_toolkit::command_hub::{add_child_result, AddChildError};
use singularity_toolkit::command_hub::{run_command, split_words, CommandHubAction, CommandHubApplet, CommandOutcome};
use singularity_toolkit::ui_event::{Key, KeyModifiers, UIEvent};

fn finished(o: &CommandOutcome) -> Result<String, String> {
    match o {
        CommandOutcome::Finished(r) => r.clone(),
        other => panic!("not finished: {:?}", other),
    }
}

fn type_text(hub: &mut CommandHubApplet, text: &str) {
    for c in text.chars() {
        hub.handle_ui_event(UIEvent::KeyPress(Key::Char(c), KeyModifiers::none()));
    }
}

#[test]
fn words_split_on_white_space() {
    let ws = split_words("  add_child\t x\u{3000}y  ");
    let ws: Vec<String> = ws.into_iter().map(|w| w.into_iter().collect()).collect();
    assert_eq!(ws, vec!["add_child", "x", "y"]);
    assert!(split_words(" \n ").is_empty());
}

#[test]
fn commands_finish_or_ask() {
    assert_eq!(finished(&run_command("", true).0), Err("Couldn't split commands.".to_string()));
    assert_eq!(
        finished(&run_command("help", true).0),
        Ok("Currently working commands: `add_child`, `set_title`, `help`, `addition`, `$`".to_string())
    );
    assert_eq!(
        finished(&run_command("frobnicate now", true).0),
        Err("`frobnicate` is an unknown command. Currently working commands: `add_child`, `set_title`, `help`, `addition`, `$`".to_string())
    );
    match run_command("addition 1 2.5 x", true).0 {
        CommandOutcome::Addition(args) => assert_eq!(args, vec!["1", "2.5", "x"]),
        other => panic!("{:?}", other),
    }
    match run_command("add_child code_editor a.txt", true).0 {
        CommandOutcome::AddChild(name, args) => {
            assert_eq!(name, Some("code_editor".to_string()));
            assert_eq!(args, vec!["a.txt"]);
        }
        other => panic!("{:?}", other),
    }
    match run_command("add_child", true).0 {
        CommandOutcome::AddChild(None, args) => assert!(args.is_empty()),
        other => panic!("{:?}", other),
    }
    match run_command("$ ls -l", true).0 {
        CommandOutcome::Shell(args) => assert_eq!(args, vec!["ls", "-l"]),
        other => panic!("{:?}", other),
    }
}

#[test]
fn test_commands_expand() {
    match run_command("test image", true).0 {
        CommandOutcome::AddChild(name, args) => {
            assert_eq!(name, Some("image_viewer".to_string()));
            assert_eq!(args, vec!["examples/sonamu.jpg"]);
        }
        other => panic!("{:?}", other),
    }
    assert_eq!(finished(&run_command("test", true).0), Err("Must specify test.".to_string()));
    assert_eq!(
        finished(&run_command("test nope", true).0),
        Err("`nope` is an unknown test. Currently working tests: `image`".to_string())
    );
}

#[test]
fn set_title_takes_text_after_first_space() {
    let (o, title) = run_command("set_title My  Title ", true);
    assert_eq!(finished(&o), Ok("Done!".to_string()));
    assert_eq!(title, Some("My  Title ".to_string()));
    let (o, title) = run_command("set_title", true);
    assert_eq!(finished(&o), Err("Couldn't get title from \"set_title\".".to_string()));
    assert_eq!(title, None);
}

#[test]
fn hub_records_history_and_shows_it() {
    let mut hub = CommandHubApplet::new();
    assert_eq!(hub.get_treeview(), "Command Hub");
    type_text(&mut hub, "set_title Hubx");
    hub.handle_ui_event(UIEvent::KeyPress(Key::Backspace, KeyModifiers::none()));
    let a = hub.handle_ui_event(UIEvent::KeyPress(Key::Enter, KeyModifiers::none()));
    assert!(matches!(a, CommandHubAction::Redraw));
    assert_eq!(hub.get_treeview(), "Hub");
    type_text(&mut hub, "addition 1 2");
    let a = hub.handle_ui_event(UIEvent::KeyPress(Key::Enter, KeyModifiers::none()));
    match a {
        CommandHubAction::Pending(command, CommandOutcome::Addition(_)) => {
            assert_eq!(command, "addition 1 2");
            hub.record_output(command, Ok("3".to_string()));
        }
        other => panic!("{:?}", other),
    }
    hub.record_output("bad".to_string(), Err("oops".to_string()));
    type_text(&mut hub, "he");
    assert_eq!(hub.display_text(), "> set_title Hub\nDone!\n> addition 1 2\n3\n> bad\nErr: oops\n> he\n");
}

#[test]
fn hub_shows_last_ten_entries() {
    let mut hub = CommandHubApplet::new();
    for i in 0..12 {
        hub.record_output(format!("c{}", i), Ok(format!("o{}", i)));
    }
    let text = hub.display_text();
    assert!(text.starts_with("> c2\no2\n"));
    assert!(text.ends_with("> c11\no11\n> \n"));
}

#[test]
fn add_child_results() {
    assert_eq!(add_child_result(false, None), Ok("Unspecified child defaulting to command_hub.".to_string()));
    assert_eq!(add_child_result(true, Some(true)), Ok("Great success!".to_string()));
    assert_eq!(add_child_result(true, Some(false)), Err(AddChildError::CannotCreate));
    assert_eq!(add_child_result(true, None), Err(AddChildError::UnknownApp));
}
