use relision::repl::{
    define_commands, parse_colon_command, resolve_command, ColonCommand, CommandMatch,
};

fn standard_commands() -> Vec<ColonCommand> {
    define_commands()
}

#[test]
fn defined_commands_are_clear_history_quit() {
    let names: Vec<&str> = define_commands().iter().map(|c| c.name).collect();
    assert_eq!(names, vec!["clear", "history", "quit"]);
}

#[test]
fn unambiguous_prefix_resolves() {
    let cmds = standard_commands();
    assert_eq!(resolve_command(&cmds, "cl"), CommandMatch::Found(0));
    assert_eq!(resolve_command(&cmds, "clear"), CommandMatch::Found(0));
    assert_eq!(resolve_command(&cmds, "h"), CommandMatch::Found(1));
    assert_eq!(resolve_command(&cmds, "q"), CommandMatch::Found(2));
}

#[test]
fn empty_prefix_is_ambiguous() {
    let cmds = standard_commands();
    assert_eq!(resolve_command(&cmds, ""), CommandMatch::Ambiguous(0, 1));
}

#[test]
fn unknown_prefix_is_not_found() {
    let cmds = standard_commands();
    assert_eq!(resolve_command(&cmds, "x"), CommandMatch::NotFound);
    assert_eq!(resolve_command(&cmds, "clearer"), CommandMatch::NotFound);
    assert_eq!(resolve_command(&Vec::new(), "q"), CommandMatch::NotFound);
}

#[test]
fn shared_prefix_is_ambiguous() {
    let cmds = vec![
        ColonCommand { name: "help" },
        ColonCommand { name: "history" },
        ColonCommand { name: "quit" },
    ];
    assert_eq!(resolve_command(&cmds, "h"), CommandMatch::Ambiguous(0, 1));
    assert_eq!(resolve_command(&cmds, "he"), CommandMatch::Found(0));
    assert_eq!(resolve_command(&cmds, "hi"), CommandMatch::Found(1));
}

#[test]
fn colon_command_word_is_taken_off_the_line() {
    assert_eq!(parse_colon_command(":cl"), Some("cl".to_string()));
    assert_eq!(parse_colon_command(":history now"), Some("history".to_string()));
    assert_eq!(parse_colon_command(":q a b"), Some("q".to_string()));
    assert_eq!(parse_colon_command(":"), Some("".to_string()));
    assert_eq!(parse_colon_command("hello"), None);
    assert_eq!(parse_colon_command(""), None);
}
