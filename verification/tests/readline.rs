use chords::readline::{
    clear_line_sequence, clear_screen_down_sequence, cursor_to_sequence, find_newline_index,
    move_cursor_sequence, parse_interface_args, question_refusal, InterfaceOptions, InterfaceState,
    LineStep, ReadlineEditor,
};

#[test]
fn finds_the_first_line_break_by_byte() {
    assert_eq!(find_newline_index("alpha\n"), Some(5));
    assert_eq!(find_newline_index("a\r\nb"), Some(1));
    assert_eq!(find_newline_index("\u{e9}t\u{e9}\nx"), Some(5));
    assert_eq!(find_newline_index("none"), None);
}

#[test]
fn control_sequences() {
    assert_eq!(clear_line_sequence(-1), "\x1b[1K");
    assert_eq!(clear_line_sequence(1), "\x1b[0K");
    assert_eq!(clear_line_sequence(0), "\x1b[2K");
    assert_eq!(clear_screen_down_sequence(), "\x1b[0J");
    assert_eq!(cursor_to_sequence(2, Some(1)), "\x1b[2;3H");
    assert_eq!(cursor_to_sequence(4, None), "\x1b[5G");
    assert_eq!(move_cursor_sequence(-1, 3), "\x1b[1D\x1b[3B");
    assert_eq!(move_cursor_sequence(2, -4), "\x1b[2C\x1b[4A");
    assert_eq!(move_cursor_sequence(0, 0), "");
}

#[test]
fn editor_commits_queued_sequences_in_order() {
    let mut editor = ReadlineEditor::new(false);
    assert!(editor.queue_or_commit(cursor_to_sequence(2, Some(1))).is_none());
    assert!(editor.queue_or_commit(move_cursor_sequence(-1, 3)).is_none());
    assert!(editor.queue_or_commit(clear_line_sequence(0)).is_none());
    assert!(editor.queue_or_commit(clear_screen_down_sequence()).is_none());
    assert_eq!(
        editor.commit().unwrap(),
        "\u{001b}[2;3H\u{001b}[1D\u{001b}[3B\u{001b}[2K\u{001b}[0J"
    );
    assert!(editor.commit().is_none());
    editor.queue_or_commit(clear_line_sequence(1));
    editor.rollback();
    assert!(editor.commit().is_none());
    let mut auto = ReadlineEditor::new(true);
    assert_eq!(auto.queue_or_commit(clear_line_sequence(1)).unwrap(), "\x1b[0K");
}

#[test]
fn splits_input_into_lines() {
    let mut state = InterfaceState::new(false, "> ".to_string(), vec![]);
    state.push_chunk("alpha\n");
    assert_eq!(state.take_line().as_deref(), Some("alpha"));
    assert_eq!(state.take_line(), None);
    state.push_chunk("be");
    assert_eq!(state.line, "be");
    assert_eq!(state.cursor, 2);
    state.push_chunk("ta\r\ngamma\rdel");
    assert_eq!(state.take_line().as_deref(), Some("beta"));
    assert_eq!(state.take_line().as_deref(), Some("gamma"));
    assert_eq!(state.buffer, "del");
    assert_eq!(state.take_final_line().as_deref(), Some("del"));
    assert_eq!(state.take_final_line(), None);
    assert_eq!(state.cursor, 0);
}

#[test]
fn cursor_counts_bytes() {
    let mut state = InterfaceState::new(false, String::new(), vec![]);
    state.push_chunk("h\u{e9}");
    assert_eq!(state.cursor, 3);
}

#[test]
fn a_split_crlf_gives_an_empty_line() {
    let mut state = InterfaceState::new(false, String::new(), vec![]);
    state.push_chunk("one\r");
    state.push_chunk("\ntwo\n");
    assert_eq!(state.take_line().as_deref(), Some("one"));
    assert_eq!(state.take_line().as_deref(), Some(""));
    assert_eq!(state.take_line().as_deref(), Some("two"));
}

#[test]
fn finished_lines_go_to_history_and_close_is_once() {
    let mut state = InterfaceState::new(true, String::new(), vec!["old".to_string()]);
    state.push_chunk("partial");
    state.finish_line("answer".to_string());
    assert_eq!(state.history, vec!["old".to_string(), "answer".to_string()]);
    assert_eq!(state.line, "");
    assert!(state.close());
    assert!(!state.close());
}

#[test]
fn lines_come_out_of_input_in_order() {
    let mut st = InterfaceState::new(false, String::new(), Vec::new());
    assert_eq!(st.poll_line(), LineStep::NeedInput);
    assert_eq!(st.on_input(Some("ab")), LineStep::NeedInput);
    assert_eq!(st.on_input(Some("c\r\nde\nf")), LineStep::Line("abc".to_string()));
    assert_eq!(st.history, vec!["abc".to_string()]);
    assert_eq!(st.line, "");
    assert_eq!(st.cursor, 0);
    assert_eq!(st.poll_line(), LineStep::Line("de".to_string()));
    assert_eq!(st.poll_line(), LineStep::NeedInput);
    assert_eq!(st.history, vec!["abc".to_string(), "de".to_string()]);
    assert_eq!(st.on_input(None), LineStep::Line("f".to_string()));
    assert_eq!(st.on_input(None), LineStep::Ended(true));
    assert!(st.closed);
    assert_eq!(st.poll_line(), LineStep::Closed);
    assert_eq!(st.on_input(None), LineStep::Ended(false));
}

#[test]
fn questions_are_refused_when_closed_or_aborted() {
    assert_eq!(question_refusal(true, true), Some("readline was closed"));
    assert_eq!(question_refusal(false, true), Some("The operation was aborted"));
    assert_eq!(question_refusal(false, false), None);
}

#[test]
fn interface_args_prefer_the_options_object() {
    let options = InterfaceOptions {
        input: 1u8,
        output: None,
        terminal: Some(true),
        prompt: Some("> ".to_string()),
        history: Some(vec!["x".to_string()]),
    };
    let args = parse_interface_args(0u8, Some(options), Some(7u8), Some(false));
    assert_eq!(args.input, 1);
    assert_eq!(args.output, Some(7));
    assert!(args.terminal);
    assert_eq!(args.prompt, "> ");
    assert_eq!(args.history, vec!["x".to_string()]);

    let plain = parse_interface_args::<u8, u8>(3, None, None, None);
    assert_eq!(plain.input, 3);
    assert_eq!(plain.output, None);
    assert!(!plain.terminal);
    assert_eq!(plain.prompt, "");
    assert!(plain.history.is_empty());
}

#[test]
fn test_callback_and_promises_interfaces() {
    let mut writes: Vec<String> = Vec::new();
    let mut answers: Vec<String> = Vec::new();
    for (query, chunk, prompt) in [("name? ", "alpha\n", "> "), ("next? ", "beta\n", ""), ("last? ", "gamma\n", "")] {
        let mut rl = InterfaceState::new(false, prompt.to_string(), Vec::new());
        assert_eq!(question_refusal(rl.closed, false), None);
        writes.push(query.to_string());
        match rl.on_input(Some(chunk)) {
            LineStep::Line(line) => answers.push(line),
            other => panic!("unexpected {other:?}"),
        }
        if !rl.prompt.is_empty() {
            writes.push(rl.prompt.clone());
        }
        assert!(rl.close());
    }
    let mut editor = ReadlineEditor::new(false);
    assert!(editor.queue_or_commit(cursor_to_sequence(2, Some(1))).is_none());
    assert!(editor.queue_or_commit(move_cursor_sequence(-1, 3)).is_none());
    assert!(editor.queue_or_commit(clear_line_sequence(0)).is_none());
    assert!(editor.queue_or_commit(clear_screen_down_sequence()).is_none());
    writes.push(editor.commit().unwrap());
    assert_eq!(answers, vec!["alpha", "beta", "gamma"]);
    assert_eq!(writes, vec!["name? ", "> ", "next? ", "last? ", "\u{1b}[2;3H\u{1b}[1D\u{1b}[3B\u{1b}[2K\u{1b}[0J"]);
}
