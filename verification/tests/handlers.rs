use aios_backend::dispatcher::{hypr_dispatch_command, hypr_dispatch_reply};
use aios_backend::echo::ingest_prompt;
use aios_backend::invocation::Invocation;
use aios_backend::launcher::{launch_app_command, launch_app_reply, launch_command_line};

fn words(items: &[&str]) -> Vec<String> {
    items.iter().map(|s| s.to_string()).collect()
}

fn line_of(cmd: &str, args: &[&str]) -> String {
    launch_command_line(cmd, &words(args))
}

// Echo handler.

#[test]
fn ingest_prompt_prefixes_the_text() {
    assert_eq!(ingest_prompt("hello".to_string()), Ok("You said: hello".to_string()));
}

#[test]
fn ingest_prompt_of_empty_text_is_the_prefix() {
    assert_eq!(ingest_prompt(String::new()), Ok("You said: ".to_string()));
}

#[test]
fn ingest_prompt_leaves_the_text_untouched() {
    let text = "  two\tlines\n\"quoted\" 'and' caf\u{e9} \u{1F989}  ";
    let reply = ingest_prompt(text.to_string()).unwrap();
    assert_eq!(reply, format!("You said: {}", text));
    assert_eq!(&reply["You said: ".len()..], text);
}

#[test]
fn ingest_prompt_does_not_collapse_a_repeated_prefix() {
    assert_eq!(
        ingest_prompt("You said: hi".to_string()),
        Ok("You said: You said: hi".to_string())
    );
}

// Dispatcher.

#[test]
fn dispatch_command_puts_dispatch_first() {
    let inv = hypr_dispatch_command(words(&["workspace", "2"]));
    assert_eq!(
        inv,
        Invocation {
            program: "hyprctl".to_string(),
            args: words(&["dispatch", "workspace", "2"]),
            capture: true,
        }
    );
}

#[test]
fn dispatch_command_without_arguments() {
    let inv = hypr_dispatch_command(Vec::new());
    assert_eq!(inv.program, "hyprctl");
    assert_eq!(inv.args, words(&["dispatch"]));
    assert!(inv.capture);
}

#[test]
fn dispatch_command_passes_tokens_on_as_given() {
    let given = words(&["exec", "kitty --title 'my term'", "", "dispatch", "$HOME"]);
    let inv = hypr_dispatch_command(given.clone());
    assert_eq!(inv.args.len(), given.len() + 1);
    assert_eq!(inv.args[0], "dispatch");
    assert_eq!(&inv.args[1..], &given[..]);
}

#[test]
fn dispatch_reply_decodes_well_formed_output() {
    let reply = hypr_dispatch_reply(Ok(b"ok\n".to_vec()));
    assert_eq!(reply, Ok("ok\n".to_string()));
}

#[test]
fn dispatch_reply_decodes_multibyte_output() {
    let text = "fen\u{ea}tre \u{2192} \u{1F989}\n";
    let reply = hypr_dispatch_reply(Ok(text.as_bytes().to_vec()));
    assert_eq!(reply, Ok(text.to_string()));
}

#[test]
fn dispatch_reply_of_empty_output_is_empty_text() {
    assert_eq!(hypr_dispatch_reply(Ok(Vec::new())), Ok(String::new()));
}

#[test]
fn dispatch_reply_replaces_ill_formed_bytes() {
    let bytes = vec![b'o', b'k', 0xff, b'\n'];
    let reply = hypr_dispatch_reply(Ok(bytes));
    assert_eq!(reply, Ok("ok\u{fffd}\n".to_string()));
}

#[test]
fn dispatch_reply_replaces_a_truncated_sequence() {
    // The first two bytes of a three-byte character, then plain text.
    let bytes = vec![0xe2, 0x82, b'!', 0xc0, b'x'];
    let reply = hypr_dispatch_reply(Ok(bytes));
    assert_eq!(reply, Ok("\u{fffd}!\u{fffd}x".to_string()));
}

#[test]
fn dispatch_reply_equals_lossy_decoding_of_known_bytes() {
    let samples: Vec<Vec<u8>> = vec![
        b"Invalid dispatcher\n".to_vec(),
        vec![0x80],
        vec![0xf0, 0x9f, 0xa6, 0x89],
        vec![0xf0, 0x9f, 0xa6],
        vec![b'a', 0xed, 0xa0, 0x80, b'b'],
        (0u8..=255).collect(),
    ];
    for bytes in samples {
        let expected = String::from_utf8_lossy(&bytes).to_string();
        assert_eq!(hypr_dispatch_reply(Ok(bytes)), Ok(expected));
    }
}

#[test]
fn dispatch_reply_passes_a_failure_on() {
    let reason = "No such file or directory (os error 2)".to_string();
    assert_eq!(hypr_dispatch_reply(Err(reason.clone())), Err(reason));
}

#[test]
fn dispatch_reply_does_not_decode_a_failure() {
    assert_eq!(hypr_dispatch_reply(Err(String::new())), Err(String::new()));
}

// Launcher.

#[test]
fn launch_command_runs_the_line_in_a_login_shell() {
    let inv = launch_app_command("firefox".to_string(), words(&["--new-window", "about:blank"]));
    assert_eq!(
        inv,
        Invocation {
            program: "sh".to_string(),
            args: words(&["-lc", "firefox --new-window about:blank"]),
            capture: false,
        }
    );
}

#[test]
fn launch_command_is_not_waited_for() {
    let inv = launch_app_command("sleep".to_string(), words(&["3600"]));
    assert!(!inv.capture);
}

#[test]
fn launch_command_without_arguments_keeps_the_separator() {
    let inv = launch_app_command("ls".to_string(), Vec::new());
    assert_eq!(inv.args, words(&["-lc", "ls "]));
}

#[test]
fn launch_command_does_not_quote_the_command() {
    let inv = launch_app_command("FOO=1 env | sort".to_string(), words(&["a b"]));
    assert_eq!(inv.args, words(&["-lc", "FOO=1 env | sort 'a b'"]));
}

#[test]
fn launch_reply_of_a_started_process_has_no_payload() {
    assert_eq!(launch_app_reply(Ok(())), Ok(()));
}

#[test]
fn launch_reply_carries_the_reason_of_a_failed_start() {
    let reason = "No such file or directory (os error 2)".to_string();
    let reply = launch_app_reply(Err(reason.clone()));
    assert_eq!(reply, Err(reason));
    assert!(!reply.unwrap_err().is_empty());
}

// Argument joining.

#[test]
fn plain_words_are_joined_by_single_spaces() {
    assert_eq!(line_of("run", &["a", "b", "c"]), "run a b c");
}

#[test]
fn plain_punctuation_is_left_alone() {
    assert_eq!(line_of("run", &["abc-123_./:@,+!^{}]"]), "run abc-123_./:@,+!^{}]");
}

#[test]
fn a_word_with_a_space_is_one_quoted_unit() {
    assert_eq!(line_of("open", &["my file.txt"]), "open 'my file.txt'");
}

#[test]
fn the_empty_word_is_written_as_two_quotes() {
    assert_eq!(line_of("printf", &["", "x", ""]), "printf '' x ''");
}

#[test]
fn a_single_quote_is_escaped_outside_the_quotes() {
    assert_eq!(line_of("echo", &["it's"]), "echo 'it'\\''s'");
    assert_eq!(line_of("echo", &["'"]), "echo ''\\'''");
}

#[test]
fn a_newline_is_kept_between_quotes() {
    assert_eq!(line_of("echo", &["a \n  b"]), "echo 'a \n  b'");
    assert_eq!(line_of("echo", &["X'\nY"]), "echo 'X'\\''\nY'");
}

#[test]
fn every_special_character_forces_quotes() {
    let special = [
        "\n", "|", "&", ";", "<", ">", "(", ")", "$", "`", "\\", "\"", " ", "\t", "*", "?", "[",
        "#", "~", "=", "%",
    ];
    for c in special {
        let word = format!("a{}b", c);
        assert_eq!(line_of("x", &[&word]), format!("x 'a{}b'", c));
    }
    assert_eq!(line_of("x", &["a'b"]), "x 'a'\\''b'");
}

#[test]
fn joined_arguments_split_back_into_the_arguments() {
    let cases: Vec<Vec<&str>> = vec![
        vec![],
        vec!["a"],
        vec!["my file.txt"],
        vec!["python", "-c", "print('Hello world!')"],
        vec![" arg with spaces ", "arg ' with \" quotes"],
        vec!["even newlines\n", "\n", "\n\n\t "],
        vec!["$", "`test`", "~user/log*", "a=b", "50%", "#tag", "back\\slash"],
        vec!["'a \"b", "\"X'", "''", "'"],
        vec!["empty", "", "", ""],
        vec!["", ""],
        vec!["caf\u{e9} \u{1F989}"],
    ];
    for args in cases {
        let line = line_of("", &args);
        assert_eq!(shell_words::split(&line).unwrap(), args);
    }
}

#[test]
fn a_launch_line_splits_into_command_and_arguments() {
    let args = ["--title", "my term", "it's", "", "a\nb"];
    let line = line_of("kitty -1", &args);
    let mut expected = vec!["kitty", "-1"];
    expected.extend_from_slice(&args);
    assert_eq!(shell_words::split(&line).unwrap(), expected);
}

#[test]
fn a_token_with_whitespace_stays_one_token() {
    let line = line_of("mpv", &["My Movie (2020).mkv"]);
    assert_eq!(line, "mpv 'My Movie (2020).mkv'");
    let back = shell_words::split(&line).unwrap();
    assert_eq!(back, vec!["mpv", "My Movie (2020).mkv"]);
}
