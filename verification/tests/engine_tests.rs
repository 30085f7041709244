use shell_core::builtins::{BuiltinAction, BuiltinError, BuiltinKind, classify, run_builtin};
use shell_core::endpoints::{FileMode, StreamEndpoint, plan_endpoints};
use shell_core::engine::{
    ParsedLine, Pipeline, StageAction, next_has_predecessor, parse_line, pipeline_continues,
    should_wait, stage_action, StageOutcome,
};
use shell_core::stage::ParseError;
use shell_core::tokenize::{split_stages, split_words, strip_background, trim};

fn cv(s: &str) -> Vec<char> {
    s.chars().collect()
}

fn parsed(line: &str) -> Pipeline {
    match parse_line(&cv(line)) {
        Ok(ParsedLine::Run(p)) => p,
        other => panic!("expected a pipeline for {:?}, got {:?}", line, kind_of(&other)),
    }
}

fn kind_of(r: &Result<ParsedLine, ParseError>) -> String {
    match r {
        Ok(ParsedLine::Empty) => "empty".to_string(),
        Ok(ParsedLine::Run(_)) => "run".to_string(),
        Err(e) => format!("{:?}", e),
    }
}

#[test]
fn trim_removes_both_ends() {
    assert_eq!(trim(&cv("  ls -l \t")), cv("ls -l"));
    assert_eq!(trim(&cv("")), cv(""));
    assert_eq!(trim(&cv("   ")), cv(""));
    assert_eq!(trim(&cv("ls")), cv("ls"));
}

#[test]
fn background_only_when_ampersand_is_final() {
    let (body, bg) = strip_background(&cv("sleep 1 &"));
    assert!(bg);
    assert_eq!(body, cv("sleep 1 "));
    let (body, bg) = strip_background(&cv("sleep 1 & "));
    assert!(!bg);
    assert_eq!(body, cv("sleep 1 & "));
    let (body, bg) = strip_background(&cv("ls&"));
    assert!(bg);
    assert_eq!(body, cv("ls"));
    let (_, bg) = strip_background(&cv(""));
    assert!(!bg);
}

#[test]
fn stages_split_on_spaced_pipe_only() {
    let st = split_stages(&cv("a | b | c"));
    assert_eq!(st, vec![cv("a"), cv("b"), cv("c")]);
    let st = split_stages(&cv("a|b"));
    assert_eq!(st, vec![cv("a|b")]);
    let st = split_stages(&cv("ls"));
    assert_eq!(st, vec![cv("ls")]);
}

#[test]
fn words_split_on_whitespace_runs() {
    let ws = split_words(&cv("  ls   -l  -a "));
    assert_eq!(ws, vec![cv("ls"), cv("-l"), cv("-a")]);
    let ws = split_words(&cv(""));
    assert!(ws.is_empty());
}

#[test]
fn simple_command_parses_to_one_stage() {
    let p = parsed("ls -l");
    assert!(!p.background);
    assert_eq!(p.stages.len(), 1);
    assert_eq!(p.stages[0].command, cv("ls"));
    assert_eq!(p.stages[0].args, vec![cv("-l")]);
    assert!(p.stages[0].redirect_in.is_none());
    assert!(p.stages[0].redirect_out.is_none());
    assert!(p.stages[0].redirect_err.is_none());
}

#[test]
fn empty_and_whitespace_lines_are_noops() {
    assert!(matches!(parse_line(&cv("")), Ok(ParsedLine::Empty)));
    assert!(matches!(parse_line(&cv("   \t")), Ok(ParsedLine::Empty)));
    assert!(matches!(parse_line(&cv("&")), Ok(ParsedLine::Empty)));
}

#[test]
fn background_line_parses_background() {
    let p = parsed("sleep 5 &");
    assert!(p.background);
    assert_eq!(p.stages.len(), 1);
    assert_eq!(p.stages[0].command, cv("sleep"));
    assert_eq!(p.stages[0].args, vec![cv("5")]);
}

#[test]
fn trailing_space_after_ampersand_is_foreground() {
    let p = parsed("ls & ");
    assert!(!p.background);
    assert_eq!(p.stages[0].command, cv("ls"));
    assert_eq!(p.stages[0].args, vec![cv("&")]);
}

#[test]
fn three_stage_pipeline_parses_in_order() {
    let p = parsed("cat f | sort | uniq -c");
    assert_eq!(p.stages.len(), 3);
    assert_eq!(p.stages[0].command, cv("cat"));
    assert_eq!(p.stages[1].command, cv("sort"));
    assert_eq!(p.stages[2].command, cv("uniq"));
    assert_eq!(p.stages[2].args, vec![cv("-c")]);
}

#[test]
fn empty_stage_is_a_parse_error() {
    assert_eq!(parse_line(&cv("a |  | b")).unwrap_err(), ParseError::EmptyStage);
}

#[test]
fn missing_redirect_target_is_a_parse_error() {
    assert_eq!(parse_line(&cv("ls >")).unwrap_err(), ParseError::MissingRedirectTarget);
    assert_eq!(parse_line(&cv("cat <")).unwrap_err(), ParseError::MissingRedirectTarget);
    assert_eq!(parse_line(&cv("x 2>")).unwrap_err(), ParseError::MissingRedirectTarget);
}

#[test]
fn output_redirection_is_extracted() {
    let p = parsed("echo hi > out.txt");
    assert_eq!(p.stages[0].redirect_out, Some(cv("out.txt")));
    assert_eq!(p.stages[0].args, vec![cv("hi")]);
    assert!(p.stages[0].redirect_in.is_none());
    assert!(p.stages[0].redirect_err.is_none());
}

#[test]
fn input_redirection_is_extracted() {
    let p = parsed("wc -l < in.txt");
    assert_eq!(p.stages[0].redirect_in, Some(cv("in.txt")));
    assert_eq!(p.stages[0].args, vec![cv("-l")]);
}

#[test]
fn error_redirection_is_extracted() {
    let p = parsed("cmd 2> err.txt");
    assert_eq!(p.stages[0].redirect_err, Some(cv("err.txt")));
    assert!(p.stages[0].args.is_empty());
}

#[test]
fn only_first_redirection_counts() {
    let p = parsed("cmd a > one.txt < two.txt");
    assert_eq!(p.stages[0].redirect_out, Some(cv("one.txt")));
    assert!(p.stages[0].redirect_in.is_none());
    assert_eq!(p.stages[0].args, vec![cv("a")]);
}

#[test]
fn duplicate_redirections_keep_only_the_first() {
    let p = parsed("cmd > a.txt > b.txt");
    assert_eq!(p.stages[0].redirect_out, Some(cv("a.txt")));
    assert!(p.stages[0].args.is_empty());
}

#[test]
fn mid_pipeline_redirection_loses_to_the_pipe() {
    let p = parsed("cmd > a.txt | wc");
    assert_eq!(p.stages[0].redirect_out, Some(cv("a.txt")));
    let (_, stdout, _) = plan_endpoints(&p.stages[0], false, false, false);
    assert!(matches!(stdout, StreamEndpoint::Piped));
}

#[test]
fn classify_recognizes_the_four_builtins() {
    assert_eq!(classify(&cv("cd")), Some(BuiltinKind::Cd));
    assert_eq!(classify(&cv("pwd")), Some(BuiltinKind::Pwd));
    assert_eq!(classify(&cv("exit")), Some(BuiltinKind::Exit));
    assert_eq!(classify(&cv("history")), Some(BuiltinKind::History));
    assert_eq!(classify(&cv("ls")), None);
    assert_eq!(classify(&cv("cdd")), None);
    assert_eq!(classify(&cv("")), None);
}

#[test]
fn cd_without_argument_goes_to_root() {
    match run_builtin(BuiltinKind::Cd, &vec![]) {
        Ok(BuiltinAction::ChangeDir(p)) => assert_eq!(p, cv("/")),
        _ => panic!("expected a change of directory"),
    }
}

#[test]
fn cd_with_one_argument_goes_there() {
    match run_builtin(BuiltinKind::Cd, &vec![cv("/tmp")]) {
        Ok(BuiltinAction::ChangeDir(p)) => assert_eq!(p, cv("/tmp")),
        _ => panic!("expected a change of directory"),
    }
}

#[test]
fn cd_with_two_arguments_is_an_error() {
    let r = run_builtin(BuiltinKind::Cd, &vec![cv("a"), cv("b")]);
    assert_eq!(r.unwrap_err(), BuiltinError::CdTooManyArgs);
}

#[test]
fn zero_argument_builtins_reject_arguments() {
    assert_eq!(
        run_builtin(BuiltinKind::Pwd, &vec![cv("x")]).unwrap_err(),
        BuiltinError::ArgsNotAllowed(BuiltinKind::Pwd)
    );
    assert_eq!(
        run_builtin(BuiltinKind::Exit, &vec![cv("x")]).unwrap_err(),
        BuiltinError::ArgsNotAllowed(BuiltinKind::Exit)
    );
    assert_eq!(
        run_builtin(BuiltinKind::History, &vec![cv("x")]).unwrap_err(),
        BuiltinError::ArgsNotAllowed(BuiltinKind::History)
    );
    assert!(matches!(run_builtin(BuiltinKind::Pwd, &vec![]), Ok(BuiltinAction::PrintCwd)));
    assert!(matches!(run_builtin(BuiltinKind::Exit, &vec![]), Ok(BuiltinAction::ExitShell)));
    assert!(matches!(run_builtin(BuiltinKind::History, &vec![]), Ok(BuiltinAction::ShowHistory)));
}

#[test]
fn pipeline_wires_adjacent_stages_through_one_pipe() {
    let p = parsed("cat f | sort | uniq");
    let n = p.stages.len();
    for i in 0..n {
        let (stdin, stdout, _) = plan_endpoints(&p.stages[i], i > 0, i == n - 1, p.background);
        if i > 0 {
            assert!(matches!(stdin, StreamEndpoint::Piped));
        } else {
            assert!(matches!(stdin, StreamEndpoint::Inherited));
        }
        if i < n - 1 {
            assert!(matches!(stdout, StreamEndpoint::Piped));
        } else {
            assert!(matches!(stdout, StreamEndpoint::Inherited));
        }
    }
}

#[test]
fn foreground_single_stage_spawns_and_waits() {
    let p = parsed("ls -l");
    assert_eq!(p.stages.len(), 1);
    let a = stage_action(&p.stages[0], false, true, p.background);
    match &a {
        StageAction::Spawn(rq) => {
            assert_eq!(rq.command, cv("ls"));
            assert_eq!(rq.args, vec![cv("-l")]);
            assert!(matches!(rq.stdin, StreamEndpoint::Inherited));
            assert!(matches!(rq.stdout, StreamEndpoint::Inherited));
            assert!(matches!(rq.stderr, StreamEndpoint::Inherited));
        },
        _ => panic!("expected a spawn"),
    }
    assert!(pipeline_continues(&a));
    assert!(next_has_predecessor(StageOutcome::Spawned));
    assert!(should_wait(p.background, true));
}

#[test]
fn background_terminal_stage_discards_output() {
    let p = parsed("sleep 5 &");
    let a = stage_action(&p.stages[0], false, true, p.background);
    match a {
        StageAction::Spawn(rq) => {
            assert!(matches!(rq.stdout, StreamEndpoint::Null));
        },
        _ => panic!("expected a spawn"),
    }
    assert!(!should_wait(p.background, true));
}

#[test]
fn redirected_stage_gets_file_endpoints() {
    let p = parsed("wc -l < in.txt");
    let (stdin, stdout, stderr) = plan_endpoints(&p.stages[0], false, true, false);
    match stdin {
        StreamEndpoint::FromFile(path, FileMode::Read) => assert_eq!(path, cv("in.txt")),
        _ => panic!("expected a read endpoint"),
    }
    assert!(matches!(stdout, StreamEndpoint::Inherited));
    assert!(matches!(stderr, StreamEndpoint::Inherited));

    let p = parsed("echo hi > out.txt");
    let (_, stdout, _) = plan_endpoints(&p.stages[0], false, true, false);
    match stdout {
        StreamEndpoint::FromFile(path, FileMode::Truncate) => assert_eq!(path, cv("out.txt")),
        _ => panic!("expected a truncating write endpoint"),
    }

    let p = parsed("cmd 2> err.txt");
    let (_, _, stderr) = plan_endpoints(&p.stages[0], false, true, false);
    match stderr {
        StreamEndpoint::FromFile(path, FileMode::Truncate) => assert_eq!(path, cv("err.txt")),
        _ => panic!("expected a truncating error endpoint"),
    }
}

#[test]
fn builtin_error_stops_the_pipeline() {
    let p = parsed("cd a b | ls");
    let a = stage_action(&p.stages[0], false, false, false);
    match &a {
        StageAction::Builtin(Err(e)) => assert_eq!(*e, BuiltinError::CdTooManyArgs),
        _ => panic!("expected a builtin argument error"),
    }
    assert!(!pipeline_continues(&a));
}

#[test]
fn builtin_never_feeds_a_pipe() {
    let p = parsed("cd /tmp | ls");
    let a = stage_action(&p.stages[0], false, false, false);
    assert!(matches!(a, StageAction::Builtin(Ok(BuiltinAction::ChangeDir(_)))));
    assert!(!next_has_predecessor(StageOutcome::BuiltinDone));
    assert!(!next_has_predecessor(StageOutcome::SpawnFailed));
}
