use shell_ast::ast::{Command, CompoundCommand, Newline, Redirect, SimpleCommand, Word};
use shell_ast::builder::{AndOrKind, CommandBuilder, DefaultBuilder, LoopKind, SeparatorKind};

fn word(s: &str) -> Word {
    Word(s.to_string())
}

fn comment(s: &str) -> Newline {
    Newline(Some(s.to_string()))
}

fn simple(name: &str) -> Command {
    Command::Simple(Box::new(SimpleCommand {
        cmd: Some(word(name)),
        vars: vec![],
        args: vec![],
        io: vec![],
    }))
}

#[test]
fn single_stage_pipeline_collapses() {
    let mut b = DefaultBuilder;
    let r = b.pipeline(false, vec![(vec![], simple("echo"))]).unwrap();
    assert_eq!(r, simple("echo"));
}

#[test]
fn negated_single_stage_pipeline_is_wrapped() {
    let mut b = DefaultBuilder;
    let r = b.pipeline(true, vec![(vec![], simple("echo"))]).unwrap();
    assert_eq!(r, Command::Pipe(true, vec![simple("echo")]));
}

#[test]
fn negated_multi_stage_pipeline_keeps_bang() {
    let mut b = DefaultBuilder;
    let stages = vec![(vec![], simple("cat")), (vec![comment("# count")], simple("wc"))];
    let r = b.pipeline(true, stages).unwrap();
    assert_eq!(r, Command::Pipe(true, vec![simple("cat"), simple("wc")]));
}

#[test]
fn multi_stage_pipeline_preserves_order() {
    let mut b = DefaultBuilder;
    let stages = vec![
        (vec![], simple("cat")),
        (vec![comment("# filter")], simple("grep")),
        (vec![], simple("wc")),
    ];
    let r = b.pipeline(false, stages).unwrap();
    assert_eq!(r, Command::Pipe(false, vec![simple("cat"), simple("grep"), simple("wc")]));
}

#[test]
fn amp_separator_wraps_job() {
    let mut b = DefaultBuilder;
    let r = b
        .complete_command(vec![comment("# before")], simple("sleep"), SeparatorKind::Amp, vec![])
        .unwrap();
    assert_eq!(r, Command::Job(Box::new(simple("sleep"))));
}

#[test]
fn semi_separator_passes_command_through() {
    let mut b = DefaultBuilder;
    let r = b
        .complete_command(vec![], simple("ls"), SeparatorKind::Semi, vec![comment("# after")])
        .unwrap();
    assert_eq!(r, simple("ls"));
}

#[test]
fn other_separator_passes_command_through() {
    let mut b = DefaultBuilder;
    let r = b.complete_command(vec![], simple("ls"), SeparatorKind::Other, vec![]).unwrap();
    assert_eq!(r, simple("ls"));
}

#[test]
fn newline_separator_passes_command_through() {
    let mut b = DefaultBuilder;
    let sep = SeparatorKind::Newline(comment("# trailing"));
    let r = b.complete_command(vec![comment("# leading")], simple("ls"), sep, vec![]).unwrap();
    assert_eq!(r, simple("ls"));
}

#[test]
fn and_or_builds_and_node() {
    let mut b = DefaultBuilder;
    let r = b.and_or(simple("make"), AndOrKind::And, vec![comment("# then")], simple("install"));
    assert_eq!(
        r.unwrap(),
        Command::And(Box::new(simple("make")), Box::new(simple("install"))),
    );
}

#[test]
fn and_or_builds_or_node() {
    let mut b = DefaultBuilder;
    let r = b.and_or(simple("make"), AndOrKind::Or, vec![], simple("warn"));
    assert_eq!(r.unwrap(), Command::Or(Box::new(simple("make")), Box::new(simple("warn"))));
}

#[test]
fn nameless_simple_command_succeeds() {
    let mut b = DefaultBuilder;
    let vars = vec![
        ("HOME".to_string(), Some(word("/tmp"))),
        ("UNSET".to_string(), None),
    ];
    let r = b.simple_command(vars, None, vec![], vec![]).unwrap();
    assert_eq!(
        r,
        Command::Simple(Box::new(SimpleCommand {
            cmd: None,
            vars: vec![
                ("HOME".to_string(), Some(word("/tmp"))),
                ("UNSET".to_string(), None),
            ],
            args: vec![],
            io: vec![],
        })),
    );
}

#[test]
fn simple_command_keeps_whole_payload() {
    let mut b = DefaultBuilder;
    let r = b
        .simple_command(
            vec![("LANG".to_string(), Some(word("C")))],
            Some(word("grep")),
            vec![word("-v"), word("foo")],
            vec![Redirect("2>/dev/null".to_string())],
        )
        .unwrap();
    assert_eq!(
        r,
        Command::Simple(Box::new(SimpleCommand {
            cmd: Some(word("grep")),
            vars: vec![("LANG".to_string(), Some(word("C")))],
            args: vec![word("-v"), word("foo")],
            io: vec![Redirect("2>/dev/null".to_string())],
        })),
    );
}

#[test]
fn brace_group_wraps_commands_and_redirects() {
    let mut b = DefaultBuilder;
    let io = vec![Redirect(">out".to_string())];
    let r = b.brace_group(vec![simple("a"), simple("b")], io).unwrap();
    assert_eq!(
        r,
        Command::Compound(
            Box::new(CompoundCommand::Brace(vec![simple("a"), simple("b")])),
            vec![Redirect(">out".to_string())],
        ),
    );
}

#[test]
fn subshell_wraps_commands_and_redirects() {
    let mut b = DefaultBuilder;
    let r = b.subshell(vec![simple("a")], vec![]).unwrap();
    assert_eq!(
        r,
        Command::Compound(Box::new(CompoundCommand::Subshell(vec![simple("a")])), vec![]),
    );
}

#[test]
fn while_loop_keeps_guard_and_body_apart() {
    let mut b = DefaultBuilder;
    let r = b
        .loop_command(LoopKind::While, vec![simple("test")], vec![simple("work")], vec![])
        .unwrap();
    assert_eq!(
        r,
        Command::Compound(
            Box::new(CompoundCommand::While(vec![simple("test")], vec![simple("work")])),
            vec![],
        ),
    );
}

#[test]
fn until_loop_keeps_guard_and_body_apart() {
    let mut b = DefaultBuilder;
    let io = vec![Redirect("<in".to_string())];
    let r = b
        .loop_command(LoopKind::Until, vec![simple("test")], vec![simple("work")], io)
        .unwrap();
    assert_eq!(
        r,
        Command::Compound(
            Box::new(CompoundCommand::Until(vec![simple("test")], vec![simple("work")])),
            vec![Redirect("<in".to_string())],
        ),
    );
}

#[test]
fn if_command_keeps_branches_and_else() {
    let mut b = DefaultBuilder;
    let branches = vec![(vec![simple("g1")], vec![simple("b1")])];
    let r = b.if_command(branches, Some(vec![simple("e")]), vec![]).unwrap();
    assert_eq!(
        r,
        Command::Compound(
            Box::new(CompoundCommand::If(
                vec![(vec![simple("g1")], vec![simple("b1")])],
                Some(vec![simple("e")]),
            )),
            vec![],
        ),
    );
}

#[test]
fn for_command_keeps_absent_word_list_absent() {
    let mut b = DefaultBuilder;
    let r = b
        .for_command("arg".to_string(), vec![comment("# each")], None, None, vec![simple("use")], vec![])
        .unwrap();
    assert_eq!(
        r,
        Command::Compound(
            Box::new(CompoundCommand::For("arg".to_string(), None, vec![simple("use")])),
            vec![],
        ),
    );
}

#[test]
fn for_command_absent_and_empty_word_lists_differ() {
    let mut b = DefaultBuilder;
    let absent = b
        .for_command("x".to_string(), vec![], None, None, vec![simple("use")], vec![])
        .unwrap();
    let empty = b
        .for_command("x".to_string(), vec![], Some(vec![]), Some(vec![]), vec![simple("use")], vec![])
        .unwrap();
    assert_ne!(absent, empty);
    assert_eq!(
        empty,
        Command::Compound(
            Box::new(CompoundCommand::For("x".to_string(), Some(vec![]), vec![simple("use")])),
            vec![],
        ),
    );
}

#[test]
fn case_command_drops_pattern_trivia() {
    let mut b = DefaultBuilder;
    let branches = vec![
        ((vec![comment("# a")], vec![word("a*")], vec![comment("# after a")]), vec![simple("ca")]),
        ((vec![], vec![word("b"), word("c")], vec![]), vec![simple("cbc")]),
    ];
    let r = b
        .case_command(word("subject"), vec![comment("# scrutinee")], branches, vec![], vec![])
        .unwrap();
    assert_eq!(
        r,
        Command::Compound(
            Box::new(CompoundCommand::Case(
                word("subject"),
                vec![
                    (vec![word("a*")], vec![simple("ca")]),
                    (vec![word("b"), word("c")], vec![simple("cbc")]),
                ],
            )),
            vec![],
        ),
    );
}

#[test]
fn function_declaration_binds_name_to_body() {
    let mut b = DefaultBuilder;
    let r = b.function_declaration("greet".to_string(), simple("echo")).unwrap();
    assert_eq!(r, Command::Function("greet".to_string(), Box::new(simple("echo"))));
}

#[test]
fn comments_returns_empty_success() {
    let mut b = DefaultBuilder;
    let r = b.comments(vec![comment("# a lone comment"), Newline(None)]);
    assert!(matches!(r, Ok(())));
}

#[test]
fn branchy_tree_round_trip() {
    let mut b = DefaultBuilder;
    let guard_one = b.pipeline(false, vec![(vec![], simple("cat")), (vec![], simple("grep"))]).unwrap();
    let body_one = simple("handle_one");
    let guard_two = b.pipeline(true, vec![(vec![], simple("probe"))]).unwrap();
    let body_two = simple("handle_two");
    let else_body = simple("fallback");
    let io = vec![Redirect(">log".to_string()), Redirect("2>&1".to_string())];
    let r = b
        .if_command(
            vec![(vec![guard_one], vec![body_one]), (vec![guard_two], vec![body_two])],
            Some(vec![else_body]),
            io,
        )
        .unwrap();
    match r {
        Command::Compound(cc, io) => {
            assert_eq!(io, vec![Redirect(">log".to_string()), Redirect("2>&1".to_string())]);
            match *cc {
                CompoundCommand::If(branches, else_part) => {
                    assert_eq!(branches.len(), 2);
                    assert_eq!(
                        branches[0],
                        (
                            vec![Command::Pipe(false, vec![simple("cat"), simple("grep")])],
                            vec![simple("handle_one")],
                        ),
                    );
                    assert_eq!(
                        branches[1],
                        (
                            vec![Command::Pipe(true, vec![simple("probe")])],
                            vec![simple("handle_two")],
                        ),
                    );
                    assert_eq!(else_part, Some(vec![simple("fallback")]));
                }
                other => panic!("expected an if body, found {:?}", other),
            }
        }
        other => panic!("expected a compound node, found {:?}", other),
    }
}
