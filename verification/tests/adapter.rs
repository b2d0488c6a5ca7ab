//! The reference builder seen only through the general `Builder` interface,
//! as a grammar reader would drive it.

use shell_ast::ast::{Command, CompoundCommand, SimpleCommand, Word};
use shell_ast::builder::{
    AndOrKind, Builder, BuilderError, DefaultBuilder, DummyError, LoopKind, SeparatorKind,
};

fn simple(name: &str) -> Command {
    Command::Simple(Box::new(SimpleCommand {
        cmd: Some(Word(name.to_string())),
        vars: vec![],
        args: vec![],
        io: vec![],
    }))
}

#[test]
fn adapter_forwards_simple_command() {
    let mut b = DefaultBuilder::default();
    let r = Builder::simple_command(&mut b, vec![], Some(Word("pwd".to_string())), vec![], vec![]);
    assert_eq!(r.unwrap(), simple("pwd"));
}

#[test]
fn adapter_forwards_pipeline_and_completion() {
    let mut b = DefaultBuilder::default();
    let piped = Builder::pipeline(
        &mut b,
        false,
        vec![(vec![], simple("cat")), (vec![], simple("less"))],
    )
    .unwrap();
    let done = Builder::complete_command(&mut b, vec![], piped, SeparatorKind::Amp, vec![]).unwrap();
    assert_eq!(
        done,
        Command::Job(Box::new(Command::Pipe(false, vec![simple("cat"), simple("less")]))),
    );
}

#[test]
fn adapter_forwards_every_compound_production() {
    let mut b = DefaultBuilder::default();
    let braced = Builder::brace_group(&mut b, vec![simple("a")], vec![]).unwrap();
    assert_eq!(
        braced,
        Command::Compound(Box::new(CompoundCommand::Brace(vec![simple("a")])), vec![]),
    );
    let shelled = Builder::subshell(&mut b, vec![simple("a")], vec![]).unwrap();
    assert_eq!(
        shelled,
        Command::Compound(Box::new(CompoundCommand::Subshell(vec![simple("a")])), vec![]),
    );
    let looped = Builder::loop_command(&mut b, LoopKind::While, vec![simple("g")], vec![simple("w")], vec![])
        .unwrap();
    assert_eq!(
        looped,
        Command::Compound(
            Box::new(CompoundCommand::While(vec![simple("g")], vec![simple("w")])),
            vec![],
        ),
    );
    let conditional = Builder::if_command(&mut b, vec![(vec![simple("g")], vec![simple("t")])], None, vec![])
        .unwrap();
    assert_eq!(
        conditional,
        Command::Compound(
            Box::new(CompoundCommand::If(vec![(vec![simple("g")], vec![simple("t")])], None)),
            vec![],
        ),
    );
    let iterated = Builder::for_command(
        &mut b,
        "i".to_string(),
        vec![],
        Some(vec![Word("one".to_string())]),
        Some(vec![]),
        vec![simple("use")],
        vec![],
    )
    .unwrap();
    assert_eq!(
        iterated,
        Command::Compound(
            Box::new(CompoundCommand::For(
                "i".to_string(),
                Some(vec![Word("one".to_string())]),
                vec![simple("use")],
            )),
            vec![],
        ),
    );
    let matched = Builder::case_command(
        &mut b,
        Word("w".to_string()),
        vec![],
        vec![((vec![], vec![Word("*".to_string())], vec![]), vec![simple("any")])],
        vec![],
        vec![],
    )
    .unwrap();
    assert_eq!(
        matched,
        Command::Compound(
            Box::new(CompoundCommand::Case(
                Word("w".to_string()),
                vec![(vec![Word("*".to_string())], vec![simple("any")])],
            )),
            vec![],
        ),
    );
    let bound = Builder::function_declaration(&mut b, "f".to_string(), simple("body")).unwrap();
    assert_eq!(bound, Command::Function("f".to_string(), Box::new(simple("body"))));
    let chained = Builder::and_or(&mut b, simple("l"), AndOrKind::Or, vec![], simple("r")).unwrap();
    assert_eq!(chained, Command::Or(Box::new(simple("l")), Box::new(simple("r"))));
    let nothing = Builder::comments(&mut b, vec![]);
    assert!(matches!(nothing, Ok(())));
}

#[test]
fn dummy_error_describes_itself() {
    assert_eq!(DummyError.description(), "dummy error");
}
