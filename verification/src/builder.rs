//! The builder interface a grammar reader drives, and a reference builder.
//!
//! A grammar reader recognizes productions bottom-up and calls one builder
//! method per production, threading previously returned nodes back in as
//! inputs to enclosing productions. The [`Builder`] trait keeps the reader
//! agnostic of the tree representation; [`CommandBuilder`] is the narrower
//! capability that always produces [`Command`] nodes in the canonical shape,
//! with every method defaulted so an implementor overrides only the
//! productions it cares about.

use vstd::prelude::*;
use crate::ast::{Command, CompoundCommand, Newline, Redirect, SimpleCommand, Word};

verus! {

/// An indicator to the builder of how complete commands are separated.
#[derive(Debug, Clone, PartialEq, Eq)]
pub enum SeparatorKind {
    /// A semicolon appears between commands, normally indicating a sequence.
    Semi,
    /// An ampersand appears between commands, normally indicating an
    /// asynchronous job.
    Amp,
    /// A newline (and possibly a comment) appears at the end of a command
    /// before the next.
    Newline(Newline),
    /// The command was delimited by a token (e.g. a compound command
    /// delimiter) or the end of input, but is *not* followed by another
    /// sequential command.
    Other,
}

/// An indicator to the builder whether an `AND` or `OR` command was parsed.
#[derive(Debug, Clone, PartialEq, Eq)]
pub enum AndOrKind {
    /// An `AND` command was parsed, normally indicating the second command
    /// should run if the first succeeds. Corresponds to `&&`.
    And,
    /// An `OR` command was parsed, normally indicating the second command
    /// should run if the first fails. Corresponds to `||`.
    Or,
}

/// An indicator to the builder whether a `while` or `until` command was parsed.
#[derive(Debug, Clone, PartialEq, Eq)]
pub enum LoopKind {
    /// A `while` command was parsed, normally indicating the loop's body
    /// should run while the guard's exit status is successful.
    While,
    /// An `until` command was parsed, normally indicating the loop's body
    /// should run until the guard's exit status becomes successful.
    Until,
}

/// The capability an error type of a builder must offer: a human-readable
/// description of what went wrong.
pub trait BuilderError {
    /// A human-readable description of the error.
    fn description(&self) -> &'static str;
}

/// An error that carries no information, for builders that never fail.
#[derive(Debug)]
pub struct DummyError;

impl BuilderError for DummyError {
    fn description(&self) -> &'static str {
        "dummy error"
    }
}

/// Holds exactly when `r` is the canonical node for a command delimited by
/// `separator`: the command wrapped as an asynchronous job for an ampersand,
/// and the command itself, unchanged, for every other separator kind.
pub open spec fn is_completed(cmd: Command, separator: SeparatorKind, r: Command) -> bool {
    match separator {
        SeparatorKind::Amp => r matches Command::Job(inner) && *inner == cmd,
        _ => r == cmd,
    }
}

/// Holds exactly when `r` is the canonical node for `first && second` or
/// `first || second`: a binary node of the matching variant whose operands
/// are the two inputs, in order, unchanged.
pub open spec fn is_and_or(first: Command, kind: AndOrKind, second: Command, r: Command) -> bool {
    match kind {
        AndOrKind::And => {
            &&& r matches Command::And(f, s)
            &&& *f == first
            &&& *s == second
        },
        AndOrKind::Or => {
            &&& r matches Command::Or(f, s)
            &&& *f == first
            &&& *s == second
        },
    }
}

/// The commands of a pipeline's stages, in order, with the leading trivia
/// of each stage dropped.
pub open spec fn stage_commands(stages: Seq<(Vec<Newline>, Command)>) -> Seq<Command> {
    stages.map_values(|stage: (Vec<Newline>, Command)| stage.1)
}

/// The arms of a pattern match, in order: each branch reduced to its
/// pattern list and body, with the trivia around the patterns dropped.
pub open spec fn case_arms(
    branches: Seq<((Vec<Newline>, Vec<Word>, Vec<Newline>), Vec<Command>)>,
) -> Seq<(Vec<Word>, Vec<Command>)> {
    branches.map_values(
        |br: ((Vec<Newline>, Vec<Word>, Vec<Newline>), Vec<Command>)| (br.0.1, br.1),
    )
}

/// Holds exactly when `r` is the canonical node for a pipeline of `stages`
/// with negation flag `bang`: a pipe node keeping the stages in order when
/// the pipeline is negated or has more than one stage, and the single
/// stage's own node, unwrapped, otherwise. Negation is the only reason a
/// single-stage pipeline is ever wrapped, because inversion has no
/// representation outside the pipe node.
pub open spec fn is_pipeline(bang: bool, stages: Seq<Command>, r: Command) -> bool {
    if bang || stages.len() > 1 {
        &&& r matches Command::Pipe(b, v)
        &&& b == bang
        &&& v@ == stages
    } else {
        r == stages[0]
    }
}

/// Holds exactly when `r` is the canonical node for a simple command:
/// always a simple node, even when the command name is absent (an
/// assignment-only or redirect-only command is legal), holding the supplied
/// name, assignments, arguments and redirects unchanged and in order.
pub open spec fn is_simple(
    vars: Seq<(String, Option<Word>)>,
    cmd: Option<Word>,
    args: Seq<Word>,
    io: Seq<Redirect>,
    r: Command,
) -> bool {
    &&& r matches Command::Simple(sc)
    &&& sc.cmd == cmd
    &&& sc.vars@ == vars
    &&& sc.args@ == args
    &&& sc.io@ == io
}

/// Holds exactly when `r` is the canonical node for a brace group: a
/// compound node over a brace body with the commands in order, carrying the
/// redirects scoped to the entire group.
pub open spec fn is_brace(cmds: Seq<Command>, redirects: Seq<Redirect>, r: Command) -> bool {
    &&& r matches Command::Compound(cc, io)
    &&& *cc matches CompoundCommand::Brace(v)
    &&& v@ == cmds
    &&& io@ == redirects
}

/// Holds exactly when `r` is the canonical node for a subshell: a compound
/// node over a subshell body with the commands in order, carrying the
/// redirects scoped to the entire group.
pub open spec fn is_subshell(cmds: Seq<Command>, redirects: Seq<Redirect>, r: Command) -> bool {
    &&& r matches Command::Compound(cc, io)
    &&& *cc matches CompoundCommand::Subshell(v)
    &&& v@ == cmds
    &&& io@ == redirects
}

/// Holds exactly when `r` is the canonical node for a `while` or `until`
/// loop: a compound node over the loop variant named by `kind`, with guard
/// and body kept apart and in order, carrying the redirects scoped to the
/// whole loop.
pub open spec fn is_loop(
    kind: LoopKind,
    guard: Seq<Command>,
    body: Seq<Command>,
    redirects: Seq<Redirect>,
    r: Command,
) -> bool {
    &&& r matches Command::Compound(cc, io)
    &&& io@ == redirects
    &&& match kind {
        LoopKind::While => {
            &&& *cc matches CompoundCommand::While(g, b)
            &&& g@ == guard
            &&& b@ == body
        },
        LoopKind::Until => {
            &&& *cc matches CompoundCommand::Until(g, b)
            &&& g@ == guard
            &&& b@ == body
        },
    }
}

/// Holds exactly when `r` is the canonical node for an `if` command: a
/// compound node over a conditional body with the (guard, body) pairs and
/// the optional else part unchanged, carrying the redirects scoped to the
/// whole conditional.
pub open spec fn is_if(
    branches: Seq<(Vec<Command>, Vec<Command>)>,
    else_part: Option<Vec<Command>>,
    redirects: Seq<Redirect>,
    r: Command,
) -> bool {
    &&& r matches Command::Compound(cc, io)
    &&& *cc matches CompoundCommand::If(bs, ep)
    &&& bs@ == branches
    &&& ep == else_part
    &&& io@ == redirects
}

/// Holds exactly when `r` is the canonical node for a `for` command: a
/// compound node over an iteration body binding `var`, with the optional
/// word list carried through unchanged — an absent list stays absent,
/// distinguishable from an empty, present one — carrying the redirects
/// scoped to the whole command.
pub open spec fn is_for(
    var: String,
    in_words: Option<Vec<Word>>,
    body: Seq<Command>,
    redirects: Seq<Redirect>,
    r: Command,
) -> bool {
    &&& r matches Command::Compound(cc, io)
    &&& *cc matches CompoundCommand::For(name, words, b)
    &&& name == var
    &&& words == in_words
    &&& b@ == body
    &&& io@ == redirects
}

/// Holds exactly when `r` is the canonical node for a `case` command: a
/// compound node over a pattern match on `word` whose branches keep their
/// order, each reduced to its pattern list and body with the trivia around
/// the patterns dropped, carrying the redirects scoped to the whole block.
pub open spec fn is_case(
    word: Word,
    branches: Seq<((Vec<Newline>, Vec<Word>, Vec<Newline>), Vec<Command>)>,
    redirects: Seq<Redirect>,
    r: Command,
) -> bool {
    &&& r matches Command::Compound(cc, io)
    &&& *cc matches CompoundCommand::Case(w, bs)
    &&& w == word
    &&& bs@ == case_arms(branches)
    &&& io@ == redirects
}

/// Holds exactly when `r` is the canonical node for a function declaration:
/// a function node binding `name` to `body`, both unchanged.
pub open spec fn is_function(name: String, body: Command, r: Command) -> bool {
    &&& r matches Command::Function(n, b)
    &&& n == name
    &&& *b == body
}

/// A non-negated pipeline of a single stage collapses to that stage's own
/// node: no pipe wrapper ever holds a single, non-negated stage.
pub proof fn lemma_single_stage_pipeline_collapses(stages: Seq<Command>, r: Command)
    requires
        stages.len() == 1,
        is_pipeline(false, stages, r),
    ensures
        r == stages[0],
{
}

/// A negated pipeline is wrapped in a pipe node recording the negation,
/// regardless of its stage count, with the stages kept in order.
pub proof fn lemma_negated_pipeline_wrapped(stages: Seq<Command>, r: Command)
    requires
        is_pipeline(true, stages, r),
    ensures
        r matches Command::Pipe(b, v) && b && v@ == stages,
{
}

/// A multi-stage pipeline is wrapped in a pipe node carrying its negation
/// flag, with the stages kept in order.
pub proof fn lemma_multi_stage_pipeline_wrapped(bang: bool, stages: Seq<Command>, r: Command)
    requires
        stages.len() > 1,
        is_pipeline(bang, stages, r),
    ensures
        r matches Command::Pipe(b, v) && b == bang && v@ == stages,
{
}

/// An ampersand separator always wraps the completed command as an
/// asynchronous job; every other separator kind, a newline whatever comment
/// it carries included, passes the command through unchanged. Only the
/// separator kind ever decides the result's shape.
pub proof fn lemma_separator_decides_job(cmd: Command, separator: SeparatorKind, r: Command)
    requires
        is_completed(cmd, separator, r),
    ensures
        separator matches SeparatorKind::Amp ==> r matches Command::Job(inner) && *inner == cmd,
        !(separator matches SeparatorKind::Amp) ==> r == cmd,
{
}

/// An and-or node preserves the identity and the order of its operands
/// exactly: the first input is the left operand, the second the right, and
/// the variant follows the parsed kind.
pub proof fn lemma_and_or_preserves_operands(
    first: Command,
    kind: AndOrKind,
    second: Command,
    r: Command,
)
    requires
        is_and_or(first, kind, second, r),
    ensures
        kind matches AndOrKind::And ==> r matches Command::And(f, s) && *f == first && *s
            == second,
        kind matches AndOrKind::Or ==> r matches Command::Or(f, s) && *f == first && *s == second,
{
}

/// A simple command with an absent command name still yields a simple node,
/// with the absence recorded and the assignments kept: an assignment-only
/// or redirect-only command is legal.
pub proof fn lemma_nameless_simple_command(
    vars: Seq<(String, Option<Word>)>,
    args: Seq<Word>,
    io: Seq<Redirect>,
    r: Command,
)
    requires
        is_simple(vars, None, args, io, r),
    ensures
        r matches Command::Simple(sc) && sc.cmd is None && sc.vars@ == vars,
{
}

/// An iteration node keeps an absent word list absent: the node records
/// `None`, distinguishable from an empty, present list.
pub proof fn lemma_absent_word_list_stays_absent(
    var: String,
    in_words: Option<Vec<Word>>,
    body: Seq<Command>,
    io: Seq<Redirect>,
    r: Command,
)
    requires
        is_for(var, in_words, body, io, r),
    ensures
        r matches Command::Compound(cc, _io) && *cc matches CompoundCommand::For(_n, words, _b)
            && (words is Some <==> in_words is Some) && (words is None <==> in_words is None),
{
}

/// The interface through which a grammar reader delegates tree creation.
///
/// The reader invokes one method per recognized grammar production, in
/// strict bottom-up order, handing each method structurally-typed inputs —
/// never raw text — and threading previously returned outputs back in as
/// the child nodes of enclosing productions. Construction can fail, and the
/// failure is attributed to the builder, not to grammar recognition: the
/// reader is expected to halt and surface the error.
///
/// This general contract promises nothing about the returned values, so
/// implementations substitute freely; see [`CommandBuilder`] for the
/// canonical tree shape, which any of its implementors provides here
/// through a forwarding implementation.
pub trait Builder {
    /// The type which represents the different shell commands.
    type Output;

    /// An error type that the builder may want to return.
    type Err: BuilderError;

    /// Invoked once a complete command is found: a command delimited by a
    /// newline, semicolon, ampersand, or the end of input.
    ///
    /// The comments around the command come along for implementations that
    /// want formatting fidelity; `separator` indicates how the command was
    /// delimited.
    fn complete_command(
        &mut self,
        pre_cmd_comments: Vec<Newline>,
        cmd: Self::Output,
        separator: SeparatorKind,
        post_cmd_comments: Vec<Newline>,
    ) -> Result<Self::Output, Self::Err>;

    /// Invoked once two pipeline commands are parsed, separated by `&&` or
    /// `||`.
    ///
    /// Typically the second command runs based on the exit status of the
    /// first: on success for an `AND` command, on failure for an `OR`
    /// command. The comments appeared between the separator and the start
    /// of the second command.
    fn and_or(
        &mut self,
        first: Self::Output,
        kind: AndOrKind,
        post_separator_comments: Vec<Newline>,
        second: Self::Output,
    ) -> Result<Self::Output, Self::Err>;

    /// Invoked when a pipeline of one or more commands is parsed, where the
    /// standard output of each typically becomes the standard input of the
    /// next.
    ///
    /// `bang` records a `!` at the start of the pipeline, typically
    /// indicating that the pipeline's exit status should be logically
    /// inverted. Each stage pairs the comments appearing after the pipe
    /// token with the command itself, all in the order they were parsed.
    fn pipeline(&mut self, bang: bool, cmds: Vec<(Vec<Newline>, Self::Output)>) -> Result<
        Self::Output,
        Self::Err,
    >
        requires
            cmds@.len() >= 1,
    ;

    /// Invoked when the "simplest" possible command is parsed: an
    /// executable with arguments.
    ///
    /// The environment variables are defined only for the command before it
    /// runs. The command name is optional, since the grammar permits a
    /// simple command made up of only variable assignments or redirects.
    fn simple_command(
        &mut self,
        env_vars: Vec<(String, Option<Word>)>,
        cmd: Option<Word>,
        args: Vec<Word>,
        redirects: Vec<Redirect>,
    ) -> Result<Self::Output, Self::Err>;

    /// Invoked when a non-zero number of commands were parsed between
    /// balanced curly braces, to run within the current shell environment.
    ///
    /// The redirects apply over the entire group of commands.
    fn brace_group(&mut self, cmds: Vec<Self::Output>, redirects: Vec<Redirect>) -> Result<
        Self::Output,
        Self::Err,
    >;

    /// Invoked when a non-zero number of commands were parsed between
    /// balanced parentheses, to run within their own environment without
    /// affecting the shell's global environment.
    ///
    /// The redirects apply over the entire group of commands.
    fn subshell(&mut self, cmds: Vec<Self::Output>, redirects: Vec<Redirect>) -> Result<
        Self::Output,
        Self::Err,
    >;

    /// Invoked when a loop command like `while` or `until` is parsed, whose
    /// body typically runs based on the exit status of its guard.
    ///
    /// The redirects apply over all commands that are part of the loop.
    fn loop_command(
        &mut self,
        kind: LoopKind,
        guard: Vec<Self::Output>,
        body: Vec<Self::Output>,
        redirects: Vec<Redirect>,
    ) -> Result<Self::Output, Self::Err>;

    /// Invoked when an `if` conditional command is parsed: one or more
    /// (guard, body) pairs, where the body of the first successful guard
    /// runs, and an optional else part to run if no guard succeeds.
    ///
    /// The redirects apply over all commands within the conditional.
    fn if_command(
        &mut self,
        branches: Vec<(Vec<Self::Output>, Vec<Self::Output>)>,
        else_part: Option<Vec<Self::Output>>,
        redirects: Vec<Redirect>,
    ) -> Result<Self::Output, Self::Err>;

    /// Invoked when a `for` command is parsed: it binds `var` to each
    /// member of a group of words and runs its body with that binding.
    ///
    /// An absent word list means the command iterates over the arguments of
    /// the script or enclosing function. The comment lists arrived after
    /// the variable declaration and after the word list, if it exists. The
    /// redirects apply over all commands within the command.
    fn for_command(
        &mut self,
        var: String,
        post_var_comments: Vec<Newline>,
        in_words: Option<Vec<Word>>,
        post_word_comments: Option<Vec<Newline>>,
        body: Vec<Self::Output>,
        redirects: Vec<Redirect>,
    ) -> Result<Self::Output, Self::Err>;

    /// Invoked when a `case` command is parsed: a word to match, and
    /// branches which pair a list of alternative patterns with the commands
    /// to run when any of those patterns matches.
    ///
    /// Each pattern list arrives wrapped in the comments appearing before
    /// and after it; the free-standing comment lists arrived after the word
    /// to match and after the last branch. The redirects apply over all
    /// commands that are part of the block.
    fn case_command(
        &mut self,
        word: Word,
        post_word_comments: Vec<Newline>,
        branches: Vec<((Vec<Newline>, Vec<Word>, Vec<Newline>), Vec<Self::Output>)>,
        post_branch_comments: Vec<Newline>,
        redirects: Vec<Redirect>,
    ) -> Result<Self::Output, Self::Err>;

    /// Invoked when a function declaration is parsed. Typically a
    /// declaration overwrites any previously defined function of the same
    /// name within the current environment.
    fn function_declaration(&mut self, name: String, body: Self::Output) -> Result<
        Self::Output,
        Self::Err,
    >;

    /// Invoked when only comments are parsed, with no commands following:
    /// an entirely commented-out script, or comments at the end of the
    /// input.
    fn comments(&mut self, comments: Vec<Newline>) -> Result<(), Self::Err>;
}

/// A builder capability whose output is always [`Command`] and whose
/// successful results always take the canonical node shapes.
///
/// Every method has a default that emits the canonical node and never
/// fails, so an implementor restates only the productions it cares about —
/// say, only `simple_command`, to inject validation — and inherits the
/// rest. An override may reject an input by returning an error of its own,
/// but whatever it accepts, it must build the same canonical shape.
///
/// All comment arguments are ignored by the defaults.
pub trait CommandBuilder {
    /// An error type that an implementor of this trait may return.
    type Err: BuilderError;

    /// Constructs a job node with the provided inputs if the command was
    /// delimited by an ampersand, or returns the command itself otherwise.
    ///
    /// Invoked once a complete command is found: a command delimited by a
    /// newline, semicolon, ampersand, or the end of input. The comments
    /// around the command never affect the result's shape.
    fn complete_command(
        &mut self,
        _pre_cmd_comments: Vec<Newline>,
        cmd: Command,
        separator: SeparatorKind,
        _post_cmd_comments: Vec<Newline>,
    ) -> (r: Result<Command, Self::Err>)
        ensures
            r matches Ok(c) ==> is_completed(cmd, separator, c),
        default_ensures
            r is Ok,
    {
        match separator {
            SeparatorKind::Semi | SeparatorKind::Other | SeparatorKind::Newline(_) => Ok(cmd),
            SeparatorKind::Amp => Ok(Command::Job(Box::new(cmd))),
        }
    }

    /// Constructs a binary and-node or or-node with the provided inputs.
    ///
    /// Invoked once two pipeline commands are parsed, separated by `&&` or
    /// `||`. Typically the second command runs based on the exit status of
    /// the first: on success for an and-node, on failure for an or-node.
    fn and_or(
        &mut self,
        first: Command,
        kind: AndOrKind,
        _post_separator_comments: Vec<Newline>,
        second: Command,
    ) -> (r: Result<Command, Self::Err>)
        ensures
            r matches Ok(c) ==> is_and_or(first, kind, second, c),
        default_ensures
            r is Ok,
    {
        match kind {
            AndOrKind::And => Ok(Command::And(Box::new(first), Box::new(second))),
            AndOrKind::Or => Ok(Command::Or(Box::new(first), Box::new(second))),
        }
    }

    /// Constructs a pipe node with the provided inputs, or returns the
    /// single command itself when no wrapping is needed.
    ///
    /// Invoked when a pipeline of one or more commands is parsed, where the
    /// standard output of each command typically becomes the standard input
    /// of the next. Each stage carries the comments that appeared after the
    /// pipe token before it, which the default drops. The pipe node is the
    /// only one which can record a status negation, so a negated pipeline
    /// is wrapped even with a single stage; a single stage without negation
    /// needs no wrapping at all.
    fn pipeline(&mut self, bang: bool, cmds: Vec<(Vec<Newline>, Command)>) -> (r: Result<
        Command,
        Self::Err,
    >)
        requires
            cmds@.len() >= 1,
        ensures
            r matches Ok(c) ==> is_pipeline(bang, stage_commands(cmds@), c),
        default_ensures
            r is Ok,
    {
        let ghost orig = cmds@;
        let mut rest = cmds;
        let mut stages: Vec<Command> = Vec::new();
        while rest.len() > 0
            invariant
                stages@.len() + rest@.len() == orig.len(),
                stages@ == stage_commands(orig.take(stages@.len() as int)),
                rest@ == orig.skip(stages@.len() as int),
            decreases rest@.len(),
        {
            let ghost done = stages@.len() as int;
            let (_comments, cmd) = rest.remove(0);
            stages.push(cmd);
            proof {
                assert(orig.skip(done).remove(0) =~= orig.skip(done + 1));
                assert(stages@ =~= stage_commands(orig.take(done + 1)));
            }
        }
        proof {
            assert(orig.take(orig.len() as int) =~= orig);
        }
        if bang || stages.len() > 1 {
            Ok(Command::Pipe(bang, stages))
        } else {
            match stages.pop() {
                Some(stage) => Ok(stage),
                None => vstd::pervasive::unreached(),
            }
        }
    }

    /// Constructs a simple node with the provided inputs.
    ///
    /// Invoked when the "simplest" possible command is parsed: an
    /// executable with arguments. The command name is optional, since the
    /// grammar permits a simple command made up of only variable
    /// assignments, only redirects, or both; the node is built all the
    /// same.
    fn simple_command(
        &mut self,
        env_vars: Vec<(String, Option<Word>)>,
        cmd: Option<Word>,
        args: Vec<Word>,
        redirects: Vec<Redirect>,
    ) -> (r: Result<Command, Self::Err>)
        ensures
            r matches Ok(c) ==> is_simple(env_vars@, cmd, args@, redirects@, c),
        default_ensures
            r is Ok,
    {
        Ok(
            Command::Simple(
                Box::new(SimpleCommand { cmd, vars: env_vars, args, io: redirects }),
            ),
        )
    }

    /// Constructs a compound node over a brace body with the provided
    /// inputs.
    ///
    /// Invoked when a non-zero number of commands were parsed between
    /// balanced curly braces, to run within the current shell environment.
    /// The redirects apply over the entire group of commands, never to an
    /// individual inner command.
    fn brace_group(&mut self, cmds: Vec<Command>, redirects: Vec<Redirect>) -> (r: Result<
        Command,
        Self::Err,
    >)
        ensures
            r matches Ok(c) ==> is_brace(cmds@, redirects@, c),
        default_ensures
            r is Ok,
    {
        Ok(Command::Compound(Box::new(CompoundCommand::Brace(cmds)), redirects))
    }

    /// Constructs a compound node over a subshell body with the provided
    /// inputs.
    ///
    /// Invoked when a non-zero number of commands were parsed between
    /// balanced parentheses, to run within their own environment without
    /// affecting the shell's global environment. The redirects apply over
    /// the entire group of commands.
    fn subshell(&mut self, cmds: Vec<Command>, redirects: Vec<Redirect>) -> (r: Result<
        Command,
        Self::Err,
    >)
        ensures
            r matches Ok(c) ==> is_subshell(cmds@, redirects@, c),
        default_ensures
            r is Ok,
    {
        Ok(Command::Compound(Box::new(CompoundCommand::Subshell(cmds)), redirects))
    }

    /// Constructs a compound node over a `while` or `until` body with the
    /// provided inputs.
    ///
    /// Invoked when a loop command is parsed, whose body typically runs
    /// based on the exit status of its guard. The redirects apply over all
    /// commands that are part of the loop.
    fn loop_command(
        &mut self,
        kind: LoopKind,
        guard: Vec<Command>,
        body: Vec<Command>,
        redirects: Vec<Redirect>,
    ) -> (r: Result<Command, Self::Err>)
        ensures
            r matches Ok(c) ==> is_loop(kind, guard@, body@, redirects@, c),
        default_ensures
            r is Ok,
    {
        let loop_cmd = match kind {
            LoopKind::While => CompoundCommand::While(guard, body),
            LoopKind::Until => CompoundCommand::Until(guard, body),
        };
        Ok(Command::Compound(Box::new(loop_cmd), redirects))
    }

    /// Constructs a compound node over a conditional body with the provided
    /// inputs.
    ///
    /// Invoked when an `if` command is parsed: one or more (guard, body)
    /// pairs, where the body of the first successful guard runs, and an
    /// optional else part to run if no guard succeeds. The redirects apply
    /// over all commands within the conditional.
    fn if_command(
        &mut self,
        branches: Vec<(Vec<Command>, Vec<Command>)>,
        else_part: Option<Vec<Command>>,
        redirects: Vec<Redirect>,
    ) -> (r: Result<Command, Self::Err>)
        ensures
            r matches Ok(c) ==> is_if(branches@, else_part, redirects@, c),
        default_ensures
            r is Ok,
    {
        Ok(Command::Compound(Box::new(CompoundCommand::If(branches, else_part)), redirects))
    }

    /// Constructs a compound node over an iteration body with the provided
    /// inputs.
    ///
    /// Invoked when a `for` command is parsed: it binds a variable to each
    /// member of a group of words and runs its body with that binding. An
    /// absent word list means the command iterates over the arguments of
    /// the script or enclosing function, and stays absent in the node,
    /// distinguishable from an empty, present list. The redirects apply
    /// over all commands within the command.
    fn for_command(
        &mut self,
        var: String,
        _post_var_comments: Vec<Newline>,
        in_words: Option<Vec<Word>>,
        _post_word_comments: Option<Vec<Newline>>,
        body: Vec<Command>,
        redirects: Vec<Redirect>,
    ) -> (r: Result<Command, Self::Err>)
        ensures
            r matches Ok(c) ==> is_for(var, in_words, body@, redirects@, c),
        default_ensures
            r is Ok,
    {
        Ok(Command::Compound(Box::new(CompoundCommand::For(var, in_words, body)), redirects))
    }

    /// Constructs a compound node over a pattern match with the provided
    /// inputs.
    ///
    /// Invoked when a `case` command is parsed: a word to match, and
    /// branches which pair a list of alternative patterns with the commands
    /// to run when any of those patterns matches. Each pattern list arrives
    /// wrapped in the comments appearing around it, which the default drops
    /// before storage. The redirects apply over all commands that are part
    /// of the block.
    fn case_command(
        &mut self,
        word: Word,
        _post_word_comments: Vec<Newline>,
        branches: Vec<((Vec<Newline>, Vec<Word>, Vec<Newline>), Vec<Command>)>,
        _post_branch_comments: Vec<Newline>,
        redirects: Vec<Redirect>,
    ) -> (r: Result<Command, Self::Err>)
        ensures
            r matches Ok(c) ==> is_case(word, branches@, redirects@, c),
        default_ensures
            r is Ok,
    {
        let ghost orig = branches@;
        let mut rest = branches;
        let mut arms: Vec<(Vec<Word>, Vec<Command>)> = Vec::new();
        while rest.len() > 0
            invariant
                arms@.len() + rest@.len() == orig.len(),
                arms@ == case_arms(orig.take(arms@.len() as int)),
                rest@ == orig.skip(arms@.len() as int),
            decreases rest@.len(),
        {
            let ghost done = arms@.len() as int;
            let ((_pre_pat_comments, pats, _post_pat_comments), cmds) = rest.remove(0);
            arms.push((pats, cmds));
            proof {
                assert(orig.skip(done).remove(0) =~= orig.skip(done + 1));
                assert(arms@ =~= case_arms(orig.take(done + 1)));
            }
        }
        proof {
            assert(orig.take(orig.len() as int) =~= orig);
        }
        Ok(Command::Compound(Box::new(CompoundCommand::Case(word, arms)), redirects))
    }

    /// Constructs a function node with the provided inputs.
    ///
    /// Invoked when a function declaration is parsed. Whether a declaration
    /// overwrites an earlier function of the same name is left to a later
    /// execution stage, not to tree construction.
    fn function_declaration(&mut self, name: String, body: Command) -> (r: Result<
        Command,
        Self::Err,
    >)
        ensures
            r matches Ok(c) ==> is_function(name, body, c),
        default_ensures
            r is Ok,
    {
        Ok(Command::Function(name, Box::new(body)))
    }

    /// Ignores the comments and succeeds with no value.
    ///
    /// Invoked when only comments are parsed with no commands following,
    /// as when an entire script is commented out or comments sit at the end
    /// of the input. No previously built node is touched.
    fn comments(&mut self, _comments: Vec<Newline>) -> (r: Result<(), Self::Err>)
        default_ensures
            r is Ok,
    {
        Ok(())
    }
}

impl<T: CommandBuilder> Builder for T {
    type Output = Command;

    type Err = <T as CommandBuilder>::Err;

    fn complete_command(
        &mut self,
        pre_cmd_comments: Vec<Newline>,
        cmd: Command,
        separator: SeparatorKind,
        post_cmd_comments: Vec<Newline>,
    ) -> (r: Result<Command, Self::Err>)
        ensures
            r matches Ok(c) ==> is_completed(cmd, separator, c),
    {
        CommandBuilder::complete_command(self, pre_cmd_comments, cmd, separator, post_cmd_comments)
    }

    fn and_or(
        &mut self,
        first: Command,
        kind: AndOrKind,
        post_separator_comments: Vec<Newline>,
        second: Command,
    ) -> (r: Result<Command, Self::Err>)
        ensures
            r matches Ok(c) ==> is_and_or(first, kind, second, c),
    {
        CommandBuilder::and_or(self, first, kind, post_separator_comments, second)
    }

    fn pipeline(&mut self, bang: bool, cmds: Vec<(Vec<Newline>, Command)>) -> (r: Result<
        Command,
        Self::Err,
    >)
        ensures
            r matches Ok(c) ==> is_pipeline(bang, stage_commands(cmds@), c),
    {
        CommandBuilder::pipeline(self, bang, cmds)
    }

    fn simple_command(
        &mut self,
        env_vars: Vec<(String, Option<Word>)>,
        cmd: Option<Word>,
        args: Vec<Word>,
        redirects: Vec<Redirect>,
    ) -> (r: Result<Command, Self::Err>)
        ensures
            r matches Ok(c) ==> is_simple(env_vars@, cmd, args@, redirects@, c),
    {
        CommandBuilder::simple_command(self, env_vars, cmd, args, redirects)
    }

    fn brace_group(&mut self, cmds: Vec<Command>, redirects: Vec<Redirect>) -> (r: Result<
        Command,
        Self::Err,
    >)
        ensures
            r matches Ok(c) ==> is_brace(cmds@, redirects@, c),
    {
        CommandBuilder::brace_group(self, cmds, redirects)
    }

    fn subshell(&mut self, cmds: Vec<Command>, redirects: Vec<Redirect>) -> (r: Result<
        Command,
        Self::Err,
    >)
        ensures
            r matches Ok(c) ==> is_subshell(cmds@, redirects@, c),
    {
        CommandBuilder::subshell(self, cmds, redirects)
    }

    fn loop_command(
        &mut self,
        kind: LoopKind,
        guard: Vec<Command>,
        body: Vec<Command>,
        redirects: Vec<Redirect>,
    ) -> (r: Result<Command, Self::Err>)
        ensures
            r matches Ok(c) ==> is_loop(kind, guard@, body@, redirects@, c),
    {
        CommandBuilder::loop_command(self, kind, guard, body, redirects)
    }

    fn if_command(
        &mut self,
        branches: Vec<(Vec<Command>, Vec<Command>)>,
        else_part: Option<Vec<Command>>,
        redirects: Vec<Redirect>,
    ) -> (r: Result<Command, Self::Err>)
        ensures
            r matches Ok(c) ==> is_if(branches@, else_part, redirects@, c),
    {
        CommandBuilder::if_command(self, branches, else_part, redirects)
    }

    fn for_command(
        &mut self,
        var: String,
        post_var_comments: Vec<Newline>,
        in_words: Option<Vec<Word>>,
        post_word_comments: Option<Vec<Newline>>,
        body: Vec<Command>,
        redirects: Vec<Redirect>,
    ) -> (r: Result<Command, Self::Err>)
        ensures
            r matches Ok(c) ==> is_for(var, in_words, body@, redirects@, c),
    {
        CommandBuilder::for_command(
            self,
            var,
            post_var_comments,
            in_words,
            post_word_comments,
            body,
            redirects,
        )
    }

    fn case_command(
        &mut self,
        word: Word,
        post_word_comments: Vec<Newline>,
        branches: Vec<((Vec<Newline>, Vec<Word>, Vec<Newline>), Vec<Command>)>,
        post_branch_comments: Vec<Newline>,
        redirects: Vec<Redirect>,
    ) -> (r: Result<Command, Self::Err>)
        ensures
            r matches Ok(c) ==> is_case(word, branches@, redirects@, c),
    {
        CommandBuilder::case_command(
            self,
            word,
            post_word_comments,
            branches,
            post_branch_comments,
            redirects,
        )
    }

    fn function_declaration(&mut self, name: String, body: Command) -> (r: Result<
        Command,
        Self::Err,
    >)
        ensures
            r matches Ok(c) ==> is_function(name, body, c),
    {
        CommandBuilder::function_declaration(self, name, body)
    }

    fn comments(&mut self, comments: Vec<Newline>) -> Result<(), Self::Err> {
        CommandBuilder::comments(self, comments)
    }
}

/// A builder which emits the canonical tree shape for every production and
/// never fails: construction failure is purely an extension point for
/// custom implementations, not an intrinsic property of tree building.
///
/// All comments handed to it are discarded.
pub struct DefaultBuilder;

impl CommandBuilder for DefaultBuilder {
    type Err = DummyError;
}

impl core::default::Default for DefaultBuilder {
    /// Returns the reference builder, which carries no state.
    fn default() -> (r: DefaultBuilder)
        ensures
            r == DefaultBuilder,
    {
        DefaultBuilder
    }
}

} // verus!
