//! The fixed vocabulary of tree nodes a shell grammar can produce.
//!
//! Every node is immutable once constructed and exclusively owns its
//! children; builders create each node exactly once, from children that
//! earlier builder calls already returned.

use vstd::prelude::*;

verus! {

/// A shell word whose expansion has not happened yet.
///
/// This layer treats the token text as opaque: it only stores words and
/// relays them unchanged; lexing and expansion belong to collaborators.
#[derive(Debug, Clone, PartialEq, Eq)]
pub struct Word(pub String);

/// A file-descriptor operation attached to a command or command group.
///
/// Opaque to this layer beyond being carried through unchanged.
#[derive(Debug, Clone, PartialEq, Eq)]
pub struct Redirect(pub String);

/// A newline at a command boundary, possibly carrying the text of a comment.
#[derive(Debug, Clone, PartialEq, Eq)]
pub struct Newline(pub Option<String>);

/// The "simplest" possible command: an optional executable name with
/// arguments, environment-variable assignments, and redirects.
///
/// The name is optional because the shell grammar permits a simple command
/// made up of only variable assignments and/or redirects.
#[derive(Debug, Clone, PartialEq, Eq)]
pub struct SimpleCommand {
    /// The name of the command to run, if any.
    pub cmd: Option<Word>,
    /// Environment-variable assignments scoped to this command's run.
    pub vars: Vec<(String, Option<Word>)>,
    /// Arguments to the command.
    pub args: Vec<Word>,
    /// Redirects applied to this command.
    pub io: Vec<Redirect>,
}

/// The result of every completed grammar production.
#[derive(Debug, PartialEq, Eq)]
pub enum Command {
    /// A command made up of a name, arguments, assignments and redirects.
    Simple(Box<SimpleCommand>),
    /// One or more commands joined by pipes, with a flag that inverts the
    /// pipeline's reported outcome. A single, non-inverted stage is never
    /// stored this way: it collapses to the stage's own node.
    Pipe(bool, Vec<Command>),
    /// Two commands where the second runs only if the first succeeds.
    And(Box<Command>, Box<Command>),
    /// Two commands where the second runs only if the first fails.
    Or(Box<Command>, Box<Command>),
    /// A command marked to run as an asynchronous job.
    Job(Box<Command>),
    /// A compound command plus the redirects scoped to the whole construct.
    Compound(Box<CompoundCommand>, Vec<Redirect>),
    /// A function declaration: a name bound to a body command.
    Function(String, Box<Command>),
}

/// A command whose body is itself a sequence of commands.
#[derive(Debug, PartialEq, Eq)]
pub enum CompoundCommand {
    /// A group of commands sharing the invoking environment.
    Brace(Vec<Command>),
    /// A group of commands run in an isolated environment.
    Subshell(Vec<Command>),
    /// A loop whose body runs while its guard succeeds: guard, then body.
    While(Vec<Command>, Vec<Command>),
    /// A loop whose body runs until its guard succeeds: guard, then body.
    Until(Vec<Command>, Vec<Command>),
    /// A conditional: ordered (guard, body) pairs, then an optional else
    /// body run when no guard succeeds.
    If(Vec<(Vec<Command>, Vec<Command>)>, Option<Vec<Command>>),
    /// An iteration: a bound variable name, an optional word list to
    /// iterate over (absence means the caller's positional arguments), and
    /// a body.
    For(String, Option<Vec<Word>>, Vec<Command>),
    /// A pattern match: a scrutinee word and ordered (pattern-list, body)
    /// branches.
    Case(Word, Vec<(Vec<Word>, Vec<Command>)>),
}

} // verus!
