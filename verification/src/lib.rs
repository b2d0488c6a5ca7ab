//! Tree construction for a shell-command grammar.
//!
//! A grammar reader recognizes syntactic fragments bottom-up and hands each
//! one to a builder, which turns it into a node of an abstract syntax tree.
//! This crate holds the fixed vocabulary of tree nodes ([`ast`]), the builder
//! interface that decouples tree construction from grammar recognition, and a
//! reference builder that emits the canonical tree shapes ([`builder`]).

pub mod ast;
pub mod builder;
