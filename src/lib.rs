//! Parser and turn-by-turn interpreter for a conversational scripting language.
//!
//! A flow's source text is parsed ([`parser`], over the tokens of [`lexer`])
//! into named steps of statements ([`ast`]). One turn runs the current step
//! against a conversation context ([`context`]) and yields a turn output
//! ([`output`]): conditions reduce through [`eval`] over the values of
//! [`literal`], statements run in [`interpreter`], and [`hold`] suspends and
//! resumes a step across turns. [`bot`] resolves a bot's flows.
pub mod error;
pub mod literal;
pub mod ast;
pub mod context;
pub mod output;
pub mod eval;
pub mod interpreter;
pub mod hold;
pub mod lexer;
pub mod grammar;
pub mod parser;
pub mod bot;
