// A front end and tree-walking evaluator for a small scripting language.
//
// Source text is split into tokens (`lexer`), parsed into a tree (`parser`,
// whose grammar `grammar` states), and run (`compile`, whose meaning
// `semantics` states). Each executable stage is proved equal to its
// statement; `laws` proves properties of the language that follow.

pub mod ast;
pub mod compile;
pub mod grammar;
pub mod laws;
pub mod lexer;
pub mod parser;
pub mod semantics;
pub mod table;
pub mod text;
pub mod utils;
pub mod values;
