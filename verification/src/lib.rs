//! Front end of the Wyst language: a token-stream parser that turns a flat
//! token buffer into a flat sequence of classified syntax nodes and registers
//! every declaration it recognizes into a symbol table.

pub mod ast;
pub mod grammar;
pub mod parser;
pub mod patterns;
pub mod symbols;
pub mod token;

pub use ast::Ast;
pub use ast::AstModel;
pub use ast::AstType;
pub use ast::is_decl;
pub use ast::is_decl_tag;
pub use parser::Parser;
pub use symbols::Symbol;
pub use symbols::SymbolKind;
pub use symbols::SymbolModel;
pub use symbols::Variables;
pub use token::LexerState;
pub use token::Token;
pub use token::TokenModel;
pub use token::TokenType;
