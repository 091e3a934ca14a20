//! The token-stream parser: a single forward-only cursor over the whole token
//! buffer, driven by the priority-ranked grammar of [`crate::grammar`]. Each
//! pass of the loop consumes at least one token and appends exactly one node;
//! declarations are registered into the symbol table the moment their rule
//! fires. `parse` is proved to return exactly `parse_from` of the buffer and
//! to append exactly `regs_from` to the symbol table.

use vstd::prelude::*;
use vstd::string::StringExecFns;

use crate::ast::Ast;
use crate::ast::AstModel;
use crate::ast::AstType;
use crate::grammar::parse_from;
use crate::grammar::reg_seq;
use crate::grammar::regs_from;
use crate::grammar::step;
use crate::grammar::lemma_parse_from_len;
use crate::grammar::lemma_step_advances;
use crate::grammar::lemma_step_in_bounds;
use crate::patterns::IncludePatterns;
use crate::symbols::Variables;
use crate::token::LexerState;
use crate::token::Token;
use crate::token::TokenModel;
use crate::token::TokenType;

verus! {

/// Whether a token's text equals the given literal.
fn value_is(v: &String, lit: &str) -> (r: bool)
    ensures
        r == (v@ == lit@),
{
    let s = String::from_str(lit);
    *v == s
}

/// The documentation text for a declaration whose rule anchors at `index`:
/// the text of the immediately preceding token when it is a comment, empty
/// otherwise.
fn doc_before(tokens: &Vec<Token>, index: usize) -> (r: String)
    requires
        index < tokens@.len(),
    ensures
        r@ == crate::grammar::doc_at(tokens.deep_view(), index as int),
{
    if index > 0 && tokens[index - 1].token_type == TokenType::Comment {
        tokens[index - 1].value.clone()
    } else {
        String::new()
    }
}

/// The parser state: the owned token buffer, the cursor, the two
/// include-directive patterns compiled once at construction, the symbol
/// table, and the JSON-mode flag that reprioritizes key/value recognition.
pub struct Parser {
    pub tokens: Vec<Token>,
    pub index: usize,
    pub include_patterns: IncludePatterns,
    pub variables: Variables,
    pub json: bool,
}

impl Parser {
    /// An initialized parser: cursor at zero, JSON mode off, the
    /// include-directive patterns compiled once for the whole parse.
    pub fn new(tokens: Vec<Token>, variables: Variables) -> (p: Parser)
        ensures
            p.tokens == tokens,
            p.index == 0,
            p.variables == variables,
            p.json == false,
    {
        Parser {
            tokens,
            index: 0,
            include_patterns: IncludePatterns::new(),
            variables,
            json: false,
        }
    }

    /// One pass of the parse loop: tests the priority-ordered rules at the
    /// cursor, returns the node of the first that fires, advances the cursor
    /// past what the rule consumed, and registers a declaration when the rule
    /// declares one.
    #[verifier::rlimit(100)]
    fn step_once(&mut self) -> (node: Ast)
        requires
            old(self).index < old(self).tokens@.len(),
        ensures
            final(self).tokens == old(self).tokens,
            final(self).json == old(self).json,
            node@ == step(
                old(self).tokens.deep_view(),
                old(self).index as int,
                old(self).json,
            ).node,
            final(self).index as int == old(self).index as int + step(
                old(self).tokens.deep_view(),
                old(self).index as int,
                old(self).json,
            ).advance,
            final(self).variables@ == old(self).variables@ + reg_seq(
                step(old(self).tokens.deep_view(), old(self).index as int, old(self).json).reg,
            ),
    {
        let ghost ts: Seq<TokenModel> = old(self).tokens.deep_view();
        let index: usize = self.index;
        let ghost ii: int = index as int;
        proof {
            assert(ts.len() == self.tokens@.len());
            assert(forall|j: int|
                0 <= j < ts.len() ==> #[trigger] ts[j] == self.tokens@[j].deep_view());
            lemma_step_advances(ts, ii, old(self).json);
            lemma_step_in_bounds(ts, ii, old(self).json);
        }
        let mut ast_tokens: Vec<Token> = Vec::new();
        let mut ast_type = AstType::Other;
        if self.json && self.tokens.len() - index > 2 && value_is(
            &self.tokens[index + 1].value,
            ":",
        ) {
            ast_tokens.push(self.tokens[index].clone());
            ast_tokens.push(self.tokens[index + 2].clone());
            ast_type = AstType::Json;
            self.index = index + 3;
        } else if self.tokens.len() - index > 1 && value_is(&self.tokens[index].value, "&")
            && self.tokens[index + 1].token_type == TokenType::Identifier {
            ast_tokens.push(self.tokens[index + 1].clone());
            ast_type = AstType::Ref;
            self.index = index + 2;
        } else if self.tokens.len() - index > 2 && value_is(&self.tokens[index].value, "struct")
            && self.tokens[index + 1].token_type == TokenType::Identifier
            && self.tokens[index + 2].token_type == TokenType::Curly {
            ast_tokens.push(self.tokens[index + 1].clone());
            ast_tokens.push(self.tokens[index + 2].clone());
            ast_type = AstType::StructDeceleration;
            let desc = doc_before(&self.tokens, index);
            let name = self.tokens[index + 1].value.clone();
            let state = LexerState {
                line: self.tokens[index + 1].line,
                column: self.tokens[index + 1].column,
            };
            self.variables.new_struct(name, state, desc);
            self.index = index + 3;
        } else if self.tokens.len() - index > 2 && value_is(&self.tokens[index].value, "namespace")
            && self.tokens[index + 1].token_type == TokenType::Identifier
            && self.tokens[index + 2].token_type == TokenType::Curly {
            ast_tokens.push(self.tokens[index + 1].clone());
            ast_tokens.push(self.tokens[index + 2].clone());
            ast_type = AstType::Namespace;
            let desc = doc_before(&self.tokens, index);
            let name = self.tokens[index + 1].value.clone();
            let state = LexerState {
                line: self.tokens[index + 1].line,
                column: self.tokens[index + 1].column,
            };
            self.variables.new_namespace(name, state, desc);
            self.index = index + 3;
        } else if self.tokens.len() - index > 2 && value_is(&self.tokens[index].value, "impl")
            && self.tokens[index + 1].token_type == TokenType::Identifier
            && self.tokens[index + 2].token_type == TokenType::Curly {
            ast_tokens.push(self.tokens[index + 1].clone());
            ast_tokens.push(self.tokens[index + 2].clone());
            ast_type = AstType::Impl;
            self.index = index + 3;
        } else if self.tokens.len() - index > 2 && self.tokens[index].token_type
            == TokenType::Keyword1 && self.tokens[index + 1].token_type == TokenType::Round
            && self.tokens[index + 2].token_type == TokenType::Curly {
            ast_tokens.push(self.tokens[index].clone());
            ast_tokens.push(self.tokens[index + 1].clone());
            ast_tokens.push(self.tokens[index + 2].clone());
            ast_type = AstType::State3;
            self.index = index + 3;
        } else if self.tokens.len() - index > 1 && self.tokens[index].token_type
            == TokenType::Keyword2 && self.tokens[index + 1].token_type == TokenType::Curly {
            ast_tokens.push(self.tokens[index].clone());
            ast_tokens.push(self.tokens[index + 1].clone());
            ast_type = AstType::State2;
            self.index = index + 2;
        } else {
            match self.tokens[index].token_type {
                TokenType::Identifier => {
                    if self.tokens.len() - index > 3 && self.tokens[index + 1].token_type
                        == TokenType::Identifier && self.tokens[index + 2].token_type
                        == TokenType::Round && self.tokens[index + 3].token_type
                        == TokenType::Curly {
                        ast_tokens.push(self.tokens[index + 1].clone());
                        ast_tokens.push(self.tokens[index + 2].clone());
                        ast_tokens.push(self.tokens[index + 3].clone());
                        if value_is(&self.tokens[index].value, "void") {
                            ast_type = AstType::VoidFunctionDeceleration;
                        } else {
                            ast_type = AstType::FunctionDeceleration;
                        }
                        let desc = doc_before(&self.tokens, index);
                        let name = self.tokens[index + 1].value.clone();
                        let state = LexerState {
                            line: self.tokens[index + 1].line,
                            column: self.tokens[index + 1].column,
                        };
                        self.variables.new_func(name, state, desc);
                        self.index = index + 4;
                    } else if self.tokens.len() - index > 1 && self.tokens[index + 1].token_type
                        == TokenType::Curly {
                        ast_tokens.push(self.tokens[index + 1].clone());
                        ast_type = AstType::StructCall;
                        self.index = index + 2;
                    } else if self.tokens.len() - index > 2 && self.tokens[index + 1].token_type
                        == TokenType::Identifier && self.tokens[index + 2].token_type
                        == TokenType::Curly {
                        ast_tokens.push(self.tokens[index + 1].clone());
                        ast_tokens.push(self.tokens[index + 2].clone());
                        ast_type = AstType::StructVar;
                        let desc = doc_before(&self.tokens, index);
                        let name = self.tokens[index + 1].value.clone();
                        let state = LexerState {
                            line: self.tokens[index + 1].line,
                            column: self.tokens[index + 1].column,
                        };
                        self.variables.new_var(name, state, desc);
                        self.index = index + 3;
                    } else if self.tokens.len() - index > 1 && self.tokens[index + 1].token_type
                        == TokenType::Identifier {
                        ast_tokens.push(self.tokens[index + 1].clone());
                        ast_type = AstType::VariableDeceleration;
                        let desc = doc_before(&self.tokens, index);
                        let name = self.tokens[index + 1].value.clone();
                        let state = LexerState {
                            line: self.tokens[index + 1].line,
                            column: self.tokens[index + 1].column,
                        };
                        self.variables.new_var(name, state, desc);
                        self.index = index + 2;
                    } else if self.tokens.len() - index > 2 && self.tokens[index + 1].token_type
                        == TokenType::Angle && self.tokens[index + 2].token_type
                        == TokenType::Identifier {
                        let mut rewritten = self.tokens[index + 2].value.clone();
                        rewritten.append("<");
                        rewritten.append(self.tokens[index + 1].value.as_str());
                        rewritten.append(">");
                        ast_tokens.push(
                            Token {
                                token_type: self.tokens[index + 2].token_type,
                                value: rewritten,
                                line: self.tokens[index + 2].line,
                                column: self.tokens[index + 2].column,
                            },
                        );
                        ast_type = AstType::VariableDeceleration;
                        let desc = doc_before(&self.tokens, index);
                        let name = self.tokens[index + 1].value.clone();
                        let state = LexerState {
                            line: self.tokens[index + 1].line,
                            column: self.tokens[index + 1].column,
                        };
                        self.variables.new_var(name, state, desc);
                        self.index = index + 3;
                    } else if self.tokens.len() - index > 2 && value_is(
                        &self.tokens[index + 1].value,
                        "*",
                    ) && self.tokens[index + 2].token_type == TokenType::Identifier {
                        ast_tokens.push(self.tokens[index + 2].clone());
                        ast_type = AstType::PointerDeceleration;
                        let desc = doc_before(&self.tokens, index);
                        let name = self.tokens[index + 2].value.clone();
                        let state = LexerState {
                            line: self.tokens[index + 2].line,
                            column: self.tokens[index + 2].column,
                        };
                        self.variables.new_var(name, state, desc);
                        self.index = index + 3;
                    } else {
                        ast_tokens.push(self.tokens[index].clone());
                        self.index = index + 1;
                    }
                },
                TokenType::Include => {
                    let found = self.include_patterns.angle_path(self.tokens[index].value.as_str());
                    match found {
                        Some(path) => {
                            ast_tokens.push(
                                Token {
                                    token_type: TokenType::String,
                                    value: path,
                                    line: 0,
                                    column: 0,
                                },
                            );
                            ast_type = AstType::Include;
                        },
                        None => {
                            let found_local = self.include_patterns.local_path(
                                self.tokens[index].value.as_str(),
                            );
                            match found_local {
                                Some(path) => {
                                    ast_tokens.push(
                                        Token {
                                            token_type: TokenType::String,
                                            value: path,
                                            line: 0,
                                            column: 0,
                                        },
                                    );
                                    ast_type = AstType::IncludeLocal;
                                },
                                None => {
                                    ast_tokens.push(self.tokens[index].clone());
                                    ast_type = AstType::Include;
                                },
                            }
                        },
                    }
                    self.index = index + 1;
                },
                TokenType::Keyword => {
                    if self.tokens.len() - index > 1 && value_is(&self.tokens[index].value, "cb")
                        && self.tokens[index + 1].token_type == TokenType::Curly {
                        ast_tokens.push(self.tokens[index + 1].clone());
                        ast_type = AstType::CodeBlock;
                        self.index = index + 2;
                    } else {
                        ast_tokens.push(self.tokens[index].clone());
                        self.index = index + 1;
                    }
                },
                TokenType::StaticExecution => {
                    if self.tokens.len() - index > 1 && self.tokens[index + 1].token_type
                        == TokenType::Square {
                        ast_tokens.push(self.tokens[index + 1].clone());
                        ast_type = AstType::StaticExecution;
                    }
                    self.index = index + 1;
                },
                _ => {
                    ast_tokens.push(self.tokens[index].clone());
                    self.index = index + 1;
                },
            }
        }
        proof {
            assert(ast_tokens.deep_view() =~= step(ts, ii, old(self).json).node.tokens);
            assert(self.variables@ =~= old(self).variables@ + reg_seq(
                step(ts, ii, old(self).json).reg,
            ));
        }
        Ast { tokens: ast_tokens, ast_type }
    }

    /// Parses the whole remaining buffer. Returns exactly the node sequence
    /// of the grammar, appends exactly its registrations to the symbol table,
    /// touches nothing else, and never moves the cursor backwards. The node
    /// count never exceeds the token count. The one fatal
    /// internal-consistency condition — the cursor standing at the end of the
    /// buffer inside the loop body — is `step_once`'s precondition, proved
    /// unreachable rather than checked at run time.
    pub fn parse(&mut self) -> (r: Vec<Ast>)
        ensures
            r.deep_view() == parse_from(
                old(self).tokens.deep_view(),
                old(self).index as int,
                old(self).json,
            ),
            final(self).variables@ == old(self).variables@ + regs_from(
                old(self).tokens.deep_view(),
                old(self).index as int,
                old(self).json,
            ),
            final(self).tokens == old(self).tokens,
            final(self).json == old(self).json,
            old(self).index <= final(self).index,
            old(self).index <= old(self).tokens@.len() ==> final(self).index
                == old(self).tokens@.len(),
            r@.len() <= old(self).tokens@.len(),
    {
        let ghost ts: Seq<TokenModel> = old(self).tokens.deep_view();
        let ghost i0: int = old(self).index as int;
        let ghost json_mode: bool = old(self).json;
        let mut full_ast: Vec<Ast> = Vec::new();
        while self.index < self.tokens.len()
            invariant
                ts == old(self).tokens.deep_view(),
                i0 == old(self).index as int,
                json_mode == old(self).json,
                self.tokens == old(self).tokens,
                self.json == old(self).json,
                old(self).index <= self.index,
                self.index as int <= ts.len() || self.index == old(self).index,
                full_ast.deep_view() + parse_from(ts, self.index as int, json_mode) == parse_from(
                    ts,
                    i0,
                    json_mode,
                ),
                self.variables@ + regs_from(ts, self.index as int, json_mode) == old(
                    self,
                ).variables@ + regs_from(ts, i0, json_mode),
            decreases self.tokens.len() - self.index,
        {
            let ghost ii: int = self.index as int;
            let ghost st = step(ts, ii, json_mode);
            let ghost vars_pre = self.variables@;
            let ghost fa_pre = full_ast.deep_view();
            proof {
                assert(ts.len() == self.tokens@.len());
                lemma_step_advances(ts, ii, json_mode);
                lemma_step_in_bounds(ts, ii, json_mode);
            }
            let node = self.step_once();
            full_ast.push(node);
            proof {
                assert(full_ast.deep_view() =~= fa_pre.push(st.node));
                assert(parse_from(ts, ii, json_mode) == seq![st.node] + parse_from(
                    ts,
                    ii + st.advance,
                    json_mode,
                ));
                assert(full_ast.deep_view() + parse_from(ts, self.index as int, json_mode) =~= fa_pre
                    + parse_from(ts, ii, json_mode));
                assert(regs_from(ts, ii, json_mode) == reg_seq(st.reg) + regs_from(
                    ts,
                    ii + st.advance,
                    json_mode,
                ));
                assert(self.variables@ + regs_from(ts, self.index as int, json_mode) =~= vars_pre
                    + regs_from(ts, ii, json_mode));
            }
        }
        proof {
            assert(parse_from(ts, self.index as int, json_mode) =~= Seq::<AstModel>::empty());
            assert(full_ast.deep_view() =~= parse_from(ts, i0, json_mode));
            assert(self.variables@ =~= old(self).variables@ + regs_from(ts, i0, json_mode));
            lemma_parse_from_len(ts, i0, json_mode);
            assert(full_ast@.len() == full_ast.deep_view().len());
        }
        full_ast
    }
}

} // verus!
