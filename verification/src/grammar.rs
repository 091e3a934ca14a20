//! The grammar as a mathematical object: an ordered, priority-ranked set of
//! rules over a flat token buffer with lookahead windows of one to four
//! tokens. `step` says, for a cursor position, which node one pass of the
//! parse loop emits, how far the cursor advances, and which registration (if
//! any) the symbol table gains. `parse_from` and `regs_from` fold `step` over
//! the whole buffer; `Parser::parse` is proved against them.

use vstd::prelude::*;

use crate::ast::AstModel;
use crate::ast::AstType;
use crate::ast::is_decl_tag;
use crate::patterns::angle_path_of;
use crate::patterns::local_path_of;
use crate::symbols::SymbolKind;
use crate::symbols::SymbolModel;
use crate::token::TokenModel;
use crate::token::TokenType;

verus! {

/// The grammar rules, one per dispatch arm, in priority order. `Passthrough`
/// is the fallback that carries an unrecognized token through unchanged;
/// `StaticExecAlone` is a static-execution token not followed by a square
/// group, which degrades to an empty-capture `Other` node.
#[derive(PartialEq, Eq, Structural)]
pub enum RuleId {
    Json,
    Ref,
    StructDecl,
    NamespaceDecl,
    ImplBlock,
    State3,
    State2,
    FunctionDecl,
    StructCall,
    StructVar,
    PlainVar,
    GenericVar,
    PointerVar,
    IncludeDirective,
    CodeBlock,
    KeywordOther,
    StaticExec,
    StaticExecAlone,
    Passthrough,
}

/// What one pass of the parse loop does at cursor `i`: the node it appends,
/// how far the cursor moves, and the registration the symbol table gains.
pub struct Step {
    pub node: AstModel,
    pub advance: int,
    pub reg: Option<SymbolModel>,
}

/// Key/value pair in JSON mode: `X ":" Y`.
pub open spec fn guard_json(ts: Seq<TokenModel>, i: int, json: bool) -> bool {
    json && ts.len() - i > 2 && ts[i + 1].value == ":"@
}

/// A reference: `"&" Identifier`.
pub open spec fn guard_ref(ts: Seq<TokenModel>, i: int) -> bool {
    ts.len() - i > 1 && ts[i].value == "&"@ && ts[i + 1].token_type == TokenType::Identifier
}

/// A keyword-introduced block declaration: `kw Identifier Curly`.
pub open spec fn guard_kw_block(ts: Seq<TokenModel>, i: int, kw: Seq<char>) -> bool {
    ts.len() - i > 2 && ts[i].value == kw && ts[i + 1].token_type == TokenType::Identifier
        && ts[i + 2].token_type == TokenType::Curly
}

/// A three-token state form: `Keyword1 Round Curly`.
pub open spec fn guard_state3(ts: Seq<TokenModel>, i: int) -> bool {
    ts.len() - i > 2 && ts[i].token_type == TokenType::Keyword1 && ts[i + 1].token_type
        == TokenType::Round && ts[i + 2].token_type == TokenType::Curly
}

/// A two-token state form: `Keyword2 Curly`.
pub open spec fn guard_state2(ts: Seq<TokenModel>, i: int) -> bool {
    ts.len() - i > 1 && ts[i].token_type == TokenType::Keyword2 && ts[i + 1].token_type
        == TokenType::Curly
}

/// A function declaration: `Identifier Identifier Round Curly`.
pub open spec fn guard_function(ts: Seq<TokenModel>, i: int) -> bool {
    ts.len() - i > 3 && ts[i + 1].token_type == TokenType::Identifier && ts[i + 2].token_type
        == TokenType::Round && ts[i + 3].token_type == TokenType::Curly
}

/// A struct call: `Identifier Curly`.
pub open spec fn guard_struct_call(ts: Seq<TokenModel>, i: int) -> bool {
    ts.len() - i > 1 && ts[i + 1].token_type == TokenType::Curly
}

/// A struct variable: `Identifier Identifier Curly`.
pub open spec fn guard_struct_var(ts: Seq<TokenModel>, i: int) -> bool {
    ts.len() - i > 2 && ts[i + 1].token_type == TokenType::Identifier && ts[i + 2].token_type
        == TokenType::Curly
}

/// A plain variable declaration: `Identifier Identifier`.
pub open spec fn guard_plain_var(ts: Seq<TokenModel>, i: int) -> bool {
    ts.len() - i > 1 && ts[i + 1].token_type == TokenType::Identifier
}

/// A generic-type variable declaration: `Identifier Angle Identifier`.
pub open spec fn guard_generic_var(ts: Seq<TokenModel>, i: int) -> bool {
    ts.len() - i > 2 && ts[i + 1].token_type == TokenType::Angle && ts[i + 2].token_type
        == TokenType::Identifier
}

/// A pointer declaration: `Identifier "*" Identifier`.
pub open spec fn guard_pointer_var(ts: Seq<TokenModel>, i: int) -> bool {
    ts.len() - i > 2 && ts[i + 1].value == "*"@ && ts[i + 2].token_type == TokenType::Identifier
}

/// A code block: keyword `cb` followed by a curly group.
pub open spec fn guard_code_block(ts: Seq<TokenModel>, i: int) -> bool {
    ts.len() - i > 1 && ts[i].value == "cb"@ && ts[i + 1].token_type == TokenType::Curly
}

/// A static-execution block: the marker followed by a square group.
pub open spec fn guard_static_exec(ts: Seq<TokenModel>, i: int) -> bool {
    ts.len() - i > 1 && ts[i + 1].token_type == TokenType::Square
}

/// Which rule fires at cursor `i`: the first of the priority-ordered rules
/// whose lookahead preconditions hold. Rule order is semantics: the windows
/// overlap, and the more specific pattern must win.
pub open spec fn rule_at(ts: Seq<TokenModel>, i: int, json: bool) -> RuleId
    recommends
        0 <= i < ts.len(),
{
    if guard_json(ts, i, json) {
        RuleId::Json
    } else if guard_ref(ts, i) {
        RuleId::Ref
    } else if guard_kw_block(ts, i, "struct"@) {
        RuleId::StructDecl
    } else if guard_kw_block(ts, i, "namespace"@) {
        RuleId::NamespaceDecl
    } else if guard_kw_block(ts, i, "impl"@) {
        RuleId::ImplBlock
    } else if guard_state3(ts, i) {
        RuleId::State3
    } else if guard_state2(ts, i) {
        RuleId::State2
    } else if ts[i].token_type == TokenType::Identifier {
        if guard_function(ts, i) {
            RuleId::FunctionDecl
        } else if guard_struct_call(ts, i) {
            RuleId::StructCall
        } else if guard_struct_var(ts, i) {
            RuleId::StructVar
        } else if guard_plain_var(ts, i) {
            RuleId::PlainVar
        } else if guard_generic_var(ts, i) {
            RuleId::GenericVar
        } else if guard_pointer_var(ts, i) {
            RuleId::PointerVar
        } else {
            RuleId::Passthrough
        }
    } else if ts[i].token_type == TokenType::Include {
        RuleId::IncludeDirective
    } else if ts[i].token_type == TokenType::Keyword {
        if guard_code_block(ts, i) {
            RuleId::CodeBlock
        } else {
            RuleId::KeywordOther
        }
    } else if ts[i].token_type == TokenType::StaticExecution {
        if guard_static_exec(ts, i) {
            RuleId::StaticExec
        } else {
            RuleId::StaticExecAlone
        }
    } else {
        RuleId::Passthrough
    }
}

/// The documentation text of a declaration whose rule anchors at `i`: the
/// text of the token immediately before the anchor when that token is a
/// comment, empty otherwise.
pub open spec fn doc_at(ts: Seq<TokenModel>, i: int) -> Seq<char> {
    if i > 0 && ts[i - 1].token_type == TokenType::Comment {
        ts[i - 1].value
    } else {
        Seq::<char>::empty()
    }
}

/// The registration a declaration rule makes: `kind`, the name token's text
/// and position, and the documentation text of the anchor position.
pub open spec fn reg_of(ts: Seq<TokenModel>, i: int, kind: SymbolKind, name_tok: int) -> SymbolModel {
    SymbolModel {
        kind: kind,
        name: ts[name_tok].value,
        line: ts[name_tok].line,
        column: ts[name_tok].column,
        desc: doc_at(ts, i),
    }
}

/// The token a matched include directive carries: a synthesized string token
/// holding the path text, at position zero.
pub open spec fn synthesized_path(path: Seq<char>) -> TokenModel {
    TokenModel { token_type: TokenType::String, value: path, line: 0, column: 0 }
}

/// The node of an include directive: the system form wins, then the local
/// form; any other content is carried through unchanged under `Include`.
pub open spec fn include_node(t: TokenModel) -> AstModel {
    match angle_path_of(t.value) {
        Some(path) => AstModel { tokens: seq![synthesized_path(path)], ast_type: AstType::Include },
        None => match local_path_of(t.value) {
            Some(path) => AstModel {
                tokens: seq![synthesized_path(path)],
                ast_type: AstType::IncludeLocal,
            },
            None => AstModel { tokens: seq![t], ast_type: AstType::Include },
        },
    }
}

/// The rewritten token of a generic-type variable declaration: the trailing
/// identifier, with the angle group's text appended in `<`/`>` brackets.
pub open spec fn generic_var_token(ts: Seq<TokenModel>, i: int) -> TokenModel {
    TokenModel {
        token_type: ts[i + 2].token_type,
        value: ts[i + 2].value + "<"@ + ts[i + 1].value + ">"@,
        line: ts[i + 2].line,
        column: ts[i + 2].column,
    }
}

/// What one pass of the parse loop does at cursor `i`.
pub open spec fn step(ts: Seq<TokenModel>, i: int, json: bool) -> Step
    recommends
        0 <= i < ts.len(),
{
    match rule_at(ts, i, json) {
        RuleId::Json => Step {
            node: AstModel { tokens: seq![ts[i], ts[i + 2]], ast_type: AstType::Json },
            advance: 3,
            reg: None,
        },
        RuleId::Ref => Step {
            node: AstModel { tokens: seq![ts[i + 1]], ast_type: AstType::Ref },
            advance: 2,
            reg: None,
        },
        RuleId::StructDecl => Step {
            node: AstModel {
                tokens: seq![ts[i + 1], ts[i + 2]],
                ast_type: AstType::StructDeceleration,
            },
            advance: 3,
            reg: Some(reg_of(ts, i, SymbolKind::Struct, i + 1)),
        },
        RuleId::NamespaceDecl => Step {
            node: AstModel { tokens: seq![ts[i + 1], ts[i + 2]], ast_type: AstType::Namespace },
            advance: 3,
            reg: Some(reg_of(ts, i, SymbolKind::Namespace, i + 1)),
        },
        RuleId::ImplBlock => Step {
            node: AstModel { tokens: seq![ts[i + 1], ts[i + 2]], ast_type: AstType::Impl },
            advance: 3,
            reg: None,
        },
        RuleId::State3 => Step {
            node: AstModel { tokens: seq![ts[i], ts[i + 1], ts[i + 2]], ast_type: AstType::State3 },
            advance: 3,
            reg: None,
        },
        RuleId::State2 => Step {
            node: AstModel { tokens: seq![ts[i], ts[i + 1]], ast_type: AstType::State2 },
            advance: 2,
            reg: None,
        },
        RuleId::FunctionDecl => Step {
            node: AstModel {
                tokens: seq![ts[i + 1], ts[i + 2], ts[i + 3]],
                ast_type: if ts[i].value == "void"@ {
                    AstType::VoidFunctionDeceleration
                } else {
                    AstType::FunctionDeceleration
                },
            },
            advance: 4,
            reg: Some(reg_of(ts, i, SymbolKind::Function, i + 1)),
        },
        RuleId::StructCall => Step {
            node: AstModel { tokens: seq![ts[i + 1]], ast_type: AstType::StructCall },
            advance: 2,
            reg: None,
        },
        RuleId::StructVar => Step {
            node: AstModel { tokens: seq![ts[i + 1], ts[i + 2]], ast_type: AstType::StructVar },
            advance: 3,
            reg: Some(reg_of(ts, i, SymbolKind::Variable, i + 1)),
        },
        RuleId::PlainVar => Step {
            node: AstModel { tokens: seq![ts[i + 1]], ast_type: AstType::VariableDeceleration },
            advance: 2,
            reg: Some(reg_of(ts, i, SymbolKind::Variable, i + 1)),
        },
        RuleId::GenericVar => Step {
            node: AstModel {
                tokens: seq![generic_var_token(ts, i)],
                ast_type: AstType::VariableDeceleration,
            },
            advance: 3,
            reg: Some(reg_of(ts, i, SymbolKind::Variable, i + 1)),
        },
        RuleId::PointerVar => Step {
            node: AstModel { tokens: seq![ts[i + 2]], ast_type: AstType::PointerDeceleration },
            advance: 3,
            reg: Some(reg_of(ts, i, SymbolKind::Variable, i + 2)),
        },
        RuleId::IncludeDirective => Step { node: include_node(ts[i]), advance: 1, reg: None },
        RuleId::CodeBlock => Step {
            node: AstModel { tokens: seq![ts[i + 1]], ast_type: AstType::CodeBlock },
            advance: 2,
            reg: None,
        },
        RuleId::KeywordOther => Step {
            node: AstModel { tokens: seq![ts[i]], ast_type: AstType::Other },
            advance: 1,
            reg: None,
        },
        RuleId::StaticExec => Step {
            node: AstModel { tokens: seq![ts[i + 1]], ast_type: AstType::StaticExecution },
            advance: 1,
            reg: None,
        },
        RuleId::StaticExecAlone => Step {
            node: AstModel { tokens: Seq::<TokenModel>::empty(), ast_type: AstType::Other },
            advance: 1,
            reg: None,
        },
        RuleId::Passthrough => Step {
            node: AstModel { tokens: seq![ts[i]], ast_type: AstType::Other },
            advance: 1,
            reg: None,
        },
    }
}

/// The full node sequence of a parse that starts at cursor `i`.
pub open spec fn parse_from(ts: Seq<TokenModel>, i: int, json: bool) -> Seq<AstModel>
    decreases ts.len() - i,
{
    if 0 <= i < ts.len() {
        seq![step(ts, i, json).node] + parse_from(ts, i + step(ts, i, json).advance, json)
    } else {
        Seq::<AstModel>::empty()
    }
}

/// The registrations of one pass: one record or none.
pub open spec fn reg_seq(reg: Option<SymbolModel>) -> Seq<SymbolModel> {
    match reg {
        Some(sym) => seq![sym],
        None => Seq::<SymbolModel>::empty(),
    }
}

/// The full registration sequence of a parse that starts at cursor `i`.
pub open spec fn regs_from(ts: Seq<TokenModel>, i: int, json: bool) -> Seq<SymbolModel>
    decreases ts.len() - i,
{
    if 0 <= i < ts.len() {
        reg_seq(step(ts, i, json).reg) + regs_from(ts, i + step(ts, i, json).advance, json)
    } else {
        Seq::<SymbolModel>::empty()
    }
}

/// Every pass of the loop moves the cursor strictly forward: each rule
/// consumes at least one token.
pub proof fn lemma_step_advances(ts: Seq<TokenModel>, i: int, json: bool)
    ensures
        1 <= step(ts, i, json).advance <= 4,
{
}

/// Every rule stays inside the buffer: the cursor never moves past the end.
pub proof fn lemma_step_in_bounds(ts: Seq<TokenModel>, i: int, json: bool)
    requires
        0 <= i < ts.len(),
    ensures
        i + step(ts, i, json).advance <= ts.len(),
{
}

/// A parse emits at most one node per remaining token: the node count is
/// bounded by the number of tokens at or after the cursor.
pub proof fn lemma_parse_from_len(ts: Seq<TokenModel>, i: int, json: bool)
    requires
        0 <= i,
    ensures
        parse_from(ts, i, json).len() <= if i <= ts.len() {
            ts.len() - i
        } else {
            0
        },
    decreases ts.len() - i,
{
    if 0 <= i < ts.len() {
        lemma_step_advances(ts, i, json);
        lemma_parse_from_len(ts, i + step(ts, i, json).advance, json);
    }
}

/// Parsing is deterministic: equal token buffers, cursors and modes yield the
/// same node sequence and the same registration sequence, whatever the symbol
/// table held before.
pub proof fn lemma_parse_deterministic(ts1: Seq<TokenModel>, ts2: Seq<TokenModel>, i: int, json: bool)
    requires
        ts1 == ts2,
    ensures
        parse_from(ts1, i, json) == parse_from(ts2, i, json),
        regs_from(ts1, i, json) == regs_from(ts2, i, json),
{
}

/// Every declaration node corresponds to exactly one symbol-table
/// registration, made at the moment the rule fires, whose name and position
/// are those of the node's first captured token (its name token). The
/// generic-type variable rule is excluded: it rewrites the displayed name
/// while registering the angle token's own text and position, so its node and
/// its registration disagree by design.
pub proof fn lemma_decl_has_matching_registration(ts: Seq<TokenModel>, i: int, json: bool)
    requires
        0 <= i < ts.len(),
        rule_at(ts, i, json) != RuleId::GenericVar,
        is_decl_tag(step(ts, i, json).node.ast_type),
    ensures
        step(ts, i, json).reg is Some,
        reg_seq(step(ts, i, json).reg).len() == 1,
        step(ts, i, json).node.tokens.len() >= 1,
        step(ts, i, json).reg.unwrap().name == step(ts, i, json).node.tokens[0].value,
        step(ts, i, json).reg.unwrap().line == step(ts, i, json).node.tokens[0].line,
        step(ts, i, json).reg.unwrap().column == step(ts, i, json).node.tokens[0].column,
{
}

} // verus!
