//! The flat syntax nodes the parser emits: one classified node per parsed
//! construct, holding only the raw tokens relevant to that construct. Nodes
//! never nest.

use vstd::prelude::*;

use crate::token::Token;
use crate::token::TokenModel;

verus! {

/// The closed set of node classifications. `MutVariableDeceleration` is
/// reserved: it is part of the declaration predicate but no grammar rule
/// produces it. `Other` carries through any token the grammar does not
/// specifically recognize.
#[derive(Clone, Copy, PartialEq, Eq, Structural, Debug)]
pub enum AstType {
    Ref,
    FunctionDeceleration,
    StructDeceleration,
    StructCall,
    StructVar,
    VoidFunctionDeceleration,
    Namespace,
    VariableDeceleration,
    PointerDeceleration,
    MutVariableDeceleration,
    State3,
    State2,
    Include,
    IncludeLocal,
    CodeBlock,
    Json,
    Impl,
    StaticExecution,
    Other,
}

/// One syntax node: the captured tokens and a classification tag.
pub struct Ast {
    pub tokens: Vec<Token>,
    pub ast_type: AstType,
}

/// The mathematical model of a node: the captured token models and the tag.
pub struct AstModel {
    pub tokens: Seq<TokenModel>,
    pub ast_type: AstType,
}

impl View for Ast {
    type V = AstModel;

    open spec fn view(&self) -> AstModel {
        AstModel { tokens: self.tokens.deep_view(), ast_type: self.ast_type }
    }
}

impl DeepView for Ast {
    type V = AstModel;

    open spec fn deep_view(&self) -> AstModel {
        self.view()
    }
}

/// Whether a tag denotes a named definition eligible for symbol-table
/// registration.
pub open spec fn is_decl_tag(t: AstType) -> bool {
    ||| t == AstType::FunctionDeceleration
    ||| t == AstType::VoidFunctionDeceleration
    ||| t == AstType::Namespace
    ||| t == AstType::VariableDeceleration
    ||| t == AstType::PointerDeceleration
    ||| t == AstType::MutVariableDeceleration
    ||| t == AstType::StructDeceleration
}

/// A node is a declaration node iff its tag denotes a named definition.
pub fn is_decl(ast: &Ast) -> (r: bool)
    ensures
        r == is_decl_tag(ast.ast_type),
{
    ast.ast_type == AstType::FunctionDeceleration
        || ast.ast_type == AstType::VoidFunctionDeceleration
        || ast.ast_type == AstType::Namespace
        || ast.ast_type == AstType::VariableDeceleration
        || ast.ast_type == AstType::PointerDeceleration
        || ast.ast_type == AstType::MutVariableDeceleration
        || ast.ast_type == AstType::StructDeceleration
}

} // verus!
