//! The symbol table: an append-only registry of declared names with their
//! source positions and optional documentation text. The parser is its sole
//! writer during a parse; no lookup or removal is offered because downstream
//! consumers read the whole record list.

use vstd::prelude::*;

use crate::token::LexerState;

verus! {

/// The declaration kinds the parser registers.
#[derive(Clone, Copy, PartialEq, Eq, Structural, Debug)]
pub enum SymbolKind {
    Struct,
    Namespace,
    Function,
    Variable,
}

/// One registration record: kind, name, position and documentation text
/// (empty when the declaration had no preceding comment).
pub struct Symbol {
    pub kind: SymbolKind,
    pub name: String,
    pub state: LexerState,
    pub desc: String,
}

/// The mathematical model of a registration record.
pub struct SymbolModel {
    pub kind: SymbolKind,
    pub name: Seq<char>,
    pub line: usize,
    pub column: usize,
    pub desc: Seq<char>,
}

impl View for Symbol {
    type V = SymbolModel;

    open spec fn view(&self) -> SymbolModel {
        SymbolModel {
            kind: self.kind,
            name: self.name@,
            line: self.state.line,
            column: self.state.column,
            desc: self.desc@,
        }
    }
}

impl DeepView for Symbol {
    type V = SymbolModel;

    open spec fn deep_view(&self) -> SymbolModel {
        self.view()
    }
}

/// The symbol table. Its view is the ordered sequence of registrations.
pub struct Variables {
    pub symbols: Vec<Symbol>,
}

impl View for Variables {
    type V = Seq<SymbolModel>;

    open spec fn view(&self) -> Seq<SymbolModel> {
        self.symbols.deep_view()
    }
}

impl Variables {
    /// An empty symbol table.
    pub fn new() -> (v: Variables)
        ensures
            v@ == Seq::<SymbolModel>::empty(),
    {
        let v = Variables { symbols: Vec::new() };
        proof {
            assert(v@ =~= Seq::<SymbolModel>::empty());
        }
        v
    }

    fn register(&mut self, kind: SymbolKind, name: String, state: LexerState, desc: String)
        ensures
            final(self)@ == old(self)@.push(
                SymbolModel {
                    kind: kind,
                    name: name@,
                    line: state.line,
                    column: state.column,
                    desc: desc@,
                },
            ),
    {
        let sym = Symbol { kind, name, state, desc };
        let ghost s = sym@;
        self.symbols.push(sym);
        proof {
            assert(self@ =~= old(self)@.push(s));
        }
    }

    /// Registers a struct declaration.
    pub fn new_struct(&mut self, name: String, state: LexerState, desc: String)
        ensures
            final(self)@ == old(self)@.push(
                SymbolModel {
                    kind: SymbolKind::Struct,
                    name: name@,
                    line: state.line,
                    column: state.column,
                    desc: desc@,
                },
            ),
    {
        self.register(SymbolKind::Struct, name, state, desc);
    }

    /// Registers a namespace declaration.
    pub fn new_namespace(&mut self, name: String, state: LexerState, desc: String)
        ensures
            final(self)@ == old(self)@.push(
                SymbolModel {
                    kind: SymbolKind::Namespace,
                    name: name@,
                    line: state.line,
                    column: state.column,
                    desc: desc@,
                },
            ),
    {
        self.register(SymbolKind::Namespace, name, state, desc);
    }

    /// Registers a function declaration.
    pub fn new_func(&mut self, name: String, state: LexerState, desc: String)
        ensures
            final(self)@ == old(self)@.push(
                SymbolModel {
                    kind: SymbolKind::Function,
                    name: name@,
                    line: state.line,
                    column: state.column,
                    desc: desc@,
                },
            ),
    {
        self.register(SymbolKind::Function, name, state, desc);
    }

    /// Registers a variable declaration.
    pub fn new_var(&mut self, name: String, state: LexerState, desc: String)
        ensures
            final(self)@ == old(self)@.push(
                SymbolModel {
                    kind: SymbolKind::Variable,
                    name: name@,
                    line: state.line,
                    column: state.column,
                    desc: desc@,
                },
            ),
    {
        self.register(SymbolKind::Variable, name, state, desc);
    }
}

} // verus!
