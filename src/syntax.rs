use vstd::prelude::*;

verus! {

/// A range of source positions, as byte offsets into the file.
#[derive(Clone, Copy, Debug, PartialEq, Eq, Structural)]
pub struct Span {
    pub lo: u32,
    pub hi: u32,
}

impl Span {
    pub fn new(lo: u32, hi: u32) -> (r: Span)
        ensures
            r.lo == lo,
            r.hi == hi,
    {
        Span { lo, hi }
    }

    pub fn lo(&self) -> (r: u32)
        ensures
            r == self.lo,
    {
        self.lo
    }
}

/// What an expression node is, as far as the lint cares.
#[derive(Clone, Copy, Debug, PartialEq, Eq, Structural)]
pub enum ExprKind {
    /// A plain call `f(..)`.
    Call,
    /// A method call `r.m(..)`.
    MethodCall,
    /// An explicit `return`, with or without a value.
    Ret,
    /// A `?` expression.
    Try,
    /// Any other expression: blocks, literals, paths, branches, loops, closures...
    Other,
}

/// One expression node of a parsed function body.
///
/// `children` holds every sub-expression the node has (callee and arguments,
/// receiver, statements of a block, branches, loop bodies, closure bodies), in
/// source order. `snippet` is the node's source text, where the host could
/// produce it.
#[derive(Debug)]
pub struct Expr {
    pub kind: ExprKind,
    pub span: Span,
    pub snippet: Option<String>,
    pub children: Vec<Expr>,
}

impl Expr {
    /// A node without sub-expressions.
    pub fn leaf(kind: ExprKind, span: Span, snippet: Option<String>) -> (r: Expr)
        ensures
            r.kind == kind,
            r.span == span,
            r.snippet == snippet,
            r.children@.len() == 0,
    {
        Expr { kind, span, snippet, children: Vec::new() }
    }

    /// A node with the given sub-expressions, in source order.
    pub fn node(kind: ExprKind, span: Span, snippet: Option<String>, children: Vec<Expr>) -> (r: Expr)
        ensures
            r.kind == kind,
            r.span == span,
            r.snippet == snippet,
            r.children == children,
    {
        Expr { kind, span, snippet, children }
    }
}

} // verus!
