use vstd::prelude::*;
use crate::syntax::{Expr, ExprKind, Span};

verus! {

/// The kinds of node the walker records.
#[derive(Clone, Copy, Debug, PartialEq, Eq, Structural)]
pub enum MatchKind {
    Call,
    MethodCall,
    Return,
    TryPropagate,
}

/// One recorded node: where it stands, what it is, and its source text if known.
#[derive(Debug)]
pub struct Match {
    pub span: Span,
    pub kind: MatchKind,
    pub snippet: Option<String>,
}

/// The category of a node, by its kind alone.
pub open spec fn kind_of(k: ExprKind) -> Option<MatchKind> {
    match k {
        ExprKind::Call => Some(MatchKind::Call),
        ExprKind::MethodCall => Some(MatchKind::MethodCall),
        ExprKind::Ret => Some(MatchKind::Return),
        ExprKind::Try => Some(MatchKind::TryPropagate),
        ExprKind::Other => None,
    }
}

/// What the walker records for the node itself, leaving its children aside.
pub open spec fn own_match(e: Expr) -> Seq<Match> {
    match kind_of(e.kind) {
        Some(k) => seq![Match { span: e.span, kind: k, snippet: e.snippet }],
        None => Seq::empty(),
    }
}

/// The records of a whole tree, parent before children, children in source order.
pub open spec fn preorder(e: Expr) -> Seq<Match>
    decreases e,
{
    own_match(e) + preorder_all(e.children@)
}

/// The records of a list of trees, one after the other.
pub open spec fn preorder_all(es: Seq<Expr>) -> Seq<Match>
    decreases es,
{
    if es.len() == 0 {
        Seq::empty()
    } else {
        preorder_all(es.subrange(0, es.len() - 1)) + preorder(es[es.len() - 1])
    }
}

/// Whether a tree holds a `return` or a `?` anywhere.
pub open spec fn has_return(e: Expr) -> bool
    decreases e,
{
    e.kind == ExprKind::Ret || e.kind == ExprKind::Try || has_return_all(e.children@)
}

/// Whether any tree of the list holds a `return` or a `?`.
pub open spec fn has_return_all(es: Seq<Expr>) -> bool
    decreases es,
{
    es.len() > 0 && (has_return_all(es.subrange(0, es.len() - 1)) || has_return(es[es.len() - 1]))
}

/// Sorts one node into its category; every node kind the lint does not
/// record gives `None`.
pub fn classify(e: &Expr) -> (r: Option<MatchKind>)
    ensures
        r == kind_of(e.kind),
{
    match e.kind {
        ExprKind::Call => Some(MatchKind::Call),
        ExprKind::MethodCall => Some(MatchKind::MethodCall),
        ExprKind::Ret => Some(MatchKind::Return),
        ExprKind::Try => Some(MatchKind::TryPropagate),
        ExprKind::Other => None,
    }
}

fn copy_snippet(s: &Option<String>) -> (r: Option<String>)
    ensures
        r == *s,
{
    match s {
        Some(t) => Some(t.clone()),
        None => None,
    }
}

/// Collects, in pre-order, every call, method call, return and `?` of a tree.
pub struct CollectCallsAndRetsVisitor {
    /// Set once any node has been recorded.
    pub found_return: bool,
    /// The records so far, in the order of the walk.
    pub returns: Vec<Match>,
}

impl CollectCallsAndRetsVisitor {
    pub fn new() -> (r: Self)
        ensures
            !r.found_return,
            r.returns@ == Seq::<Match>::empty(),
    {
        CollectCallsAndRetsVisitor { found_return: false, returns: Vec::new() }
    }

    /// Walks one tree and appends its records.
    pub fn visit_expr(&mut self, e: &Expr)
        ensures
            final(self).returns@ == old(self).returns@ + preorder(*e),
            final(self).found_return == (old(self).found_return || preorder(*e).len() > 0),
        decreases e,
    {
        match classify(e) {
            Some(k) => {
                self.found_return = true;
                self.returns.push(Match { span: e.span, kind: k, snippet: copy_snippet(&e.snippet) });
            },
            None => {},
        }
        assert(self.returns@ == old(self).returns@ + own_match(*e));
        let ghost mid = self.returns@;
        let ghost mid_found = self.found_return;
        let n: usize = e.children.len();
        let mut i: usize = 0;
        while i < n
            invariant
                n == e.children@.len(),
                i <= n,
                self.returns@ == mid + preorder_all(e.children@.subrange(0, i as int)),
                self.found_return == (mid_found || preorder_all(e.children@.subrange(0, i as int)).len() > 0),
            decreases n - i,
        {
            let ghost before = self.returns@;
            self.visit_expr(&e.children[i]);
            proof {
                let s = e.children@.subrange(0, i + 1);
                assert(s.subrange(0, i as int) == e.children@.subrange(0, i as int));
                assert(s[i as int] == e.children@[i as int]);
            }
            i = i + 1;
        }
        assert(e.children@.subrange(0, n as int) == e.children@);
    }

    /// Walks the statements of a block, in order.
    pub fn visit_block(&mut self, stmts: &Vec<Expr>)
        ensures
            final(self).returns@ == old(self).returns@ + preorder_all(stmts@),
            final(self).found_return == (old(self).found_return || preorder_all(stmts@).len() > 0),
    {
        let n: usize = stmts.len();
        let mut i: usize = 0;
        while i < n
            invariant
                n == stmts@.len(),
                i <= n,
                self.returns@ == old(self).returns@ + preorder_all(stmts@.subrange(0, i as int)),
                self.found_return == (old(self).found_return || preorder_all(stmts@.subrange(0, i as int)).len() > 0),
            decreases n - i,
        {
            self.visit_expr(&stmts[i]);
            proof {
                let s = stmts@.subrange(0, i + 1);
                assert(s.subrange(0, i as int) == stmts@.subrange(0, i as int));
            }
            i = i + 1;
        }
        assert(stmts@.subrange(0, n as int) == stmts@);
    }
}

} // verus!
