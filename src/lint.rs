use vstd::prelude::*;
use crate::analysis::{analyze, finding_of, Finding};
use crate::syntax::{Expr, ExprKind, Span};
use crate::walk::{has_return, has_return_all, preorder_all, CollectCallsAndRetsVisitor};

verus! {

/// The marker that a write call's source text holds unless configured otherwise.
pub const DEFAULT_MUTATION_MARKER: &'static str = "put";

/// The write-then-error lint, with its configured mutation marker.
pub struct WriteAndError {
    pub mutation_marker: String,
}

impl WriteAndError {
    /// The lint with the marker `put`.
    pub fn new() -> (r: Self)
        ensures
            r.mutation_marker@ == DEFAULT_MUTATION_MARKER@,
    {
        WriteAndError { mutation_marker: DEFAULT_MUTATION_MARKER.to_owned() }
    }

    /// The lint with a marker of the caller's choice.
    pub fn with_marker(marker: &str) -> (r: Self)
        ensures
            r.mutation_marker@ == marker@,
    {
        WriteAndError { mutation_marker: marker.to_owned() }
    }

    /// Checks one function body, given as the statements of its block, and
    /// `span`, the span of the whole function.
    pub fn check_fn(&self, body: &Vec<Expr>, span: Span) -> (r: Option<Finding>)
        ensures
            r == finding_of(preorder_all(body@), self.mutation_marker@, span),
    {
        let mut visitor = CollectCallsAndRetsVisitor::new();
        visitor.visit_block(body);
        analyze(&visitor.returns, self.mutation_marker.as_str(), span)
    }
}

/// Finds out whether a tree holds a `return` or a `?` anywhere.
pub struct ReturnVisitor {
    pub found_return: bool,
}

impl ReturnVisitor {
    pub fn new() -> (r: Self)
        ensures
            !r.found_return,
    {
        ReturnVisitor { found_return: false }
    }

    pub fn visit_expr(&mut self, e: &Expr)
        ensures
            final(self).found_return == (old(self).found_return || has_return(*e)),
        decreases e,
    {
        if e.kind == ExprKind::Ret || e.kind == ExprKind::Try {
            self.found_return = true;
        }
        let n: usize = e.children.len();
        let mut i: usize = 0;
        while i < n
            invariant
                n == e.children@.len(),
                i <= n,
                self.found_return == (old(self).found_return || e.kind == ExprKind::Ret
                    || e.kind == ExprKind::Try || has_return_all(e.children@.subrange(0, i as int))),
            decreases n - i,
        {
            self.visit_expr(&e.children[i]);
            proof {
                let s = e.children@.subrange(0, i + 1);
                assert(s.subrange(0, i as int) == e.children@.subrange(0, i as int));
                assert(s[i as int] == e.children@[i as int]);
            }
            i = i + 1;
        }
        assert(e.children@.subrange(0, n as int) == e.children@);
    }
}

} // verus!
