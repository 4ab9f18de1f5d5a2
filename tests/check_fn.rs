use write_and_error::analysis::{analyze, is_write_match, Finding};
use write_and_error::lint::{ReturnVisitor, WriteAndError, DEFAULT_MUTATION_MARKER};
use write_and_error::syntax::{Expr, ExprKind, Span};
use write_and_error::walk::{classify, CollectCallsAndRetsVisitor, Match, MatchKind};

fn sp(lo: u32, hi: u32) -> Span {
    Span::new(lo, hi)
}

fn path(lo: u32, text: &str) -> Expr {
    Expr::leaf(ExprKind::Other, sp(lo, lo + text.len() as u32), Some(text.to_string()))
}

/// `name()` at `lo`.
fn call(lo: u32, name: &str) -> Expr {
    let text = format!("{}()", name);
    Expr::node(
        ExprKind::Call,
        sp(lo, lo + text.len() as u32),
        Some(text),
        vec![path(lo, name)],
    )
}

/// `inner?`.
fn try_of(inner: Expr) -> Expr {
    let lo = inner.span.lo;
    let hi = inner.span.hi + 1;
    let text = inner.snippet.clone().map(|s| format!("{}?", s));
    Expr::node(ExprKind::Try, sp(lo, hi), text, vec![inner])
}

/// `return Ok(())` at `lo`.
fn ret_ok(lo: u32) -> Expr {
    let ok = Expr::node(
        ExprKind::Call,
        sp(lo + 7, lo + 13),
        Some("Ok(())".to_string()),
        vec![path(lo + 7, "Ok"), path(lo + 10, "()")],
    );
    Expr::node(ExprKind::Ret, sp(lo, lo + 13), Some("return Ok(())".to_string()), vec![ok])
}

/// `Ok(())` as the block's tail at `lo`.
fn tail_ok(lo: u32) -> Expr {
    Expr::node(
        ExprKind::Call,
        sp(lo, lo + 6),
        Some("Ok(())".to_string()),
        vec![path(lo, "Ok"), path(lo + 3, "()")],
    )
}

fn fn_span() -> Span {
    sp(0, 500)
}

fn check(body: &Vec<Expr>) -> Option<Finding> {
    WriteAndError::new().check_fn(body, fn_span())
}

#[test]
fn it_works() {
    assert_eq!(2 + 2, 4);
}

// put(); fallible()?; Ok(())
#[test]
fn write_then_try_is_reported_at_the_try() {
    let body = vec![call(0, "put"), try_of(call(7, "fallible")), tail_ok(20)];
    let f = check(&body).expect("a finding");
    assert_eq!(f.write_span, sp(0, 5));
    assert_eq!(f.error_span, sp(7, 18));
    assert_eq!(f.primary_span, fn_span());
}

// put(); fallible()?; return Ok(())
#[test]
fn write_then_try_then_return_is_reported_at_the_return() {
    let body = vec![call(0, "put"), try_of(call(7, "fallible")), ret_ok(20)];
    let f = check(&body).expect("a finding");
    assert_eq!(f.write_span, sp(0, 5));
    assert_eq!(f.error_span, sp(20, 33));
}

// let r = fallible()?; put(); Ok(())
#[test]
fn try_before_write_is_not_reported() {
    let local = Expr::node(
        ExprKind::Other,
        sp(0, 20),
        Some("let r = fallible()?".to_string()),
        vec![try_of(call(8, "fallible"))],
    );
    let body = vec![local, call(21, "put"), tail_ok(28)];
    assert_eq!(check(&body), None);
}

// let r = fallible()?; put(); return Ok(())
#[test]
fn return_after_write_is_reported_even_after_an_earlier_try() {
    let local = Expr::node(
        ExprKind::Other,
        sp(0, 20),
        Some("let r = fallible()?".to_string()),
        vec![try_of(call(8, "fallible"))],
    );
    let body = vec![local, call(21, "put"), ret_ok(28)];
    let f = check(&body).expect("a finding");
    assert_eq!(f.write_span, sp(21, 26));
    assert_eq!(f.error_span, sp(28, 41));
}

// other_call(); return Ok(())
#[test]
fn call_without_marker_then_return_is_not_reported() {
    let body = vec![call(0, "other_call"), ret_ok(14)];
    assert_eq!(check(&body), None);
}

#[test]
fn empty_body_is_not_reported() {
    let body: Vec<Expr> = Vec::new();
    assert_eq!(check(&body), None);
}

#[test]
fn swapping_write_and_try_flips_the_outcome() {
    let before = vec![call(0, "put"), try_of(call(7, "fallible"))];
    assert!(check(&before).is_some());
    let after = vec![try_of(call(0, "fallible")), call(13, "put")];
    assert_eq!(check(&after), None);
}

#[test]
fn first_write_is_the_one_compared() {
    // put(); fallible()?; put_again();
    let body = vec![call(0, "put"), try_of(call(7, "fallible")), call(20, "put_again")];
    let f = check(&body).expect("a finding");
    assert_eq!(f.write_span, sp(0, 5));
    assert_eq!(f.error_span, sp(7, 18));
}

#[test]
fn last_error_is_the_one_reported() {
    // put(); a()?; b()?;
    let body = vec![call(0, "put"), try_of(call(7, "a")), try_of(call(13, "b"))];
    let f = check(&body).expect("a finding");
    assert_eq!(f.error_span, sp(13, 17));
}

#[test]
fn errors_alone_are_not_reported() {
    let body = vec![try_of(call(0, "a")), ret_ok(6), try_of(call(20, "b")), ret_ok(30)];
    assert_eq!(check(&body), None);
}

#[test]
fn writes_alone_are_not_reported() {
    let body = vec![call(0, "put"), call(6, "put_more"), tail_ok(20)];
    assert_eq!(check(&body), None);
}

#[test]
fn unmarked_call_is_no_write() {
    let body = vec![call(0, "insert"), try_of(call(9, "fallible"))];
    assert_eq!(check(&body), None);
}

#[test]
fn missing_snippet_is_no_write() {
    let write = Expr::node(ExprKind::Call, sp(0, 5), None, vec![path(0, "put")]);
    let body = vec![write, try_of(call(7, "fallible"))];
    assert_eq!(check(&body), None);
}

#[test]
fn method_call_is_no_write() {
    let write = Expr::node(
        ExprKind::MethodCall,
        sp(0, 9),
        Some("map.put()".to_string()),
        vec![path(0, "map")],
    );
    let body = vec![write, try_of(call(11, "fallible"))];
    assert_eq!(check(&body), None);
}

#[test]
fn marker_inside_a_longer_snippet_is_found() {
    // XYZ::<T>::put(true); ensure_root::<T>(origin)?; Ok(())
    let write = Expr::node(
        ExprKind::Call,
        sp(2, 21),
        Some("XYZ::<T>::put(true)".to_string()),
        vec![path(2, "XYZ::<T>::put"), path(16, "true")],
    );
    let check_call = Expr::node(
        ExprKind::Call,
        sp(25, 50),
        Some("ensure_root::<T>(origin)".to_string()),
        vec![path(25, "ensure_root::<T>"), path(42, "origin")],
    );
    let body = vec![write, try_of(check_call), tail_ok(55)];
    let f = check(&body).expect("a finding");
    assert_eq!(f.write_span, sp(2, 21));
    assert_eq!(f.error_span, sp(25, 51));
}

#[test]
fn write_and_try_at_the_same_offset_are_not_reported() {
    // put()? : the call and the `?` start together
    let body = vec![try_of(call(0, "put"))];
    assert_eq!(check(&body), None);
}

#[test]
fn nested_write_and_return_are_found() {
    // if c { put(); } else { return Err(e); }
    let then_block = Expr::node(ExprKind::Other, sp(5, 15), None, vec![call(7, "put")]);
    let err = Expr::node(ExprKind::Call, sp(30, 36), Some("Err(e)".to_string()), vec![path(30, "Err")]);
    let ret = Expr::node(ExprKind::Ret, sp(23, 36), Some("return Err(e)".to_string()), vec![err]);
    let else_block = Expr::node(ExprKind::Other, sp(21, 39), None, vec![ret]);
    let cond = Expr::node(ExprKind::Other, sp(0, 39), None, vec![path(3, "c"), then_block, else_block]);
    let f = check(&vec![cond]).expect("a finding");
    assert_eq!(f.write_span, sp(7, 12));
    assert_eq!(f.error_span, sp(23, 36));
}

#[test]
fn configured_marker_is_used() {
    let body = vec![call(0, "insert"), try_of(call(9, "fallible"))];
    let c = WriteAndError::with_marker("insert");
    assert!(c.check_fn(&body, fn_span()).is_some());
    let body2 = vec![call(0, "put"), try_of(call(6, "fallible"))];
    assert_eq!(c.check_fn(&body2, fn_span()), None);
}

#[test]
fn default_marker_is_put() {
    assert_eq!(DEFAULT_MUTATION_MARKER, "put");
    assert_eq!(WriteAndError::new().mutation_marker, "put");
}

#[test]
fn classify_sorts_each_kind() {
    let s = sp(0, 1);
    assert_eq!(classify(&Expr::leaf(ExprKind::Call, s, None)), Some(MatchKind::Call));
    assert_eq!(classify(&Expr::leaf(ExprKind::MethodCall, s, None)), Some(MatchKind::MethodCall));
    assert_eq!(classify(&Expr::leaf(ExprKind::Ret, s, None)), Some(MatchKind::Return));
    assert_eq!(classify(&Expr::leaf(ExprKind::Try, s, None)), Some(MatchKind::TryPropagate));
    assert_eq!(classify(&Expr::leaf(ExprKind::Other, s, None)), None);
}

#[test]
fn walk_is_preorder() {
    // put(); fallible()?; return Ok(())
    let body = vec![call(0, "put"), try_of(call(7, "fallible")), ret_ok(20)];
    let mut v = CollectCallsAndRetsVisitor::new();
    assert!(!v.found_return);
    v.visit_block(&body);
    assert!(v.found_return);
    let got: Vec<(MatchKind, u32)> = v.returns.iter().map(|m| (m.kind, m.span.lo)).collect();
    assert_eq!(
        got,
        vec![
            (MatchKind::Call, 0),
            (MatchKind::TryPropagate, 7),
            (MatchKind::Call, 7),
            (MatchKind::Return, 20),
            (MatchKind::Call, 27),
        ]
    );
    assert_eq!(v.returns[0].snippet, Some("put()".to_string()));
}

#[test]
fn analyze_on_records() {
    let ms = vec![
        Match { span: sp(0, 5), kind: MatchKind::Call, snippet: Some("put()".to_string()) },
        Match { span: sp(7, 10), kind: MatchKind::Return, snippet: None },
    ];
    assert_eq!(
        analyze(&ms, "put", sp(0, 20)),
        Some(Finding { primary_span: sp(0, 20), write_span: sp(0, 5), error_span: sp(7, 10) })
    );
    assert_eq!(analyze(&ms, "get", sp(0, 20)), None);
}

#[test]
fn write_match_needs_marker_in_text() {
    let m = Match { span: sp(0, 5), kind: MatchKind::Call, snippet: Some("a.b(put)".to_string()) };
    assert!(is_write_match(&m, "put"));
    assert!(!is_write_match(&m, "pub"));
    assert!(!is_write_match(&m, "put)x"));
}

#[test]
fn return_visitor_finds_nested_try() {
    let tree = Expr::node(ExprKind::Other, sp(0, 30), None, vec![call(0, "a"), try_of(call(5, "b"))]);
    let mut v = ReturnVisitor::new();
    assert!(!v.found_return);
    v.visit_expr(&tree);
    assert!(v.found_return);
    let mut w = ReturnVisitor::new();
    w.visit_expr(&call(0, "put"));
    assert!(!w.found_return);
}
