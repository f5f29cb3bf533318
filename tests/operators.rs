use diesel_ltree::{
    Array, Expr, LqueryArrayExtensions, LqueryExtensions, Lquery, Ltree, LtreeArrayExtensions,
    LtreeExtensions, Ltxtquery, LtxtqueryExtensions, Operator,
};

fn path(s: &str) -> Expr<Ltree> {
    Expr::new(s)
}

fn paths(s: &str) -> Expr<Array<Ltree>> {
    Expr::new(s)
}

fn pattern(s: &str) -> Expr<Lquery> {
    Expr::new(s)
}

fn patterns(s: &str) -> Expr<Array<Lquery>> {
    Expr::new(s)
}

fn text_pattern(s: &str) -> Expr<Ltxtquery> {
    Expr::new(s)
}

#[test]
fn path_contains_path() {
    assert_eq!(path("p").contains(path("q")).to_sql(), "(p @> q)");
}

#[test]
fn path_matches_pattern() {
    assert_eq!(path("p").matches(pattern("m")).to_sql(), "(p ~ m)");
}

#[test]
fn path_operators_render_their_tokens() {
    assert_eq!(path("a").contains_any(paths("b")).to_sql(), "(a @> b)");
    assert_eq!(path("a").contained_by(path("b")).to_sql(), "(a <@ b)");
    assert_eq!(path("a").contained_by_any(paths("b")).to_sql(), "(a <@ b)");
    assert_eq!(path("a").matches_any(patterns("b")).to_sql(), "(a ? b)");
    assert_eq!(path("a").tmatches(text_pattern("b")).to_sql(), "(a @ b)");
    assert_eq!(path("a").concat(path("b")).to_sql(), "(a || b)");
}

#[test]
fn path_array_operators_render_their_tokens() {
    assert_eq!(paths("a").any_contains(path("b")).to_sql(), "(a @> b)");
    assert_eq!(paths("a").any_contained_by(path("b")).to_sql(), "(a <@ b)");
    assert_eq!(paths("a").any_matches(pattern("b")).to_sql(), "(a ~ b)");
    assert_eq!(paths("a").any_matches_any(patterns("b")).to_sql(), "(a ? b)");
    assert_eq!(paths("a").any_tmatches(text_pattern("b")).to_sql(), "(a @ b)");
    assert_eq!(paths("a").first_contains(path("b")).to_sql(), "(a ?@> b)");
    assert_eq!(paths("a").first_contained_by(path("b")).to_sql(), "(a ?<@ b)");
    assert_eq!(paths("a").first_matches(pattern("b")).to_sql(), "(a ?~ b)");
    assert_eq!(paths("a").first_tmatches(text_pattern("b")).to_sql(), "(a ?@ b)");
}

#[test]
fn pattern_operators_render_their_tokens() {
    assert_eq!(pattern("a").matches(path("b")).to_sql(), "(a ~ b)");
    assert_eq!(pattern("a").matches_any(paths("b")).to_sql(), "(a ~ b)");
    assert_eq!(patterns("a").any_matches(path("b")).to_sql(), "(a ? b)");
    assert_eq!(patterns("a").any_matches_any(paths("b")).to_sql(), "(a ? b)");
    assert_eq!(text_pattern("a").tmatches(path("b")).to_sql(), "(a @ b)");
    assert_eq!(text_pattern("a").tmatches_any(paths("b")).to_sql(), "(a @ b)");
}

#[test]
fn first_contains_is_not_the_broadcast_operator() {
    let first = paths("a").first_contains(path("b")).to_sql();
    let any = paths("a").any_contains(path("b")).to_sql();
    assert_eq!(first, "(a ?@> b)");
    assert_eq!(any, "(a @> b)");
    assert_ne!(first, any);
    assert_eq!(Operator::FirstContains.token(), "?@>");
    assert_eq!(Operator::Contains.token(), "@>");
}

#[test]
fn every_operator_has_its_own_token() {
    let ops = [
        Operator::Contains,
        Operator::ContainedBy,
        Operator::Matches,
        Operator::MatchesAny,
        Operator::TMatches,
        Operator::Concat,
        Operator::FirstContains,
        Operator::FirstContainedBy,
        Operator::FirstMatches,
        Operator::FirstTMatches,
    ];
    for (i, a) in ops.iter().enumerate() {
        for (j, b) in ops.iter().enumerate() {
            if i != j {
                assert_ne!(a.token(), b.token());
            }
        }
    }
}

#[test]
fn nested_operators_keep_their_parentheses() {
    let inner = path("a").concat(path("b"));
    let outer = inner.contains(path("c")).to_sql();
    assert_eq!(outer, "((a || b) @> c)");
}
