use diesel_ltree::{
    index, lca, lquery, ltree2text, ltxtquery, nlevel, subltree, subpath, text2ltree, Array,
    Expr, Int4, LqueryExtensions, Ltree, LtreeExtensions, Text,
};

fn path(s: &str) -> Expr<Ltree> {
    Expr::new(s)
}

fn text(s: &str) -> Expr<Text> {
    Expr::new(s)
}

#[test]
fn subltree_renders_and_chains() {
    let sub: Expr<Ltree> = subltree(path("p"), Expr::int4(0), Expr::int4(2));
    assert_eq!(sub.to_sql(), "subltree(p, 0, 2)");
    let sub = subltree(path("p"), Expr::int4(0), Expr::int4(2));
    assert_eq!(sub.contains(path("q")).to_sql(), "(subltree(p, 0, 2) @> q)");
}

#[test]
fn catalog_functions_render_arguments_in_order() {
    assert_eq!(subpath(path("p"), Expr::int4(1), Expr::int4(3)).to_sql(), "subpath(p, 1, 3)");
    let n: Expr<Int4> = nlevel(path("p"));
    assert_eq!(n.to_sql(), "nlevel(p)");
    let i: Expr<Int4> = index(path("a"), path("b"), Expr::int4(-1));
    assert_eq!(i.to_sql(), "index(a, b, -1)");
    assert_eq!(text2ltree(text("'a.b'")).to_sql(), "text2ltree('a.b')");
    let t: Expr<Text> = ltree2text(path("p"));
    assert_eq!(t.to_sql(), "ltree2text(p)");
    let all: Expr<Array<Ltree>> = Expr::new("paths");
    assert_eq!(lca(all).to_sql(), "lca(paths)");
    assert_eq!(ltxtquery(text("'x & y'")).to_sql(), "ltxtquery('x & y')");
}

#[test]
fn lquery_result_is_a_pattern() {
    let m = lquery(text("'top.*'"));
    assert_eq!(m.matches(path("p")).to_sql(), "(lquery('top.*') ~ p)");
}

#[test]
fn integer_literals_are_decimal() {
    assert_eq!(Expr::int4(0).to_sql(), "0");
    assert_eq!(Expr::int4(7).to_sql(), "7");
    assert_eq!(Expr::int4(10).to_sql(), "10");
    assert_eq!(Expr::int4(-45).to_sql(), "-45");
    assert_eq!(Expr::int4(i32::MAX).to_sql(), "2147483647");
    assert_eq!(Expr::int4(i32::MIN).to_sql(), "-2147483648");
}
