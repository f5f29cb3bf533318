use vstd::prelude::*;
use crate::expr::{Array, Expr, Int4, Lquery, Ltree, Ltxtquery, Text};

verus! {

/// The arguments' SQL texts, in order, separated by `", "`.
pub open spec fn join_args(args: Seq<Seq<char>>) -> Seq<char>
    decreases args.len(),
{
    if args.len() == 0 {
        Seq::empty()
    } else if args.len() == 1 {
        args[0]
    } else {
        join_args(args.drop_last()) + seq![',', ' '] + args.last()
    }
}

/// The SQL text `name(arg1, arg2, ...)` of a function call.
pub open spec fn call_sql(name: Seq<char>, args: Seq<Seq<char>>) -> Seq<char> {
    name + seq!['('] + join_args(args) + seq![')']
}

/// The SQL texts of a list of expressions.
pub open spec fn texts(args: Seq<String>) -> Seq<Seq<char>> {
    args.map_values(|a: String| a@)
}

/// Builds the call of the backend function `name` on the given arguments.
pub fn call_expr<R>(name: &str, args: Vec<String>) -> (r: Expr<R>)
    ensures
        r@ == call_sql(name@, texts(args@)),
{
    proof {
        reveal_strlit("(");
        reveal_strlit(", ");
        reveal_strlit(")");
    }
    let ghost all = texts(args@);
    let mut acc = String::from_str(name);
    acc = acc.concat("(");
    let mut i: usize = 0;
    while i < args.len()
        invariant
            i <= args.len(),
            all == texts(args@),
            acc@ == name@ + seq!['('] + join_args(all.take(i as int)),
        decreases args.len() - i,
    {
        proof {
            reveal_strlit(", ");
            let next = all.take(i + 1);
            assert(next.drop_last() =~= all.take(i as int));
            assert(next.last() == args@[i as int]@);
            if i == 0 {
                assert(next =~= seq![args@[0]@]);
                assert(join_args(next) == args@[0]@);
            } else {
                assert(join_args(next) == join_args(all.take(i as int)) + seq![',', ' ']
                    + args@[i as int]@);
            }
        }
        let ghost before = acc@;
        if i > 0 {
            acc = acc.concat(", ");
            assert(acc@ =~= before + seq![',', ' ']);
        }
        acc = acc.concat(args[i].as_str());
        assert(acc@ =~= name@ + seq!['('] + join_args(all.take(i + 1)));
        i = i + 1;
    }
    assert(all.take(args.len() as int) =~= all);
    acc = acc.concat(")");
    Expr::from_sql(acc)
}

/// `subltree(...)`: The subpath of `ltree` from position `start` up to, not including, `end`.
pub fn subltree(ltree: Expr<Ltree>, start: Expr<Int4>, end: Expr<Int4>) -> (r: Expr<Ltree>)
    ensures
        r@ == call_sql("subltree"@, seq![ltree@, start@, end@]),
{
    let ghost views = seq![ltree@, start@, end@];
    let args = vec![ltree.into_sql(), start.into_sql(), end.into_sql()];
    assert(texts(args@) =~= views);
    call_expr("subltree", args)
}

/// `subpath(...)`: The subpath of `ltree` of `len` labels from position `offset`.
pub fn subpath(ltree: Expr<Ltree>, offset: Expr<Int4>, len: Expr<Int4>) -> (r: Expr<Ltree>)
    ensures
        r@ == call_sql("subpath"@, seq![ltree@, offset@, len@]),
{
    let ghost views = seq![ltree@, offset@, len@];
    let args = vec![ltree.into_sql(), offset.into_sql(), len.into_sql()];
    assert(texts(args@) =~= views);
    call_expr("subpath", args)
}

/// `nlevel(...)`: The number of labels of `ltree`.
pub fn nlevel(ltree: Expr<Ltree>) -> (r: Expr<Int4>)
    ensures
        r@ == call_sql("nlevel"@, seq![ltree@]),
{
    let ghost views = seq![ltree@];
    let args = vec![ltree.into_sql()];
    assert(texts(args@) =~= views);
    call_expr("nlevel", args)
}

/// `index(...)`: The position of the first occurrence of `b` in `a`, searching from `offset`.
pub fn index(a: Expr<Ltree>, b: Expr<Ltree>, offset: Expr<Int4>) -> (r: Expr<Int4>)
    ensures
        r@ == call_sql("index"@, seq![a@, b@, offset@]),
{
    let ghost views = seq![a@, b@, offset@];
    let args = vec![a.into_sql(), b.into_sql(), offset.into_sql()];
    assert(texts(args@) =~= views);
    call_expr("index", args)
}

/// `text2ltree(...)`: The label path that `text` spells.
pub fn text2ltree(text: Expr<Text>) -> (r: Expr<Ltree>)
    ensures
        r@ == call_sql("text2ltree"@, seq![text@]),
{
    let ghost views = seq![text@];
    let args = vec![text.into_sql()];
    assert(texts(args@) =~= views);
    call_expr("text2ltree", args)
}

/// `ltree2text(...)`: The text of the label path `ltree`.
pub fn ltree2text(ltree: Expr<Ltree>) -> (r: Expr<Text>)
    ensures
        r@ == call_sql("ltree2text"@, seq![ltree@]),
{
    let ghost views = seq![ltree@];
    let args = vec![ltree.into_sql()];
    assert(texts(args@) =~= views);
    call_expr("ltree2text", args)
}

/// `lca(...)`: The longest common ancestor of the paths of `ltrees`.
pub fn lca(ltrees: Expr<Array<Ltree>>) -> (r: Expr<Ltree>)
    ensures
        r@ == call_sql("lca"@, seq![ltrees@]),
{
    let ghost views = seq![ltrees@];
    let args = vec![ltrees.into_sql()];
    assert(texts(args@) =~= views);
    call_expr("lca", args)
}

/// `lquery(...)`: The path pattern that `x` spells.
pub fn lquery(x: Expr<Text>) -> (r: Expr<Lquery>)
    ensures
        r@ == call_sql("lquery"@, seq![x@]),
{
    let ghost views = seq![x@];
    let args = vec![x.into_sql()];
    assert(texts(args@) =~= views);
    call_expr("lquery", args)
}

/// `ltxtquery(...)`: The text path pattern that `x` spells.
pub fn ltxtquery(x: Expr<Text>) -> (r: Expr<Ltxtquery>)
    ensures
        r@ == call_sql("ltxtquery"@, seq![x@]),
{
    let ghost views = seq![x@];
    let args = vec![x.into_sql()];
    assert(texts(args@) =~= views);
    call_expr("ltxtquery", args)
}

} // verus!
