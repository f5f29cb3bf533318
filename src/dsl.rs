use vstd::prelude::*;
use crate::expr::{Array, Bool, Expr, Lquery, Ltree, Ltxtquery};

verus! {

/// The infix operators of the label-path extension.
#[derive(Clone, Copy, Debug, PartialEq, Eq)]
pub enum Operator {
    Contains,
    ContainedBy,
    Matches,
    MatchesAny,
    TMatches,
    Concat,
    FirstContains,
    FirstContainedBy,
    FirstMatches,
    FirstTMatches,
}

/// The backend's spelling of each operator.
pub open spec fn token_of(op: Operator) -> Seq<char> {
    match op {
        Operator::Contains => seq!['@', '>'],
        Operator::ContainedBy => seq!['<', '@'],
        Operator::Matches => seq!['~'],
        Operator::MatchesAny => seq!['?'],
        Operator::TMatches => seq!['@'],
        Operator::Concat => seq!['|', '|'],
        Operator::FirstContains => seq!['?', '@', '>'],
        Operator::FirstContainedBy => seq!['?', '<', '@'],
        Operator::FirstMatches => seq!['?', '~'],
        Operator::FirstTMatches => seq!['?', '@'],
    }
}

/// The SQL text `(left OP right)`: the operator's token padded with one
/// space on each side, the whole in parentheses.
pub open spec fn infix(left: Seq<char>, token: Seq<char>, right: Seq<char>) -> Seq<char> {
    seq!['('] + left + seq![' '] + token + seq![' '] + right + seq![')']
}

impl Operator {
    /// The backend's spelling of the operator.
    pub fn token(self) -> (r: &'static str)
        ensures
            r@ == token_of(self),
    {
        match self {
            Operator::Contains => {
                proof { reveal_strlit("@>"); }
                "@>"
            },
            Operator::ContainedBy => {
                proof { reveal_strlit("<@"); }
                "<@"
            },
            Operator::Matches => {
                proof { reveal_strlit("~"); }
                "~"
            },
            Operator::MatchesAny => {
                proof { reveal_strlit("?"); }
                "?"
            },
            Operator::TMatches => {
                proof { reveal_strlit("@"); }
                "@"
            },
            Operator::Concat => {
                proof { reveal_strlit("||"); }
                "||"
            },
            Operator::FirstContains => {
                proof { reveal_strlit("?@>"); }
                "?@>"
            },
            Operator::FirstContainedBy => {
                proof { reveal_strlit("?<@"); }
                "?<@"
            },
            Operator::FirstMatches => {
                proof { reveal_strlit("?~"); }
                "?~"
            },
            Operator::FirstTMatches => {
                proof { reveal_strlit("?@"); }
                "?@"
            },
        }
    }
}

/// Whether the operator is one of the index-anchored family, which looks for
/// the first element of an array that satisfies the relation.
pub open spec fn is_first_family(op: Operator) -> bool {
    match op {
        Operator::FirstContains | Operator::FirstContainedBy | Operator::FirstMatches
        | Operator::FirstTMatches => true,
        _ => false,
    }
}

/// No two operators share a token; in particular the index-anchored family
/// is never spelled as the broadcast family, and each of its tokens is a
/// `?` followed by at least one more character.
pub proof fn lemma_tokens_distinct(a: Operator, b: Operator)
    ensures
        a != b ==> token_of(a) != token_of(b),
        is_first_family(a) ==> token_of(a).len() >= 2 && token_of(a)[0] == '?',
{
    let (ta, tb) = (token_of(a), token_of(b));
    if ta == tb {
        assert(ta.len() == tb.len() && ta[0] == tb[0] && ta.last() == tb.last());
    }
}

/// Builds the expression `(left OP right)`, whose SQL type is `R`.
pub fn infix_expr<L, T, R>(left: Expr<L>, op: Operator, right: Expr<T>) -> (r: Expr<R>)
    ensures
        r@ == infix(left@, token_of(op), right@),
{
    proof {
        reveal_strlit("(");
        reveal_strlit(" ");
        reveal_strlit(")");
    }
    let s = String::from_str("(");
    let s = s.concat(left.into_sql().as_str());
    let s = s.concat(" ");
    let s = s.concat(op.token());
    let s = s.concat(" ");
    let s = s.concat(right.into_sql().as_str());
    let s = s.concat(")");
    Expr::from_sql(s)
}

/// Operators on a label-path expression.
pub trait LtreeExtensions: View<V = Seq<char>> + Sized {
    /// `(self @> other)`: `self` is an ancestor of `other` or equal to it.
    fn contains(self, other: Expr<Ltree>) -> (r: Expr<Bool>)
        ensures
            r@ == infix(self@, token_of(Operator::Contains), other@),
    ;

    /// `(self @> other)`: `self` is an ancestor of some path of `other`.
    fn contains_any(self, other: Expr<Array<Ltree>>) -> (r: Expr<Bool>)
        ensures
            r@ == infix(self@, token_of(Operator::Contains), other@),
    ;

    /// `(self <@ other)`: `self` is a descendant of `other` or equal to it.
    fn contained_by(self, other: Expr<Ltree>) -> (r: Expr<Bool>)
        ensures
            r@ == infix(self@, token_of(Operator::ContainedBy), other@),
    ;

    /// `(self <@ other)`: `self` is a descendant of some path of `other`.
    fn contained_by_any(self, other: Expr<Array<Ltree>>) -> (r: Expr<Bool>)
        ensures
            r@ == infix(self@, token_of(Operator::ContainedBy), other@),
    ;

    /// `(self ~ other)`: `self` matches the pattern `other`.
    fn matches(self, other: Expr<Lquery>) -> (r: Expr<Bool>)
        ensures
            r@ == infix(self@, token_of(Operator::Matches), other@),
    ;

    /// `(self ? other)`: `self` matches some pattern of `other`.
    fn matches_any(self, other: Expr<Array<Lquery>>) -> (r: Expr<Bool>)
        ensures
            r@ == infix(self@, token_of(Operator::MatchesAny), other@),
    ;

    /// `(self @ other)`: `self` matches the text pattern `other`.
    fn tmatches(self, other: Expr<Ltxtquery>) -> (r: Expr<Bool>)
        ensures
            r@ == infix(self@, token_of(Operator::TMatches), other@),
    ;

    /// `(self || other)`: the concatenation of two paths.
    fn concat(self, other: Expr<Ltree>) -> (r: Expr<Ltree>)
        ensures
            r@ == infix(self@, token_of(Operator::Concat), other@),
    ;
}

impl LtreeExtensions for Expr<Ltree> {
    fn contains(self, other: Expr<Ltree>) -> (r: Expr<Bool>) {
        infix_expr(self, Operator::Contains, other)
    }

    fn contains_any(self, other: Expr<Array<Ltree>>) -> (r: Expr<Bool>) {
        infix_expr(self, Operator::Contains, other)
    }

    fn contained_by(self, other: Expr<Ltree>) -> (r: Expr<Bool>) {
        infix_expr(self, Operator::ContainedBy, other)
    }

    fn contained_by_any(self, other: Expr<Array<Ltree>>) -> (r: Expr<Bool>) {
        infix_expr(self, Operator::ContainedBy, other)
    }

    fn matches(self, other: Expr<Lquery>) -> (r: Expr<Bool>) {
        infix_expr(self, Operator::Matches, other)
    }

    fn matches_any(self, other: Expr<Array<Lquery>>) -> (r: Expr<Bool>) {
        infix_expr(self, Operator::MatchesAny, other)
    }

    fn tmatches(self, other: Expr<Ltxtquery>) -> (r: Expr<Bool>) {
        infix_expr(self, Operator::TMatches, other)
    }

    fn concat(self, other: Expr<Ltree>) -> (r: Expr<Ltree>) {
        infix_expr(self, Operator::Concat, other)
    }
}

/// Operators on an expression that holds an array of label paths.
pub trait LtreeArrayExtensions: View<V = Seq<char>> + Sized {
    /// `(self @> other)`: some path of `self` is an ancestor of `other`.
    fn any_contains(self, other: Expr<Ltree>) -> (r: Expr<Bool>)
        ensures
            r@ == infix(self@, token_of(Operator::Contains), other@),
    ;

    /// `(self <@ other)`: some path of `self` is a descendant of `other`.
    fn any_contained_by(self, other: Expr<Ltree>) -> (r: Expr<Bool>)
        ensures
            r@ == infix(self@, token_of(Operator::ContainedBy), other@),
    ;

    /// `(self ~ other)`: some path of `self` matches the pattern `other`.
    fn any_matches(self, other: Expr<Lquery>) -> (r: Expr<Bool>)
        ensures
            r@ == infix(self@, token_of(Operator::Matches), other@),
    ;

    /// `(self ? other)`: some path of `self` matches some pattern of `other`.
    fn any_matches_any(self, other: Expr<Array<Lquery>>) -> (r: Expr<Bool>)
        ensures
            r@ == infix(self@, token_of(Operator::MatchesAny), other@),
    ;

    /// `(self @ other)`: some path of `self` matches the text pattern `other`.
    fn any_tmatches(self, other: Expr<Ltxtquery>) -> (r: Expr<Bool>)
        ensures
            r@ == infix(self@, token_of(Operator::TMatches), other@),
    ;

    /// `(self ?@> other)`: whether `self` holds an ancestor of `other`, by the
    /// operator that looks for the first such path.
    fn first_contains(self, other: Expr<Ltree>) -> (r: Expr<Bool>)
        ensures
            r@ == infix(self@, token_of(Operator::FirstContains), other@),
    ;

    /// `(self ?<@ other)`: whether `self` holds a descendant of `other`, by the
    /// operator that looks for the first such path.
    fn first_contained_by(self, other: Expr<Ltree>) -> (r: Expr<Bool>)
        ensures
            r@ == infix(self@, token_of(Operator::FirstContainedBy), other@),
    ;

    /// `(self ?~ other)`: whether `self` holds a path that matches the pattern
    /// `other`, by the operator that looks for the first such path.
    fn first_matches(self, other: Expr<Lquery>) -> (r: Expr<Bool>)
        ensures
            r@ == infix(self@, token_of(Operator::FirstMatches), other@),
    ;

    /// `(self ?@ other)`: whether `self` holds a path that matches the text
    /// pattern `other`, by the operator that looks for the first such path.
    fn first_tmatches(self, other: Expr<Ltxtquery>) -> (r: Expr<Bool>)
        ensures
            r@ == infix(self@, token_of(Operator::FirstTMatches), other@),
    ;
}

impl LtreeArrayExtensions for Expr<Array<Ltree>> {
    fn any_contains(self, other: Expr<Ltree>) -> (r: Expr<Bool>) {
        infix_expr(self, Operator::Contains, other)
    }

    fn any_contained_by(self, other: Expr<Ltree>) -> (r: Expr<Bool>) {
        infix_expr(self, Operator::ContainedBy, other)
    }

    fn any_matches(self, other: Expr<Lquery>) -> (r: Expr<Bool>) {
        infix_expr(self, Operator::Matches, other)
    }

    fn any_matches_any(self, other: Expr<Array<Lquery>>) -> (r: Expr<Bool>) {
        infix_expr(self, Operator::MatchesAny, other)
    }

    fn any_tmatches(self, other: Expr<Ltxtquery>) -> (r: Expr<Bool>) {
        infix_expr(self, Operator::TMatches, other)
    }

    fn first_contains(self, other: Expr<Ltree>) -> (r: Expr<Bool>) {
        infix_expr(self, Operator::FirstContains, other)
    }

    fn first_contained_by(self, other: Expr<Ltree>) -> (r: Expr<Bool>) {
        infix_expr(self, Operator::FirstContainedBy, other)
    }

    fn first_matches(self, other: Expr<Lquery>) -> (r: Expr<Bool>) {
        infix_expr(self, Operator::FirstMatches, other)
    }

    fn first_tmatches(self, other: Expr<Ltxtquery>) -> (r: Expr<Bool>) {
        infix_expr(self, Operator::FirstTMatches, other)
    }
}

/// Operators on a path-pattern expression.
pub trait LqueryExtensions: View<V = Seq<char>> + Sized {
    /// `(self ~ other)`: the path `other` matches the pattern `self`.
    fn matches(self, other: Expr<Ltree>) -> (r: Expr<Bool>)
        ensures
            r@ == infix(self@, token_of(Operator::Matches), other@),
    ;

    /// `(self ~ other)`: some path of `other` matches the pattern `self`.
    fn matches_any(self, other: Expr<Array<Ltree>>) -> (r: Expr<Bool>)
        ensures
            r@ == infix(self@, token_of(Operator::Matches), other@),
    ;
}

impl LqueryExtensions for Expr<Lquery> {
    fn matches(self, other: Expr<Ltree>) -> (r: Expr<Bool>) {
        infix_expr(self, Operator::Matches, other)
    }

    fn matches_any(self, other: Expr<Array<Ltree>>) -> (r: Expr<Bool>) {
        infix_expr(self, Operator::Matches, other)
    }
}

/// Operators on an expression that holds an array of path patterns.
pub trait LqueryArrayExtensions: View<V = Seq<char>> + Sized {
    /// `(self ? other)`: the path `other` matches some pattern of `self`.
    fn any_matches(self, other: Expr<Ltree>) -> (r: Expr<Bool>)
        ensures
            r@ == infix(self@, token_of(Operator::MatchesAny), other@),
    ;

    /// `(self ? other)`: some path of `other` matches some pattern of `self`.
    fn any_matches_any(self, other: Expr<Array<Ltree>>) -> (r: Expr<Bool>)
        ensures
            r@ == infix(self@, token_of(Operator::MatchesAny), other@),
    ;
}

impl LqueryArrayExtensions for Expr<Array<Lquery>> {
    fn any_matches(self, other: Expr<Ltree>) -> (r: Expr<Bool>) {
        infix_expr(self, Operator::MatchesAny, other)
    }

    fn any_matches_any(self, other: Expr<Array<Ltree>>) -> (r: Expr<Bool>) {
        infix_expr(self, Operator::MatchesAny, other)
    }
}

/// Operators on a text-path-pattern expression.
pub trait LtxtqueryExtensions: View<V = Seq<char>> + Sized {
    /// `(self @ other)`: the path `other` matches the text pattern `self`.
    fn tmatches(self, other: Expr<Ltree>) -> (r: Expr<Bool>)
        ensures
            r@ == infix(self@, token_of(Operator::TMatches), other@),
    ;

    /// `(self @ other)`: some path of `other` matches the text pattern `self`.
    fn tmatches_any(self, other: Expr<Array<Ltree>>) -> (r: Expr<Bool>)
        ensures
            r@ == infix(self@, token_of(Operator::TMatches), other@),
    ;
}

impl LtxtqueryExtensions for Expr<Ltxtquery> {
    fn tmatches(self, other: Expr<Ltree>) -> (r: Expr<Bool>) {
        infix_expr(self, Operator::TMatches, other)
    }

    fn tmatches_any(self, other: Expr<Array<Ltree>>) -> (r: Expr<Bool>) {
        infix_expr(self, Operator::TMatches, other)
    }
}

} // verus!
