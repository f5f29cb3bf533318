use vstd::prelude::*;
use core::marker::PhantomData;

verus! {

/// SQL type tag of a label path (`ltree`).
#[derive(Clone, Copy, Debug, PartialEq, Eq)]
pub struct Ltree;

/// SQL type tag of a path pattern (`lquery`).
#[derive(Clone, Copy, Debug, PartialEq, Eq)]
pub struct Lquery;

/// SQL type tag of a full-text path pattern (`ltxtquery`).
#[derive(Clone, Copy, Debug, PartialEq, Eq)]
pub struct Ltxtquery;

/// SQL type tag of a 4-byte integer.
#[derive(Clone, Copy, Debug, PartialEq, Eq)]
pub struct Int4;

/// SQL type tag of text.
#[derive(Clone, Copy, Debug, PartialEq, Eq)]
pub struct Text;

/// SQL type tag of a boolean.
#[derive(Clone, Copy, Debug, PartialEq, Eq)]
pub struct Bool;

/// SQL type tag of an array whose elements have the tag `T`.
pub struct Array<T>(PhantomData<T>);

/// A SQL expression whose result has the SQL type `ST`.
///
/// The type parameter exists only at compile time: an operator or a
/// function of this library accepts an expression only where its tag is
/// the one that the operator or function declares.
pub struct Expr<ST> {
    sql: String,
    sql_type: PhantomData<ST>,
}

impl<ST> View for Expr<ST> {
    type V = Seq<char>;

    /// The SQL text of the expression.
    closed spec fn view(&self) -> Seq<char> {
        self.sql@
    }
}

impl<ST> Expr<ST> {
    /// An expression given by its SQL text, such as a column name.
    pub fn new(fragment: &str) -> (r: Self)
        ensures
            r@ == fragment@,
    {
        Expr { sql: String::from_str(fragment), sql_type: PhantomData }
    }

    /// An expression that owns the given SQL text.
    pub fn from_sql(sql: String) -> (r: Self)
        ensures
            r@ == sql@,
    {
        Expr { sql, sql_type: PhantomData }
    }

    /// The SQL text of the expression.
    pub fn to_sql(&self) -> (r: String)
        ensures
            r@ == self@,
    {
        self.sql.clone()
    }

    /// The SQL text of the expression, consuming it.
    pub fn into_sql(self) -> (r: String)
        ensures
            r@ == self@,
    {
        self.sql
    }
}


/// The decimal digit `d` as a character.
pub open spec fn digit_char(d: nat) -> char {
    seq!['0', '1', '2', '3', '4', '5', '6', '7', '8', '9'][d as int]
}

/// The decimal digits of `n`, most significant first, with no leading zero.
pub open spec fn decimal(n: nat) -> Seq<char>
    decreases n,
{
    if n < 10 {
        seq![digit_char(n)]
    } else {
        decimal(n / 10) + seq![digit_char(n % 10)]
    }
}

/// The SQL text of the integer literal `v`.
pub open spec fn int_literal(v: int) -> Seq<char> {
    if v < 0 {
        seq!['-'] + decimal((-v) as nat)
    } else {
        decimal(v as nat)
    }
}

fn digit_str(d: u32) -> (r: &'static str)
    requires
        d < 10,
    ensures
        r@ == seq![digit_char(d as nat)],
{
    proof {
        reveal_strlit("0");
        reveal_strlit("1");
        reveal_strlit("2");
        reveal_strlit("3");
        reveal_strlit("4");
        reveal_strlit("5");
        reveal_strlit("6");
        reveal_strlit("7");
        reveal_strlit("8");
        reveal_strlit("9");
    }
    let r = match d {
        0 => "0",
        1 => "1",
        2 => "2",
        3 => "3",
        4 => "4",
        5 => "5",
        6 => "6",
        7 => "7",
        8 => "8",
        _ => "9",
    };
    assert(r@ =~= seq![digit_char(d as nat)]);
    r
}

impl Expr<Int4> {
    /// The integer literal `v`, in decimal, with a leading `-` when negative.
    pub fn int4(v: i32) -> (r: Self)
        ensures
            r@ == int_literal(v as int),
    {
        let negative = v < 0;
        let magnitude: u32 = if negative {
            (-(v as i64)) as u32
        } else {
            v as u32
        };
        let mut n: u32 = magnitude;
        let mut acc = String::new();
        while n >= 10
            invariant
                decimal(magnitude as nat) == decimal(n as nat) + acc@,
            decreases n,
        {
            let ghost before = acc@;
            acc = String::from_str(digit_str(n % 10)).concat(acc.as_str());
            assert(decimal(n as nat) == decimal((n / 10) as nat) + seq![digit_char((n % 10) as nat)]);
            assert(decimal(magnitude as nat) =~= decimal((n / 10) as nat) + acc@);
            n = n / 10;
        }
        acc = String::from_str(digit_str(n)).concat(acc.as_str());
        assert(acc@ =~= decimal(magnitude as nat));
        if negative {
            proof { reveal_strlit("-"); }
            acc = String::from_str("-").concat(acc.as_str());
            assert(acc@ =~= int_literal(v as int));
        }
        Expr::from_sql(acc)
    }
}

} // verus!
