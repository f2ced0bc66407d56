use vstd::prelude::*;

use crate::catalog::Function;
use crate::expr::{render_list, trees_of, Expr};
use crate::kinds::{Float, Integer, SqlKind, Text, TsQuery, TsVector};

verus! {

/// Calls a one-parameter function whose parameter type `A` and result type
/// `R` are the declared ones.
fn call1<A: SqlKind, R: SqlKind>(func: Function, x: Expr<A>) -> (r: Expr<R>)
    requires
        func.spec_params() == seq![A::sql_type()],
        func.spec_result() == R::sql_type(),
    ensures
        r@.is_call(func, seq![x@]),
        r@.render() == func.spec_name() + "("@ + x@.render() + ")"@,
{
    let ghost tx = x@;
    let mut args = Vec::new();
    args.push(x.into_any());
    assert(trees_of(args@) =~= seq![tx]);
    let any = func.call(args).unwrap();
    let r = any.into_typed::<R>().unwrap();
    assert(render_list(seq![tx]) == tx.render());
    r
}

/// Calls a two-parameter function whose parameter types `A`, `B` and result
/// type `R` are the declared ones.
fn call2<A: SqlKind, B: SqlKind, R: SqlKind>(func: Function, x: Expr<A>, y: Expr<B>) -> (r: Expr<R>)
    requires
        func.spec_params() == seq![A::sql_type(), B::sql_type()],
        func.spec_result() == R::sql_type(),
    ensures
        r@.is_call(func, seq![x@, y@]),
        r@.render() == func.spec_name() + "("@ + x@.render() + ", "@ + y@.render() + ")"@,
{
    let ghost tx = x@;
    let ghost ty = y@;
    let mut args = Vec::new();
    args.push(x.into_any());
    args.push(y.into_any());
    assert(trees_of(args@) =~= seq![tx, ty]);
    assert(seq![tx, ty].subrange(0, 1) =~= seq![tx]);
    let any = func.call(args).unwrap();
    let r = any.into_typed::<R>().unwrap();
    assert(render_list(seq![tx, ty].subrange(0, 1)) == tx.render());
    assert(render_list(seq![tx, ty]) == tx.render() + ", "@ + ty.render());
    r
}

/// `length(x)`: the number of lexemes in a document vector.
pub fn length(x: Expr<TsVector>) -> (r: Expr<Integer>)
    ensures
        r@.is_call(Function::Length, seq![x@]),
        r@.render() == Function::Length.spec_name() + "("@ + x@.render() + ")"@,
{
    call1(Function::Length, x)
}

/// `numnode(x)`: the number of nodes in a search query.
pub fn numnode(x: Expr<TsQuery>) -> (r: Expr<Integer>)
    ensures
        r@.is_call(Function::Numnode, seq![x@]),
        r@.render() == Function::Numnode.spec_name() + "("@ + x@.render() + ")"@,
{
    call1(Function::Numnode, x)
}

/// `plainto_tsquery(x)`: a search query from plain text.
pub fn plainto_tsquery(x: Expr<Text>) -> (r: Expr<TsQuery>)
    ensures
        r@.is_call(Function::PlaintoTsquery, seq![x@]),
        r@.render() == Function::PlaintoTsquery.spec_name() + "("@ + x@.render() + ")"@,
{
    call1(Function::PlaintoTsquery, x)
}

/// `querytree(x)`: the indexable part of a search query, as text.
pub fn querytree(x: Expr<TsQuery>) -> (r: Expr<Text>)
    ensures
        r@.is_call(Function::Querytree, seq![x@]),
        r@.render() == Function::Querytree.spec_name() + "("@ + x@.render() + ")"@,
{
    call1(Function::Querytree, x)
}

/// `strip(x)`: a document vector without positions and weights.
pub fn strip(x: Expr<TsVector>) -> (r: Expr<TsVector>)
    ensures
        r@.is_call(Function::Strip, seq![x@]),
        r@.render() == Function::Strip.spec_name() + "("@ + x@.render() + ")"@,
{
    call1(Function::Strip, x)
}

/// `to_tsquery(x)`: a search query from query text.
pub fn to_tsquery(x: Expr<Text>) -> (r: Expr<TsQuery>)
    ensures
        r@.is_call(Function::ToTsquery, seq![x@]),
        r@.render() == Function::ToTsquery.spec_name() + "("@ + x@.render() + ")"@,
{
    call1(Function::ToTsquery, x)
}

/// `to_tsvector(x)`: a document vector from a document's text.
pub fn to_tsvector(x: Expr<Text>) -> (r: Expr<TsVector>)
    ensures
        r@.is_call(Function::ToTsvector, seq![x@]),
        r@.render() == Function::ToTsvector.spec_name() + "("@ + x@.render() + ")"@,
{
    call1(Function::ToTsvector, x)
}

/// `ts_headline(x, y)`: the text `x` with the matches of the query `y` marked.
pub fn ts_headline(x: Expr<Text>, y: Expr<TsQuery>) -> (r: Expr<Text>)
    ensures
        r@.is_call(Function::TsHeadline, seq![x@, y@]),
        r@.render() == Function::TsHeadline.spec_name() + "("@ + x@.render() + ", "@ + y@.render() + ")"@,
{
    call2(Function::TsHeadline, x, y)
}

/// `ts_rank(x, y)`: how well the document vector `x` matches the query `y`.
pub fn ts_rank(x: Expr<TsVector>, y: Expr<TsQuery>) -> (r: Expr<Float>)
    ensures
        r@.is_call(Function::TsRank, seq![x@, y@]),
        r@.render() == Function::TsRank.spec_name() + "("@ + x@.render() + ", "@ + y@.render() + ")"@,
{
    call2(Function::TsRank, x, y)
}

/// `ts_rank_cd(x, y)`: the cover-density rank of the document vector `x`
/// against the query `y`.
pub fn ts_rank_cd(x: Expr<TsVector>, y: Expr<TsQuery>) -> (r: Expr<Float>)
    ensures
        r@.is_call(Function::TsRankCd, seq![x@, y@]),
        r@.render() == Function::TsRankCd.spec_name() + "("@ + x@.render() + ", "@ + y@.render() + ")"@,
{
    call2(Function::TsRankCd, x, y)
}

} // verus!
