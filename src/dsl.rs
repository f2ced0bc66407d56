use vstd::prelude::*;

use crate::catalog::Operator;
use crate::expr::{Expr, Tree};
use crate::kinds::{Bool, Float, TsQuery, TsVector};

verus! {

/// Operators on document vectors.
pub trait TsVectorExtensions: View<V = Tree> + Sized {
    /// `self @@ other`: whether the document matches the query.
    fn matches(self, other: Expr<TsQuery>) -> (r: Expr<Bool>)
        ensures
            r@ == (Tree::Op { op: Operator::Matches, left: Box::new(self@), right: Box::new(other@) }),
            r@.render() == Operator::Matches.spec_render(self@.render(), other@.render()),
    ;

    /// `(self || other)`: the two document vectors joined, in parentheses.
    fn concat(self, other: Expr<TsVector>) -> (r: Expr<TsVector>)
        ensures
            r@ == (Tree::Op { op: Operator::Concat, left: Box::new(self@), right: Box::new(other@) }),
            r@.render() == Operator::Concat.spec_render(self@.render(), other@.render()),
    ;
}

impl TsVectorExtensions for Expr<TsVector> {
    fn matches(self, other: Expr<TsQuery>) -> (r: Expr<Bool>) {
        self.infix(Operator::Matches, other)
    }

    fn concat(self, other: Expr<TsVector>) -> (r: Expr<TsVector>) {
        self.infix(Operator::Concat, other)
    }
}

/// Operators on search queries.
pub trait TsQueryExtensions: View<V = Tree> + Sized {
    /// `self @@ other`: whether the document matches the query.
    fn matches(self, other: Expr<TsVector>) -> (r: Expr<Bool>)
        ensures
            r@ == (Tree::Op { op: Operator::Matches, left: Box::new(self@), right: Box::new(other@) }),
            r@.render() == Operator::Matches.spec_render(self@.render(), other@.render()),
    ;

    /// `self && other`: both queries.
    fn and(self, other: Expr<TsQuery>) -> (r: Expr<TsQuery>)
        ensures
            r@ == (Tree::Op { op: Operator::And, left: Box::new(self@), right: Box::new(other@) }),
            r@.render() == Operator::And.spec_render(self@.render(), other@.render()),
    ;

    /// `self || other`: either query.
    fn or(self, other: Expr<TsQuery>) -> (r: Expr<TsQuery>)
        ensures
            r@ == (Tree::Op { op: Operator::Or, left: Box::new(self@), right: Box::new(other@) }),
            r@.render() == Operator::Or.spec_render(self@.render(), other@.render()),
    ;

    /// `self @> other`: whether this query contains the other.
    fn contains(self, other: Expr<TsQuery>) -> (r: Expr<Bool>)
        ensures
            r@ == (Tree::Op { op: Operator::Contains, left: Box::new(self@), right: Box::new(other@) }),
            r@.render() == Operator::Contains.spec_render(self@.render(), other@.render()),
    ;

    /// `self <@ other`: whether this query is contained in the other.
    fn contained_by(self, other: Expr<TsQuery>) -> (r: Expr<Bool>)
        ensures
            r@ == (Tree::Op { op: Operator::ContainedBy, left: Box::new(self@), right: Box::new(other@) }),
            r@.render() == Operator::ContainedBy.spec_render(self@.render(), other@.render()),
    ;
}

impl TsQueryExtensions for Expr<TsQuery> {
    fn matches(self, other: Expr<TsVector>) -> (r: Expr<Bool>) {
        self.infix(Operator::Matches, other)
    }

    fn and(self, other: Expr<TsQuery>) -> (r: Expr<TsQuery>) {
        self.infix(Operator::And, other)
    }

    fn or(self, other: Expr<TsQuery>) -> (r: Expr<TsQuery>) {
        self.infix(Operator::Or, other)
    }

    fn contains(self, other: Expr<TsQuery>) -> (r: Expr<Bool>) {
        self.infix(Operator::Contains, other)
    }

    fn contained_by(self, other: Expr<TsQuery>) -> (r: Expr<Bool>) {
        self.infix(Operator::ContainedBy, other)
    }
}

/// Ranking operators of the RUM index on document vectors.
pub trait TsRumExtensions: View<V = Tree> + Sized {
    /// `self <=> other`: the distance between the document and the query.
    fn distance(self, other: Expr<TsQuery>) -> (r: Expr<Float>)
        ensures
            r@ == (Tree::Op { op: Operator::Distance, left: Box::new(self@), right: Box::new(other@) }),
            r@.render() == Operator::Distance.spec_render(self@.render(), other@.render()),
    ;

    /// `self <=| other`: the left distance between the document and the query.
    fn left_distance(self, other: Expr<TsQuery>) -> (r: Expr<Float>)
        ensures
            r@ == (Tree::Op { op: Operator::LeftDistance, left: Box::new(self@), right: Box::new(other@) }),
            r@.render() == Operator::LeftDistance.spec_render(self@.render(), other@.render()),
    ;

    /// `self |=> other`: the right distance between the document and the query.
    fn right_distance(self, other: Expr<TsQuery>) -> (r: Expr<Float>)
        ensures
            r@ == (Tree::Op { op: Operator::RightDistance, left: Box::new(self@), right: Box::new(other@) }),
            r@.render() == Operator::RightDistance.spec_render(self@.render(), other@.render()),
    ;
}

impl TsRumExtensions for Expr<TsVector> {
    fn distance(self, other: Expr<TsQuery>) -> (r: Expr<Float>) {
        self.infix(Operator::Distance, other)
    }

    fn left_distance(self, other: Expr<TsQuery>) -> (r: Expr<Float>) {
        self.infix(Operator::LeftDistance, other)
    }

    fn right_distance(self, other: Expr<TsQuery>) -> (r: Expr<Float>) {
        self.infix(Operator::RightDistance, other)
    }
}

} // verus!
