use vstd::prelude::*;

use crate::kinds::SqlType;

verus! {

/// The closed catalog of infix operators on search types.
#[derive(Clone, Copy, Debug, PartialEq, Eq, Structural)]
pub enum Operator {
    /// `@@`: a document vector matched against a search query, in either order.
    Matches,
    /// `||` on two document vectors; always rendered in parentheses.
    Concat,
    /// `&&` on two search queries.
    And,
    /// `||` on two search queries.
    Or,
    /// `@>`: one search query contains another.
    Contains,
    /// `<@`: one search query is contained in another.
    ContainedBy,
    /// `<=>`: the distance between a document vector and a search query.
    Distance,
    /// `<=|`: the left distance between a document vector and a search query.
    LeftDistance,
    /// `|=>`: the right distance between a document vector and a search query.
    RightDistance,
}

impl Operator {
    /// The operator's SQL symbol.
    pub open spec fn spec_symbol(self) -> Seq<char> {
        match self {
            Operator::Matches => "@@"@,
            Operator::Concat => "||"@,
            Operator::And => "&&"@,
            Operator::Or => "||"@,
            Operator::Contains => "@>"@,
            Operator::ContainedBy => "<@"@,
            Operator::Distance => "<=>"@,
            Operator::LeftDistance => "<=|"@,
            Operator::RightDistance => "|=>"@,
        }
    }

    /// Whether the operator takes a left operand of type `left` and a right
    /// operand of type `right`.
    pub open spec fn spec_accepts(self, left: SqlType, right: SqlType) -> bool {
        match self {
            Operator::Matches => (left == SqlType::TsVector && right == SqlType::TsQuery) || (
            left == SqlType::TsQuery && right == SqlType::TsVector),
            Operator::Concat => left == SqlType::TsVector && right == SqlType::TsVector,
            Operator::And | Operator::Or | Operator::Contains | Operator::ContainedBy => left
                == SqlType::TsQuery && right == SqlType::TsQuery,
            Operator::Distance | Operator::LeftDistance | Operator::RightDistance => left
                == SqlType::TsVector && right == SqlType::TsQuery,
        }
    }

    /// The type of an application of the operator.
    pub open spec fn spec_result(self) -> SqlType {
        match self {
            Operator::Matches | Operator::Contains | Operator::ContainedBy => SqlType::Bool,
            Operator::Concat => SqlType::TsVector,
            Operator::And | Operator::Or => SqlType::TsQuery,
            Operator::Distance | Operator::LeftDistance | Operator::RightDistance => SqlType::Float,
        }
    }

    /// Whether an application of the operator is rendered in parentheses.
    pub open spec fn spec_grouped(self) -> bool {
        self == Operator::Concat
    }

    /// Returns the operator's SQL symbol.
    pub fn symbol(self) -> (r: &'static str)
        ensures
            r@ == self.spec_symbol(),
    {
        match self {
            Operator::Matches => "@@",
            Operator::Concat => "||",
            Operator::And => "&&",
            Operator::Or => "||",
            Operator::Contains => "@>",
            Operator::ContainedBy => "<@",
            Operator::Distance => "<=>",
            Operator::LeftDistance => "<=|",
            Operator::RightDistance => "|=>",
        }
    }

    /// Tells whether the operator takes operands of the given types.
    pub fn accepts(self, left: SqlType, right: SqlType) -> (r: bool)
        ensures
            r == self.spec_accepts(left, right),
    {
        let vector = SqlType::TsVector;
        let query = SqlType::TsQuery;
        match self {
            Operator::Matches => (left == vector && right == query) || (left == query && right
                == vector),
            Operator::Concat => left == vector && right == vector,
            Operator::And | Operator::Or | Operator::Contains | Operator::ContainedBy => left
                == query && right == query,
            Operator::Distance | Operator::LeftDistance | Operator::RightDistance => left == vector
                && right == query,
        }
    }

    /// Returns the type of an application of the operator.
    pub fn result(self) -> (r: SqlType)
        ensures
            r == self.spec_result(),
    {
        match self {
            Operator::Matches | Operator::Contains | Operator::ContainedBy => SqlType::Bool,
            Operator::Concat => SqlType::TsVector,
            Operator::And | Operator::Or => SqlType::TsQuery,
            Operator::Distance | Operator::LeftDistance | Operator::RightDistance => SqlType::Float,
        }
    }

    /// Tells whether an application of the operator is rendered in parentheses.
    pub fn grouped(self) -> (r: bool)
        ensures
            r == self.spec_grouped(),
    {
        match self {
            Operator::Concat => true,
            _ => false,
        }
    }
}

/// The closed catalog of SQL functions on search types.
#[derive(Clone, Copy, Debug, PartialEq, Eq, Structural)]
pub enum Function {
    /// `length(tsvector) -> integer`
    Length,
    /// `numnode(tsquery) -> integer`
    Numnode,
    /// `plainto_tsquery(text) -> tsquery`
    PlaintoTsquery,
    /// `querytree(tsquery) -> text`
    Querytree,
    /// `strip(tsvector) -> tsvector`
    Strip,
    /// `to_tsquery(text) -> tsquery`
    ToTsquery,
    /// `to_tsvector(text) -> tsvector`
    ToTsvector,
    /// `ts_headline(text, tsquery) -> text`
    TsHeadline,
    /// `ts_rank(tsvector, tsquery) -> real`
    TsRank,
    /// `ts_rank_cd(tsvector, tsquery) -> real`
    TsRankCd,
}

impl Function {
    /// The function's SQL name.
    pub open spec fn spec_name(self) -> Seq<char> {
        match self {
            Function::Length => "length"@,
            Function::Numnode => "numnode"@,
            Function::PlaintoTsquery => "plainto_tsquery"@,
            Function::Querytree => "querytree"@,
            Function::Strip => "strip"@,
            Function::ToTsquery => "to_tsquery"@,
            Function::ToTsvector => "to_tsvector"@,
            Function::TsHeadline => "ts_headline"@,
            Function::TsRank => "ts_rank"@,
            Function::TsRankCd => "ts_rank_cd"@,
        }
    }

    /// The types of the function's parameters, in order.
    pub open spec fn spec_params(self) -> Seq<SqlType> {
        match self {
            Function::Length | Function::Strip => seq![SqlType::TsVector],
            Function::Numnode | Function::Querytree => seq![SqlType::TsQuery],
            Function::PlaintoTsquery | Function::ToTsquery | Function::ToTsvector => seq![
                SqlType::Text,
            ],
            Function::TsHeadline => seq![SqlType::Text, SqlType::TsQuery],
            Function::TsRank | Function::TsRankCd => seq![SqlType::TsVector, SqlType::TsQuery],
        }
    }

    /// The type of a call of the function.
    pub open spec fn spec_result(self) -> SqlType {
        match self {
            Function::Length | Function::Numnode => SqlType::Integer,
            Function::PlaintoTsquery | Function::ToTsquery => SqlType::TsQuery,
            Function::Querytree | Function::TsHeadline => SqlType::Text,
            Function::Strip | Function::ToTsvector => SqlType::TsVector,
            Function::TsRank | Function::TsRankCd => SqlType::Float,
        }
    }

    /// Returns the function's SQL name.
    pub fn name(self) -> (r: &'static str)
        ensures
            r@ == self.spec_name(),
    {
        match self {
            Function::Length => "length",
            Function::Numnode => "numnode",
            Function::PlaintoTsquery => "plainto_tsquery",
            Function::Querytree => "querytree",
            Function::Strip => "strip",
            Function::ToTsquery => "to_tsquery",
            Function::ToTsvector => "to_tsvector",
            Function::TsHeadline => "ts_headline",
            Function::TsRank => "ts_rank",
            Function::TsRankCd => "ts_rank_cd",
        }
    }

    /// Returns the types of the function's parameters, in order.
    pub fn params(self) -> (r: Vec<SqlType>)
        ensures
            r@ == self.spec_params(),
    {
        let mut r: Vec<SqlType> = Vec::new();
        match self {
            Function::Length | Function::Strip => {
                r.push(SqlType::TsVector);
            },
            Function::Numnode | Function::Querytree => {
                r.push(SqlType::TsQuery);
            },
            Function::PlaintoTsquery | Function::ToTsquery | Function::ToTsvector => {
                r.push(SqlType::Text);
            },
            Function::TsHeadline => {
                r.push(SqlType::Text);
                r.push(SqlType::TsQuery);
            },
            Function::TsRank | Function::TsRankCd => {
                r.push(SqlType::TsVector);
                r.push(SqlType::TsQuery);
            },
        }
        assert(r@ =~= self.spec_params());
        r
    }

    /// Returns the type of a call of the function.
    pub fn result(self) -> (r: SqlType)
        ensures
            r == self.spec_result(),
    {
        match self {
            Function::Length | Function::Numnode => SqlType::Integer,
            Function::PlaintoTsquery | Function::ToTsquery => SqlType::TsQuery,
            Function::Querytree | Function::TsHeadline => SqlType::Text,
            Function::Strip | Function::ToTsvector => SqlType::TsVector,
            Function::TsRank | Function::TsRankCd => SqlType::Float,
        }
    }
}

} // verus!
