use full_text_search::{
    length, numnode, plainto_tsquery, querytree, strip, text, to_tsquery, to_tsvector,
    ts_headline, ts_rank, ts_rank_cd, AnyExpr, Bool, CompositionError, Expr, Function, Operator,
    SqlType, Text, TsQuery, TsQueryExtensions, TsRumExtensions, TsVector, TsVectorExtensions,
};

fn vector(name: &str) -> Expr<TsVector> {
    Expr::leaf(name.to_string())
}

fn query(name: &str) -> Expr<TsQuery> {
    Expr::leaf(name.to_string())
}

#[test]
fn matches_vector_with_query() {
    let e = to_tsvector(text("the cat sat")).matches(to_tsquery(text("cat & sat")));
    assert_eq!(e.to_sql(), "to_tsvector('the cat sat') @@ to_tsquery('cat & sat')");
    assert_eq!(e.kind(), SqlType::Bool);
}

#[test]
fn concat_is_grouped_inside_matches() {
    let e = to_tsvector(text("a"))
        .concat(to_tsvector(text("b")))
        .matches(to_tsquery(text("a")));
    assert_eq!(e.to_sql(), "(to_tsvector('a') || to_tsvector('b')) @@ to_tsquery('a')");
}

#[test]
fn rank_of_vector_and_query() {
    let e = ts_rank(to_tsvector(text("x")), to_tsquery(text("x")));
    assert_eq!(e.kind(), SqlType::Float);
    assert_eq!(e.to_sql(), "ts_rank(to_tsvector('x'), to_tsquery('x'))");
}

#[test]
fn vector_operators_render() {
    assert_eq!(vector("v").matches(query("q")).to_sql(), "v @@ q");
    let c = vector("v").concat(vector("w"));
    assert_eq!(c.kind(), SqlType::TsVector);
    assert_eq!(c.to_sql(), "(v || w)");
}

#[test]
fn query_operators_render() {
    let m = query("q").matches(vector("v"));
    assert_eq!(m.kind(), SqlType::Bool);
    assert_eq!(m.to_sql(), "q @@ v");
    let a = query("q").and(query("r"));
    assert_eq!(a.kind(), SqlType::TsQuery);
    assert_eq!(a.to_sql(), "q && r");
    let o = query("q").or(query("r"));
    assert_eq!(o.kind(), SqlType::TsQuery);
    assert_eq!(o.to_sql(), "q || r");
    let c = query("q").contains(query("r"));
    assert_eq!(c.kind(), SqlType::Bool);
    assert_eq!(c.to_sql(), "q @> r");
    let b = query("q").contained_by(query("r"));
    assert_eq!(b.kind(), SqlType::Bool);
    assert_eq!(b.to_sql(), "q <@ r");
}

#[test]
fn nested_query_operators_are_not_grouped() {
    let e = query("a").and(query("b")).or(query("c"));
    assert_eq!(e.to_sql(), "a && b || c");
}

#[test]
fn rum_operators_render() {
    let d = vector("v").distance(query("q"));
    assert_eq!(d.kind(), SqlType::Float);
    assert_eq!(d.to_sql(), "v <=> q");
    assert_eq!(vector("v").left_distance(query("q")).to_sql(), "v <=| q");
    assert_eq!(vector("v").right_distance(query("q")).to_sql(), "v |=> q");
}

#[test]
fn functions_render_with_their_kinds() {
    let l = length(vector("v"));
    assert_eq!(l.kind(), SqlType::Integer);
    assert_eq!(l.to_sql(), "length(v)");
    let n = numnode(query("q"));
    assert_eq!(n.kind(), SqlType::Integer);
    assert_eq!(n.to_sql(), "numnode(q)");
    let p = plainto_tsquery(text("fat rats"));
    assert_eq!(p.kind(), SqlType::TsQuery);
    assert_eq!(p.to_sql(), "plainto_tsquery('fat rats')");
    let t = querytree(query("q"));
    assert_eq!(t.kind(), SqlType::Text);
    assert_eq!(t.to_sql(), "querytree(q)");
    let s = strip(vector("v"));
    assert_eq!(s.kind(), SqlType::TsVector);
    assert_eq!(s.to_sql(), "strip(v)");
    let h = ts_headline(text("doc"), query("q"));
    assert_eq!(h.kind(), SqlType::Text);
    assert_eq!(h.to_sql(), "ts_headline('doc', q)");
    let r = ts_rank_cd(vector("v"), query("q"));
    assert_eq!(r.kind(), SqlType::Float);
    assert_eq!(r.to_sql(), "ts_rank_cd(v, q)");
}

#[test]
fn text_literal_doubles_quotes() {
    let t: Expr<Text> = text("it's");
    assert_eq!(t.to_sql(), "'it''s'");
    assert_eq!(text("").to_sql(), "''");
}

#[test]
fn operator_rejects_wrong_operand_kinds() {
    let left = AnyExpr::leaf("q".to_string(), SqlType::TsQuery);
    let right = AnyExpr::leaf("r".to_string(), SqlType::TsQuery);
    let r = Operator::Concat.apply(left, right);
    assert_eq!(
        r.err(),
        Some(CompositionError::OperandKinds { left: SqlType::TsQuery, right: SqlType::TsQuery })
    );
}

#[test]
fn matches_accepts_both_orders() {
    let v = AnyExpr::leaf("v".to_string(), SqlType::TsVector);
    let q = AnyExpr::leaf("q".to_string(), SqlType::TsQuery);
    let e = Operator::Matches.apply(q, v).ok().unwrap();
    assert_eq!(e.kind(), SqlType::Bool);
    assert_eq!(e.to_sql(), "q @@ v");
    let v = AnyExpr::leaf("v".to_string(), SqlType::TsVector);
    let w = AnyExpr::leaf("w".to_string(), SqlType::TsVector);
    assert!(Operator::Matches.apply(v, w).is_err());
}

#[test]
fn call_rejects_wrong_argument_count() {
    let args = vec![AnyExpr::leaf("v".to_string(), SqlType::TsVector)];
    let r = Function::TsRank.call(args);
    assert_eq!(r.err(), Some(CompositionError::ArgumentCount { declared: 2, supplied: 1 }));
}

#[test]
fn call_rejects_wrong_argument_kind() {
    let args = vec![
        AnyExpr::leaf("v".to_string(), SqlType::TsVector),
        AnyExpr::leaf("w".to_string(), SqlType::TsVector),
    ];
    let r = Function::TsRank.call(args);
    assert_eq!(
        r.err(),
        Some(CompositionError::ArgumentKind {
            position: 1,
            expected: SqlType::TsQuery,
            found: SqlType::TsVector,
        })
    );
}

#[test]
fn call_builds_typed_expression() {
    let args = vec![
        AnyExpr::leaf("'doc'".to_string(), SqlType::Text),
        AnyExpr::leaf("q".to_string(), SqlType::TsQuery),
    ];
    let e = Function::TsHeadline.call(args).ok().unwrap();
    assert_eq!(e.kind(), SqlType::Text);
    assert_eq!(e.to_sql(), "ts_headline('doc', q)");
    let typed: Option<Expr<Text>> = e.into_typed();
    assert!(typed.is_some());
}

#[test]
fn into_typed_refuses_other_kind() {
    let e = AnyExpr::leaf("v".to_string(), SqlType::TsVector);
    let typed: Option<Expr<Bool>> = e.into_typed();
    assert!(typed.is_none());
}

#[test]
fn catalog_tables() {
    assert_eq!(Function::TsRankCd.name(), "ts_rank_cd");
    assert_eq!(Function::TsHeadline.params(), vec![SqlType::Text, SqlType::TsQuery]);
    assert_eq!(Function::Length.result(), SqlType::Integer);
    assert_eq!(Operator::Or.symbol(), "||");
    assert!(Operator::Concat.grouped());
    assert!(!Operator::Or.grouped());
    assert!(Operator::LeftDistance.accepts(SqlType::TsVector, SqlType::TsQuery));
    assert_eq!(Operator::Contains.result(), SqlType::Bool);
}
