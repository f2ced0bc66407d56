use vstd::prelude::*;

use crate::catalog::{Function, Operator};
use core::marker::PhantomData;

use crate::kinds::{SqlKind, SqlType, Text};

verus! {

/// An expression tree. Each interior node owns its children.
#[derive(Debug)]
pub enum Tree {
    /// A fragment of SQL supplied from outside (a column, a literal) with its type.
    Leaf { sql: String, kind: SqlType },
    /// An infix operator applied to two operands.
    Op { op: Operator, left: Box<Tree>, right: Box<Tree> },
    /// A function applied to its arguments.
    Call { func: Function, args: Vec<Tree> },
}

impl Tree {
    /// The SQL type of the expression, fixed by the node that built it.
    pub open spec fn kind(self) -> SqlType {
        match self {
            Tree::Leaf { kind, .. } => kind,
            Tree::Op { op, .. } => op.spec_result(),
            Tree::Call { func, .. } => func.spec_result(),
        }
    }

    /// Every operator and function in the tree is applied to operands of the
    /// types it declares.
    pub open spec fn well_typed(self) -> bool
        decreases self,
    {
        match self {
            Tree::Leaf { .. } => true,
            Tree::Op { op, left, right } => {
                &&& left.well_typed()
                &&& right.well_typed()
                &&& op.spec_accepts(left.kind(), right.kind())
            },
            Tree::Call { func, args } => {
                &&& args@.len() == func.spec_params().len()
                &&& forall|i: int|
                    0 <= i < args@.len() ==> (#[trigger] args@[i]).well_typed() && args@[i].kind()
                        == func.spec_params()[i]
            },
        }
    }

    /// The SQL text of the expression.
    pub open spec fn render(self) -> Seq<char>
        decreases self,
    {
        match self {
            Tree::Leaf { sql, .. } => sql@,
            Tree::Op { op, left, right } => {
                let inner = left.render() + " "@ + op.spec_symbol() + " "@ + right.render();
                if op.spec_grouped() {
                    "("@ + inner + ")"@
                } else {
                    inner
                }
            },
            Tree::Call { func, args } => func.spec_name() + "("@ + render_list(args@) + ")"@,
        }
    }

    /// Whether this is a call of `func` on trees equal to `args`.
    pub open spec fn is_call(self, func: Function, args: Seq<Tree>) -> bool {
        &&& self is Call
        &&& self->func == func
        &&& self->args@ == args
    }

    /// Returns the SQL text of the expression.
    pub fn to_sql(&self) -> (r: String)
        ensures
            r@ == self.render(),
        decreases self,
    {
        match self {
            Tree::Leaf { sql, .. } => sql.clone(),
            Tree::Op { op, left, right } => {
                let mut inner = left.to_sql();
                inner.append(" ");
                inner.append(op.symbol());
                inner.append(" ");
                let r = right.to_sql();
                inner.append(r.as_str());
                if op.grouped() {
                    let mut g = String::from_str("(");
                    g.append(inner.as_str());
                    g.append(")");
                    g
                } else {
                    inner
                }
            },
            Tree::Call { func, args } => {
                let mut list = String::new();
                let mut i: usize = 0;
                while i < args.len()
                    invariant
                        self is Call,
                        self->args == *args,
                        i <= args@.len(),
                        list@ == render_list(args@.subrange(0, i as int)),
                    decreases args@.len() - i,
                {
                    proof {
                        assert(decreases_to!(*self => self->args));
                        assert(decreases_to!(self->args => self->args@));
                        assert(decreases_to!(args@ => args@[i as int]));
                    }
                    let a = args[i].to_sql();
                    if i == 0 {
                        list = a;
                    } else {
                        list.append(", ");
                        list.append(a.as_str());
                    }
                    assert(args@.subrange(0, i + 1).subrange(0, i as int) =~= args@.subrange(
                        0,
                        i as int,
                    ));
                    i = i + 1;
                }
                assert(args@.subrange(0, args@.len() as int) =~= args@);
                let mut s = String::from_str(func.name());
                s.append("(");
                s.append(list.as_str());
                s.append(")");
                s
            },
        }
    }
}

/// The SQL text of a list of expressions, separated by `", "`.
pub open spec fn render_list(args: Seq<Tree>) -> Seq<char>
    decreases args,
{
    if args.len() == 0 {
        Seq::empty()
    } else if args.len() == 1 {
        args[0].render()
    } else {
        render_list(args.subrange(0, args.len() - 1)) + ", "@ + args[args.len() - 1].render()
    }
}

/// Why an expression could not be built.
#[derive(Clone, Copy, Debug, PartialEq, Eq, Structural)]
pub enum CompositionError {
    /// The operator does not take operands of these types.
    OperandKinds { left: SqlType, right: SqlType },
    /// The function declares `declared` parameters and was given `supplied` arguments.
    ArgumentCount { declared: usize, supplied: usize },
    /// The argument at `position` has type `found` where `expected` is declared.
    ArgumentKind { position: usize, expected: SqlType, found: SqlType },
}

/// A well-typed expression whose type is known at run time only.
pub struct AnyExpr {
    tree: Tree,
}

impl View for AnyExpr {
    type V = Tree;

    closed spec fn view(&self) -> Tree {
        self.tree
    }
}

impl AnyExpr {
    #[verifier::type_invariant]
    spec fn inv(self) -> bool {
        self.tree.well_typed()
    }

    /// Lifts a fragment of SQL of type `kind` into an expression.
    pub fn leaf(sql: String, kind: SqlType) -> (r: AnyExpr)
        ensures
            r@ == (Tree::Leaf { sql, kind }),
    {
        AnyExpr { tree: Tree::Leaf { sql, kind } }
    }

    /// Returns the type of the expression.
    pub fn kind(&self) -> (r: SqlType)
        ensures
            r == self@.kind(),
            self@.well_typed(),
    {
        proof {
            use_type_invariant(self);
        }
        match &self.tree {
            Tree::Leaf { kind, .. } => *kind,
            Tree::Op { op, .. } => op.result(),
            Tree::Call { func, .. } => func.result(),
        }
    }

    /// Returns the SQL text of the expression.
    pub fn to_sql(&self) -> (r: String)
        ensures
            r@ == self@.render(),
    {
        self.tree.to_sql()
    }

    /// Gives the expression the static type `K`, if that is its type.
    pub fn into_typed<K: SqlKind>(self) -> (r: Option<Expr<K>>)
        ensures
            r is Some <==> self@.kind() == K::sql_type(),
            r matches Some(e) ==> e@ == self@,
    {
        proof {
            use_type_invariant(&self);
        }
        if self.kind() == K::kind() {
            Some(Expr { tree: self.tree, marker: PhantomData })
        } else {
            None
        }
    }
}

/// A well-typed expression of the SQL type that `K` stands for.
pub struct Expr<K: SqlKind> {
    tree: Tree,
    marker: PhantomData<K>,
}

impl<K: SqlKind> View for Expr<K> {
    type V = Tree;

    closed spec fn view(&self) -> Tree {
        self.tree
    }
}

impl<K: SqlKind> Expr<K> {
    #[verifier::type_invariant]
    spec fn inv(self) -> bool {
        self.tree.well_typed() && self.tree.kind() == K::sql_type()
    }

    /// Lifts a fragment of SQL of type `K` (a column, a bound value) into an
    /// expression.
    pub fn leaf(sql: String) -> (r: Expr<K>)
        ensures
            r@ == (Tree::Leaf { sql, kind: K::sql_type() }),
    {
        let kind = K::kind();
        Expr { tree: Tree::Leaf { sql, kind }, marker: PhantomData }
    }

    /// Returns the type of the expression, which is the one `K` stands for.
    pub fn kind(&self) -> (r: SqlType)
        ensures
            r == K::sql_type(),
            r == self@.kind(),
            self@.well_typed(),
    {
        proof {
            use_type_invariant(self);
        }
        K::kind()
    }

    /// Returns the SQL text of the expression.
    pub fn to_sql(&self) -> (r: String)
        ensures
            r@ == self@.render(),
    {
        self.tree.to_sql()
    }

    /// Applies `op` to this expression and `right`, whose types the operator
    /// takes.
    pub fn infix<R: SqlKind, O: SqlKind>(self, op: Operator, right: Expr<R>) -> (r: Expr<O>)
        requires
            op.spec_accepts(K::sql_type(), R::sql_type()),
            op.spec_result() == O::sql_type(),
        ensures
            r@ == (Tree::Op { op, left: Box::new(self@), right: Box::new(right@) }),
            r@.render() == op.spec_render(self@.render(), right@.render()),
    {
        let applied = op.apply(self.into_any(), right.into_any());
        let any = applied.unwrap();
        any.into_typed::<O>().unwrap()
    }

    /// Forgets the static type of the expression.
    pub fn into_any(self) -> (r: AnyExpr)
        ensures
            r@ == self@,
            self@.kind() == K::sql_type(),
            self@.well_typed(),
    {
        proof {
            use_type_invariant(&self);
        }
        AnyExpr { tree: self.tree }
    }
}

/// The SQL text of a string literal: the characters in single quotes, each
/// single quote inside doubled.
pub open spec fn quote_literal(value: Seq<char>) -> Seq<char> {
    "'"@ + escape_quotes(value) + "'"@
}

/// The characters of `value`, each single quote doubled.
pub open spec fn escape_quotes(value: Seq<char>) -> Seq<char>
    decreases value.len(),
{
    if value.len() == 0 {
        Seq::empty()
    } else {
        let c = value[value.len() - 1];
        let rest = escape_quotes(value.subrange(0, value.len() - 1));
        if c == '\'' {
            rest + seq!['\'', '\'']
        } else {
            rest.push(c)
        }
    }
}

/// A `text` literal holding `value`.
pub fn text(value: &str) -> (r: Expr<Text>)
    ensures
        r@ is Leaf,
        r@->sql@ == quote_literal(value@),
        r@->kind == SqlType::Text,
{
    let n = value.unicode_len();
    let mut body = String::new();
    let mut i: usize = 0;
    while i < n
        invariant
            n == value@.len(),
            i <= n,
            body@ == escape_quotes(value@.subrange(0, i as int)),
        decreases n - i,
    {
        let c = value.get_char(i);
        assert(value@.subrange(0, i + 1).subrange(0, i as int) =~= value@.subrange(0, i as int));
        if c == '\'' {
            body.append("''");
            proof {
                reveal_strlit("''");
                assert("''"@ =~= seq!['\'', '\'']);
            }
        } else {
            body.append(value.substring_char(i, i + 1));
            assert(body@ =~= escape_quotes(value@.subrange(0, i + 1)));
        }
        i = i + 1;
    }
    assert(value@.subrange(0, n as int) =~= value@);
    let mut sql = String::from_str("'");
    sql.append(body.as_str());
    sql.append("'");
    Expr::leaf(sql)
}

impl Operator {
    /// The SQL text of the operator applied to operands rendered as `left`
    /// and `right`.
    pub open spec fn spec_render(self, left: Seq<char>, right: Seq<char>) -> Seq<char> {
        let inner = left + " "@ + self.spec_symbol() + " "@ + right;
        if self.spec_grouped() {
            "("@ + inner + ")"@
        } else {
            inner
        }
    }

    /// Applies the operator to two operands, checking their types.
    ///
    /// Succeeds exactly when the operator takes operands of these types; the
    /// result then has the operator's result type and renders as
    /// `left <symbol> right`, in parentheses for a grouped operator.
    pub fn apply(self, left: AnyExpr, right: AnyExpr) -> (r: Result<AnyExpr, CompositionError>)
        ensures
            r is Ok <==> self.spec_accepts(left@.kind(), right@.kind()),
            r matches Ok(e) ==> e@ == (Tree::Op {
                op: self,
                left: Box::new(left@),
                right: Box::new(right@),
            }) && e@.kind() == self.spec_result(),
            r matches Err(err) ==> err == (CompositionError::OperandKinds {
                left: left@.kind(),
                right: right@.kind(),
            }),
    {
        proof {
            use_type_invariant(&left);
            use_type_invariant(&right);
        }
        let lk = left.kind();
        let rk = right.kind();
        if self.accepts(lk, rk) {
            Ok(
                AnyExpr {
                    tree: Tree::Op { op: self, left: Box::new(left.tree), right: Box::new(right.tree) },
                },
            )
        } else {
            Err(CompositionError::OperandKinds { left: lk, right: rk })
        }
    }
}

/// The trees of a sequence of expressions.
pub open spec fn trees_of(args: Seq<AnyExpr>) -> Seq<Tree> {
    args.map_values(|a: AnyExpr| a@)
}

/// Whether every tree of `args` has the type that `params` declares at its position.
pub open spec fn kinds_match(args: Seq<Tree>, params: Seq<SqlType>) -> bool {
    &&& args.len() == params.len()
    &&& forall|i: int| 0 <= i < args.len() ==> (#[trigger] args[i]).kind() == params[i]
}

impl Function {
    /// Calls the function on `args`, checking their number and types.
    ///
    /// Succeeds exactly when the arguments match the declared parameters
    /// position by position; the result then has the function's result type
    /// and renders as `name(arg, ...)`. Otherwise the error names the count,
    /// or else the first position whose type differs.
    pub fn call(self, args: Vec<AnyExpr>) -> (r: Result<AnyExpr, CompositionError>)
        ensures
            r is Ok <==> kinds_match(trees_of(args@), self.spec_params()),
            r matches Ok(e) ==> e@.is_call(self, trees_of(args@)) && e@.kind()
                == self.spec_result(),
            (r matches Err(CompositionError::ArgumentCount { .. })) <==> args@.len()
                != self.spec_params().len(),
            r matches Err(CompositionError::ArgumentCount { declared, supplied }) ==> declared
                == self.spec_params().len() && supplied == args@.len(),
            r matches Err(CompositionError::ArgumentKind { position, expected, found }) ==> {
                &&& args@.len() == self.spec_params().len()
                &&& position < args@.len()
                &&& expected == self.spec_params()[position as int]
                &&& found == args@[position as int]@.kind()
                &&& expected != found
                &&& forall|j: int|
                    0 <= j < position ==> (#[trigger] args@[j])@.kind() == self.spec_params()[j]
            },
            !(r matches Err(CompositionError::OperandKinds { .. })),
    {
        let params = self.params();
        if args.len() != params.len() {
            return Err(
                CompositionError::ArgumentCount { declared: params.len(), supplied: args.len() },
            );
        }
        let mut i: usize = 0;
        while i < args.len()
            invariant
                args@.len() == params@.len(),
                params@ == self.spec_params(),
                i <= args@.len(),
                forall|j: int| 0 <= j < i ==> (#[trigger] args@[j])@.kind() == params@[j],
            decreases args@.len() - i,
        {
            let found = args[i].kind();
            if found != params[i] {
                assert(trees_of(args@)[i as int] == args@[i as int]@);
                return Err(
                    CompositionError::ArgumentKind { position: i, expected: params[i], found },
                );
            }
            i = i + 1;
        }
        assert(kinds_match(trees_of(args@), self.spec_params()));
        let ghost all = args@;
        let mut rest = args;
        let mut trees: Vec<Tree> = Vec::new();
        while rest.len() > 0
            invariant
                all.len() == params@.len(),
                params@ == self.spec_params(),
                trees@.len() + rest@.len() == all.len(),
                rest@ == all.subrange(trees@.len() as int, all.len() as int),
                forall|j: int|
                    0 <= j < all.len() ==> (#[trigger] all[j])@.kind() == params@[j],
                forall|j: int|
                    0 <= j < trees@.len() ==> (#[trigger] trees@[j]) == all[j]@
                        && trees@[j].well_typed(),
            decreases rest@.len(),
        {
            let a = rest.remove(0);
            proof {
                use_type_invariant(&a);
            }
            trees.push(a.tree);
        }
        assert(trees@ =~= trees_of(all));
        Ok(AnyExpr { tree: Tree::Call { func: self, args: trees } })
    }
}

} // verus!
