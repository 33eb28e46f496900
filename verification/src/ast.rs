use vstd::prelude::*;

verus! {

/// How a function parameter receives its argument.
#[derive(Clone, Copy, Debug, PartialEq, Eq, Structural)]
pub enum ParamMode {
    /// `^T`: ownership of the argument is transferred to the callee.
    Move,
    /// `&T`: the callee reads the argument.
    Borrow,
    /// `^&T`: the callee may modify the argument in place.
    MutableBorrow,
}

/// A literal in source code. A floating-point literal is held by its
/// IEEE-754 bit pattern.
#[derive(Debug, PartialEq)]
pub enum Literal {
    Integer(i64),
    Float(u64),
    String(String),
    Boolean(bool),
    /// A character literal, by its code point.
    Char(i32),
    /// The `none` literal.
    NoneValue,
    Null,
}

} // verus!

verus! {

/// A type annotation in source code.
#[derive(Debug)]
pub enum AstType {
    /// A named type: a struct, class, enum, alias or type parameter.
    User { name: String },
    /// A builtin scalar type by name.
    Primitive { name: String },
    /// A named type applied to arguments, such as `list<i32>`.
    Generic { name: String, args: Vec<AstType> },
    /// `T?`.
    Optional { inner: Box<AstType> },
    /// `T!`: a fallible value.
    Error { inner: Box<AstType> },
    Dict { key: Box<AstType>, value: Box<AstType> },
    /// A function pointer type.
    FnPtr { params: Vec<AstType>, return_: Box<AstType> },
    /// `^T`.
    Mutable { inner: Box<AstType> },
    /// `&T`.
    Borrow { inner: Box<AstType> },
    /// An untyped pointer.
    Ptr,
    SetOf { inner: Box<AstType> },
    Queue { inner: Box<AstType> },
    Stack { inner: Box<AstType> },
    Deque { inner: Box<AstType> },
    LinkedList { inner: Box<AstType> },
    List { inner: Box<AstType> },
    Array { inner: Box<AstType>, size: usize },
    Slice { inner: Box<AstType> },
    Chan { inner: Box<AstType> },
    Bytes,
}

/// Mathematical model of an [`AstType`]: names become character
/// sequences and argument vectors become sequences.
pub enum AstModel {
    User(Seq<char>),
    Primitive(Seq<char>),
    Generic(Seq<char>, Seq<AstModel>),
    Optional(Box<AstModel>),
    Error(Box<AstModel>),
    Dict(Box<AstModel>, Box<AstModel>),
    FnPtr(Seq<AstModel>, Box<AstModel>),
    Mutable(Box<AstModel>),
    Borrow(Box<AstModel>),
    Ptr,
    SetOf(Box<AstModel>),
    Queue(Box<AstModel>),
    Stack(Box<AstModel>),
    Deque(Box<AstModel>),
    LinkedList(Box<AstModel>),
    List(Box<AstModel>),
    Array(Box<AstModel>, usize),
    Slice(Box<AstModel>),
    Chan(Box<AstModel>),
    Bytes,
}

/// The model of a list of annotations.
pub open spec fn asts_model(s: Seq<AstType>) -> Seq<AstModel>
    decreases s,
{
    if s.len() == 0 {
        Seq::empty()
    } else {
        asts_model(s.drop_last()).push(ast_model(s.last()))
    }
}

/// The model of an annotation.
pub open spec fn ast_model(a: AstType) -> AstModel
    decreases a,
{
    match a {
        AstType::User { name } => AstModel::User(name@),
        AstType::Primitive { name } => AstModel::Primitive(name@),
        AstType::Generic { name, args } => AstModel::Generic(name@, asts_model(args@)),
        AstType::Optional { inner } => AstModel::Optional(Box::new(ast_model(*inner))),
        AstType::Error { inner } => AstModel::Error(Box::new(ast_model(*inner))),
        AstType::Dict { key, value } => AstModel::Dict(
            Box::new(ast_model(*key)),
            Box::new(ast_model(*value)),
        ),
        AstType::FnPtr { params, return_ } => AstModel::FnPtr(
            asts_model(params@),
            Box::new(ast_model(*return_)),
        ),
        AstType::Mutable { inner } => AstModel::Mutable(Box::new(ast_model(*inner))),
        AstType::Borrow { inner } => AstModel::Borrow(Box::new(ast_model(*inner))),
        AstType::Ptr => AstModel::Ptr,
        AstType::SetOf { inner } => AstModel::SetOf(Box::new(ast_model(*inner))),
        AstType::Queue { inner } => AstModel::Queue(Box::new(ast_model(*inner))),
        AstType::Stack { inner } => AstModel::Stack(Box::new(ast_model(*inner))),
        AstType::Deque { inner } => AstModel::Deque(Box::new(ast_model(*inner))),
        AstType::LinkedList { inner } => AstModel::LinkedList(Box::new(ast_model(*inner))),
        AstType::List { inner } => AstModel::List(Box::new(ast_model(*inner))),
        AstType::Array { inner, size } => AstModel::Array(Box::new(ast_model(*inner)), size),
        AstType::Slice { inner } => AstModel::Slice(Box::new(ast_model(*inner))),
        AstType::Chan { inner } => AstModel::Chan(Box::new(ast_model(*inner))),
        AstType::Bytes => AstModel::Bytes,
    }
}

impl View for AstType {
    type V = AstModel;

    open spec fn view(&self) -> AstModel {
        ast_model(*self)
    }
}

pub proof fn lemma_asts_model_len(s: Seq<AstType>)
    ensures
        asts_model(s).len() == s.len(),
    decreases s.len(),
{
    if s.len() > 0 {
        lemma_asts_model_len(s.drop_last());
    }
}

pub proof fn lemma_asts_model_index(s: Seq<AstType>, i: int)
    requires
        0 <= i < s.len(),
    ensures
        asts_model(s)[i] == s[i]@,
    decreases s.len(),
{
    lemma_asts_model_len(s.drop_last());
    if i < s.len() - 1 {
        lemma_asts_model_index(s.drop_last(), i);
    }
}

/// The model of the first `i + 1` annotations extends that of the first `i`.
pub proof fn lemma_asts_model_step(s: Seq<AstType>, i: int)
    requires
        0 <= i < s.len(),
    ensures
        asts_model(s.take(i + 1)) == asts_model(s.take(i)).push(s[i]@),
{
    assert(s.take(i + 1).drop_last() =~= s.take(i));
}

/// Exact copy of an annotation.
pub fn copy_ast(a: &AstType) -> (r: AstType)
    ensures
        r@ == a@,
    decreases a,
{
    match a {
        AstType::User { name } => AstType::User { name: name.clone() },
        AstType::Primitive { name } => AstType::Primitive { name: name.clone() },
        AstType::Generic { name, args } => AstType::Generic { name: name.clone(), args: copy_asts(args) },
        AstType::Optional { inner } => AstType::Optional { inner: Box::new(copy_ast(inner)) },
        AstType::Error { inner } => AstType::Error { inner: Box::new(copy_ast(inner)) },
        AstType::Dict { key, value } => AstType::Dict {
            key: Box::new(copy_ast(key)),
            value: Box::new(copy_ast(value)),
        },
        AstType::FnPtr { params, return_ } => AstType::FnPtr {
            params: copy_asts(params),
            return_: Box::new(copy_ast(return_)),
        },
        AstType::Mutable { inner } => AstType::Mutable { inner: Box::new(copy_ast(inner)) },
        AstType::Borrow { inner } => AstType::Borrow { inner: Box::new(copy_ast(inner)) },
        AstType::Ptr => AstType::Ptr,
        AstType::SetOf { inner } => AstType::SetOf { inner: Box::new(copy_ast(inner)) },
        AstType::Queue { inner } => AstType::Queue { inner: Box::new(copy_ast(inner)) },
        AstType::Stack { inner } => AstType::Stack { inner: Box::new(copy_ast(inner)) },
        AstType::Deque { inner } => AstType::Deque { inner: Box::new(copy_ast(inner)) },
        AstType::LinkedList { inner } => AstType::LinkedList { inner: Box::new(copy_ast(inner)) },
        AstType::List { inner } => AstType::List { inner: Box::new(copy_ast(inner)) },
        AstType::Array { inner, size } => AstType::Array { inner: Box::new(copy_ast(inner)), size: *size },
        AstType::Slice { inner } => AstType::Slice { inner: Box::new(copy_ast(inner)) },
        AstType::Chan { inner } => AstType::Chan { inner: Box::new(copy_ast(inner)) },
        AstType::Bytes => AstType::Bytes,
    }
}

/// Exact copy of a list of annotations.
pub fn copy_asts(s: &Vec<AstType>) -> (r: Vec<AstType>)
    ensures
        asts_model(r@) == asts_model(s@),
        r@.len() == s@.len(),
    decreases s,
{
    let mut out: Vec<AstType> = Vec::new();
    let mut i: usize = 0;
    while i < s.len()
        invariant
            i <= s@.len(),
            out@.len() == i,
            asts_model(out@) == asts_model(s@.take(i as int)),
        decreases s@.len() - i,
    {
        proof {
            assert(decreases_to!(*s => s@));
            assert(decreases_to!(s@ => s@[i as int]));
            lemma_asts_model_step(s@, i as int);
        }
        let a = copy_ast(&s[i]);
        let ghost prev = out@;
        out.push(a);
        assert(out@.drop_last() =~= prev);
        i = i + 1;
    }
    assert(s@.take(i as int) =~= s@);
    out
}

impl Clone for AstType {
    fn clone(&self) -> (r: Self)
        ensures
            r@ == self@,
    {
        copy_ast(self)
    }
}

/// A type parameter of a generic declaration.
#[derive(Debug)]
pub struct TypeParam {
    pub name: String,
}

/// A parameter of a function declaration.
#[derive(Debug)]
pub struct Param {
    pub name: String,
    pub type_: AstType,
}

/// A function declaration: its signature and, unless it is external, its
/// body.
#[derive(Debug)]
pub struct FunctionDecl {
    pub name: String,
    pub type_params: Vec<TypeParam>,
    pub params: Vec<Param>,
    pub return_type: Option<AstType>,
    pub body: Option<Block>,
}

/// A field of a struct declaration.
#[derive(Debug)]
pub struct FieldDecl {
    pub name: String,
    pub type_: AstType,
}

/// A struct declaration.
#[derive(Debug)]
pub struct StructDecl {
    pub name: String,
    pub type_params: Vec<TypeParam>,
    pub fields: Vec<FieldDecl>,
}

} // verus!

verus! {

/// A binary operator in source code.
#[derive(Clone, Copy, Debug, PartialEq, Eq, Structural)]
pub enum BinaryOp {
    Add,
    Sub,
    Mul,
    Div,
    Mod,
    Eq,
    NotEq,
    Lt,
    Gt,
    LtEq,
    GtEq,
    And,
    Or,
}

/// A unary operator in source code.
#[derive(Clone, Copy, Debug, PartialEq, Eq, Structural)]
pub enum UnaryOp {
    Neg,
    Not,
}

/// An expression in source code, in the shapes that the lowering helpers
/// look into.
#[derive(Debug)]
pub enum Expr {
    Identifier { name: String },
    Literal { value: Literal },
    Binary { left: Box<Expr>, operator: BinaryOp, right: Box<Expr> },
    Unary { operator: UnaryOp, operand: Box<Expr> },
    Ternary { condition: Box<Expr>, then_expr: Box<Expr>, else_expr: Box<Expr> },
    FunctionCall { target: Box<Expr>, arguments: Vec<Expr> },
    PropertyAccess { object: Box<Expr>, property: String },
    Index { target: Box<Expr>, index: Box<Expr> },
    /// An expression of any other form.
    Opaque,
}

/// Mathematical model of a [`Literal`].
pub enum LiteralModel {
    Integer(i64),
    Float(u64),
    String(Seq<char>),
    Boolean(bool),
    Char(i32),
    NoneValue,
    Null,
}

impl View for Literal {
    type V = LiteralModel;

    open spec fn view(&self) -> LiteralModel {
        match *self {
            Literal::Integer(n) => LiteralModel::Integer(n),
            Literal::Float(bits) => LiteralModel::Float(bits),
            Literal::String(s) => LiteralModel::String(s@),
            Literal::Boolean(b) => LiteralModel::Boolean(b),
            Literal::Char(c) => LiteralModel::Char(c),
            Literal::NoneValue => LiteralModel::NoneValue,
            Literal::Null => LiteralModel::Null,
        }
    }
}

/// Mathematical model of an [`Expr`].
pub enum ExprModel {
    Identifier(Seq<char>),
    Literal(LiteralModel),
    Binary(Box<ExprModel>, BinaryOp, Box<ExprModel>),
    Unary(UnaryOp, Box<ExprModel>),
    Ternary(Box<ExprModel>, Box<ExprModel>, Box<ExprModel>),
    FunctionCall(Box<ExprModel>, Seq<ExprModel>),
    PropertyAccess(Box<ExprModel>, Seq<char>),
    Index(Box<ExprModel>, Box<ExprModel>),
    Opaque,
}

/// The model of a list of expressions.
pub open spec fn exprs_model(s: Seq<Expr>) -> Seq<ExprModel>
    decreases s,
{
    if s.len() == 0 {
        Seq::empty()
    } else {
        exprs_model(s.drop_last()).push(expr_model(s.last()))
    }
}

/// The model of an expression.
pub open spec fn expr_model(e: Expr) -> ExprModel
    decreases e,
{
    match e {
        Expr::Identifier { name } => ExprModel::Identifier(name@),
        Expr::Literal { value } => ExprModel::Literal(value@),
        Expr::Binary { left, operator, right } => ExprModel::Binary(
            Box::new(expr_model(*left)),
            operator,
            Box::new(expr_model(*right)),
        ),
        Expr::Unary { operator, operand } => ExprModel::Unary(operator, Box::new(expr_model(*operand))),
        Expr::Ternary { condition, then_expr, else_expr } => ExprModel::Ternary(
            Box::new(expr_model(*condition)),
            Box::new(expr_model(*then_expr)),
            Box::new(expr_model(*else_expr)),
        ),
        Expr::FunctionCall { target, arguments } => ExprModel::FunctionCall(
            Box::new(expr_model(*target)),
            exprs_model(arguments@),
        ),
        Expr::PropertyAccess { object, property } => ExprModel::PropertyAccess(
            Box::new(expr_model(*object)),
            property@,
        ),
        Expr::Index { target, index } => ExprModel::Index(
            Box::new(expr_model(*target)),
            Box::new(expr_model(*index)),
        ),
        Expr::Opaque => ExprModel::Opaque,
    }
}

impl View for Expr {
    type V = ExprModel;

    open spec fn view(&self) -> ExprModel {
        expr_model(*self)
    }
}

pub proof fn lemma_exprs_model_len(s: Seq<Expr>)
    ensures
        exprs_model(s).len() == s.len(),
    decreases s.len(),
{
    if s.len() > 0 {
        lemma_exprs_model_len(s.drop_last());
    }
}

pub proof fn lemma_exprs_model_index(s: Seq<Expr>, i: int)
    requires
        0 <= i < s.len(),
    ensures
        exprs_model(s)[i] == s[i]@,
    decreases s.len(),
{
    lemma_exprs_model_len(s.drop_last());
    if i < s.len() - 1 {
        lemma_exprs_model_index(s.drop_last(), i);
    }
}

} // verus!

verus! {

/// A member of a class declaration.
#[derive(Debug)]
pub enum ClassMember {
    Field(FieldDecl),
    Method(FunctionDecl),
}

/// A class declaration: its own members and, optionally, the class it
/// extends.
#[derive(Debug)]
pub struct ClassDecl {
    pub name: String,
    pub parent: Option<String>,
    pub members: Vec<ClassMember>,
}

/// A top-level declaration.
#[derive(Debug)]
pub enum Decl {
    Function(FunctionDecl),
    Struct(StructDecl),
    Class(ClassDecl),
}

/// A program: its top-level declarations in source order.
#[derive(Debug)]
pub struct Program {
    pub declarations: Vec<Decl>,
}

} // verus!

verus! {

/// A block of statements.
#[derive(Debug)]
pub struct Block {
    pub statements: Vec<Stmt>,
}

/// A variable declaration, with its type annotation if it has one.
#[derive(Debug)]
pub struct VarDecl {
    pub name: String,
    pub type_: Option<AstType>,
    pub value: Option<Expr>,
}

/// An `elif` branch of an `if` statement.
#[derive(Debug)]
pub struct ElifBranch {
    pub condition: Expr,
    pub body: Block,
}

/// An arm of a `match` statement.
#[derive(Debug)]
pub struct MatchArm {
    pub pattern: Expr,
    pub body: Block,
}

/// A statement in source code, in the shapes whose nested blocks and
/// type annotations specialization rewrites.
#[derive(Debug)]
pub enum Stmt {
    Variable(VarDecl),
    TypedVariable(VarDecl),
    If { condition: Expr, body: Block, elif_branches: Vec<ElifBranch>, else_branch: Option<Block> },
    While { condition: Expr, body: Block, else_branch: Option<Block> },
    For { variable: String, iterable: Expr, body: Block, else_branch: Option<Block> },
    Match { subject: Expr, arms: Vec<MatchArm> },
    Unsafe { body: Block },
    Guard { condition: Expr, body: Block },
    BindingIf { name: String, value: Expr, body: Block, else_branch: Option<Block> },
    Expression(Expr),
    Return(Option<Expr>),
    /// A statement of any other form.
    Opaque,
}

} // verus!

verus! {

/// Mathematical model of a [`VarDecl`].
pub struct VarModel {
    pub name: Seq<char>,
    pub type_: Option<AstModel>,
    pub value: Option<ExprModel>,
}

/// Mathematical model of a [`Stmt`]: blocks become sequences of
/// statement models.
pub enum StmtModel {
    Variable(VarModel),
    TypedVariable(VarModel),
    If(ExprModel, Seq<StmtModel>, Seq<(ExprModel, Seq<StmtModel>)>, Option<Seq<StmtModel>>),
    While(ExprModel, Seq<StmtModel>, Option<Seq<StmtModel>>),
    For(Seq<char>, ExprModel, Seq<StmtModel>, Option<Seq<StmtModel>>),
    Match(ExprModel, Seq<(ExprModel, Seq<StmtModel>)>),
    Unsafe(Seq<StmtModel>),
    Guard(ExprModel, Seq<StmtModel>),
    BindingIf(Seq<char>, ExprModel, Seq<StmtModel>, Option<Seq<StmtModel>>),
    Expression(ExprModel),
    Return(Option<ExprModel>),
    Opaque,
}

/// The model of an optional expression.
pub open spec fn opt_expr_model(e: Option<Expr>) -> Option<ExprModel> {
    match e {
        Some(x) => Some(x@),
        None => None,
    }
}

/// The model of an optional annotation.
pub open spec fn opt_type_model(t: Option<AstType>) -> Option<AstModel> {
    match t {
        Some(x) => Some(x@),
        None => None,
    }
}

/// The model of a variable declaration.
pub open spec fn var_model(v: VarDecl) -> VarModel {
    VarModel { name: v.name@, type_: opt_type_model(v.type_), value: opt_expr_model(v.value) }
}

/// The model of a list of statements.
pub open spec fn stmts_model(s: Seq<Stmt>) -> Seq<StmtModel>
    decreases s,
{
    if s.len() == 0 {
        Seq::empty()
    } else {
        stmts_model(s.drop_last()).push(stmt_model(s[s.len() - 1]))
    }
}

/// The model of a block.
pub open spec fn block_model(b: Block) -> Seq<StmtModel>
    decreases b,
{
    stmts_model(b.statements@)
}

/// The model of an optional block.
pub open spec fn opt_block_model(b: Option<Block>) -> Option<Seq<StmtModel>>
    decreases b,
{
    match b {
        Some(x) => Some(block_model(x)),
        None => None,
    }
}

/// The model of a list of `elif` branches.
pub open spec fn elifs_model(s: Seq<ElifBranch>) -> Seq<(ExprModel, Seq<StmtModel>)>
    decreases s,
{
    if s.len() == 0 {
        Seq::empty()
    } else {
        let e = s[s.len() - 1];
        elifs_model(s.drop_last()).push((e.condition@, block_model(e.body)))
    }
}

/// The model of a list of `match` arms.
pub open spec fn arms_model(s: Seq<MatchArm>) -> Seq<(ExprModel, Seq<StmtModel>)>
    decreases s,
{
    if s.len() == 0 {
        Seq::empty()
    } else {
        let a = s[s.len() - 1];
        arms_model(s.drop_last()).push((a.pattern@, block_model(a.body)))
    }
}

/// The model of a statement.
pub open spec fn stmt_model(s: Stmt) -> StmtModel
    decreases s,
{
    match s {
        Stmt::Variable(v) => StmtModel::Variable(var_model(v)),
        Stmt::TypedVariable(v) => StmtModel::TypedVariable(var_model(v)),
        Stmt::If { condition, body, elif_branches, else_branch } => StmtModel::If(
            condition@,
            block_model(body),
            elifs_model(elif_branches@),
            opt_block_model(else_branch),
        ),
        Stmt::While { condition, body, else_branch } => StmtModel::While(
            condition@,
            block_model(body),
            opt_block_model(else_branch),
        ),
        Stmt::For { variable, iterable, body, else_branch } => StmtModel::For(
            variable@,
            iterable@,
            block_model(body),
            opt_block_model(else_branch),
        ),
        Stmt::Match { subject, arms } => StmtModel::Match(subject@, arms_model(arms@)),
        Stmt::Unsafe { body } => StmtModel::Unsafe(block_model(body)),
        Stmt::Guard { condition, body } => StmtModel::Guard(condition@, block_model(body)),
        Stmt::BindingIf { name, value, body, else_branch } => StmtModel::BindingIf(
            name@,
            value@,
            block_model(body),
            opt_block_model(else_branch),
        ),
        Stmt::Expression(e) => StmtModel::Expression(e@),
        Stmt::Return(e) => StmtModel::Return(opt_expr_model(e)),
        Stmt::Opaque => StmtModel::Opaque,
    }
}

impl View for Stmt {
    type V = StmtModel;

    open spec fn view(&self) -> StmtModel {
        stmt_model(*self)
    }
}

pub proof fn lemma_stmts_model_len(s: Seq<Stmt>)
    ensures
        stmts_model(s).len() == s.len(),
    decreases s.len(),
{
    if s.len() > 0 {
        lemma_stmts_model_len(s.drop_last());
    }
}

pub proof fn lemma_stmts_model_index(s: Seq<Stmt>, i: int)
    requires
        0 <= i < s.len(),
    ensures
        stmts_model(s)[i] == s[i]@,
    decreases s.len(),
{
    lemma_stmts_model_len(s.drop_last());
    if i < s.len() - 1 {
        lemma_stmts_model_index(s.drop_last(), i);
    }
}

} // verus!

verus! {

/// Exact copy of a literal.
pub fn copy_literal(l: &Literal) -> (r: Literal)
    ensures
        r@ == l@,
{
    match l {
        Literal::Integer(n) => Literal::Integer(*n),
        Literal::Float(bits) => Literal::Float(*bits),
        Literal::String(s) => Literal::String(s.clone()),
        Literal::Boolean(b) => Literal::Boolean(*b),
        Literal::Char(c) => Literal::Char(*c),
        Literal::NoneValue => Literal::NoneValue,
        Literal::Null => Literal::Null,
    }
}

/// Exact copy of an expression.
pub fn copy_expr(e: &Expr) -> (r: Expr)
    ensures
        r@ == e@,
    decreases e, 1nat,
{
    match e {
        Expr::Identifier { name } => Expr::Identifier { name: name.clone() },
        Expr::Literal { value } => Expr::Literal { value: copy_literal(value) },
        Expr::Binary { left, operator, right } => Expr::Binary {
            left: Box::new(copy_expr(left)),
            operator: *operator,
            right: Box::new(copy_expr(right)),
        },
        Expr::Unary { operator, operand } => Expr::Unary { operator: *operator, operand: Box::new(copy_expr(operand)) },
        Expr::Ternary { condition, then_expr, else_expr } => Expr::Ternary {
            condition: Box::new(copy_expr(condition)),
            then_expr: Box::new(copy_expr(then_expr)),
            else_expr: Box::new(copy_expr(else_expr)),
        },
        Expr::FunctionCall { target, arguments } => {
            proof {
                assert(decreases_to!(*e => (*e)->FunctionCall_arguments));
            }
            Expr::FunctionCall { target: Box::new(copy_expr(target)), arguments: copy_exprs(arguments) }
        },
        Expr::PropertyAccess { object, property } => Expr::PropertyAccess {
            object: Box::new(copy_expr(object)),
            property: property.clone(),
        },
        Expr::Index { target, index } => Expr::Index {
            target: Box::new(copy_expr(target)),
            index: Box::new(copy_expr(index)),
        },
        Expr::Opaque => Expr::Opaque,
    }
}

/// Exact copy of a list of expressions.
pub fn copy_exprs(s: &Vec<Expr>) -> (r: Vec<Expr>)
    ensures
        exprs_model(r@) == exprs_model(s@),
    decreases s, 0nat,
{
    let mut out: Vec<Expr> = Vec::new();
    let mut i: usize = 0;
    while i < s.len()
        invariant
            i <= s@.len(),
            exprs_model(out@) == exprs_model(s@.take(i as int)),
        decreases s@.len() - i,
    {
        proof {
            assert(decreases_to!(*s => s@));
            assert(decreases_to!(s@ => s@[i as int]));
        }
        let x = copy_expr(&s[i]);
        let ghost prev = out@;
        out.push(x);
        proof {
            assert(out@.drop_last() =~= prev);
            assert(s@.take(i + 1).drop_last() =~= s@.take(i as int));
        }
        i = i + 1;
    }
    assert(s@.take(i as int) =~= s@);
    out
}

fn copy_opt_expr(e: &Option<Expr>) -> (r: Option<Expr>)
    ensures
        opt_expr_model(r) == opt_expr_model(*e),
{
    match e {
        Some(x) => Some(copy_expr(x)),
        None => None,
    }
}

fn copy_opt_type(t: &Option<AstType>) -> (r: Option<AstType>)
    ensures
        opt_type_model(r) == opt_type_model(*t),
{
    match t {
        Some(x) => Some(copy_ast(x)),
        None => None,
    }
}

fn copy_var(v: &VarDecl) -> (r: VarDecl)
    ensures
        var_model(r) == var_model(*v),
{
    VarDecl { name: v.name.clone(), type_: copy_opt_type(&v.type_), value: copy_opt_expr(&v.value) }
}

/// Exact copy of a statement.
pub fn copy_stmt(s: &Stmt) -> (r: Stmt)
    ensures
        r@ == s@,
    decreases s, 3nat,
{
    match s {
        Stmt::Variable(v) => Stmt::Variable(copy_var(v)),
        Stmt::TypedVariable(v) => Stmt::TypedVariable(copy_var(v)),
        Stmt::If { condition, body, elif_branches, else_branch } => {
            proof {
                assert(decreases_to!(*s => (*s)->If_body));
                assert(decreases_to!(*s => (*s)->If_elif_branches));
                assert(decreases_to!(*s => (*s)->If_else_branch));
            }
            Stmt::If {
                condition: copy_expr(condition),
                body: copy_block(body),
                elif_branches: copy_elifs(elif_branches),
                else_branch: copy_opt_block(else_branch),
            }
        },
        Stmt::While { condition, body, else_branch } => {
            proof {
                assert(decreases_to!(*s => (*s)->While_body));
                assert(decreases_to!(*s => (*s)->While_else_branch));
            }
            Stmt::While {
                condition: copy_expr(condition),
                body: copy_block(body),
                else_branch: copy_opt_block(else_branch),
            }
        },
        Stmt::For { variable, iterable, body, else_branch } => {
            proof {
                assert(decreases_to!(*s => (*s)->For_body));
                assert(decreases_to!(*s => (*s)->For_else_branch));
            }
            Stmt::For {
                variable: variable.clone(),
                iterable: copy_expr(iterable),
                body: copy_block(body),
                else_branch: copy_opt_block(else_branch),
            }
        },
        Stmt::Match { subject, arms } => {
            proof {
                assert(decreases_to!(*s => (*s)->Match_arms));
            }
            Stmt::Match { subject: copy_expr(subject), arms: copy_arms(arms) }
        },
        Stmt::Unsafe { body } => {
            proof {
                assert(decreases_to!(*s => (*s)->Unsafe_body));
            }
            Stmt::Unsafe { body: copy_block(body) }
        },
        Stmt::Guard { condition, body } => {
            proof {
                assert(decreases_to!(*s => (*s)->Guard_body));
            }
            Stmt::Guard { condition: copy_expr(condition), body: copy_block(body) }
        },
        Stmt::BindingIf { name, value, body, else_branch } => {
            proof {
                assert(decreases_to!(*s => (*s)->BindingIf_body));
                assert(decreases_to!(*s => (*s)->BindingIf_else_branch));
            }
            Stmt::BindingIf {
                name: name.clone(),
                value: copy_expr(value),
                body: copy_block(body),
                else_branch: copy_opt_block(else_branch),
            }
        },
        Stmt::Expression(e) => Stmt::Expression(copy_expr(e)),
        Stmt::Return(e) => Stmt::Return(copy_opt_expr(e)),
        Stmt::Opaque => Stmt::Opaque,
    }
}

/// Exact copy of a block.
pub fn copy_block(b: &Block) -> (r: Block)
    ensures
        block_model(r) == block_model(*b),
    decreases b, 1nat,
{
    let mut out: Vec<Stmt> = Vec::new();
    let mut i: usize = 0;
    while i < b.statements.len()
        invariant
            i <= b.statements@.len(),
            stmts_model(out@) == stmts_model(b.statements@.take(i as int)),
        decreases b.statements@.len() - i,
    {
        proof {
            assert(decreases_to!(*b => b.statements));
            assert(decreases_to!(b.statements => b.statements@));
            assert(decreases_to!(b.statements@ => b.statements@[i as int]));
        }
        let x = copy_stmt(&b.statements[i]);
        let ghost prev = out@;
        out.push(x);
        proof {
            assert(out@.drop_last() =~= prev);
            assert(b.statements@.take(i + 1).drop_last() =~= b.statements@.take(i as int));
        }
        i = i + 1;
    }
    assert(b.statements@.take(i as int) =~= b.statements@);
    Block { statements: out }
}

fn copy_opt_block(b: &Option<Block>) -> (r: Option<Block>)
    ensures
        opt_block_model(r) == opt_block_model(*b),
    decreases b, 2nat,
{
    match b {
        Some(x) => {
            proof {
                assert(decreases_to!(*b => (*b)->0));
            }
            Some(copy_block(x))
        },
        None => None,
    }
}

fn copy_elifs(s: &Vec<ElifBranch>) -> (r: Vec<ElifBranch>)
    ensures
        elifs_model(r@) == elifs_model(s@),
    decreases s, 2nat,
{
    let mut out: Vec<ElifBranch> = Vec::new();
    let mut i: usize = 0;
    while i < s.len()
        invariant
            i <= s@.len(),
            elifs_model(out@) == elifs_model(s@.take(i as int)),
        decreases s@.len() - i,
    {
        proof {
            assert(decreases_to!(*s => s@));
            assert(decreases_to!(s@ => s@[i as int]));
            assert(decreases_to!(s@[i as int] => s@[i as int].body));
        }
        let x = ElifBranch { condition: copy_expr(&s[i].condition), body: copy_block(&s[i].body) };
        let ghost prev = out@;
        out.push(x);
        proof {
            assert(out@.drop_last() =~= prev);
            assert(s@.take(i + 1).drop_last() =~= s@.take(i as int));
        }
        i = i + 1;
    }
    assert(s@.take(i as int) =~= s@);
    out
}

fn copy_arms(s: &Vec<MatchArm>) -> (r: Vec<MatchArm>)
    ensures
        arms_model(r@) == arms_model(s@),
    decreases s, 2nat,
{
    let mut out: Vec<MatchArm> = Vec::new();
    let mut i: usize = 0;
    while i < s.len()
        invariant
            i <= s@.len(),
            arms_model(out@) == arms_model(s@.take(i as int)),
        decreases s@.len() - i,
    {
        proof {
            assert(decreases_to!(*s => s@));
            assert(decreases_to!(s@ => s@[i as int]));
            assert(decreases_to!(s@[i as int] => s@[i as int].body));
        }
        let x = MatchArm { pattern: copy_expr(&s[i].pattern), body: copy_block(&s[i].body) };
        let ghost prev = out@;
        out.push(x);
        proof {
            assert(out@.drop_last() =~= prev);
            assert(s@.take(i + 1).drop_last() =~= s@.take(i as int));
        }
        i = i + 1;
    }
    assert(s@.take(i as int) =~= s@);
    out
}

} // verus!

verus! {

/// Mathematical model of a [`FunctionDecl`].
pub struct FnModel {
    pub name: Seq<char>,
    pub type_params: Seq<Seq<char>>,
    pub params: Seq<(Seq<char>, AstModel)>,
    pub return_type: Option<AstModel>,
    pub body: Option<Seq<StmtModel>>,
}

/// The model of a function declaration.
pub open spec fn fn_model(f: FunctionDecl) -> FnModel {
    FnModel {
        name: f.name@,
        type_params: f.type_params@.map_values(|t: TypeParam| t.name@),
        params: f.params@.map_values(|p: Param| (p.name@, p.type_@)),
        return_type: opt_type_model(f.return_type),
        body: opt_block_model(f.body),
    }
}

/// Exact copy of a list of type parameters.
pub fn copy_type_params(s: &Vec<TypeParam>) -> (r: Vec<TypeParam>)
    ensures
        r@.map_values(|t: TypeParam| t.name@) == s@.map_values(|t: TypeParam| t.name@),
{
    let mut out: Vec<TypeParam> = Vec::new();
    let mut i: usize = 0;
    while i < s.len()
        invariant
            i <= s@.len(),
            out@.len() == i,
            forall|j: int| 0 <= j < i ==> (#[trigger] out@[j]).name@ == s@[j].name@,
        decreases s@.len() - i,
    {
        out.push(TypeParam { name: s[i].name.clone() });
        i = i + 1;
    }
    assert(out@.map_values(|t: TypeParam| t.name@) =~= s@.map_values(|t: TypeParam| t.name@));
    out
}

} // verus!
