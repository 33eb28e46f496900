//! Types of closure parameters, inferred from how the closure body uses
//! them, and the index chains of nested array accesses.
use vstd::prelude::*;
use crate::ast::{BinaryOp, Expr, ExprModel, Literal, exprs_model, lemma_exprs_model_index, lemma_exprs_model_len};
use crate::mir::{MirType, TypeModel, fields_model};
use crate::text::str_eq;

verus! {

/// Whether the parameter `param` occurs in an expression, looking through
/// operators, both branches of a conditional, call arguments, method
/// receivers and accessed objects.
pub open spec fn mentions(param: Seq<char>, e: ExprModel) -> bool
    decreases e,
{
    match e {
        ExprModel::Identifier(name) => name == param,
        ExprModel::Binary(l, _, r) => mentions(param, *l) || mentions(param, *r),
        ExprModel::Unary(_, o) => mentions(param, *o),
        ExprModel::Ternary(_, t, f) => mentions(param, *t) || mentions(param, *f),
        ExprModel::FunctionCall(target, args) => (match *target {
            ExprModel::PropertyAccess(object, _) => mentions(param, *object),
            _ => false,
        }) || mentions_any(param, args),
        ExprModel::PropertyAccess(object, _) => mentions(param, *object),
        _ => false,
    }
}

/// Whether the parameter occurs in one of the expressions.
pub open spec fn mentions_any(param: Seq<char>, args: Seq<ExprModel>) -> bool
    decreases args,
{
    if args.len() == 0 {
        false
    } else {
        mentions_any(param, args.drop_last()) || mentions(param, args[args.len() - 1])
    }
}

/// Whether an expression is a string by its shape: a string literal, a
/// sum with a string operand, or a conditional with a string branch.
pub open spec fn string_shaped(e: ExprModel) -> bool
    decreases e,
{
    match e {
        ExprModel::Literal(value) => value is String,
        ExprModel::Binary(l, op, r) => op == BinaryOp::Add && (string_shaped(*l) || string_shaped(*r)),
        ExprModel::Ternary(_, t, f) => string_shaped(*t) || string_shaped(*f),
        _ => false,
    }
}

/// A pointer to the named runtime struct, with its fields unknown.
pub open spec fn runtime_struct_ptr(name: Seq<char>) -> TypeModel {
    TypeModel::Ptr(Box::new(TypeModel::Struct(name, Seq::empty())))
}

/// The parameter type that a method called on the parameter implies.
pub open spec fn method_receiver_type(method: Seq<char>) -> Option<TypeModel> {
    if method == "json"@ || method == "text"@ || method == "status"@ || method == "send"@ || method
        == "redirect"@ {
        Some(runtime_struct_ptr("Res"@))
    } else if method == "param"@ || method == "header"@ || method == "body"@ || method == "query"@ {
        Some(runtime_struct_ptr("Request"@))
    } else {
        None
    }
}

/// The parameter type that a field read from the parameter implies.
pub open spec fn field_owner_type(field: Seq<char>) -> TypeModel {
    if field == "fd"@ || field == "sent"@ || field == "status"@ || field == "json"@ || field == "text"@ {
        runtime_struct_ptr("Res"@)
    } else if field == "path"@ || field == "method"@ || field == "body"@ || field == "_pattern"@ {
        runtime_struct_ptr("Request"@)
    } else {
        TypeModel::Ptr(Box::new(TypeModel::I8))
    }
}

/// The method called on `param` by a call target, if the target is a
/// method of the parameter itself.
pub open spec fn method_on(param: Seq<char>, target: ExprModel) -> Option<Seq<char>> {
    match target {
        ExprModel::PropertyAccess(object, property) => match *object {
            ExprModel::Identifier(name) => if name == param {
                Some(property)
            } else {
                None
            },
            _ => None,
        },
        _ => None,
    }
}

/// The arithmetic operators.
pub open spec fn arithmetic(op: BinaryOp) -> bool {
    op == BinaryOp::Add || op == BinaryOp::Sub || op == BinaryOp::Mul || op == BinaryOp::Div || op
        == BinaryOp::Mod
}

/// The type that the uses of `param` in an expression imply: a string
/// where it is concatenated with a string, `i32` where it is an operand of
/// an arithmetic operator, the runtime's response or
/// request struct where one of their methods or fields is used on it, a
/// byte pointer for any other field; `None` where nothing is implied.
/// The first use found, left to right, decides.
pub open spec fn inferred_type(param: Seq<char>, e: ExprModel) -> Option<TypeModel>
    decreases e,
{
    match e {
        ExprModel::Binary(l, op, r) => if op == BinaryOp::Add && mentions(param, *l) && string_shaped(*r) {
            Some(TypeModel::Str)
        } else if op == BinaryOp::Add && mentions(param, *r) && string_shaped(*l) {
            Some(TypeModel::Str)
        } else if inferred_type(param, *l) is Some {
            inferred_type(param, *l)
        } else if inferred_type(param, *r) is Some {
            inferred_type(param, *r)
        } else if arithmetic(op) && (*l == ExprModel::Identifier(param) || *r == ExprModel::Identifier(
            param,
        )) {
            Some(TypeModel::I32)
        } else {
            None
        },
        ExprModel::Unary(_, o) => inferred_type(param, *o),
        ExprModel::Ternary(_, t, f) => if mentions(param, *t) && !string_shaped(*t) && inferred_type(
            param,
            *t,
        ) is Some {
            inferred_type(param, *t)
        } else {
            inferred_type(param, *f)
        },
        ExprModel::FunctionCall(target, args) => {
            let by_method = match method_on(param, *target) {
                Some(m) => method_receiver_type(m),
                None => None,
            };
            if by_method is Some {
                by_method
            } else {
                first_inferred(param, args)
            }
        },
        ExprModel::PropertyAccess(object, property) => match *object {
            ExprModel::Identifier(name) => if name == param {
                Some(field_owner_type(property))
            } else {
                None
            },
            _ => None,
        },
        _ => None,
    }
}

/// The type implied by the first of the expressions that implies one.
pub open spec fn first_inferred(param: Seq<char>, args: Seq<ExprModel>) -> Option<TypeModel>
    decreases args,
{
    if args.len() == 0 {
        None
    } else if first_inferred(param, args.drop_last()) is Some {
        first_inferred(param, args.drop_last())
    } else {
        inferred_type(param, args[args.len() - 1])
    }
}

/// Whether `param` occurs in the expression.
pub fn contains_param(param: &str, expr: &Expr) -> (r: bool)
    ensures
        r == mentions(param@, expr@),
    decreases expr,
{
    match expr {
        Expr::Identifier { name } => str_eq(name.as_str(), param),
        Expr::Binary { left, right, .. } => contains_param(param, left) || contains_param(param, right),
        Expr::Unary { operand, .. } => contains_param(param, operand),
        Expr::Ternary { then_expr, else_expr, .. } => contains_param(param, then_expr) || contains_param(
            param,
            else_expr,
        ),
        Expr::FunctionCall { target, arguments } => {
            let on_receiver = match &**target {
                Expr::PropertyAccess { object, .. } => contains_param(param, object),
                _ => false,
            };
            proof {
                assert(on_receiver == (match (**target)@ {
                    ExprModel::PropertyAccess(object, _) => mentions(param@, *object),
                    _ => false,
                }));
            }
            if on_receiver {
                return true;
            }
            let ghost am = exprs_model(arguments@);
            proof {
                lemma_exprs_model_len(arguments@);
            }
            let mut i: usize = 0;
            while i < arguments.len()
                invariant
                    *expr == (Expr::FunctionCall { target: *target, arguments: *arguments }),
                    i <= arguments@.len(),
                    am == exprs_model(arguments@),
                    am.len() == arguments@.len(),
                    !(match (**target)@ {
                        ExprModel::PropertyAccess(object, _) => mentions(param@, *object),
                        _ => false,
                    }),
                    !mentions_any(param@, am.take(i as int)),
                decreases arguments@.len() - i,
            {
                proof {
                    assert(decreases_to!(*expr => (*expr)->FunctionCall_arguments));
                    assert(decreases_to!(*arguments => arguments@));
                    assert(decreases_to!(arguments@ => arguments@[i as int]));
                    lemma_exprs_model_index(arguments@, i as int);
                    assert(am.take(i + 1).drop_last() =~= am.take(i as int));
                }
                if contains_param(param, &arguments[i]) {
                    proof {
                        lemma_mentions_prefix(param@, am, i + 1);
                    }
                    return true;
                }
                i = i + 1;
            }
            assert(am.take(i as int) =~= am);
            false
        },
        Expr::PropertyAccess { object, .. } => contains_param(param, object),
        _ => false,
    }
}

/// A mention within a prefix is a mention within the whole list.
proof fn lemma_mentions_prefix(param: Seq<char>, args: Seq<ExprModel>, k: int)
    requires
        0 <= k <= args.len(),
        mentions_any(param, args.take(k)),
    ensures
        mentions_any(param, args),
    decreases args.len(),
{
    if k == args.len() {
        assert(args.take(k) =~= args);
    } else {
        assert(args.drop_last().take(k) =~= args.take(k));
        lemma_mentions_prefix(param, args.drop_last(), k);
    }
}

/// Whether the expression is a string by its shape.
pub fn is_str_expr(expr: &Expr) -> (r: bool)
    ensures
        r == string_shaped(expr@),
    decreases expr,
{
    match expr {
        Expr::Literal { value } => matches!(value, Literal::String(_)),
        Expr::Binary { left, right, operator } => match operator {
            BinaryOp::Add => is_str_expr(left) || is_str_expr(right),
            _ => false,
        },
        Expr::Ternary { then_expr, else_expr, .. } => is_str_expr(then_expr) || is_str_expr(else_expr),
        _ => false,
    }
}

fn runtime_struct_ptr_type(name: &str) -> (r: MirType)
    ensures
        r@ == runtime_struct_ptr(name@),
{
    let fields: Vec<(String, MirType)> = Vec::new();
    assert(fields_model(fields@) =~= Seq::empty());
    let r = MirType::Ptr(Box::new(MirType::Struct(String::from_str(name), fields)));
    proof {
        reveal_with_fuel(crate::mir::type_model, 2);
    }
    r
}

fn method_receiver(method: &str) -> (r: Option<MirType>)
    ensures
        r is Some == method_receiver_type(method@) is Some,
        r is Some ==> r->0@ == method_receiver_type(method@)->0,
{
    if str_eq(method, "json") || str_eq(method, "text") || str_eq(method, "status") || str_eq(method, "send")
        || str_eq(method, "redirect") {
        Some(runtime_struct_ptr_type("Res"))
    } else if str_eq(method, "param") || str_eq(method, "header") || str_eq(method, "body") || str_eq(
        method,
        "query",
    ) {
        Some(runtime_struct_ptr_type("Request"))
    } else {
        None
    }
}

fn field_owner(field: &str) -> (r: MirType)
    ensures
        r@ == field_owner_type(field@),
{
    if str_eq(field, "fd") || str_eq(field, "sent") || str_eq(field, "status") || str_eq(field, "json")
        || str_eq(field, "text") {
        runtime_struct_ptr_type("Res")
    } else if str_eq(field, "path") || str_eq(field, "method") || str_eq(field, "body") || str_eq(
        field,
        "_pattern",
    ) {
        runtime_struct_ptr_type("Request")
    } else {
        let r = MirType::Ptr(Box::new(MirType::I8));
        proof {
            reveal_with_fuel(crate::mir::type_model, 2);
        }
        r
    }
}

/// The type implied by calling a method on `param`, where `target` is
/// such a method.
fn receiver_method_type(param: &str, target: &Expr) -> (r: Option<MirType>)
    ensures
        ({
            let spec = match method_on(param@, target@) {
                Some(m) => method_receiver_type(m),
                None => None,
            };
            &&& r is Some == spec is Some
            &&& r is Some ==> r->0@ == spec->0
        }),
{
    if let Expr::PropertyAccess { object, property } = target {
        if let Expr::Identifier { name } = &**object {
            if str_eq(name.as_str(), param) {
                proof {
                    assert((**object)@ == ExprModel::Identifier(name@));
                    assert(method_on(param@, target@) == Some(property@));
                }
                return method_receiver(property.as_str());
            }
            proof {
                assert((**object)@ == ExprModel::Identifier(name@));
            }
            return None;
        }
        proof {
            assert(!((**object)@ is Identifier));
        }
    }
    None
}

/// Whether the expression is the parameter itself.
fn is_param_ident(param: &str, e: &Expr) -> (r: bool)
    ensures
        r == (e@ == ExprModel::Identifier(param@)),
{
    match e {
        Expr::Identifier { name } => str_eq(name.as_str(), param),
        _ => false,
    }
}

/// The type that the uses of `param` in an expression imply, if any.
pub fn infer_expr_param_type(param: &str, expr: &Expr) -> (r: Option<MirType>)
    ensures
        r is Some == inferred_type(param@, expr@) is Some,
        r is Some ==> r->0@ == inferred_type(param@, expr@)->0,
    decreases expr,
{
    match expr {
        Expr::Binary { left, right, operator } => {
            if matches!(operator, BinaryOp::Add) {
                if contains_param(param, left) && is_str_expr(right) {
                    return Some(MirType::Str);
                }
                if contains_param(param, right) && is_str_expr(left) {
                    return Some(MirType::Str);
                }
            }
            let l = infer_expr_param_type(param, left);
            if l.is_some() {
                return l;
            }
            let r = infer_expr_param_type(param, right);
            if r.is_some() {
                return r;
            }
            let arith = match operator {
                BinaryOp::Add | BinaryOp::Sub | BinaryOp::Mul | BinaryOp::Div | BinaryOp::Mod => true,
                _ => false,
            };
            if arith && (is_param_ident(param, left) || is_param_ident(param, right)) {
                Some(MirType::I32)
            } else {
                None
            }
        },
        Expr::Unary { operand, .. } => infer_expr_param_type(param, operand),
        Expr::Ternary { then_expr, else_expr, .. } => {
            if contains_param(param, then_expr) && !is_str_expr(then_expr) {
                let t = infer_expr_param_type(param, then_expr);
                if t.is_some() {
                    return t;
                }
            }
            infer_expr_param_type(param, else_expr)
        },
        Expr::FunctionCall { target, arguments } => {
            let by_method = receiver_method_type(param, target);
            if by_method.is_some() {
                return by_method;
            }
            let ghost am = exprs_model(arguments@);
            proof {
                lemma_exprs_model_len(arguments@);
            }
            let mut i: usize = 0;
            while i < arguments.len()
                invariant
                    *expr == (Expr::FunctionCall { target: *target, arguments: *arguments }),
                    i <= arguments@.len(),
                    am == exprs_model(arguments@),
                    am.len() == arguments@.len(),
                    (match method_on(param@, (**target)@) {
                        Some(m) => method_receiver_type(m),
                        None => None,
                    }) is None,
                    first_inferred(param@, am.take(i as int)) is None,
                decreases arguments@.len() - i,
            {
                proof {
                    assert(decreases_to!(*expr => (*expr)->FunctionCall_arguments));
                    assert(decreases_to!(*arguments => arguments@));
                    assert(decreases_to!(arguments@ => arguments@[i as int]));
                    lemma_exprs_model_index(arguments@, i as int);
                    assert(am.take(i + 1).drop_last() =~= am.take(i as int));
                }
                let t = infer_expr_param_type(param, &arguments[i]);
                if t.is_some() {
                    proof {
                        lemma_first_inferred_prefix(param@, am, i + 1);
                    }
                    return t;
                }
                i = i + 1;
            }
            assert(am.take(i as int) =~= am);
            None
        },
        Expr::PropertyAccess { object, property } => {
            if let Expr::Identifier { name } = &**object {
                proof {
                    assert((**object)@ == ExprModel::Identifier(name@));
                }
                if str_eq(name.as_str(), param) {
                    return Some(field_owner(property.as_str()));
                }
            } else {
                proof {
                    assert(!((**object)@ is Identifier));
                }
            }
            None
        },
        _ => None,
    }
}

/// A type implied within a prefix is the first one implied in the list.
proof fn lemma_first_inferred_prefix(param: Seq<char>, args: Seq<ExprModel>, k: int)
    requires
        0 <= k <= args.len(),
        first_inferred(param, args.take(k)) is Some,
    ensures
        first_inferred(param, args) == first_inferred(param, args.take(k)),
    decreases args.len(),
{
    if k == args.len() {
        assert(args.take(k) =~= args);
    } else {
        assert(args.drop_last().take(k) =~= args.take(k));
        lemma_first_inferred_prefix(param, args.drop_last(), k);
    }
}

/// The type of a closure parameter, inferred from its uses in the body:
/// a byte pointer where the body implies none.
pub fn infer_closure_param_type(param: &str, body: &Expr) -> (r: MirType)
    ensures
        r@ == match inferred_type(param@, body@) {
            Some(t) => t,
            None => TypeModel::Ptr(Box::new(TypeModel::I8)),
        },
{
    match infer_expr_param_type(param, body) {
        Some(t) => t,
        None => {
            let r = MirType::Ptr(Box::new(MirType::I8));
            proof {
                reveal_with_fuel(crate::mir::type_model, 2);
            }
            r
        },
    }
}

/// The root variable and the index expressions of a chain of index
/// accesses, outermost access last: `m[i][j]` gives `m` with `[i, j]`.
pub open spec fn index_chain(e: ExprModel) -> Option<(Seq<char>, Seq<ExprModel>)>
    decreases e,
{
    match e {
        ExprModel::Index(target, index) => match index_chain(*target) {
            Some((root, idxs)) => Some((root, idxs.push(*index))),
            None => None,
        },
        ExprModel::Identifier(name) => Some((name, Seq::empty())),
        _ => None,
    }
}

/// The models of a list of expression references.
pub open spec fn expr_refs_model(s: Seq<&Expr>) -> Seq<ExprModel> {
    s.map_values(|e: &Expr| (*e)@)
}

/// Collect the root identifier and all index expressions of a nested
/// index chain: `m[i][j]` gives `("m", [i, j])`.
pub fn collect_array_indices<'a>(expr: &'a Expr) -> (r: Option<(String, Vec<&'a Expr>)>)
    ensures
        match (r, index_chain(expr@)) {
            (Some((root, idxs)), Some((root_name, chain))) => root@ == root_name && expr_refs_model(idxs@)
                == chain,
            (None, None) => true,
            _ => false,
        },
    decreases expr,
{
    match expr {
        Expr::Index { target, index } => {
            let inner = collect_array_indices(target);
            match inner {
                Some((root, idxs)) => {
                    let ghost prev = idxs@;
                    let mut idxs = idxs;
                    idxs.push(&**index);
                    assert(expr_refs_model(idxs@) =~= expr_refs_model(prev).push((**index)@));
                    Some((root, idxs))
                },
                None => None,
            }
        },
        Expr::Identifier { name } => {
            let idxs: Vec<&'a Expr> = Vec::new();
            assert(expr_refs_model(idxs@) =~= Seq::empty());
            Some((name.clone(), idxs))
        },
        _ => None,
    }
}

} // verus!
