use vstd::prelude::*;
use crate::ast::ParamMode;

verus! {

/// A value in MIR: a local slot, a function parameter, or a constant.
#[derive(Debug, PartialEq)]
pub enum MirValue {
    Local(usize),
    Param(usize),
    Constant(MirConstant),
}

impl Clone for MirValue {
    fn clone(&self) -> (r: Self)
        ensures
            r == *self,
    {
        match self {
            MirValue::Local(l) => MirValue::Local(*l),
            MirValue::Param(p) => MirValue::Param(*p),
            MirValue::Constant(c) => MirValue::Constant(c.clone()),
        }
    }
}

/// Constants in MIR.
///
/// A floating-point constant is held by its IEEE-754 bit pattern.
#[derive(Debug, PartialEq)]
pub enum MirConstant {
    I32(i32),
    I64(i64),
    F64(u64),
    Bool(bool),
    String(String),
    Void,
    Null,
}

impl Clone for MirConstant {
    fn clone(&self) -> (r: Self)
        ensures
            r == *self,
    {
        match self {
            MirConstant::I32(n) => MirConstant::I32(*n),
            MirConstant::I64(n) => MirConstant::I64(*n),
            MirConstant::F64(bits) => MirConstant::F64(*bits),
            MirConstant::Bool(b) => MirConstant::Bool(*b),
            MirConstant::String(text) => MirConstant::String(text.clone()),
            MirConstant::Void => MirConstant::Void,
            MirConstant::Null => MirConstant::Null,
        }
    }
}

/// MIR types: the subset of types that code generation understands.
#[derive(Debug, PartialEq)]
pub enum MirType {
    I1,
    I8,
    I16,
    I32,
    I64,
    U8,
    U16,
    U32,
    U64,
    F32,
    F64,
    Bool,
    Char,
    Str,
    Void,
    Ptr(Box<MirType>),
    Array(Box<MirType>, usize),
    List(Box<MirType>),
    /// A struct type with name, field names, and field types.
    Struct(String, Vec<(String, MirType)>),
    /// A dictionary type with key and value types.
    Dict(Box<MirType>, Box<MirType>),
    SetOf(Box<MirType>),
    Queue(Box<MirType>),
    Stack(Box<MirType>),
    Deque(Box<MirType>),
    LinkedList(Box<MirType>),
    /// Slice view `&[T]`: a fat pointer with copy semantics.
    Slice(Box<MirType>),
    /// Heap box `box<T>`: owned pointer, move semantics.
    Box(Box<MirType>),
    /// Channel `chan<T>`: move semantics.
    Chan(Box<MirType>),
    /// Raw byte buffer: move semantics.
    Bytes,
}

/// Mathematical model of a [`MirType`]: strings become character
/// sequences and field vectors become sequences.
pub enum TypeModel {
    I1,
    I8,
    I16,
    I32,
    I64,
    U8,
    U16,
    U32,
    U64,
    F32,
    F64,
    Bool,
    Char,
    Str,
    Void,
    Ptr(Box<TypeModel>),
    Array(Box<TypeModel>, usize),
    List(Box<TypeModel>),
    Struct(Seq<char>, Seq<(Seq<char>, TypeModel)>),
    Dict(Box<TypeModel>, Box<TypeModel>),
    SetOf(Box<TypeModel>),
    Queue(Box<TypeModel>),
    Stack(Box<TypeModel>),
    Deque(Box<TypeModel>),
    LinkedList(Box<TypeModel>),
    Slice(Box<TypeModel>),
    Box(Box<TypeModel>),
    Chan(Box<TypeModel>),
    Bytes,
}

/// The model of a list of named fields.
pub open spec fn fields_model(fields: Seq<(String, MirType)>) -> Seq<(Seq<char>, TypeModel)>
    decreases fields,
{
    if fields.len() == 0 {
        Seq::empty()
    } else {
        fields_model(fields.drop_last()).push((fields.last().0@, type_model(fields.last().1)))
    }
}

pub proof fn lemma_fields_model_len(fields: Seq<(String, MirType)>)
    ensures
        fields_model(fields).len() == fields.len(),
    decreases fields.len(),
{
    if fields.len() > 0 {
        lemma_fields_model_len(fields.drop_last());
    }
}

pub proof fn lemma_fields_model_index(fields: Seq<(String, MirType)>, i: int)
    requires
        0 <= i < fields.len(),
    ensures
        fields_model(fields)[i] == (fields[i].0@, type_model(fields[i].1)),
    decreases fields.len(),
{
    lemma_fields_model_len(fields.drop_last());
    if i < fields.len() - 1 {
        lemma_fields_model_index(fields.drop_last(), i);
    }
}

/// The model of a type.
pub open spec fn type_model(t: MirType) -> TypeModel
    decreases t,
{
    match t {
        MirType::I1 => TypeModel::I1,
        MirType::I8 => TypeModel::I8,
        MirType::I16 => TypeModel::I16,
        MirType::I32 => TypeModel::I32,
        MirType::I64 => TypeModel::I64,
        MirType::U8 => TypeModel::U8,
        MirType::U16 => TypeModel::U16,
        MirType::U32 => TypeModel::U32,
        MirType::U64 => TypeModel::U64,
        MirType::F32 => TypeModel::F32,
        MirType::F64 => TypeModel::F64,
        MirType::Bool => TypeModel::Bool,
        MirType::Char => TypeModel::Char,
        MirType::Str => TypeModel::Str,
        MirType::Void => TypeModel::Void,
        MirType::Ptr(b) => TypeModel::Ptr(Box::new(type_model(*b))),
        MirType::Array(b, n) => TypeModel::Array(Box::new(type_model(*b)), n),
        MirType::List(b) => TypeModel::List(Box::new(type_model(*b))),
        MirType::Struct(name, fields) => TypeModel::Struct(name@, fields_model(fields@)),
        MirType::Dict(k, v) => TypeModel::Dict(Box::new(type_model(*k)), Box::new(type_model(*v))),
        MirType::SetOf(b) => TypeModel::SetOf(Box::new(type_model(*b))),
        MirType::Queue(b) => TypeModel::Queue(Box::new(type_model(*b))),
        MirType::Stack(b) => TypeModel::Stack(Box::new(type_model(*b))),
        MirType::Deque(b) => TypeModel::Deque(Box::new(type_model(*b))),
        MirType::LinkedList(b) => TypeModel::LinkedList(Box::new(type_model(*b))),
        MirType::Slice(b) => TypeModel::Slice(Box::new(type_model(*b))),
        MirType::Box(b) => TypeModel::Box(Box::new(type_model(*b))),
        MirType::Chan(b) => TypeModel::Chan(Box::new(type_model(*b))),
        MirType::Bytes => TypeModel::Bytes,
    }
}

/// The models of a list of types.
pub open spec fn models(ts: Seq<MirType>) -> Seq<TypeModel> {
    ts.map_values(|t: MirType| t@)
}

impl View for MirType {
    type V = TypeModel;

    open spec fn view(&self) -> TypeModel {
        type_model(*self)
    }
}

/// Exact copy of a type tree.
pub fn copy_type(t: &MirType) -> (r: MirType)
    ensures
        r@ == t@,
    decreases t,
{
    match t {
        MirType::I1 => MirType::I1,
        MirType::I8 => MirType::I8,
        MirType::I16 => MirType::I16,
        MirType::I32 => MirType::I32,
        MirType::I64 => MirType::I64,
        MirType::U8 => MirType::U8,
        MirType::U16 => MirType::U16,
        MirType::U32 => MirType::U32,
        MirType::U64 => MirType::U64,
        MirType::F32 => MirType::F32,
        MirType::F64 => MirType::F64,
        MirType::Bool => MirType::Bool,
        MirType::Char => MirType::Char,
        MirType::Str => MirType::Str,
        MirType::Void => MirType::Void,
        MirType::Ptr(b) => MirType::Ptr(Box::new(copy_type(b))),
        MirType::Array(b, n) => MirType::Array(Box::new(copy_type(b)), *n),
        MirType::List(b) => MirType::List(Box::new(copy_type(b))),
        MirType::Struct(name, fields) => MirType::Struct(name.clone(), copy_fields(fields)),
        MirType::Dict(k, v) => MirType::Dict(Box::new(copy_type(k)), Box::new(copy_type(v))),
        MirType::SetOf(b) => MirType::SetOf(Box::new(copy_type(b))),
        MirType::Queue(b) => MirType::Queue(Box::new(copy_type(b))),
        MirType::Stack(b) => MirType::Stack(Box::new(copy_type(b))),
        MirType::Deque(b) => MirType::Deque(Box::new(copy_type(b))),
        MirType::LinkedList(b) => MirType::LinkedList(Box::new(copy_type(b))),
        MirType::Slice(b) => MirType::Slice(Box::new(copy_type(b))),
        MirType::Box(b) => MirType::Box(Box::new(copy_type(b))),
        MirType::Chan(b) => MirType::Chan(Box::new(copy_type(b))),
        MirType::Bytes => MirType::Bytes,
    }
}

/// Exact copy of a list of named fields.
pub fn copy_fields(fields: &Vec<(String, MirType)>) -> (r: Vec<(String, MirType)>)
    ensures
        fields_model(r@) == fields_model(fields@),
    decreases fields,
{
    let mut out: Vec<(String, MirType)> = Vec::new();
    let mut i: usize = 0;
    while i < fields.len()
        invariant
            i <= fields.len(),
            fields_model(out@) == fields_model(fields@.take(i as int)),
        decreases fields.len() - i,
    {
        proof {
            assert(decreases_to!(*fields => fields@));
            assert(decreases_to!(fields@ => fields@[i as int]));
        }
        let ft = copy_type(&fields[i].1);
        let ghost old_out = out@;
        out.push((fields[i].0.clone(), ft));
        proof {
            assert(out@.drop_last() =~= old_out);
            assert(fields@.take(i + 1).drop_last() =~= fields@.take(i as int));
        }
        i = i + 1;
    }
    assert(fields@.take(i as int) =~= fields@);
    out
}

impl Clone for MirType {
    fn clone(&self) -> (r: Self)
        ensures
            r@ == self@,
    {
        copy_type(self)
    }
}

/// Binary operators in MIR.
#[derive(Clone, Copy, Debug, PartialEq, Eq, Structural)]
pub enum MirBinaryOp {
    Add,
    Sub,
    Mul,
    Div,
    Rem,
    And,
    Or,
    Xor,
    Shl,
    Shr,
    Eq,
    Neq,
    Lt,
    Gt,
    Le,
    Ge,
}

/// Unary operators in MIR.
#[derive(Clone, Copy, Debug, PartialEq, Eq, Structural)]
pub enum MirUnaryOp {
    Neg,
    Not,
    BitNot,
}

/// A single MIR instruction.
#[allow(inconsistent_fields)]
#[derive(Debug, PartialEq)]
pub enum MirInst {
    /// Allocate stack space for a local variable.
    Alloca { dest: usize, type_: MirType, name: String },
    /// Store a value into a local.
    Store { dest: usize, value: MirValue },
    /// Load a value from a local.
    Load { dest: usize, src: usize },
    /// `dest = left op right`.
    BinaryOp { dest: usize, op: MirBinaryOp, left: MirValue, right: MirValue },
    /// `dest = op operand`.
    UnaryOp { dest: usize, op: MirUnaryOp, operand: MirValue },
    /// Call a function: `dest = name(args...)`.
    Call { dest: Option<usize>, name: String, args: Vec<MirValue> },
    /// Pointer to an array element: `dest = ptr + index * sizeof(elem_type)`.
    PtrOffset { dest: usize, ptr: usize, index: MirValue, elem_type: Box<MirType> },
    /// Store through a computed pointer: `ptr[index] = value`.
    PtrStore { dest: usize, ptr: usize, index: MirValue, value: MirValue },
    /// Pointer to a struct field by index.
    FieldPtr { dest: usize, ptr: usize, field_index: usize, struct_type: Box<MirType> },
    /// Pointer to an array element by index.
    ArrayElemPtr {
        dest: usize,
        ptr: usize,
        index: MirValue,
        arr_type: Box<MirType>,
        elem_type: Box<MirType>,
    },
    /// Cast between types.
    Cast { dest: usize, value: MirValue, to_type: MirType },
    /// Copy a struct value from a local alloca to a heap pointer.
    Memcpy { dest_ptr_local: usize, src_alloca_local: usize, struct_type: Box<MirType> },
    /// Address of a named function (for closures).
    FnAddr { dest: usize, name: String },
    /// Address of a local variable's slot.
    AddressOf { dest: usize, local_id: usize },
    /// Call through a function pointer.
    CallIndirect {
        dest: Option<usize>,
        fn_ptr: usize,
        ret_type: MirType,
        param_types: Vec<MirType>,
        args: Vec<MirValue>,
    },
    /// Build a slice `{ptr, len}`.
    SliceMake { dest: usize, ptr: MirValue, len: MirValue, elem_type: Box<MirType> },
    /// Spawn an async function on a thread.
    AsyncSpawn { dest: usize, function_name: String, arg: MirValue },
    /// Join an async thread handle.
    AsyncAwait { dest: usize, handle: usize, return_type: MirType },
}

/// How a basic block ends.
#[derive(Debug, PartialEq)]
pub enum MirTerminator {
    /// Return a value (or void).
    Return(MirValue),
    /// Unconditional branch to the block with this label.
    Br(String),
    /// Conditional branch.
    CondBr { cond: MirValue, true_block: String, false_block: String },
    /// Unreachable terminator.
    Unreachable,
}

/// A basic block: label, instructions, terminator.
#[derive(Debug, PartialEq)]
pub struct MirBasicBlock {
    pub label: String,
    pub insts: Vec<MirInst>,
    pub terminator: MirTerminator,
}

impl MirBasicBlock {
    /// An empty block with the given label, ending in `Unreachable`.
    pub fn new(label: &str) -> (r: Self)
        ensures
            r.label@ == label@,
            r.insts@.len() == 0,
            r.terminator is Unreachable,
    {
        MirBasicBlock {
            label: String::from_str(label),
            insts: Vec::new(),
            terminator: MirTerminator::Unreachable,
        }
    }
}

/// A MIR function.
#[derive(Debug, PartialEq)]
pub struct MirFunction {
    pub name: String,
    pub params: Vec<MirType>,
    pub param_modes: Vec<ParamMode>,
    pub return_type: MirType,
    pub is_fallible: bool,
    pub is_const: bool,
    pub basic_blocks: Vec<MirBasicBlock>,
    pub local_count: usize,
}

impl MirFunction {
    /// A function with the given name, no parameters, no blocks, returning void.
    pub fn new(name: &str) -> (r: Self)
        ensures
            r.name@ == name@,
            r.params@.len() == 0,
            r.param_modes@.len() == 0,
            r.return_type is Void,
            !r.is_fallible,
            !r.is_const,
            r.basic_blocks@.len() == 0,
            r.local_count == 0,
    {
        MirFunction {
            name: String::from_str(name),
            params: Vec::new(),
            param_modes: Vec::new(),
            return_type: MirType::Void,
            is_fallible: false,
            is_const: false,
            basic_blocks: Vec::new(),
            local_count: 0,
        }
    }
}

/// Top-level MIR module.
#[derive(Debug, PartialEq)]
pub struct MirModule {
    pub functions: Vec<MirFunction>,
    pub globals: Vec<(String, MirType, MirConstant)>,
    pub links: Vec<String>,
}

impl MirModule {
    /// An empty module.
    pub fn new() -> (r: Self)
        ensures
            r.functions@.len() == 0,
            r.globals@.len() == 0,
            r.links@.len() == 0,
    {
        MirModule { functions: Vec::new(), globals: Vec::new(), links: Vec::new() }
    }
}

/// Unsigned integer types.
pub open spec fn unsigned_type(t: MirType) -> bool {
    t is U8 || t is U16 || t is U32 || t is U64
}

/// Types with move semantics: heap-allocated values whose ownership is
/// transferred on assignment. Arrays and structs are stack values and
/// are not move types.
pub open spec fn move_type(t: MirType) -> bool {
    ||| t is Str
    ||| t is List
    ||| t is Dict
    ||| t is SetOf
    ||| t is Queue
    ||| t is Stack
    ||| t is Deque
    ||| t is LinkedList
    ||| t is Box
    ||| t is Chan
    ||| t is Bytes
}

/// Return true if the type is an unsigned integer type.
pub fn is_unsigned_type(t: &MirType) -> (b: bool)
    ensures
        b == unsigned_type(*t),
{
    match t {
        MirType::U8 | MirType::U16 | MirType::U32 | MirType::U64 => true,
        _ => false,
    }
}

/// Return true if the type has move semantics (ownership transfer).
pub fn is_move_type(t: &MirType) -> (b: bool)
    ensures
        b == move_type(*t),
{
    match t {
        MirType::Str => true,
        MirType::List(_) => true,
        MirType::Dict(_, _) => true,
        MirType::SetOf(_) => true,
        MirType::Queue(_) | MirType::Stack(_) | MirType::Deque(_) | MirType::LinkedList(_) => true,
        MirType::Box(_) => true,
        MirType::Chan(_) | MirType::Bytes => true,
        // Arrays and structs are value types on the stack: never freed.
        MirType::Struct(_, _) => false,
        _ => false,
    }
}

} // verus!

verus! {

/// Mathematical model of a [`MirConstant`].
pub enum ConstModel {
    I32(i32),
    I64(i64),
    F64(u64),
    Bool(bool),
    String(Seq<char>),
    Void,
    Null,
}

impl View for MirConstant {
    type V = ConstModel;

    open spec fn view(&self) -> ConstModel {
        match *self {
            MirConstant::I32(n) => ConstModel::I32(n),
            MirConstant::I64(n) => ConstModel::I64(n),
            MirConstant::F64(bits) => ConstModel::F64(bits),
            MirConstant::Bool(b) => ConstModel::Bool(b),
            MirConstant::String(s) => ConstModel::String(s@),
            MirConstant::Void => ConstModel::Void,
            MirConstant::Null => ConstModel::Null,
        }
    }
}

/// Mathematical model of a [`MirValue`].
pub enum ValueModel {
    Local(usize),
    Param(usize),
    Constant(ConstModel),
}

impl View for MirValue {
    type V = ValueModel;

    open spec fn view(&self) -> ValueModel {
        match *self {
            MirValue::Local(l) => ValueModel::Local(l),
            MirValue::Param(p) => ValueModel::Param(p),
            MirValue::Constant(c) => ValueModel::Constant(c@),
        }
    }
}

/// The models of a list of values.
pub open spec fn values_model(vs: Seq<MirValue>) -> Seq<ValueModel> {
    vs.map_values(|v: MirValue| v@)
}

/// Mathematical model of a [`MirInst`].
#[allow(inconsistent_fields)]
pub enum InstModel {
    Alloca { dest: usize, type_: TypeModel, name: Seq<char> },
    Store { dest: usize, value: ValueModel },
    Load { dest: usize, src: usize },
    BinaryOp { dest: usize, op: MirBinaryOp, left: ValueModel, right: ValueModel },
    UnaryOp { dest: usize, op: MirUnaryOp, operand: ValueModel },
    Call { dest: Option<usize>, name: Seq<char>, args: Seq<ValueModel> },
    PtrOffset { dest: usize, ptr: usize, index: ValueModel, elem_type: TypeModel },
    PtrStore { dest: usize, ptr: usize, index: ValueModel, value: ValueModel },
    FieldPtr { dest: usize, ptr: usize, field_index: usize, struct_type: TypeModel },
    ArrayElemPtr { dest: usize, ptr: usize, index: ValueModel, arr_type: TypeModel, elem_type: TypeModel },
    Cast { dest: usize, value: ValueModel, to_type: TypeModel },
    Memcpy { dest_ptr_local: usize, src_alloca_local: usize, struct_type: TypeModel },
    FnAddr { dest: usize, name: Seq<char> },
    AddressOf { dest: usize, local_id: usize },
    CallIndirect {
        dest: Option<usize>,
        fn_ptr: usize,
        ret_type: TypeModel,
        param_types: Seq<TypeModel>,
        args: Seq<ValueModel>,
    },
    SliceMake { dest: usize, ptr: ValueModel, len: ValueModel, elem_type: TypeModel },
    AsyncSpawn { dest: usize, function_name: Seq<char>, arg: ValueModel },
    AsyncAwait { dest: usize, handle: usize, return_type: TypeModel },
}

impl View for MirInst {
    type V = InstModel;

    open spec fn view(&self) -> InstModel {
        match *self {
            MirInst::Alloca { dest, type_, name } => InstModel::Alloca { dest, type_: type_@, name: name@ },
            MirInst::Store { dest, value } => InstModel::Store { dest, value: value@ },
            MirInst::Load { dest, src } => InstModel::Load { dest, src },
            MirInst::BinaryOp { dest, op, left, right } => InstModel::BinaryOp {
                dest,
                op,
                left: left@,
                right: right@,
            },
            MirInst::UnaryOp { dest, op, operand } => InstModel::UnaryOp { dest, op, operand: operand@ },
            MirInst::Call { dest, name, args } => InstModel::Call {
                dest,
                name: name@,
                args: values_model(args@),
            },
            MirInst::PtrOffset { dest, ptr, index, elem_type } => InstModel::PtrOffset {
                dest,
                ptr,
                index: index@,
                elem_type: (*elem_type)@,
            },
            MirInst::PtrStore { dest, ptr, index, value } => InstModel::PtrStore {
                dest,
                ptr,
                index: index@,
                value: value@,
            },
            MirInst::FieldPtr { dest, ptr, field_index, struct_type } => InstModel::FieldPtr {
                dest,
                ptr,
                field_index,
                struct_type: (*struct_type)@,
            },
            MirInst::ArrayElemPtr { dest, ptr, index, arr_type, elem_type } => InstModel::ArrayElemPtr {
                dest,
                ptr,
                index: index@,
                arr_type: (*arr_type)@,
                elem_type: (*elem_type)@,
            },
            MirInst::Cast { dest, value, to_type } => InstModel::Cast { dest, value: value@, to_type: to_type@ },
            MirInst::Memcpy { dest_ptr_local, src_alloca_local, struct_type } => InstModel::Memcpy {
                dest_ptr_local,
                src_alloca_local,
                struct_type: (*struct_type)@,
            },
            MirInst::FnAddr { dest, name } => InstModel::FnAddr { dest, name: name@ },
            MirInst::AddressOf { dest, local_id } => InstModel::AddressOf { dest, local_id },
            MirInst::CallIndirect { dest, fn_ptr, ret_type, param_types, args } => InstModel::CallIndirect {
                dest,
                fn_ptr,
                ret_type: ret_type@,
                param_types: models(param_types@),
                args: values_model(args@),
            },
            MirInst::SliceMake { dest, ptr, len, elem_type } => InstModel::SliceMake {
                dest,
                ptr: ptr@,
                len: len@,
                elem_type: (*elem_type)@,
            },
            MirInst::AsyncSpawn { dest, function_name, arg } => InstModel::AsyncSpawn {
                dest,
                function_name: function_name@,
                arg: arg@,
            },
            MirInst::AsyncAwait { dest, handle, return_type } => InstModel::AsyncAwait {
                dest,
                handle,
                return_type: return_type@,
            },
        }
    }
}

/// The models of a list of instructions.
pub open spec fn insts_model(insts: Seq<MirInst>) -> Seq<InstModel> {
    insts.map_values(|i: MirInst| i@)
}

} // verus!
