//! Instructions: their opcodes, their operands, and their textual form.
pub mod laws;
pub mod operand_laws;
pub mod text_laws;

use vstd::prelude::*;

use crate::ir::function::basic_block::BasicBlockId;
use crate::ir::function::data::Data;
use crate::ir::function::param_attrs::ParameterAttribute;
use crate::ir::module::attributes::Attribute;
use crate::ir::module::name::Name;
use crate::ir::types::{TypeId, Types};
use crate::ir::value::{ConstantData, ValueId};
use crate::text::{
    chars_into_string, decimal, push_decimal_u32, push_decimal_usize, push_str, push_string,
    trim_separators, trim_separators_after,
};

verus! {

/// Refers to an instruction of a function.
#[derive(Clone, Copy, Debug, PartialEq, Eq, Hash, Structural)]
pub struct InstructionId {
    index: usize,
}

impl InstructionId {
    /// The position that the id designates in its table.
    pub closed spec fn spec_index(&self) -> nat {
        self.index as nat
    }

    /// The id of the entry at position `index`.
    pub fn new(index: usize) -> (id: Self)
        ensures
            id.spec_index() == index,
    {
        InstructionId { index }
    }

    /// The position that the id designates in its table.
    pub fn index(&self) -> (r: usize)
        ensures
            r == self.spec_index(),
    {
        self.index
    }
}

/// An instruction of a basic block.
pub struct Instruction {
    pub opcode: Opcode,
    pub operand: Operand,
    pub dest: Option<Name>,
    pub id: Option<InstructionId>,
    pub parent: BasicBlockId,
}

/// What an instruction does.
#[derive(Clone, Copy, PartialEq, Eq, Structural)]
pub enum Opcode {
    Alloca,
    Phi,
    Load,
    Store,
    InsertValue,
    ExtractValue,
    Add,
    Sub,
    Mul,
    ICmp,
    Sext,
    Zext,
    Bitcast,
    Trunc,
    GetElementPtr,
    Call,
    Invoke,
    LandingPad,
    Resume,
    Br,
    CondBr,
    Ret,
    Invalid,
}

/// The condition of an integer comparison: equality, or an unsigned (`u`)
/// or signed (`s`) ordering.
#[derive(Clone, Copy, Eq, PartialEq, Structural)]
pub enum ICmpCond {
    Eq,
    Ne,
    Ugt,
    Uge,
    Ult,
    Ule,
    Sgt,
    Sge,
    Slt,
    Sle,
}

/// What an instruction operates on, laid out by kind of instruction.
#[derive(Clone)]
pub enum Operand {
    Alloca { tys: [TypeId; 2], num_elements: ConstantData, align: u32 },
    Phi { ty: TypeId, args: Vec<ValueId>, blocks: Vec<BasicBlockId> },
    Load { tys: [TypeId; 2], addr: ValueId, align: u32 },
    IntBinary { ty: TypeId, nsw: bool, nuw: bool, args: [ValueId; 2] },
    Store { tys: [TypeId; 2], args: [ValueId; 2], align: u32 },
    InsertValue { tys: [TypeId; 2], args: Vec<ValueId> },
    ExtractValue { ty: TypeId, args: Vec<ValueId> },
    ICmp { ty: TypeId, args: [ValueId; 2], cond: ICmpCond },
    /// `tys` are the type converted from, then the type converted to.
    Cast { tys: [TypeId; 2], arg: ValueId },
    GetElementPtr { inbounds: bool, tys: Vec<TypeId>, args: Vec<ValueId> },
    /// `args[0]` is the callee and `args[1..]` the arguments; `tys[0]` is the
    /// callee's result type and `tys[1..]` the argument types; `param_attrs[i]`
    /// are the attributes of `args[i + 1]`.
    Call {
        args: Vec<ValueId>,
        tys: Vec<TypeId>,
        param_attrs: Vec<Vec<ParameterAttribute>>,
        ret_attrs: Vec<ParameterAttribute>,
        func_attrs: Vec<Attribute>,
    },
    /// Laid out as `Call`, with the normal and the unwind destinations in `blocks`.
    Invoke {
        args: Vec<ValueId>,
        tys: Vec<TypeId>,
        param_attrs: Vec<Vec<ParameterAttribute>>,
        ret_attrs: Vec<ParameterAttribute>,
        func_attrs: Vec<Attribute>,
        blocks: Vec<BasicBlockId>,
    },
    LandingPad { ty: TypeId },
    Resume { ty: TypeId, arg: ValueId },
    Br { block: BasicBlockId },
    /// `blocks` are the destination if `arg` is true, then if it is false.
    CondBr { arg: ValueId, blocks: [BasicBlockId; 2] },
    Ret { ty: TypeId, val: Option<ValueId> },
    Invalid,
}

impl Opcode {
    /// The placeholder instruction of opcode `self` in block `parent`:
    /// its operand is `Invalid`, and it has neither destination nor id.
    pub open spec fn spec_with_block(self, parent: BasicBlockId) -> Instruction {
        Instruction { opcode: self, operand: Operand::Invalid, dest: None, id: None, parent }
    }

    /// Whether the opcode ends a basic block.
    pub open spec fn spec_is_terminator(self) -> bool {
        self is Ret || self is Br || self is CondBr || self is Invoke || self is Resume
    }

    /// Whether an instruction of this opcode does more than compute a value
    /// from its operands: it touches memory, calls, merges control flow, or
    /// ends a block.
    pub open spec fn spec_has_side_effects(self) -> bool {
        ||| self is Load
        ||| self is Store
        ||| self is Alloca
        ||| self is Phi
        ||| self is Call
        ||| self is Invoke
        ||| self.spec_is_terminator()
    }

    /// The keyword by which the assembly writes the opcode.
    pub open spec fn spec_mnemonic(self) -> Seq<char> {
        match self {
            Opcode::Alloca => "alloca"@,
            Opcode::Phi => "phi"@,
            Opcode::Load => "load"@,
            Opcode::Store => "store"@,
            Opcode::InsertValue => "insertvalue"@,
            Opcode::ExtractValue => "extractvalue"@,
            Opcode::Add => "add"@,
            Opcode::Sub => "sub"@,
            Opcode::Mul => "mul"@,
            Opcode::ICmp => "icmp"@,
            Opcode::Sext => "sext"@,
            Opcode::Zext => "zext"@,
            Opcode::Bitcast => "bitcast"@,
            Opcode::Trunc => "trunc"@,
            Opcode::GetElementPtr => "getelementptr"@,
            Opcode::Call => "call"@,
            Opcode::Invoke => "invoke"@,
            Opcode::LandingPad => "landingpad"@,
            Opcode::Resume => "resume"@,
            Opcode::Br => "br"@,
            Opcode::CondBr => "br"@,
            Opcode::Ret => "ret"@,
            Opcode::Invalid => "INVALID"@,
        }
    }

    /// A placeholder instruction of this opcode in block `parent`, to be
    /// completed with an operand.
    pub fn with_block(self, parent: BasicBlockId) -> (inst: Instruction)
        ensures
            inst == self.spec_with_block(parent),
    {
        Instruction { opcode: self, operand: Operand::Invalid, dest: None, id: None, parent }
    }

    /// Whether the opcode ends a basic block: `ret`, `br`, `invoke` or `resume`.
    pub fn is_terminator(&self) -> (r: bool)
        ensures
            r == self.spec_is_terminator(),
    {
        matches!(self, Self::Ret | Self::Br | Self::CondBr | Self::Invoke | Self::Resume)
    }

    /// Whether the opcode is `load`.
    pub fn is_load(&self) -> (r: bool)
        ensures
            r == (*self == Opcode::Load),
    {
        *self == Self::Load
    }

    /// Whether the opcode is `store`.
    pub fn is_store(&self) -> (r: bool)
        ensures
            r == (*self == Opcode::Store),
    {
        *self == Self::Store
    }

    /// Whether the opcode is `alloca`.
    pub fn is_alloca(&self) -> (r: bool)
        ensures
            r == (*self == Opcode::Alloca),
    {
        *self == Self::Alloca
    }

    /// Whether the opcode is `phi`.
    pub fn is_phi(&self) -> (r: bool)
        ensures
            r == (*self == Opcode::Phi),
    {
        *self == Self::Phi
    }

    /// Whether the opcode is `call`.
    pub fn is_call(&self) -> (r: bool)
        ensures
            r == (*self == Opcode::Call),
    {
        *self == Self::Call
    }

    /// Whether the opcode is `invoke`.
    pub fn is_invoke(&self) -> (r: bool)
        ensures
            r == (*self == Opcode::Invoke),
    {
        *self == Self::Invoke
    }

    /// Whether an instruction of this opcode has effects beyond its result:
    /// loads, stores, allocas, phis, calls, invokes and terminators.
    pub fn has_side_effects(&self) -> (r: bool)
        ensures
            r == self.spec_has_side_effects(),
    {
        self.is_load() || self.is_store() || self.is_alloca() || self.is_phi() || self.is_call()
            || self.is_invoke() || self.is_terminator()
    }

    /// The keyword by which the assembly writes the opcode (`br` for both
    /// branches, `INVALID` for the placeholder).
    pub fn mnemonic(&self) -> (s: &'static str)
        ensures
            s@ == self.spec_mnemonic(),
    {
        match self {
            Opcode::Alloca => "alloca",
            Opcode::Phi => "phi",
            Opcode::Load => "load",
            Opcode::Store => "store",
            Opcode::InsertValue => "insertvalue",
            Opcode::ExtractValue => "extractvalue",
            Opcode::Add => "add",
            Opcode::Sub => "sub",
            Opcode::Mul => "mul",
            Opcode::ICmp => "icmp",
            Opcode::Sext => "sext",
            Opcode::Zext => "zext",
            Opcode::Bitcast => "bitcast",
            Opcode::Trunc => "trunc",
            Opcode::GetElementPtr => "getelementptr",
            Opcode::Call => "call",
            Opcode::Invoke => "invoke",
            Opcode::LandingPad => "landingpad",
            Opcode::Resume => "resume",
            Opcode::Br | Opcode::CondBr => "br",
            Opcode::Ret => "ret",
            Opcode::Invalid => "INVALID",
        }
    }
}

impl ICmpCond {
    /// The keyword by which the assembly writes the condition.
    pub open spec fn spec_mnemonic(self) -> Seq<char> {
        match self {
            ICmpCond::Eq => "eq"@,
            ICmpCond::Ne => "ne"@,
            ICmpCond::Ugt => "ugt"@,
            ICmpCond::Uge => "uge"@,
            ICmpCond::Ult => "ult"@,
            ICmpCond::Ule => "ule"@,
            ICmpCond::Sgt => "sgt"@,
            ICmpCond::Sge => "sge"@,
            ICmpCond::Slt => "slt"@,
            ICmpCond::Sle => "sle"@,
        }
    }

    /// The keyword by which the assembly writes the condition.
    pub fn mnemonic(&self) -> (s: &'static str)
        ensures
            s@ == self.spec_mnemonic(),
    {
        match self {
            ICmpCond::Eq => "eq",
            ICmpCond::Ne => "ne",
            ICmpCond::Ugt => "ugt",
            ICmpCond::Uge => "uge",
            ICmpCond::Ult => "ult",
            ICmpCond::Ule => "ule",
            ICmpCond::Sgt => "sgt",
            ICmpCond::Sge => "sge",
            ICmpCond::Slt => "slt",
            ICmpCond::Sle => "sle",
        }
    }
}

/// The slice of length one that holds `*x`.
///
/// Calls `core::slice::from_ref`, which std documents as converting a
/// reference to `T` into a slice of length 1 without copying; the contract
/// states that the slice holds exactly `*x`.
#[verifier::external_body]
fn slice_of_one<'a, T>(x: &'a T) -> (r: &'a [T])
    ensures
        r@ == seq![*x],
{
    core::slice::from_ref(x)
}

impl Operand {
    /// The values that the operand reads, in order: for a call or an invoke
    /// the callee first, then the arguments.
    pub open spec fn spec_args(&self) -> Seq<ValueId> {
        match self {
            Operand::Alloca { .. } => seq![],
            Operand::Phi { args, .. } => args@,
            Operand::Ret { val, .. } => match val {
                Some(v) => seq![*v],
                None => seq![],
            },
            Operand::Load { addr, .. } => seq![*addr],
            Operand::Store { args, .. } => args@,
            Operand::InsertValue { args, .. } => args@,
            Operand::ExtractValue { args, .. } => args@,
            Operand::IntBinary { args, .. } => args@,
            Operand::ICmp { args, .. } => args@,
            Operand::Cast { arg, .. } => seq![*arg],
            Operand::GetElementPtr { args, .. } => args@,
            Operand::Call { args, .. } => args@,
            Operand::Invoke { args, .. } => args@,
            Operand::LandingPad { .. } => seq![],
            Operand::Resume { arg, .. } => seq![*arg],
            Operand::Br { .. } => seq![],
            Operand::CondBr { arg, .. } => seq![*arg],
            Operand::Invalid => seq![],
        }
    }

    /// The types that the operand records. A store records none: the types
    /// of its value and address stay with its value ids.
    pub open spec fn spec_types(&self) -> Seq<TypeId> {
        match self {
            Operand::Alloca { tys, .. } => tys@,
            Operand::Phi { ty, .. } => seq![*ty],
            Operand::Ret { ty, .. } => seq![*ty],
            Operand::Load { tys, .. } => tys@,
            Operand::Store { .. } => seq![],
            Operand::InsertValue { tys, .. } => tys@,
            Operand::ExtractValue { ty, .. } => seq![*ty],
            Operand::IntBinary { ty, .. } => seq![*ty],
            Operand::ICmp { ty, .. } => seq![*ty],
            Operand::Cast { tys, .. } => tys@,
            Operand::GetElementPtr { tys, .. } => tys@,
            Operand::Call { tys, .. } => tys@,
            Operand::Invoke { tys, .. } => tys@,
            Operand::LandingPad { ty } => seq![*ty],
            Operand::Resume { ty, .. } => seq![*ty],
            Operand::Br { .. } => seq![],
            Operand::CondBr { .. } => seq![],
            Operand::Invalid => seq![],
        }
    }

    /// The basic blocks that the operand names: the incoming blocks of a
    /// phi, the destinations of a branch or an invoke.
    pub open spec fn spec_blocks(&self) -> Seq<BasicBlockId> {
        match self {
            Operand::Phi { blocks, .. } => blocks@,
            Operand::Br { block } => seq![*block],
            Operand::CondBr { blocks, .. } => blocks@,
            Operand::Invoke { blocks, .. } => blocks@,
            _ => seq![],
        }
    }

    /// Whether the operand is that of a call or an invoke.
    pub open spec fn is_call_like(&self) -> bool {
        self is Call || self is Invoke
    }

    /// The result type of a call or an invoke: the first of its types.
    pub open spec fn spec_call_result_ty(&self) -> Option<TypeId> {
        if self.is_call_like() {
            Some(self.spec_types()[0])
        } else {
            None
        }
    }

    /// The values that the operand reads, in order.
    pub fn args(&self) -> (r: &[ValueId])
        ensures
            r@ == self.spec_args(),
    {
        match self {
            Self::Alloca { .. } => &[],
            Self::Phi { args, .. } => args.as_slice(),
            Self::Ret { val, .. } => match val {
                Some(v) => slice_of_one(v),
                None => &[],
            },
            Self::Load { addr, .. } => slice_of_one(addr),
            Self::Store { args, .. } => args.as_slice(),
            Self::InsertValue { args, .. } => args.as_slice(),
            Self::ExtractValue { args, .. } => args.as_slice(),
            Self::IntBinary { args, .. } => args.as_slice(),
            Self::ICmp { args, .. } => args.as_slice(),
            Self::Cast { arg, .. } => slice_of_one(arg),
            Self::GetElementPtr { args, .. } => args.as_slice(),
            Self::Call { args, .. } | Self::Invoke { args, .. } => args.as_slice(),
            Self::LandingPad { .. } => &[],
            Self::Resume { arg, .. } => slice_of_one(arg),
            Self::Br { .. } => &[],
            Self::CondBr { arg, .. } => slice_of_one(arg),
            Self::Invalid => &[],
        }
    }

    /// The types that the operand records, in order.
    pub fn types(&self) -> (r: &[TypeId])
        ensures
            r@ == self.spec_types(),
    {
        match self {
            Self::Alloca { tys, .. } => tys.as_slice(),
            Self::Phi { ty, .. } => slice_of_one(ty),
            Self::Ret { ty, .. } => slice_of_one(ty),
            Self::Load { tys, .. } => tys.as_slice(),
            Self::Store { .. } => &[],
            Self::InsertValue { tys, .. } => tys.as_slice(),
            Self::ExtractValue { ty, .. } => slice_of_one(ty),
            Self::IntBinary { ty, .. } => slice_of_one(ty),
            Self::ICmp { ty, .. } => slice_of_one(ty),
            Self::Cast { tys, .. } => tys.as_slice(),
            Self::GetElementPtr { tys, .. } => tys.as_slice(),
            Self::Call { tys, .. } | Self::Invoke { tys, .. } => tys.as_slice(),
            Self::LandingPad { ty } => slice_of_one(ty),
            Self::Resume { ty, .. } => slice_of_one(ty),
            Self::Br { .. } => &[],
            Self::CondBr { .. } => &[],
            Self::Invalid => &[],
        }
    }

    /// The basic blocks that the operand names, in order.
    pub fn blocks(&self) -> (r: &[BasicBlockId])
        ensures
            r@ == self.spec_blocks(),
    {
        match self {
            Self::Phi { blocks, .. } => blocks.as_slice(),
            Self::Br { block } => slice_of_one(block),
            Self::CondBr { blocks, .. } => blocks.as_slice(),
            Self::Invoke { blocks, .. } => blocks.as_slice(),
            _ => &[],
        }
    }

    /// The result type of a call or an invoke; `None` for any other operand.
    pub fn call_result_ty(&self) -> (r: Option<TypeId>)
        requires
            self.is_call_like() ==> self.spec_types().len() > 0,
        ensures
            r == self.spec_call_result_ty(),
    {
        match self {
            Self::Call { tys, .. } | Self::Invoke { tys, .. } => Some(tys[0]),
            _ => None,
        }
    }
}

/// `%I{n}`: how the assembly refers to the result of the instruction of index `n`.
pub open spec fn instruction_ref(id: InstructionId) -> Seq<char> {
    "%I"@ + decimal(id.spec_index())
}

/// `%B{n}`: how the assembly refers to the basic block of index `n`.
pub open spec fn block_ref(block: BasicBlockId) -> Seq<char> {
    "%B"@ + decimal(block.spec_index())
}

/// The smaller of `a` and `b`: how many pairs zipping two lists yields.
pub open spec fn min_len(a: nat, b: nat) -> nat {
    if a < b { a } else { b }
}

/// The first `n` incoming pairs of a phi, each written `[value, %Bn], `.
pub open spec fn phi_entries(
    args: Seq<ValueId>,
    blocks: Seq<BasicBlockId>,
    data: &Data,
    n: nat,
) -> Seq<char>
    decreases n,
{
    if n == 0 {
        seq![]
    } else {
        phi_entries(args, blocks, data, (n - 1) as nat) + "["@ + data.spec_text(args[n - 1])
            + ", "@ + block_ref(blocks[n - 1]) + "], "@
    }
}

/// The first `n` typed values, each written `type value, `.
pub open spec fn typed_entries(
    tys: Seq<TypeId>,
    args: Seq<ValueId>,
    data: &Data,
    types: &Types,
    n: nat,
) -> Seq<char>
    decreases n,
{
    if n == 0 {
        seq![]
    } else {
        typed_entries(tys, args, data, types, (n - 1) as nat) + types.spec_text(tys[n - 1]) + " "@
            + data.spec_text(args[n - 1]) + ", "@
    }
}

/// The pairs of `tys` and `args` that zipping them yields designate
/// entries of `types` and `data`.
pub open spec fn typed_entries_defined(
    tys: Seq<TypeId>,
    args: Seq<ValueId>,
    data: &Data,
    types: &Types,
) -> bool {
    forall|i: int|
        0 <= i < min_len(tys.len(), args.len()) ==> types.contains(#[trigger] tys[i])
            && data.contains(args[i])
}

/// Appends `text` if `cond` holds.
fn push_str_if(out: &mut Vec<char>, cond: bool, text: &str)
    ensures
        final(out)@ == old(out)@ + (if cond { text@ } else { seq![] }),
{
    if cond {
        push_str(out, text);
    } else {
        assert(out@ =~= out@ + seq![]);
    }
}

fn push_instruction_ref(out: &mut Vec<char>, id: InstructionId)
    ensures
        final(out)@ == old(out)@ + instruction_ref(id),
{
    push_str(out, "%I");
    push_decimal_usize(out, id.index());
    assert(out@ =~= old(out)@ + instruction_ref(id));
}

fn push_block_ref(out: &mut Vec<char>, block: BasicBlockId)
    ensures
        final(out)@ == old(out)@ + block_ref(block),
{
    push_str(out, "%B");
    push_decimal_usize(out, block.index());
    assert(out@ =~= old(out)@ + block_ref(block));
}

fn push_type(out: &mut Vec<char>, types: &Types, ty: TypeId)
    requires
        types.contains(ty),
    ensures
        final(out)@ == old(out)@ + types.spec_text(ty),
{
    push_string(out, &types.to_string(ty));
}

fn push_value(out: &mut Vec<char>, data: &Data, v: ValueId)
    requires
        data.contains(v),
    ensures
        final(out)@ == old(out)@ + data.spec_text(v),
{
    push_string(out, &data.value_text(v));
}

/// Appends the incoming pairs of a phi, separated by `", "`.
fn push_phi_entries(
    out: &mut Vec<char>,
    args: &Vec<ValueId>,
    blocks: &Vec<BasicBlockId>,
    data: &Data,
)
    requires
        forall|i: int|
            0 <= i < min_len(args@.len(), blocks@.len()) ==> data.contains(#[trigger] args@[i]),
    ensures
        final(out)@ == old(out)@ + trim_separators(
            phi_entries(args@, blocks@, data, min_len(args@.len(), blocks@.len())),
        ),
{
    let start = out.len();
    let n = if args.len() < blocks.len() {
        args.len()
    } else {
        blocks.len()
    };
    let mut i: usize = 0;
    while i < n
        invariant
            n == min_len(args@.len(), blocks@.len()),
            i <= n,
            start == old(out)@.len(),
            out@ == old(out)@ + phi_entries(args@, blocks@, data, i as nat),
            forall|i: int|
                0 <= i < min_len(args@.len(), blocks@.len()) ==> data.contains(
                    #[trigger] args@[i],
                ),
        decreases n - i,
    {
        let ghost before = out@;
        push_str(out, "[");
        push_value(out, data, args[i]);
        push_str(out, ", ");
        push_block_ref(out, blocks[i]);
        push_str(out, "], ");
        i = i + 1;
        assert(out@ =~= old(out)@ + phi_entries(args@, blocks@, data, i as nat));
    }
    assert(out@.subrange(0, start as int) =~= old(out)@);
    assert(out@.subrange(start as int, out@.len() as int) =~= phi_entries(
        args@,
        blocks@,
        data,
        n as nat,
    ));
    trim_separators_after(out, start);
}

/// Appends the pairs of `tys[tys_from..]` and `args[args_from..]`,
/// each written `type value`, separated by `", "`.
fn push_typed_entries(
    out: &mut Vec<char>,
    tys: &Vec<TypeId>,
    tys_from: usize,
    args: &Vec<ValueId>,
    args_from: usize,
    data: &Data,
    types: &Types,
)
    requires
        tys_from <= tys@.len(),
        args_from <= args@.len(),
        typed_entries_defined(tys@.skip(tys_from as int), args@.skip(args_from as int), data, types),
    ensures
        final(out)@ == old(out)@ + trim_separators(
            typed_entries(
                tys@.skip(tys_from as int),
                args@.skip(args_from as int),
                data,
                types,
                min_len(
                    tys@.skip(tys_from as int).len(),
                    args@.skip(args_from as int).len(),
                ),
            ),
        ),
{
    let ghost ts = tys@.skip(tys_from as int);
    let ghost vs = args@.skip(args_from as int);
    let start = out.len();
    let tys_len = tys.len();
    let args_len = args.len();
    let n = if tys.len() - tys_from < args.len() - args_from {
        tys.len() - tys_from
    } else {
        args.len() - args_from
    };
    let mut i: usize = 0;
    while i < n
        invariant
            ts == tys@.skip(tys_from as int),
            vs == args@.skip(args_from as int),
            tys_from <= tys@.len(),
            args_from <= args@.len(),
            n == min_len(ts.len(), vs.len()),
            tys_len == tys@.len(),
            args_len == args@.len(),
            n <= tys_len - tys_from,
            n <= args_len - args_from,
            i <= n,
            start == old(out)@.len(),
            out@ == old(out)@ + typed_entries(ts, vs, data, types, i as nat),
            typed_entries_defined(ts, vs, data, types),
        decreases n - i,
    {
        assert(ts[i as int] == tys@[tys_from + i]);
        assert(vs[i as int] == args@[args_from + i]);
        push_type(out, types, tys[tys_from + i]);
        push_str(out, " ");
        push_value(out, data, args[args_from + i]);
        push_str(out, ", ");
        i = i + 1;
        assert(out@ =~= old(out)@ + typed_entries(ts, vs, data, types, i as nat));
    }
    assert(out@.subrange(0, start as int) =~= old(out)@);
    assert(out@.subrange(start as int, out@.len() as int) =~= typed_entries(
        ts,
        vs,
        data,
        types,
        n as nat,
    ));
    trim_separators_after(out, start);
}

impl Instruction {
    /// `self` with everything but its id taken from `other`.
    pub open spec fn spec_replaced(self, other: Instruction) -> Instruction {
        Instruction {
            opcode: other.opcode,
            operand: other.operand,
            dest: other.dest,
            id: self.id,
            parent: other.parent,
        }
    }

    /// `self` with its operand set to `operand`.
    pub open spec fn spec_with_operand(self, operand: Operand) -> Instruction {
        Instruction { operand, ..self }
    }

    /// `self` with its destination set to `dest`.
    pub open spec fn spec_with_dest(self, dest: Name) -> Instruction {
        Instruction { dest: Some(dest), ..self }
    }

    /// Fills a placeholder (an instruction of opcode `Invalid`) with
    /// `other`, keeping the placeholder's id.
    pub fn replace(&mut self, other: Self)
        requires
            old(self).opcode == Opcode::Invalid,
        ensures
            *final(self) == (*old(self)).spec_replaced(other),
    {
        self.opcode = other.opcode;
        self.operand = other.operand;
        self.dest = other.dest;
        self.parent = other.parent;
    }

    /// The instruction with its operand set to `operand`.
    pub fn with_operand(self, operand: Operand) -> (inst: Self)
        ensures
            inst == self.spec_with_operand(operand),
    {
        let mut inst = self;
        inst.operand = operand;
        inst
    }

    /// The instruction with its destination set to `dest`.
    pub fn with_dest(self, dest: Name) -> (inst: Self)
        ensures
            inst == self.spec_with_dest(dest),
    {
        let mut inst = self;
        inst.dest = Some(dest);
        inst
    }
}

impl Instruction {
    /// Whether the instruction can be written out: its operand is of a kind
    /// that has a textual form here, it has an id where its text names its
    /// result, and every type and value its text mentions is in `types` and
    /// `data`.
    pub open spec fn printable(&self, data: &Data, types: &Types) -> bool {
        match self.operand {
            Operand::Alloca { tys, .. } => {
                &&& self.id is Some
                &&& types.contains(tys@[0])
                &&& types.contains(tys@[1])
            },
            Operand::Phi { ty, args, blocks } => {
                &&& self.id is Some
                &&& types.contains(ty)
                &&& forall|i: int|
                    0 <= i < min_len(args@.len(), blocks@.len()) ==> data.contains(
                        #[trigger] args@[i],
                    )
            },
            Operand::Load { tys, addr, .. } => {
                &&& self.id is Some
                &&& types.contains(tys@[0])
                &&& types.contains(tys@[1])
                &&& data.contains(addr)
            },
            Operand::Store { tys, args, .. } => {
                &&& types.contains(tys@[0])
                &&& types.contains(tys@[1])
                &&& data.contains(args@[0])
                &&& data.contains(args@[1])
            },
            Operand::IntBinary { ty, args, .. } => {
                &&& self.id is Some
                &&& types.contains(ty)
                &&& data.contains(args@[0])
                &&& data.contains(args@[1])
            },
            Operand::ICmp { ty, args, .. } => {
                &&& self.id is Some
                &&& types.contains(ty)
                &&& data.contains(args@[0])
                &&& data.contains(args@[1])
            },
            Operand::Cast { tys, arg } => {
                &&& self.id is Some
                &&& types.contains(tys@[0])
                &&& types.contains(tys@[1])
                &&& data.contains(arg)
            },
            Operand::GetElementPtr { tys, args, .. } => {
                &&& self.id is Some
                &&& tys@.len() >= 1
                &&& types.contains(tys@[0])
                &&& typed_entries_defined(tys@.skip(1), args@, data, types)
            },
            Operand::Call { tys, args, .. } => {
                &&& self.id is Some
                &&& tys@.len() >= 1
                &&& args@.len() >= 1
                &&& types.contains(tys@[0])
                &&& data.contains(args@[0])
                &&& typed_entries_defined(tys@.skip(1), args@.skip(1), data, types)
            },
            Operand::Br { .. } => true,
            Operand::CondBr { arg, .. } => data.contains(arg),
            Operand::Ret { ty, val } => match val {
                Some(v) => types.contains(ty) && data.contains(v),
                None => true,
            },
            _ => false,
        }
    }

    /// The assembly text of the instruction. An instruction that yields a
    /// value is written as an assignment to `%I{index}` of its id.
    pub open spec fn spec_text(&self, data: &Data, types: &Types) -> Seq<char> {
        match self.operand {
            Operand::Alloca { tys, num_elements, align } => instruction_ref(self.id.unwrap())
                + " = alloca "@ + types.spec_text(tys@[0]) + ", "@ + types.spec_text(tys@[1]) + " "@
                + num_elements@ + ", align "@ + decimal(align as nat),
            Operand::Phi { ty, args, blocks } => instruction_ref(self.id.unwrap()) + " = phi "@
                + types.spec_text(ty) + " "@ + trim_separators(
                phi_entries(args@, blocks@, data, min_len(args@.len(), blocks@.len())),
            ),
            Operand::Load { tys, addr, align } => instruction_ref(self.id.unwrap()) + " = load "@
                + types.spec_text(tys@[0]) + ", "@ + types.spec_text(tys@[1]) + " "@
                + data.spec_text(addr) + ", align "@ + decimal(align as nat),
            Operand::Store { tys, args, align } => "store "@ + types.spec_text(tys@[0]) + " "@
                + data.spec_text(args@[0]) + ", "@ + types.spec_text(tys@[1]) + " "@
                + data.spec_text(args@[1]) + ", align "@ + decimal(align as nat),
            Operand::IntBinary { ty, nsw, nuw, args } => instruction_ref(self.id.unwrap())
                + " = "@ + self.opcode.spec_mnemonic() + (if nuw {
                " nuw"@
            } else {
                seq![]
            }) + (if nsw {
                " nsw"@
            } else {
                seq![]
            }) + " "@ + types.spec_text(ty) + " "@ + data.spec_text(args@[0]) + ", "@
                + data.spec_text(args@[1]),
            Operand::ICmp { ty, args, cond } => instruction_ref(self.id.unwrap()) + " = icmp "@
                + cond.spec_mnemonic() + " "@ + types.spec_text(ty) + " "@ + data.spec_text(
                args@[0],
            ) + ", "@ + data.spec_text(args@[1]),
            Operand::Cast { tys, arg } => instruction_ref(self.id.unwrap()) + " = "@
                + self.opcode.spec_mnemonic() + " "@ + types.spec_text(tys@[0]) + " "@
                + data.spec_text(arg) + " to "@ + types.spec_text(tys@[1]),
            Operand::GetElementPtr { inbounds, tys, args } => instruction_ref(self.id.unwrap())
                + " = getelementptr "@ + (if inbounds {
                "inbounds "@
            } else {
                seq![]
            }) + types.spec_text(tys@[0]) + ", "@ + trim_separators(
                typed_entries(
                    tys@.skip(1),
                    args@,
                    data,
                    types,
                    min_len(tys@.skip(1).len(), args@.len()),
                ),
            ),
            Operand::Call { tys, args, .. } => instruction_ref(self.id.unwrap()) + " = call "@
                + types.spec_text(tys@[0]) + " "@ + data.spec_text(args@[0]) + "("@
                + trim_separators(
                typed_entries(
                    tys@.skip(1),
                    args@.skip(1),
                    data,
                    types,
                    min_len(tys@.skip(1).len(), args@.skip(1).len()),
                ),
            ) + ")"@,
            Operand::Br { block } => "br label "@ + block_ref(block),
            Operand::CondBr { arg, blocks } => "br i1 "@ + data.spec_text(arg) + ", label "@
                + block_ref(blocks@[0]) + ", label "@ + block_ref(blocks@[1]),
            Operand::Ret { ty, val } => match val {
                Some(v) => "ret "@ + types.spec_text(ty) + " "@ + data.spec_text(v),
                None => "ret void"@,
            },
            _ => seq![],
        }
    }

    /// The assembly text of the instruction, with types and values written
    /// as `types` and `data` hold them.
    pub fn to_string(&self, data: &Data, types: &Types) -> (s: String)
        requires
            self.printable(data, types),
        ensures
            s@ == self.spec_text(data, types),
    {
        let mut out: Vec<char> = Vec::new();
        match &self.operand {
            Operand::Alloca { tys, num_elements, align } => {
                push_instruction_ref(&mut out, self.id.unwrap());
                push_str(&mut out, " = alloca ");
                push_type(&mut out, types, tys[0]);
                push_str(&mut out, ", ");
                push_type(&mut out, types, tys[1]);
                push_str(&mut out, " ");
                push_string(&mut out, &num_elements.to_string());
                push_str(&mut out, ", align ");
                push_decimal_u32(&mut out, *align);
            },
            Operand::Phi { ty, args, blocks } => {
                push_instruction_ref(&mut out, self.id.unwrap());
                push_str(&mut out, " = phi ");
                push_type(&mut out, types, *ty);
                push_str(&mut out, " ");
                push_phi_entries(&mut out, args, blocks, data);
            },
            Operand::Load { tys, addr, align } => {
                push_instruction_ref(&mut out, self.id.unwrap());
                push_str(&mut out, " = load ");
                push_type(&mut out, types, tys[0]);
                push_str(&mut out, ", ");
                push_type(&mut out, types, tys[1]);
                push_str(&mut out, " ");
                push_value(&mut out, data, *addr);
                push_str(&mut out, ", align ");
                push_decimal_u32(&mut out, *align);
            },
            Operand::Store { tys, args, align } => {
                push_str(&mut out, "store ");
                push_type(&mut out, types, tys[0]);
                push_str(&mut out, " ");
                push_value(&mut out, data, args[0]);
                push_str(&mut out, ", ");
                push_type(&mut out, types, tys[1]);
                push_str(&mut out, " ");
                push_value(&mut out, data, args[1]);
                push_str(&mut out, ", align ");
                push_decimal_u32(&mut out, *align);
            },
            Operand::IntBinary { ty, nuw, nsw, args } => {
                push_instruction_ref(&mut out, self.id.unwrap());
                push_str(&mut out, " = ");
                push_str(&mut out, self.opcode.mnemonic());
                push_str_if(&mut out, *nuw, " nuw");
                push_str_if(&mut out, *nsw, " nsw");
                push_str(&mut out, " ");
                push_type(&mut out, types, *ty);
                push_str(&mut out, " ");
                push_value(&mut out, data, args[0]);
                push_str(&mut out, ", ");
                push_value(&mut out, data, args[1]);
            },
            Operand::ICmp { ty, args, cond } => {
                push_instruction_ref(&mut out, self.id.unwrap());
                push_str(&mut out, " = icmp ");
                push_str(&mut out, cond.mnemonic());
                push_str(&mut out, " ");
                push_type(&mut out, types, *ty);
                push_str(&mut out, " ");
                push_value(&mut out, data, args[0]);
                push_str(&mut out, ", ");
                push_value(&mut out, data, args[1]);
            },
            Operand::Cast { tys, arg } => {
                push_instruction_ref(&mut out, self.id.unwrap());
                push_str(&mut out, " = ");
                push_str(&mut out, self.opcode.mnemonic());
                push_str(&mut out, " ");
                push_type(&mut out, types, tys[0]);
                push_str(&mut out, " ");
                push_value(&mut out, data, *arg);
                push_str(&mut out, " to ");
                push_type(&mut out, types, tys[1]);
            },
            Operand::GetElementPtr { inbounds, tys, args } => {
                push_instruction_ref(&mut out, self.id.unwrap());
                push_str(&mut out, " = getelementptr ");
                push_str_if(&mut out, *inbounds, "inbounds ");
                push_type(&mut out, types, tys[0]);
                push_str(&mut out, ", ");
                push_typed_entries(&mut out, tys, 1, args, 0, data, types);
                assert(args@.skip(0) =~= args@);
            },
            Operand::Call { tys, args, .. } => {
                push_instruction_ref(&mut out, self.id.unwrap());
                push_str(&mut out, " = call ");
                push_type(&mut out, types, tys[0]);
                push_str(&mut out, " ");
                push_value(&mut out, data, args[0]);
                push_str(&mut out, "(");
                push_typed_entries(&mut out, tys, 1, args, 1, data, types);
                push_str(&mut out, ")");
            },
            Operand::Br { block } => {
                push_str(&mut out, "br label ");
                push_block_ref(&mut out, *block);
            },
            Operand::CondBr { arg, blocks } => {
                push_str(&mut out, "br i1 ");
                push_value(&mut out, data, *arg);
                push_str(&mut out, ", label ");
                push_block_ref(&mut out, blocks[0]);
                push_str(&mut out, ", label ");
                push_block_ref(&mut out, blocks[1]);
            },
            Operand::Ret { ty, val } => match val {
                Some(v) => {
                    push_str(&mut out, "ret ");
                    push_type(&mut out, types, *ty);
                    push_str(&mut out, " ");
                    push_value(&mut out, data, *v);
                },
                None => {
                    push_str(&mut out, "ret void");
                },
            },
            _ => {},
        }
        assert(out@ =~= self.spec_text(data, types));
        chars_into_string(out)
    }
}

} // verus!
