//! The assembly text of each kind of instruction, stated on its fields.
use vstd::prelude::*;

use crate::ir::function::basic_block::BasicBlockId;
use crate::ir::function::data::Data;
use crate::ir::function::instruction::{
    phi_entries, typed_entries, typed_entries_defined, ICmpCond, Instruction, InstructionId,
    Opcode, Operand, min_len,
};
use crate::ir::types::{TypeId, Types};
use crate::ir::value::{ConstantData, ValueId};
use crate::text::{decimal, trim_separators};

verus! {

/// `alloca`: the allocated type `tys[0]` right after the keyword, then the
/// type `tys[1]` of the element count, the count, and the alignment.
pub proof fn lemma_alloca_text(
    inst: Instruction,
    id: InstructionId,
    tys: [TypeId; 2],
    num_elements: ConstantData,
    align: u32,
    data: &Data,
    types: &Types,
)
    requires
        inst.id == Some(id),
        inst.operand == (Operand::Alloca { tys, num_elements, align }),
    ensures
        inst.spec_text(data, types) == "%I"@ + decimal(id.spec_index()) + " = alloca "@
            + types@[tys[0].spec_index() as int] + ", "@ + types@[tys[1].spec_index() as int]
            + " "@ + num_elements@ + ", align "@ + decimal(align as nat),
{
}

/// `load`: the loaded type `tys[0]`, then the address type `tys[1]`, the
/// address, and the alignment.
pub proof fn lemma_load_text(
    inst: Instruction,
    id: InstructionId,
    tys: [TypeId; 2],
    addr: ValueId,
    align: u32,
    data: &Data,
    types: &Types,
)
    requires
        inst.id == Some(id),
        inst.operand == (Operand::Load { tys, addr, align }),
    ensures
        inst.spec_text(data, types) == "%I"@ + decimal(id.spec_index()) + " = load "@
            + types@[tys[0].spec_index() as int] + ", "@ + types@[tys[1].spec_index() as int]
            + " "@ + data@[addr.spec_index() as int] + ", align "@ + decimal(align as nat),
{
}

/// `store`: the stored value `args[0]` with its type `tys[0]`, then the
/// address `args[1]` with its type `tys[1]`, and the alignment; a store
/// names no result.
pub proof fn lemma_store_text(
    inst: Instruction,
    tys: [TypeId; 2],
    args: [ValueId; 2],
    align: u32,
    data: &Data,
    types: &Types,
)
    requires
        inst.operand == (Operand::Store { tys, args, align }),
    ensures
        inst.spec_text(data, types) == "store "@ + types@[tys[0].spec_index() as int] + " "@
            + data@[args[0].spec_index() as int] + ", "@ + types@[tys[1].spec_index() as int]
            + " "@ + data@[args[1].spec_index() as int] + ", align "@ + decimal(align as nat),
{
}

/// Integer binary operations: the opcode's keyword, ` nuw` if the
/// operation wraps no unsigned value, then ` nsw` if it wraps no signed
/// one, the type, and both operands in order.
pub proof fn lemma_int_binary_text(
    inst: Instruction,
    id: InstructionId,
    ty: TypeId,
    nsw: bool,
    nuw: bool,
    args: [ValueId; 2],
    data: &Data,
    types: &Types,
)
    requires
        inst.id == Some(id),
        inst.operand == (Operand::IntBinary { ty, nsw, nuw, args }),
    ensures
        inst.spec_text(data, types) == "%I"@ + decimal(id.spec_index()) + " = "@
            + inst.opcode.spec_mnemonic() + (if nuw {
            " nuw"@
        } else {
            seq![]
        }) + (if nsw {
            " nsw"@
        } else {
            seq![]
        }) + " "@ + types@[ty.spec_index() as int] + " "@ + data@[args[0].spec_index() as int]
            + ", "@ + data@[args[1].spec_index() as int],
{
}

/// `icmp`: the condition's keyword, the type, and both operands in order.
pub proof fn lemma_integer_compare_text(
    inst: Instruction,
    id: InstructionId,
    ty: TypeId,
    args: [ValueId; 2],
    cond: ICmpCond,
    data: &Data,
    types: &Types,
)
    requires
        inst.id == Some(id),
        inst.operand == (Operand::ICmp { ty, args, cond }),
    ensures
        inst.spec_text(data, types) == "%I"@ + decimal(id.spec_index()) + " = icmp "@
            + cond.spec_mnemonic() + " "@ + types@[ty.spec_index() as int] + " "@
            + data@[args[0].spec_index() as int] + ", "@ + data@[args[1].spec_index() as int],
{
}

/// Casts: the opcode's keyword, the source type `tys[0]` and the value,
/// then `to` and the target type `tys[1]`.
pub proof fn lemma_cast_text(
    inst: Instruction,
    id: InstructionId,
    tys: [TypeId; 2],
    arg: ValueId,
    data: &Data,
    types: &Types,
)
    requires
        inst.id == Some(id),
        inst.operand == (Operand::Cast { tys, arg }),
    ensures
        inst.spec_text(data, types) == "%I"@ + decimal(id.spec_index()) + " = "@
            + inst.opcode.spec_mnemonic() + " "@ + types@[tys[0].spec_index() as int] + " "@
            + data@[arg.spec_index() as int] + " to "@ + types@[tys[1].spec_index() as int],
{
}

/// `phi`: the type, then the incoming pairs, trimmed of trailing separators.
pub proof fn lemma_phi_text(
    inst: Instruction,
    id: InstructionId,
    ty: TypeId,
    args: Vec<ValueId>,
    blocks: Vec<BasicBlockId>,
    data: &Data,
    types: &Types,
)
    requires
        inst.id == Some(id),
        inst.operand == (Operand::Phi { ty, args, blocks }),
    ensures
        inst.spec_text(data, types) == "%I"@ + decimal(id.spec_index()) + " = phi "@
            + types@[ty.spec_index() as int] + " "@ + trim_separators(
            phi_entries(args@, blocks@, data, min_len(args@.len(), blocks@.len())),
        ),
{
}

/// `getelementptr`: `inbounds ` if set, the base type `tys[0]`, then the
/// pairs of the remaining types with the values, trimmed of trailing
/// separators.
pub proof fn lemma_getelementptr_text(
    inst: Instruction,
    id: InstructionId,
    inbounds: bool,
    tys: Vec<TypeId>,
    args: Vec<ValueId>,
    data: &Data,
    types: &Types,
)
    requires
        inst.id == Some(id),
        inst.operand == (Operand::GetElementPtr { inbounds, tys, args }),
        tys@.len() >= 1,
    ensures
        inst.spec_text(data, types) == "%I"@ + decimal(id.spec_index()) + " = getelementptr "@
            + (if inbounds {
            "inbounds "@
        } else {
            seq![]
        }) + types@[tys@[0].spec_index() as int] + ", "@ + trim_separators(
            typed_entries(
                tys@.skip(1),
                args@,
                data,
                types,
                min_len((tys@.len() - 1) as nat, args@.len()),
            ),
        ),
{
}

/// `call`: the result type `tys[0]`, the callee `args[0]`, then in
/// parentheses the pairs of argument types and arguments.
pub proof fn lemma_call_text(
    inst: Instruction,
    id: InstructionId,
    operand: Operand,
    data: &Data,
    types: &Types,
)
    requires
        inst.id == Some(id),
        inst.operand == operand,
        operand is Call,
        operand->Call_tys@.len() >= 1,
        operand->Call_args@.len() >= 1,
    ensures
        ({
            let tys = operand->Call_tys@;
            let args = operand->Call_args@;
            inst.spec_text(data, types) == "%I"@ + decimal(id.spec_index()) + " = call "@
                + types@[tys[0].spec_index() as int] + " "@ + data@[args[0].spec_index() as int]
                + "("@ + trim_separators(
                typed_entries(
                    tys.skip(1),
                    args.skip(1),
                    data,
                    types,
                    min_len((tys.len() - 1) as nat, (args.len() - 1) as nat),
                ),
            ) + ")"@
        }),
{
}

/// Branches and returns: `br label %B{n}`, `br i1 cond, label %B{taken},
/// label %B{not taken}`, `ret type value` and `ret void`; none names a result.
pub proof fn lemma_terminator_text(inst: Instruction, data: &Data, types: &Types)
    ensures
        inst.operand matches Operand::Br { block } ==> inst.spec_text(data, types)
            == "br label %B"@ + decimal(block.spec_index()),
        inst.operand matches Operand::CondBr { arg, blocks } ==> inst.spec_text(data, types)
            == "br i1 "@ + data@[arg.spec_index() as int] + ", label %B"@ + decimal(
            blocks[0].spec_index(),
        ) + ", label %B"@ + decimal(blocks[1].spec_index()),
        inst.operand matches Operand::Ret { ty, val: Some(v) } ==> inst.spec_text(data, types)
            == "ret "@ + types@[ty.spec_index() as int] + " "@ + data@[v.spec_index() as int],
        inst.operand matches Operand::Ret { val: None, .. } ==> inst.spec_text(data, types)
            == "ret void"@,
{
    reveal_strlit("br label ");
    reveal_strlit("br label %B");
    reveal_strlit("%B");
    reveal_strlit(", label ");
    reveal_strlit(", label %B");
    match inst.operand {
        Operand::Br { block } => {
            assert("br label %B"@ =~= "br label "@ + "%B"@);
            assert(inst.spec_text(data, types) =~= "br label %B"@ + decimal(block.spec_index()));
        },
        Operand::CondBr { arg, blocks } => {
            assert(", label %B"@ =~= ", label "@ + "%B"@);
            assert(inst.spec_text(data, types) =~= "br i1 "@ + data@[arg.spec_index() as int]
                + ", label %B"@ + decimal(blocks[0].spec_index()) + ", label %B"@ + decimal(
                blocks[1].spec_index(),
            ));
        },
        _ => {},
    }
}

/// The `n + 1` first incoming pairs of a phi are the `n` first followed by
/// `[value, %Bblock], ` for the pair at `n`; there are none at first.
pub proof fn lemma_phi_entries_step(
    args: Seq<ValueId>,
    blocks: Seq<BasicBlockId>,
    data: &Data,
    n: nat,
)
    ensures
        phi_entries(args, blocks, data, 0) == Seq::<char>::empty(),
        phi_entries(args, blocks, data, n + 1) == phi_entries(args, blocks, data, n) + "["@
            + data@[args[n as int].spec_index() as int] + ", %B"@ + decimal(
            blocks[n as int].spec_index(),
        ) + "], "@,
{
    reveal_strlit(", ");
    reveal_strlit(", %B");
    reveal_strlit("%B");
    assert(", %B"@ =~= ", "@ + "%B"@);
    assert(phi_entries(args, blocks, data, n + 1) =~= phi_entries(args, blocks, data, n) + "["@
        + data@[args[n as int].spec_index() as int] + ", %B"@ + decimal(
        blocks[n as int].spec_index(),
    ) + "], "@);
}

/// The `n + 1` first typed values are the `n` first followed by
/// `type value, ` for the pair at `n`; there are none at first.
pub proof fn lemma_typed_entries_step(
    tys: Seq<TypeId>,
    args: Seq<ValueId>,
    data: &Data,
    types: &Types,
    n: nat,
)
    ensures
        typed_entries(tys, args, data, types, 0) == Seq::<char>::empty(),
        typed_entries(tys, args, data, types, n + 1) == typed_entries(tys, args, data, types, n)
            + types@[tys[n as int].spec_index() as int] + " "@ + data@[args[n as int].spec_index() as int]
            + ", "@,
{
}

/// An instruction can be written out when it has the id its text names and
/// every type and value its text mentions is in the tables; this holds of
/// every kind of operand that has a textual form here.
pub proof fn lemma_printable_when_defined(inst: Instruction, data: &Data, types: &Types)
    ensures
        (inst.operand matches Operand::Alloca { tys, .. } && inst.id is Some && tys[0].spec_index()
            < types@.len() && tys[1].spec_index() < types@.len()) ==> inst.printable(data, types),
        (inst.operand matches Operand::Load { tys, addr, .. } && inst.id is Some
            && tys[0].spec_index() < types@.len() && tys[1].spec_index() < types@.len()
            && addr.spec_index() < data@.len()) ==> inst.printable(data, types),
        (inst.operand matches Operand::Store { tys, args, .. } && tys[0].spec_index()
            < types@.len() && tys[1].spec_index() < types@.len() && args[0].spec_index()
            < data@.len() && args[1].spec_index() < data@.len()) ==> inst.printable(data, types),
        (inst.operand matches Operand::IntBinary { ty, args, .. } && inst.id is Some
            && ty.spec_index() < types@.len() && args[0].spec_index() < data@.len()
            && args[1].spec_index() < data@.len()) ==> inst.printable(data, types),
        (inst.operand matches Operand::ICmp { ty, args, .. } && inst.id is Some && ty.spec_index()
            < types@.len() && args[0].spec_index() < data@.len() && args[1].spec_index()
            < data@.len()) ==> inst.printable(data, types),
        (inst.operand matches Operand::Cast { tys, arg } && inst.id is Some && tys[0].spec_index()
            < types@.len() && tys[1].spec_index() < types@.len() && arg.spec_index()
            < data@.len()) ==> inst.printable(data, types),
        (inst.operand matches Operand::Phi { ty, args, .. } && inst.id is Some && ty.spec_index()
            < types@.len() && (forall|i: int|
            0 <= i < args@.len() ==> (#[trigger] args@[i]).spec_index() < data@.len()))
            ==> inst.printable(data, types),
        (inst.operand matches Operand::GetElementPtr { tys, args, .. } && inst.id is Some
            && tys@.len() >= 1 && (forall|i: int|
            0 <= i < tys@.len() ==> (#[trigger] tys@[i]).spec_index() < types@.len()) && (forall|
            i: int,
        | 0 <= i < args@.len() ==> (#[trigger] args@[i]).spec_index() < data@.len()))
            ==> inst.printable(data, types),
        (inst.operand matches Operand::Call { tys, args, .. } && inst.id is Some && tys@.len() >= 1
            && args@.len() >= 1 && (forall|i: int|
            0 <= i < tys@.len() ==> (#[trigger] tys@[i]).spec_index() < types@.len()) && (forall|
            i: int,
        | 0 <= i < args@.len() ==> (#[trigger] args@[i]).spec_index() < data@.len()))
            ==> inst.printable(data, types),
        inst.operand is Br ==> inst.printable(data, types),
        (inst.operand matches Operand::CondBr { arg, .. } && arg.spec_index() < data@.len())
            ==> inst.printable(data, types),
        (inst.operand matches Operand::Ret { ty, val } && (val matches Some(v) ==> ty.spec_index()
            < types@.len() && v.spec_index() < data@.len())) ==> inst.printable(data, types),
{
    match inst.operand {
        Operand::GetElementPtr { tys, args, .. } => {
            if tys@.len() >= 1 && (forall|i: int|
                0 <= i < tys@.len() ==> (#[trigger] tys@[i]).spec_index() < types@.len()) && (forall|
                i: int,
            | 0 <= i < args@.len() ==> (#[trigger] args@[i]).spec_index() < data@.len()) {
                assert forall|i: int| 0 <= i < min_len(tys@.skip(1).len(), args@.len()) implies
                    types.contains(#[trigger] tys@.skip(1)[i]) && data.contains(args@[i]) by {
                    assert(tys@.skip(1)[i] == tys@[i + 1]);
                }
            }
        },
        Operand::Call { tys, args, .. } => {
            if tys@.len() >= 1 && args@.len() >= 1 && (forall|i: int|
                0 <= i < tys@.len() ==> (#[trigger] tys@[i]).spec_index() < types@.len()) && (forall|
                i: int,
            | 0 <= i < args@.len() ==> (#[trigger] args@[i]).spec_index() < data@.len()) {
                assert forall|i: int|
                    0 <= i < min_len(tys@.skip(1).len(), args@.skip(1).len()) implies types.contains(
                    #[trigger] tys@.skip(1)[i],
                ) && data.contains(args@.skip(1)[i]) by {
                    assert(tys@.skip(1)[i] == tys@[i + 1]);
                    assert(args@.skip(1)[i] == args@[i + 1]);
                }
            }
        },
        _ => {},
    }
}

} // verus!
