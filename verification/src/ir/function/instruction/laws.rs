//! Properties that the instruction layer keeps across its operations.
use vstd::prelude::*;

use crate::ir::function::basic_block::BasicBlockId;
use crate::ir::function::data::Data;
use crate::ir::function::instruction::{instruction_ref, ICmpCond, Instruction, Opcode, Operand};
use crate::ir::module::name::Name;
use crate::ir::types::Types;

verus! {

/// Every terminator counts as having side effects.
pub proof fn lemma_terminators_have_side_effects(op: Opcode)
    ensures
        op.spec_is_terminator() ==> op.spec_has_side_effects(),
{
}

/// The opcodes without side effects are exactly those that only compute a
/// value from their operands (arithmetic, comparison, casts, aggregate and
/// address computation), `landingpad`, and the placeholder.
pub proof fn lemma_side_effect_free_opcodes(op: Opcode)
    ensures
        !op.spec_has_side_effects() <==> {
            ||| op is InsertValue
            ||| op is ExtractValue
            ||| op is Add
            ||| op is Sub
            ||| op is Mul
            ||| op is ICmp
            ||| op is Sext
            ||| op is Zext
            ||| op is Bitcast
            ||| op is Trunc
            ||| op is GetElementPtr
            ||| op is LandingPad
            ||| op is Invalid
        },
{
}

/// `replace` keeps the id of the instruction it fills and takes everything
/// else from the instruction it is given.
pub proof fn lemma_replace_keeps_only_the_id(inst: Instruction, other: Instruction)
    ensures
        inst.spec_replaced(other).id == inst.id,
        inst.spec_replaced(other).opcode == other.opcode,
        inst.spec_replaced(other).operand == other.operand,
        inst.spec_replaced(other).dest == other.dest,
        inst.spec_replaced(other).parent == other.parent,
{
}

/// A placeholder made by `with_block` may be filled by `replace` exactly
/// when its opcode is `Invalid`; filling it gives the instruction it is
/// filled with, without an id.
pub proof fn lemma_placeholder_filled_by_replace(
    op: Opcode,
    parent: BasicBlockId,
    other: Instruction,
)
    ensures
        op.spec_with_block(parent).opcode == Opcode::Invalid <==> op == Opcode::Invalid,
        Opcode::Invalid.spec_with_block(parent).spec_replaced(other) == (Instruction {
            id: None,
            ..other
        }),
{
}

/// A call or an invoke, and only they, have a result type, which is the
/// first of the types its operand records.
pub proof fn lemma_call_result_is_first_type(operand: Operand)
    ensures
        operand.spec_call_result_ty() is Some <==> operand.is_call_like(),
        operand.is_call_like() ==> operand.spec_call_result_ty() == Some(operand.spec_types()[0]),
{
}

/// Stores, integer binary operations and comparisons read exactly two
/// values; a conditional branch names exactly two blocks, an unconditional
/// branch one; allocas, loads and casts record exactly two types.
pub proof fn lemma_fixed_arity_operands(operand: Operand)
    ensures
        (operand is Store || operand is IntBinary || operand is ICmp) ==> operand.spec_args().len()
            == 2,
        operand is CondBr ==> operand.spec_blocks().len() == 2 && operand.spec_args().len() == 1,
        operand is Br ==> operand.spec_blocks().len() == 1 && operand.spec_args().len() == 0,
        (operand is Alloca || operand is Load || operand is Cast) ==> operand.spec_types().len()
            == 2,
{
}

/// Whether the operand is that of an instruction that yields a value.
pub open spec fn yields_value(operand: Operand) -> bool {
    ||| operand is Alloca
    ||| operand is Phi
    ||| operand is Load
    ||| operand is IntBinary
    ||| operand is ICmp
    ||| operand is Cast
    ||| operand is GetElementPtr
    ||| operand is Call
}

/// The text of an instruction that yields a value begins with an
/// assignment to `%I{index}` of its id.
pub proof fn lemma_value_text_assigns_its_id(inst: Instruction, data: &Data, types: &Types)
    requires
        inst.printable(data, types),
        yields_value(inst.operand),
    ensures
        ({
            let prefix = instruction_ref(inst.id.unwrap()) + " = "@;
            &&& prefix.len() <= inst.spec_text(data, types).len()
            &&& inst.spec_text(data, types).subrange(0, prefix.len() as int) == prefix
        }),
{
    let head = instruction_ref(inst.id.unwrap());
    let prefix = head + " = "@;
    let text = inst.spec_text(data, types);
    reveal_strlit(" = ");
    let keyword = match inst.operand {
        Operand::Alloca { .. } => {
            reveal_strlit(" = alloca ");
            " = alloca "@
        },
        Operand::Phi { .. } => {
            reveal_strlit(" = phi ");
            " = phi "@
        },
        Operand::Load { .. } => {
            reveal_strlit(" = load ");
            " = load "@
        },
        Operand::ICmp { .. } => {
            reveal_strlit(" = icmp ");
            " = icmp "@
        },
        Operand::GetElementPtr { .. } => {
            reveal_strlit(" = getelementptr ");
            " = getelementptr "@
        },
        Operand::Call { .. } => {
            reveal_strlit(" = call ");
            " = call "@
        },
        _ => " = "@,
    };
    assert(keyword.subrange(0, 3) =~= " = "@);
    let rest = text.subrange((head.len() + keyword.len()) as int, text.len() as int);
    assert(text =~= head + keyword + rest);
    assert(text.subrange(0, prefix.len() as int) =~= prefix);
}

/// The text of an instruction does not depend on its destination name:
/// naming it with `with_dest` leaves what it prints, and whether it can be
/// printed, unchanged.
pub proof fn lemma_text_ignores_dest(inst: Instruction, dest: Name, data: &Data, types: &Types)
    ensures
        inst.spec_with_dest(dest).printable(data, types) == inst.printable(data, types),
        inst.spec_with_dest(dest).spec_text(data, types) == inst.spec_text(data, types),
{
}

/// The keyword of an opcode determines the opcode, but for the two
/// branches, which are both written `br`.
pub proof fn lemma_mnemonic_identifies_opcode(a: Opcode, b: Opcode)
    ensures
        a.spec_mnemonic() == b.spec_mnemonic() <==> (a == b || ((a is Br || a is CondBr) && (b is Br
            || b is CondBr))),
{
    reveal_strlit("alloca");
    reveal_strlit("phi");
    reveal_strlit("load");
    reveal_strlit("store");
    reveal_strlit("insertvalue");
    reveal_strlit("extractvalue");
    reveal_strlit("add");
    reveal_strlit("sub");
    reveal_strlit("mul");
    reveal_strlit("icmp");
    reveal_strlit("sext");
    reveal_strlit("zext");
    reveal_strlit("bitcast");
    reveal_strlit("trunc");
    reveal_strlit("getelementptr");
    reveal_strlit("call");
    reveal_strlit("invoke");
    reveal_strlit("landingpad");
    reveal_strlit("resume");
    reveal_strlit("br");
    reveal_strlit("ret");
    reveal_strlit("INVALID");
    if a.spec_mnemonic() == b.spec_mnemonic() && a != b && !((a is Br || a is CondBr) && (b is Br || b is CondBr)) {
        let x = a.spec_mnemonic();
        let y = b.spec_mnemonic();
        assert(x.len() == y.len());
        assert(x[0] == y[0]);
        assert(x[1] == y[1]);
        assert(x[2] == y[2]);
        assert(false);
    }
}

/// Each opcode is written with its LLVM keyword; both branches are `br`,
/// and the placeholder is `INVALID`.
pub proof fn lemma_opcode_keywords()
    ensures
        Opcode::Alloca.spec_mnemonic() == "alloca"@,
        Opcode::Phi.spec_mnemonic() == "phi"@,
        Opcode::Load.spec_mnemonic() == "load"@,
        Opcode::Store.spec_mnemonic() == "store"@,
        Opcode::InsertValue.spec_mnemonic() == "insertvalue"@,
        Opcode::ExtractValue.spec_mnemonic() == "extractvalue"@,
        Opcode::Add.spec_mnemonic() == "add"@,
        Opcode::Sub.spec_mnemonic() == "sub"@,
        Opcode::Mul.spec_mnemonic() == "mul"@,
        Opcode::ICmp.spec_mnemonic() == "icmp"@,
        Opcode::Sext.spec_mnemonic() == "sext"@,
        Opcode::Zext.spec_mnemonic() == "zext"@,
        Opcode::Bitcast.spec_mnemonic() == "bitcast"@,
        Opcode::Trunc.spec_mnemonic() == "trunc"@,
        Opcode::GetElementPtr.spec_mnemonic() == "getelementptr"@,
        Opcode::Call.spec_mnemonic() == "call"@,
        Opcode::Invoke.spec_mnemonic() == "invoke"@,
        Opcode::LandingPad.spec_mnemonic() == "landingpad"@,
        Opcode::Resume.spec_mnemonic() == "resume"@,
        Opcode::Br.spec_mnemonic() == "br"@,
        Opcode::CondBr.spec_mnemonic() == "br"@,
        Opcode::Ret.spec_mnemonic() == "ret"@,
        Opcode::Invalid.spec_mnemonic() == "INVALID"@,
{
}

/// Each integer comparison is written with its LLVM condition keyword.
pub proof fn lemma_icmp_condition_keywords()
    ensures
        ICmpCond::Eq.spec_mnemonic() == "eq"@,
        ICmpCond::Ne.spec_mnemonic() == "ne"@,
        ICmpCond::Ugt.spec_mnemonic() == "ugt"@,
        ICmpCond::Uge.spec_mnemonic() == "uge"@,
        ICmpCond::Ult.spec_mnemonic() == "ult"@,
        ICmpCond::Ule.spec_mnemonic() == "ule"@,
        ICmpCond::Sgt.spec_mnemonic() == "sgt"@,
        ICmpCond::Sge.spec_mnemonic() == "sge"@,
        ICmpCond::Slt.spec_mnemonic() == "slt"@,
        ICmpCond::Sle.spec_mnemonic() == "sle"@,
{
}

/// The opcodes that end a basic block are exactly `ret`, both branches,
/// `invoke` and `resume`.
pub proof fn lemma_terminator_opcodes(op: Opcode)
    ensures
        op.spec_is_terminator() <==> (op == Opcode::Ret || op == Opcode::Br || op == Opcode::CondBr
            || op == Opcode::Invoke || op == Opcode::Resume),
{
}

/// `with_block` gives an instruction of the opcode, in the block, with an
/// `Invalid` operand and neither destination nor id.
pub proof fn lemma_with_block_fields(op: Opcode, parent: BasicBlockId)
    ensures
        op.spec_with_block(parent).opcode == op,
        op.spec_with_block(parent).operand is Invalid,
        op.spec_with_block(parent).dest is None,
        op.spec_with_block(parent).id is None,
        op.spec_with_block(parent).parent == parent,
{
}

/// `with_operand` and `with_dest` change the one field they name and keep
/// every other.
pub proof fn lemma_builders_change_one_field(inst: Instruction, operand: Operand, dest: Name)
    ensures
        inst.spec_with_operand(operand).operand == operand,
        inst.spec_with_operand(operand).opcode == inst.opcode,
        inst.spec_with_operand(operand).dest == inst.dest,
        inst.spec_with_operand(operand).id == inst.id,
        inst.spec_with_operand(operand).parent == inst.parent,
        inst.spec_with_dest(dest).dest == Some(dest),
        inst.spec_with_dest(dest).opcode == inst.opcode,
        inst.spec_with_dest(dest).operand == inst.operand,
        inst.spec_with_dest(dest).id == inst.id,
        inst.spec_with_dest(dest).parent == inst.parent,
{
}

} // verus!
