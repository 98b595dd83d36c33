//! What each kind of operand reads, records and names, stated on its fields.
use vstd::prelude::*;

use crate::ir::function::instruction::Operand;

verus! {

/// The values an operand reads are exactly the value fields it carries, in
/// order: the whole `args` vector or array where it has one, the single
/// `addr`, `arg` or returned value otherwise, and nothing for the kinds
/// that carry no value.
pub proof fn lemma_args_are_the_value_fields(operand: Operand)
    ensures
        operand matches Operand::Phi { args, .. } ==> operand.spec_args() == args@,
        operand matches Operand::InsertValue { args, .. } ==> operand.spec_args() == args@,
        operand matches Operand::ExtractValue { args, .. } ==> operand.spec_args() == args@,
        operand matches Operand::GetElementPtr { args, .. } ==> operand.spec_args() == args@,
        operand matches Operand::Call { args, .. } ==> operand.spec_args() == args@,
        operand matches Operand::Invoke { args, .. } ==> operand.spec_args() == args@,
        operand matches Operand::Store { args, .. } ==> operand.spec_args() == seq![
            args[0],
            args[1],
        ],
        operand matches Operand::IntBinary { args, .. } ==> operand.spec_args() == seq![
            args[0],
            args[1],
        ],
        operand matches Operand::ICmp { args, .. } ==> operand.spec_args() == seq![
            args[0],
            args[1],
        ],
        operand matches Operand::Load { addr, .. } ==> operand.spec_args() == seq![addr],
        operand matches Operand::Cast { arg, .. } ==> operand.spec_args() == seq![arg],
        operand matches Operand::Resume { arg, .. } ==> operand.spec_args() == seq![arg],
        operand matches Operand::CondBr { arg, .. } ==> operand.spec_args() == seq![arg],
        operand matches Operand::Ret { val: Some(v), .. } ==> operand.spec_args() == seq![v],
        operand matches Operand::Ret { val: None, .. } ==> operand.spec_args().len() == 0,
        (operand is Alloca || operand is LandingPad || operand is Br || operand is Invalid)
            ==> operand.spec_args().len() == 0,
{
    match operand {
        Operand::Store { args, .. } => assert(args@ =~= seq![args[0], args[1]]),
        Operand::IntBinary { args, .. } => assert(args@ =~= seq![args[0], args[1]]),
        Operand::ICmp { args, .. } => assert(args@ =~= seq![args[0], args[1]]),
        _ => {},
    }
}

/// The types an operand records are exactly its type fields, in order: the
/// whole `tys` vector or array where it has one, the single `ty` otherwise;
/// stores and branches record none.
pub proof fn lemma_types_are_the_type_fields(operand: Operand)
    ensures
        operand matches Operand::Alloca { tys, .. } ==> operand.spec_types() == seq![
            tys[0],
            tys[1],
        ],
        operand matches Operand::Load { tys, .. } ==> operand.spec_types() == seq![
            tys[0],
            tys[1],
        ],
        operand matches Operand::InsertValue { tys, .. } ==> operand.spec_types() == seq![
            tys[0],
            tys[1],
        ],
        operand matches Operand::Cast { tys, .. } ==> operand.spec_types() == seq![
            tys[0],
            tys[1],
        ],
        operand matches Operand::GetElementPtr { tys, .. } ==> operand.spec_types() == tys@,
        operand matches Operand::Call { tys, .. } ==> operand.spec_types() == tys@,
        operand matches Operand::Invoke { tys, .. } ==> operand.spec_types() == tys@,
        operand matches Operand::Phi { ty, .. } ==> operand.spec_types() == seq![ty],
        operand matches Operand::ExtractValue { ty, .. } ==> operand.spec_types() == seq![ty],
        operand matches Operand::IntBinary { ty, .. } ==> operand.spec_types() == seq![ty],
        operand matches Operand::ICmp { ty, .. } ==> operand.spec_types() == seq![ty],
        operand matches Operand::LandingPad { ty } ==> operand.spec_types() == seq![ty],
        operand matches Operand::Resume { ty, .. } ==> operand.spec_types() == seq![ty],
        operand matches Operand::Ret { ty, .. } ==> operand.spec_types() == seq![ty],
        (operand is Store || operand is Br || operand is CondBr || operand is Invalid)
            ==> operand.spec_types().len() == 0,
{
    match operand {
        Operand::Alloca { tys, .. } => assert(tys@ =~= seq![tys[0], tys[1]]),
        Operand::Load { tys, .. } => assert(tys@ =~= seq![tys[0], tys[1]]),
        Operand::InsertValue { tys, .. } => assert(tys@ =~= seq![tys[0], tys[1]]),
        Operand::Cast { tys, .. } => assert(tys@ =~= seq![tys[0], tys[1]]),
        _ => {},
    }
}

/// The blocks an operand names are exactly its block fields, in order: all
/// incoming blocks of a phi, both destinations of an invoke or a
/// conditional branch (taken, then not taken), the one destination of a
/// branch; every other operand names none.
pub proof fn lemma_blocks_are_the_block_fields(operand: Operand)
    ensures
        operand matches Operand::Phi { blocks, .. } ==> operand.spec_blocks() == blocks@,
        operand matches Operand::Invoke { blocks, .. } ==> operand.spec_blocks() == blocks@,
        operand matches Operand::CondBr { blocks, .. } ==> operand.spec_blocks() == seq![
            blocks[0],
            blocks[1],
        ],
        operand matches Operand::Br { block } ==> operand.spec_blocks() == seq![block],
        !(operand is Phi || operand is Invoke || operand is CondBr || operand is Br)
            ==> operand.spec_blocks().len() == 0,
{
    match operand {
        Operand::CondBr { blocks, .. } => assert(blocks@ =~= seq![blocks[0], blocks[1]]),
        _ => {},
    }
}

/// The result type of a call or an invoke is the first of its `tys`; no
/// other operand has one.
pub proof fn lemma_call_result_is_first_of_tys(operand: Operand)
    ensures
        operand matches Operand::Call { tys, .. } ==> operand.spec_call_result_ty() == Some(
            tys@[0],
        ),
        operand matches Operand::Invoke { tys, .. } ==> operand.spec_call_result_ty() == Some(
            tys@[0],
        ),
        !(operand is Call || operand is Invoke) ==> operand.spec_call_result_ty() is None,
{
}

} // verus!
