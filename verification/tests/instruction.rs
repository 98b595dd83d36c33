use vicis::ir::function::basic_block::BasicBlockId;
use vicis::ir::function::data::Data;
use vicis::ir::function::instruction::{ICmpCond, Instruction, InstructionId, Opcode, Operand};
use vicis::ir::function::param_attrs::ParameterAttribute;
use vicis::ir::module::attributes::Attribute;
use vicis::ir::module::name::Name;
use vicis::ir::types::{TypeId, Types};
use vicis::ir::value::{ConstantData, ValueId};

const ALL_OPCODES: [Opcode; 23] = [
    Opcode::Alloca,
    Opcode::Phi,
    Opcode::Load,
    Opcode::Store,
    Opcode::InsertValue,
    Opcode::ExtractValue,
    Opcode::Add,
    Opcode::Sub,
    Opcode::Mul,
    Opcode::ICmp,
    Opcode::Sext,
    Opcode::Zext,
    Opcode::Bitcast,
    Opcode::Trunc,
    Opcode::GetElementPtr,
    Opcode::Call,
    Opcode::Invoke,
    Opcode::LandingPad,
    Opcode::Resume,
    Opcode::Br,
    Opcode::CondBr,
    Opcode::Ret,
    Opcode::Invalid,
];

fn ty(i: usize) -> TypeId {
    TypeId::new(i)
}

fn val(i: usize) -> ValueId {
    ValueId::new(i)
}

fn bb(i: usize) -> BasicBlockId {
    BasicBlockId::new(i)
}

/// Types: 0 = i32, 1 = i32*, 2 = i1, 3 = i64, 4 = [4 x i32]*
fn types() -> Types {
    Types::new(vec![
        "i32".to_string(),
        "i32*".to_string(),
        "i1".to_string(),
        "i64".to_string(),
        "[4 x i32]*".to_string(),
    ])
}

/// Values: 0 = %I0, 1 = %I1, 2 = 2, 3 = 1, 4 = @f, 5 = %I7
fn data() -> Data {
    Data::new(vec![
        "%I0".to_string(),
        "%I1".to_string(),
        "2".to_string(),
        "1".to_string(),
        "@f".to_string(),
        "%I7".to_string(),
    ])
}

fn inst(opcode: Opcode, operand: Operand, id: usize) -> Instruction {
    let mut i = opcode.with_block(bb(0)).with_operand(operand);
    i.id = Some(InstructionId::new(id));
    i
}

fn text(i: &Instruction) -> String {
    i.to_string(&data(), &types())
}

#[test]
fn terminators() {
    for op in ALL_OPCODES {
        let expected = matches!(
            op,
            Opcode::Ret | Opcode::Br | Opcode::CondBr | Opcode::Invoke | Opcode::Resume
        );
        assert_eq!(op.is_terminator(), expected);
    }
}

#[test]
fn single_opcode_predicates() {
    for op in ALL_OPCODES {
        assert_eq!(op.is_load(), op == Opcode::Load);
        assert_eq!(op.is_store(), op == Opcode::Store);
        assert_eq!(op.is_alloca(), op == Opcode::Alloca);
        assert_eq!(op.is_phi(), op == Opcode::Phi);
        assert_eq!(op.is_call(), op == Opcode::Call);
        assert_eq!(op.is_invoke(), op == Opcode::Invoke);
    }
}

#[test]
fn side_effects() {
    let pure = [
        Opcode::InsertValue,
        Opcode::ExtractValue,
        Opcode::Add,
        Opcode::Sub,
        Opcode::Mul,
        Opcode::ICmp,
        Opcode::Sext,
        Opcode::Zext,
        Opcode::Bitcast,
        Opcode::Trunc,
        Opcode::GetElementPtr,
        Opcode::LandingPad,
        Opcode::Invalid,
    ];
    for op in ALL_OPCODES {
        assert_eq!(op.has_side_effects(), !pure.contains(&op));
    }
}

#[test]
fn terminators_have_side_effects() {
    for op in ALL_OPCODES {
        if op.is_terminator() {
            assert!(op.has_side_effects());
        }
    }
}

#[test]
fn opcode_mnemonics() {
    assert_eq!(Opcode::Alloca.mnemonic(), "alloca");
    assert_eq!(Opcode::GetElementPtr.mnemonic(), "getelementptr");
    assert_eq!(Opcode::Sext.mnemonic(), "sext");
    assert_eq!(Opcode::Br.mnemonic(), "br");
    assert_eq!(Opcode::CondBr.mnemonic(), "br");
    assert_eq!(Opcode::Invalid.mnemonic(), "INVALID");
}

#[test]
fn mnemonic_identifies_opcode_but_for_branches() {
    for a in ALL_OPCODES {
        for b in ALL_OPCODES {
            let both_branches =
                matches!(a, Opcode::Br | Opcode::CondBr) && matches!(b, Opcode::Br | Opcode::CondBr);
            assert_eq!(a.mnemonic() == b.mnemonic(), a == b || both_branches);
        }
    }
}

#[test]
fn icmp_mnemonics() {
    let all = [
        (ICmpCond::Eq, "eq"),
        (ICmpCond::Ne, "ne"),
        (ICmpCond::Ugt, "ugt"),
        (ICmpCond::Uge, "uge"),
        (ICmpCond::Ult, "ult"),
        (ICmpCond::Ule, "ule"),
        (ICmpCond::Sgt, "sgt"),
        (ICmpCond::Sge, "sge"),
        (ICmpCond::Slt, "slt"),
        (ICmpCond::Sle, "sle"),
    ];
    for (cond, name) in all {
        assert_eq!(cond.mnemonic(), name);
    }
}

fn call_operand(args: Vec<ValueId>, tys: Vec<TypeId>) -> Operand {
    Operand::Call {
        args,
        tys,
        param_attrs: vec![vec![ParameterAttribute("signext".to_string())]],
        ret_attrs: vec![],
        func_attrs: vec![Attribute("nounwind".to_string())],
    }
}

#[test]
fn operand_args() {
    assert_eq!(
        Operand::Alloca { tys: [ty(0), ty(0)], num_elements: ConstantData::new("1".to_string()), align: 4 }.args(),
        &[][..]
    );
    assert_eq!(
        Operand::Phi { ty: ty(0), args: vec![val(1), val(2)], blocks: vec![bb(0), bb(1)] }.args(),
        &[val(1), val(2)][..]
    );
    assert_eq!(Operand::Ret { ty: ty(0), val: None }.args(), &[][..]);
    assert_eq!(Operand::Ret { ty: ty(0), val: Some(val(3)) }.args(), &[val(3)][..]);
    assert_eq!(Operand::Load { tys: [ty(0), ty(1)], addr: val(0), align: 4 }.args(), &[val(0)][..]);
    assert_eq!(
        Operand::Store { tys: [ty(0), ty(1)], args: [val(2), val(0)], align: 4 }.args(),
        &[val(2), val(0)][..]
    );
    assert_eq!(
        Operand::IntBinary { ty: ty(0), nsw: false, nuw: false, args: [val(1), val(3)] }.args(),
        &[val(1), val(3)][..]
    );
    assert_eq!(Operand::Cast { tys: [ty(0), ty(3)], arg: val(1) }.args(), &[val(1)][..]);
    assert_eq!(call_operand(vec![val(4), val(2)], vec![ty(0), ty(0)]).args(), &[val(4), val(2)][..]);
    assert_eq!(Operand::LandingPad { ty: ty(0) }.args(), &[][..]);
    assert_eq!(Operand::Resume { ty: ty(0), arg: val(1) }.args(), &[val(1)][..]);
    assert_eq!(Operand::Br { block: bb(1) }.args(), &[][..]);
    assert_eq!(Operand::CondBr { arg: val(1), blocks: [bb(1), bb(2)] }.args(), &[val(1)][..]);
    assert_eq!(Operand::Invalid.args(), &[][..]);
}

#[test]
fn operand_types() {
    assert_eq!(
        Operand::Alloca { tys: [ty(0), ty(3)], num_elements: ConstantData::new("1".to_string()), align: 4 }.types(),
        &[ty(0), ty(3)][..]
    );
    assert_eq!(
        Operand::Phi { ty: ty(0), args: vec![], blocks: vec![] }.types(),
        &[ty(0)][..]
    );
    assert_eq!(Operand::Ret { ty: ty(2), val: None }.types(), &[ty(2)][..]);
    assert_eq!(Operand::Store { tys: [ty(0), ty(1)], args: [val(2), val(0)], align: 4 }.types(), &[][..]);
    assert_eq!(
        Operand::ExtractValue { ty: ty(4), args: vec![val(0)] }.types(),
        &[ty(4)][..]
    );
    assert_eq!(
        Operand::GetElementPtr { inbounds: true, tys: vec![ty(4), ty(4), ty(3)], args: vec![] }.types(),
        &[ty(4), ty(4), ty(3)][..]
    );
    assert_eq!(Operand::Br { block: bb(1) }.types(), &[][..]);
    assert_eq!(Operand::Invalid.types(), &[][..]);
}

#[test]
fn operand_blocks() {
    assert_eq!(
        Operand::Phi { ty: ty(0), args: vec![val(1)], blocks: vec![bb(3)] }.blocks(),
        &[bb(3)][..]
    );
    assert_eq!(Operand::Br { block: bb(7) }.blocks(), &[bb(7)][..]);
    assert_eq!(Operand::CondBr { arg: val(1), blocks: [bb(1), bb(2)] }.blocks(), &[bb(1), bb(2)][..]);
    let invoke = Operand::Invoke {
        args: vec![val(4)],
        tys: vec![ty(0)],
        param_attrs: vec![],
        ret_attrs: vec![],
        func_attrs: vec![],
        blocks: vec![bb(2), bb(3)],
    };
    assert_eq!(invoke.blocks(), &[bb(2), bb(3)][..]);
    assert_eq!(Operand::Ret { ty: ty(0), val: None }.blocks(), &[][..]);
    assert_eq!(Operand::Invalid.blocks(), &[][..]);
}

#[test]
fn call_result_type() {
    assert_eq!(call_operand(vec![val(4)], vec![ty(3), ty(0)]).call_result_ty(), Some(ty(3)));
    let invoke = Operand::Invoke {
        args: vec![val(4)],
        tys: vec![ty(2)],
        param_attrs: vec![],
        ret_attrs: vec![],
        func_attrs: vec![],
        blocks: vec![bb(2), bb(3)],
    };
    assert_eq!(invoke.call_result_ty(), Some(ty(2)));
    assert_eq!(Operand::Ret { ty: ty(0), val: None }.call_result_ty(), None);
    assert_eq!(Operand::Invalid.call_result_ty(), None);
}

#[test]
fn with_block_makes_a_placeholder() {
    let i = Opcode::Add.with_block(bb(4));
    assert!(i.opcode == Opcode::Add);
    assert!(matches!(i.operand, Operand::Invalid));
    assert_eq!(i.dest, None);
    assert_eq!(i.id, None);
    assert_eq!(i.parent, bb(4));
}

#[test]
fn replace_fills_placeholder_and_keeps_id() {
    let mut placeholder = Opcode::Invalid.with_block(bb(0));
    placeholder.id = Some(InstructionId::new(9));
    let other = Opcode::Br
        .with_block(bb(2))
        .with_operand(Operand::Br { block: bb(5) })
        .with_dest(Name::Number(3));
    placeholder.replace(other);
    assert!(placeholder.opcode == Opcode::Br);
    assert!(matches!(placeholder.operand, Operand::Br { block } if block == bb(5)));
    assert_eq!(placeholder.dest, Some(Name::Number(3)));
    assert_eq!(placeholder.parent, bb(2));
    assert_eq!(placeholder.id, Some(InstructionId::new(9)));
}

#[test]
fn with_dest_and_with_operand() {
    let i = Opcode::Ret
        .with_block(bb(1))
        .with_dest(Name::Name("x".to_string()))
        .with_operand(Operand::Ret { ty: ty(0), val: None });
    assert_eq!(i.dest, Some(Name::Name("x".to_string())));
    assert!(matches!(i.operand, Operand::Ret { val: None, .. }));
    assert_eq!(i.parent, bb(1));
}

#[test]
fn text_alloca() {
    let i = inst(
        Opcode::Alloca,
        Operand::Alloca { tys: [ty(0), ty(0)], num_elements: ConstantData::new("1".to_string()), align: 4 },
        0,
    );
    assert_eq!(text(&i), "%I0 = alloca i32, i32 1, align 4");
}

#[test]
fn text_store_load() {
    let s = inst(
        Opcode::Store,
        Operand::Store { tys: [ty(0), ty(1)], args: [val(2), val(0)], align: 4 },
        1,
    );
    assert_eq!(text(&s), "store i32 2, i32* %I0, align 4");
    let l = inst(Opcode::Load, Operand::Load { tys: [ty(0), ty(1)], addr: val(0), align: 16 }, 2);
    assert_eq!(text(&l), "%I2 = load i32, i32* %I0, align 16");
}

#[test]
fn text_int_binary() {
    let plain = inst(
        Opcode::Add,
        Operand::IntBinary { ty: ty(0), nsw: false, nuw: false, args: [val(1), val(3)] },
        3,
    );
    assert_eq!(text(&plain), "%I3 = add i32 %I1, 1");
    let flags = inst(
        Opcode::Mul,
        Operand::IntBinary { ty: ty(0), nsw: true, nuw: true, args: [val(1), val(2)] },
        12,
    );
    assert_eq!(text(&flags), "%I12 = mul nuw nsw i32 %I1, 2");
    let nsw_only = inst(
        Opcode::Sub,
        Operand::IntBinary { ty: ty(3), nsw: true, nuw: false, args: [val(0), val(1)] },
        4,
    );
    assert_eq!(text(&nsw_only), "%I4 = sub nsw i64 %I0, %I1");
}

#[test]
fn text_icmp_and_cast() {
    let c = inst(
        Opcode::ICmp,
        Operand::ICmp { ty: ty(0), args: [val(1), val(2)], cond: ICmpCond::Sle },
        5,
    );
    assert_eq!(text(&c), "%I5 = icmp sle i32 %I1, 2");
    let z = inst(Opcode::Zext, Operand::Cast { tys: [ty(0), ty(3)], arg: val(1) }, 6);
    assert_eq!(text(&z), "%I6 = zext i32 %I1 to i64");
}

#[test]
fn text_phi() {
    let p = inst(
        Opcode::Phi,
        Operand::Phi { ty: ty(0), args: vec![val(1), val(2), val(3)], blocks: vec![bb(0), bb(10)] },
        105,
    );
    assert_eq!(text(&p), "%I105 = phi i32 [%I1, %B0], [2, %B10]");
    let empty = inst(Opcode::Phi, Operand::Phi { ty: ty(0), args: vec![], blocks: vec![] }, 1);
    assert_eq!(text(&empty), "%I1 = phi i32 ");
}

#[test]
fn text_getelementptr() {
    let g = inst(
        Opcode::GetElementPtr,
        Operand::GetElementPtr { inbounds: true, tys: vec![ty(4), ty(3), ty(3)], args: vec![val(0), val(3)] },
        8,
    );
    assert_eq!(text(&g), "%I8 = getelementptr inbounds [4 x i32]*, i64 %I0, i64 1");
    let h = inst(
        Opcode::GetElementPtr,
        Operand::GetElementPtr { inbounds: false, tys: vec![ty(4), ty(3)], args: vec![val(0), val(3)] },
        9,
    );
    assert_eq!(text(&h), "%I9 = getelementptr [4 x i32]*, i64 %I0");
}

#[test]
fn text_call() {
    let c = inst(Opcode::Call, call_operand(vec![val(4), val(2), val(1)], vec![ty(0), ty(0), ty(3)]), 20);
    assert_eq!(text(&c), "%I20 = call i32 @f(i32 2, i64 %I1)");
    let no_args = inst(Opcode::Call, call_operand(vec![val(4)], vec![ty(0)]), 21);
    assert_eq!(text(&no_args), "%I21 = call i32 @f()");
}

#[test]
fn text_branches_and_returns() {
    let br = inst(Opcode::Br, Operand::Br { block: bb(1) }, 0);
    assert_eq!(text(&br), "br label %B1");
    let cond = inst(Opcode::CondBr, Operand::CondBr { arg: val(5), blocks: [bb(1), bb(2)] }, 0);
    assert_eq!(text(&cond), "br i1 %I7, label %B1, label %B2");
    let ret = inst(Opcode::Ret, Operand::Ret { ty: ty(0), val: Some(val(5)) }, 0);
    assert_eq!(text(&ret), "ret i32 %I7");
    let void = inst(Opcode::Ret, Operand::Ret { ty: ty(0), val: None }, 0);
    assert_eq!(text(&void), "ret void");
}

#[test]
fn text_of_terminators_needs_no_id() {
    let mut br = Opcode::Br.with_block(bb(0)).with_operand(Operand::Br { block: bb(3) });
    br.id = None;
    assert_eq!(br.to_string(&data(), &types()), "br label %B3");
}

#[test]
fn text_trims_every_trailing_separator() {
    // A value whose text itself ends with ", " loses it too, as the
    // separators after the last entry are trimmed repeatedly.
    let data = Data::new(vec!["a, ".to_string(), "b, , ".to_string()]);
    let types = types();
    let p = inst(
        Opcode::Phi,
        Operand::Phi { ty: ty(0), args: vec![val(0)], blocks: vec![bb(1)] },
        2,
    );
    assert_eq!(p.to_string(&data, &types), "%I2 = phi i32 [a, , %B1]");
    let g = inst(
        Opcode::GetElementPtr,
        Operand::GetElementPtr { inbounds: false, tys: vec![ty(4), ty(3)], args: vec![val(1)] },
        3,
    );
    assert_eq!(g.to_string(&data, &types), "%I3 = getelementptr [4 x i32]*, i64 b");
}

#[test]
fn value_text_starts_with_assignment() {
    let i = inst(Opcode::Trunc, Operand::Cast { tys: [ty(3), ty(0)], arg: val(0) }, 42);
    assert!(text(&i).starts_with("%I42 = "));
}

#[test]
fn text_ignores_dest() {
    let i = inst(Opcode::Load, Operand::Load { tys: [ty(0), ty(1)], addr: val(0), align: 4 }, 2);
    let before = text(&i);
    let named = i.with_dest(Name::Name("b".to_string()));
    assert_eq!(text(&named), before);
}

#[test]
fn ids_round_trip() {
    assert_eq!(TypeId::new(7).index(), 7);
    assert_eq!(ValueId::new(0).index(), 0);
    assert_eq!(BasicBlockId::new(123456).index(), 123456);
    assert_eq!(InstructionId::new(usize::MAX).index(), usize::MAX);
    assert_eq!(ConstantData::new("undef".to_string()).to_string(), "undef");
    assert_eq!(types().to_string(ty(4)), "[4 x i32]*");
    assert_eq!(data().value_text(val(4)), "@f");
}

#[test]
fn large_indices_print_in_decimal() {
    let i = inst(Opcode::Br, Operand::Br { block: bb(1234567890) }, 0);
    assert_eq!(text(&i), "br label %B1234567890");
    let j = inst(
        Opcode::Alloca,
        Operand::Alloca { tys: [ty(0), ty(0)], num_elements: ConstantData::new("1".to_string()), align: u32::MAX },
        usize::MAX,
    );
    assert_eq!(text(&j), format!("%I{} = alloca i32, i32 1, align 4294967295", usize::MAX));
}
