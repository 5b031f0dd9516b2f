use lc1c::{
    Argument, Command, ParseStatementError, ParserWoArg, Statement, StatementInvoc,
    StatementInvocBase,
};

fn label(name: &str) -> Argument {
    Argument::Label(name.to_string())
}

fn with_operand(a: Argument) -> Vec<(StatementInvoc, &'static str)> {
    vec![
        (StatementInvocBase::LDA(a.clone()), "LDA"),
        (StatementInvocBase::LDB(a.clone()), "LDB"),
        (StatementInvocBase::MOV(a.clone()), "MOV"),
        (StatementInvocBase::JMP(a.clone()), "JMP"),
        (StatementInvocBase::JPS(a.clone()), "JPS"),
        (StatementInvocBase::JPO(a.clone()), "JPO"),
        (StatementInvocBase::CAL(a.clone()), "CAL"),
        (StatementInvocBase::RRA(a.clone()), "RRA"),
        (StatementInvocBase::RLA(a), "RLA"),
    ]
}

fn bare() -> Vec<(StatementInvoc, &'static str)> {
    vec![
        (StatementInvocBase::MAB, "MAB"),
        (StatementInvocBase::ADD, "ADD"),
        (StatementInvocBase::SUB, "SUB"),
        (StatementInvocBase::AND, "AND"),
        (StatementInvocBase::NOT, "NOT"),
        (StatementInvocBase::RET, "RET"),
        (StatementInvocBase::HLT, "HLT"),
        (StatementInvocBase::NOP, "NOP"),
    ]
}

#[test]
fn get_cmd_of_an_instruction_with_an_operand() {
    for (invoc, mnemonic) in with_operand(Argument::Absolute(1)) {
        assert_eq!(invoc.get_cmd(), Command { mnemonic, is_real: true, has_arg: true });
    }
}

#[test]
fn get_cmd_of_an_instruction_without_operand() {
    for (invoc, mnemonic) in bare() {
        assert_eq!(invoc.get_cmd(), Command { mnemonic, is_real: true, has_arg: false });
    }
}

#[test]
fn get_cmd_of_the_pseudo_operations() {
    let def: StatementInvoc = StatementInvocBase::DEF(7);
    assert_eq!(def.get_cmd(), Command { mnemonic: "DEF", is_real: false, has_arg: true });
    let lbl: StatementInvoc = StatementInvocBase::Label("loop".to_string());
    assert_eq!(lbl.get_cmd(), Command { mnemonic: "Label", is_real: false, has_arg: true });
}

#[test]
fn get_cmd_does_not_depend_on_the_representation() {
    let shape: StatementInvocBase<ParserWoArg> = StatementInvocBase::JMP(ParserWoArg);
    assert_eq!(shape.get_cmd(), Command { mnemonic: "JMP", is_real: true, has_arg: true });
    let shape: StatementInvocBase<ParserWoArg> = StatementInvocBase::DEF(ParserWoArg);
    assert_eq!(shape.get_cmd(), Command { mnemonic: "DEF", is_real: false, has_arg: true });
    let shape: StatementInvocBase<ParserWoArg> = StatementInvocBase::RET;
    assert_eq!(shape.get_cmd(), Command { mnemonic: "RET", is_real: true, has_arg: false });
}

#[test]
fn the_short_forms_agree_with_get_cmd() {
    let mut all = with_operand(label("x"));
    all.extend(bare());
    all.push((StatementInvocBase::DEF(1), "DEF"));
    all.push((StatementInvocBase::Label("x".to_string()), "Label"));
    assert_eq!(all.len(), 19);
    for (invoc, mnemonic) in all {
        let cmd = invoc.get_cmd();
        assert_eq!(invoc.cmd2str(), mnemonic);
        assert_eq!(invoc.cmd2str(), cmd.mnemonic);
        assert_eq!(invoc.is_cmd_real(), cmd.is_real);
        assert_eq!(invoc.clone().has_arg(), cmd.has_arg);
    }
}

#[test]
fn arg_is_the_operand_of_an_ordinary_instruction() {
    for (invoc, _) in with_operand(Argument::IdConst(3)) {
        assert_eq!(invoc.arg(), Some(&Argument::IdConst(3)));
    }
    for (invoc, _) in bare() {
        assert_eq!(invoc.arg(), None);
    }
    let def: StatementInvoc = StatementInvocBase::DEF(7);
    assert_eq!(def.arg(), None);
    let lbl: StatementInvoc = StatementInvocBase::Label("loop".to_string());
    assert_eq!(lbl.arg(), None);
}

#[test]
fn arg_mut_changes_the_operand_in_place() {
    let before = with_operand(Argument::Absolute(1));
    let after = with_operand(label("there"));
    for ((mut invoc, _), (expected, _)) in before.into_iter().zip(after) {
        match invoc.arg_mut() {
            Some(slot) => *slot = label("there"),
            None => panic!("no operand"),
        }
        assert_eq!(invoc, expected);
    }
    for (mut invoc, _) in bare() {
        let copy = invoc.clone();
        assert_eq!(invoc.arg_mut(), None);
        assert_eq!(invoc, copy);
    }
    let mut def: StatementInvoc = StatementInvocBase::DEF(7);
    assert_eq!(def.arg_mut(), None);
    assert_eq!(def, StatementInvocBase::DEF(7));
}

#[test]
fn an_operand_can_be_taken_out_of_an_instruction() {
    let mut invoc: StatementInvoc = StatementInvocBase::CAL(label("sub"));
    let taken = invoc.arg_mut().map(|a| a.take());
    assert_eq!(taken, Some(label("sub")));
    assert_eq!(invoc, StatementInvocBase::CAL(Argument::Placeholder));
    assert_eq!(invoc.to_string(), "CAL @_");
}

#[test]
fn take_leaves_a_nop() {
    let mut all = with_operand(Argument::Absolute(9));
    all.extend(bare());
    all.push((StatementInvocBase::DEF(1), "DEF"));
    all.push((StatementInvocBase::Label("x".to_string()), "Label"));
    for (before, _) in all {
        let mut slot = before.clone();
        let taken = slot.take();
        assert_eq!(taken, before);
        assert_eq!(slot, StatementInvocBase::NOP);
    }
}

#[test]
fn into_statement_keeps_both_parts() {
    let invoc: StatementInvoc = StatementInvocBase::LDA(Argument::Absolute(42));
    assert_eq!(
        invoc.clone().into_statement(true),
        Statement { invoc: invoc.clone(), optimizable: true }
    );
    assert_eq!(
        invoc.clone().into_statement(false),
        Statement { invoc, optimizable: false }
    );
}

#[test]
fn to_string_writes_the_canonical_line() {
    let lda: StatementInvoc = StatementInvocBase::LDA(Argument::Absolute(42));
    assert_eq!(lda.to_string(), "LDA @42");
    let jmp: StatementInvoc = StatementInvocBase::JMP(label("start"));
    assert_eq!(jmp.to_string(), "JMP start");
    let mov: StatementInvoc = StatementInvocBase::MOV(Argument::IdConst(65535));
    assert_eq!(mov.to_string(), "MOV $65535");
    let def: StatementInvoc = StatementInvocBase::DEF(7);
    assert_eq!(def.to_string(), "DEF 7");
    let lbl: StatementInvoc = StatementInvocBase::Label("loop".to_string());
    assert_eq!(lbl.to_string(), "loop:");
    let hlt: StatementInvoc = StatementInvocBase::HLT;
    assert_eq!(hlt.to_string(), "HLT");
    for (invoc, mnemonic) in bare() {
        assert_eq!(invoc.to_string(), mnemonic);
    }
    for (invoc, mnemonic) in with_operand(Argument::Absolute(5)) {
        assert_eq!(invoc.to_string(), format!("{} @5", mnemonic));
    }
}

#[test]
fn map_or_fail_sends_each_payload_through_its_function() {
    let count = |x: ParserWoArg| -> Result<Argument, ParseStatementError> {
        let _ = x;
        Ok(Argument::Absolute(1))
    };
    let shape: StatementInvocBase<ParserWoArg> = StatementInvocBase::RLA(ParserWoArg);
    let done: Result<StatementInvoc, ParseStatementError> = shape.map_or_fail(
        count,
        |_| Ok(2),
        |name| Ok(name),
        || Ok(()),
    );
    assert_eq!(done, Ok(StatementInvocBase::RLA(Argument::Absolute(1))));

    let shape: StatementInvocBase<ParserWoArg> = StatementInvocBase::DEF(ParserWoArg);
    let done: Result<StatementInvoc, ParseStatementError> = shape.map_or_fail(
        |_| Ok(Argument::Absolute(1)),
        |_| Ok(2),
        |name| Ok(name),
        || Ok(()),
    );
    assert_eq!(done, Ok(StatementInvocBase::DEF(2)));

    let shape: StatementInvocBase<ParserWoArg> = StatementInvocBase::Label("x".to_string());
    let done: Result<StatementInvoc, ParseStatementError> = shape.map_or_fail(
        |_| Ok(Argument::Absolute(1)),
        |_| Ok(2),
        |name| Ok(format!("{}{}", name, name)),
        || Ok(()),
    );
    assert_eq!(done, Ok(StatementInvocBase::Label("xx".to_string())));

    let shape: StatementInvocBase<ParserWoArg> = StatementInvocBase::NOT;
    let done: Result<StatementInvoc, ParseStatementError> = shape.map_or_fail(
        |_| Ok(Argument::Absolute(1)),
        |_| Ok(2),
        |name| Ok(name),
        || Ok(()),
    );
    assert_eq!(done, Ok(StatementInvocBase::NOT));
}

#[test]
fn map_or_fail_hands_on_the_error_of_the_function_it_called() {
    let shape: StatementInvocBase<ParserWoArg> = StatementInvocBase::JPO(ParserWoArg);
    let done: Result<StatementInvoc, u8> =
        shape.map_or_fail(|_| Err(1), |_| Err(2), |_| Err(3), || Err(4));
    assert_eq!(done, Err(1));
    let shape: StatementInvocBase<ParserWoArg> = StatementInvocBase::DEF(ParserWoArg);
    let done: Result<StatementInvoc, u8> =
        shape.map_or_fail(|_| Err(1), |_| Err(2), |_| Err(3), || Err(4));
    assert_eq!(done, Err(2));
    let shape: StatementInvocBase<ParserWoArg> = StatementInvocBase::Label("x".to_string());
    let done: Result<StatementInvoc, u8> =
        shape.map_or_fail(|_| Err(1), |_| Err(2), |_| Err(3), || Err(4));
    assert_eq!(done, Err(3));
    let shape: StatementInvocBase<ParserWoArg> = StatementInvocBase::HLT;
    let done: Result<StatementInvoc, u8> =
        shape.map_or_fail(|_| Err(1), |_| Err(2), |_| Err(3), || Err(4));
    assert_eq!(done, Err(4));
}

#[test]
fn map_or_fail_can_go_back_to_the_bare_shape() {
    let invoc: StatementInvoc = StatementInvocBase::MOV(Argument::Absolute(3));
    let shape: Result<StatementInvocBase<ParserWoArg>, ()> = invoc.map_or_fail(
        |_| Ok(ParserWoArg),
        |_| Ok(ParserWoArg),
        |name| Ok(name),
        || Ok(()),
    );
    assert_eq!(shape, Ok(StatementInvocBase::MOV(ParserWoArg)));
}
