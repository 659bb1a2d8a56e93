use stylus_benchmark::{DataType, ExportedFuncBeginningWriter, Scenario, WatBeginningWriter, WatOpsWriter};

const ALL: [Scenario; 40] = [
    Scenario::I32Add,
    Scenario::I32And,
    Scenario::I32Clz,
    Scenario::I32Ctz,
    Scenario::I32DivS,
    Scenario::I32DivU,
    Scenario::I32Eq,
    Scenario::I32Eqz,
    Scenario::I32GeS,
    Scenario::I32GeU,
    Scenario::I32GtU,
    Scenario::I32GtS,
    Scenario::I32LeU,
    Scenario::I32LeS,
    Scenario::I32LtU,
    Scenario::I32LtS,
    Scenario::I32Mul,
    Scenario::I32Ne,
    Scenario::I32Or,
    Scenario::I32Popcnt,
    Scenario::I32RemS,
    Scenario::I32RemU,
    Scenario::I32Rotl,
    Scenario::I32Rotr,
    Scenario::I32Shl,
    Scenario::I32ShrS,
    Scenario::I32ShrU,
    Scenario::I32Sub,
    Scenario::I32WrapI64,
    Scenario::I32Xor,
    Scenario::I64ExtendI32S,
    Scenario::Call,
    Scenario::CallIndirect,
    Scenario::GlobalGet,
    Scenario::GlobalSet,
    Scenario::If,
    Scenario::LocalGet,
    Scenario::LocalSet,
    Scenario::LocalTee,
    Scenario::Select,
];

#[test]
fn only_call_and_global_scenarios_declare_in_the_header() {
    assert_eq!(Scenario::Call.specific_wat_beginning_writer(), Some(WatBeginningWriter::Call));
    assert_eq!(
        Scenario::CallIndirect.specific_wat_beginning_writer(),
        Some(WatBeginningWriter::CallIndirect)
    );
    assert_eq!(Scenario::GlobalGet.specific_wat_beginning_writer(), Some(WatBeginningWriter::GlobalGet));
    assert_eq!(Scenario::GlobalSet.specific_wat_beginning_writer(), Some(WatBeginningWriter::GlobalSet));
    let with_header = ALL.iter().filter(|s| s.specific_wat_beginning_writer().is_some()).count();
    assert_eq!(with_header, 4);
}

#[test]
fn only_local_scenarios_start_the_entry_point_body() {
    assert_eq!(
        Scenario::LocalGet.specific_exported_func_beginning_writer(),
        Some(ExportedFuncBeginningWriter::LocalGet)
    );
    assert_eq!(
        Scenario::LocalSet.specific_exported_func_beginning_writer(),
        Some(ExportedFuncBeginningWriter::LocalSet)
    );
    assert_eq!(
        Scenario::LocalTee.specific_exported_func_beginning_writer(),
        Some(ExportedFuncBeginningWriter::LocalTee)
    );
    let with_locals = ALL
        .iter()
        .filter(|s| s.specific_exported_func_beginning_writer().is_some())
        .count();
    assert_eq!(with_locals, 3);
    assert_eq!(Scenario::I32Add.specific_exported_func_beginning_writer(), None);
}

#[test]
fn binary_i32_scenarios_use_their_instruction() {
    assert_eq!(
        Scenario::I32Add.wat_ops_writer(),
        WatOpsWriter::InstructionWith2Args1Return { data_type: DataType::I32, instruction: "add" }
    );
    assert_eq!(
        Scenario::I32ShrU.wat_ops_writer(),
        WatOpsWriter::InstructionWith2Args1Return { data_type: DataType::I32, instruction: "shr_u" }
    );
    assert_eq!(
        Scenario::I32GtU.wat_ops_writer(),
        WatOpsWriter::InstructionWith2Args1Return { data_type: DataType::I32, instruction: "gt_u" }
    );
}

#[test]
fn unary_i32_scenarios_use_their_instruction() {
    assert_eq!(
        Scenario::I32Popcnt.wat_ops_writer(),
        WatOpsWriter::InstructionWith1Arg1Return { data_type: DataType::I32, instruction: "popcnt" }
    );
    assert_eq!(
        Scenario::I32Eqz.wat_ops_writer(),
        WatOpsWriter::InstructionWith1Arg1Return { data_type: DataType::I32, instruction: "eqz" }
    );
}

#[test]
fn conversion_scenarios_name_both_types() {
    assert_eq!(
        Scenario::I32WrapI64.wat_ops_writer(),
        WatOpsWriter::Convert { from: DataType::I64, to: DataType::I32, instruction: "wrap_i64" }
    );
    assert_eq!(
        Scenario::I64ExtendI32S.wat_ops_writer(),
        WatOpsWriter::Convert { from: DataType::I32, to: DataType::I64, instruction: "extend_i32_s" }
    );
}

#[test]
fn other_scenarios_have_their_own_writer() {
    assert_eq!(Scenario::Call.wat_ops_writer(), WatOpsWriter::Call);
    assert_eq!(Scenario::CallIndirect.wat_ops_writer(), WatOpsWriter::CallIndirect);
    assert_eq!(Scenario::If.wat_ops_writer(), WatOpsWriter::If);
    assert_eq!(Scenario::Select.wat_ops_writer(), WatOpsWriter::Select);
    assert_eq!(Scenario::LocalTee.wat_ops_writer(), WatOpsWriter::LocalTee);
}

#[test]
fn instruction_names_follow_the_scenario_names() {
    for s in ALL {
        let name = format!("{:?}", s);
        match s.wat_ops_writer() {
            WatOpsWriter::InstructionWith1Arg1Return { data_type, instruction }
            | WatOpsWriter::InstructionWith2Args1Return { data_type, instruction } => {
                assert_eq!(data_type, DataType::I32);
                let expected = name.trim_start_matches("I32").to_lowercase();
                assert_eq!(instruction.replace('_', ""), expected);
            }
            WatOpsWriter::Convert { to, .. } => {
                assert!(name.starts_with(if to == DataType::I32 { "I32" } else { "I64" }));
            }
            _ => {}
        }
    }
}
