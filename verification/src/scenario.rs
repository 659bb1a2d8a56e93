//! The benchmark scenarios, and which writer produces each part of a
//! scenario's program. The writers themselves are not part of this crate: the
//! enums below name them, with the arguments a scenario passes, and a caller
//! runs them and hands their output to [`crate::wat::generate_wat`] as a
//! [`crate::wat::ScenarioWat`].
use vstd::prelude::*;

verus! {

/// A benchmarked operation; each scenario yields one benchmark program.
#[derive(Copy, Clone, PartialEq, Eq, Debug, Structural)]
pub enum Scenario {
    I32Add,
    I32And,
    I32Clz,
    I32Ctz,
    I32DivS,
    I32DivU,
    I32Eq,
    I32Eqz,
    I32GeS,
    I32GeU,
    I32GtU,
    I32GtS,
    I32LeU,
    I32LeS,
    I32LtU,
    I32LtS,
    I32Mul,
    I32Ne,
    I32Or,
    I32Popcnt,
    I32RemS,
    I32RemU,
    I32Rotl,
    I32Rotr,
    I32Shl,
    I32ShrS,
    I32ShrU,
    I32Sub,
    I32WrapI64,
    I32Xor,
    I64ExtendI32S,
    Call,
    CallIndirect,
    GlobalGet,
    GlobalSet,
    If,
    LocalGet,
    LocalSet,
    LocalTee,
    Select,
}

/// A WebAssembly value type of the benchmarked instructions.
#[derive(Copy, Clone, PartialEq, Eq, Debug, Structural)]
pub enum DataType {
    I32,
    I64,
}

/// Names the scenario writer (outside this crate) that adds declarations
/// (functions, tables, globals) to the module header.
#[derive(Copy, Clone, PartialEq, Eq, Debug, Structural)]
pub enum WatBeginningWriter {
    Call,
    CallIndirect,
    GlobalGet,
    GlobalSet,
}

/// Names the scenario writer (outside this crate) that starts the entry
/// point's body before the loop (declaring and initialising locals).
#[derive(Copy, Clone, PartialEq, Eq, Debug, Structural)]
pub enum ExportedFuncBeginningWriter {
    LocalGet,
    LocalSet,
    LocalTee,
}

/// Names the scenario writer (outside this crate) that produces the operations
/// of one loop iteration, with the arguments it is given besides the number of
/// operations.
#[derive(Copy, Clone, PartialEq, Eq, Debug)]
pub enum WatOpsWriter {
    Call,
    CallIndirect,
    GlobalGet,
    GlobalSet,
    If,
    LocalGet,
    LocalSet,
    LocalTee,
    Select,
    /// An instruction `<data_type>.<instruction>` that pops one operand and
    /// pushes one result.
    InstructionWith1Arg1Return { data_type: DataType, instruction: &'static str },
    /// An instruction `<data_type>.<instruction>` that pops two operands and
    /// pushes one result.
    InstructionWith2Args1Return { data_type: DataType, instruction: &'static str },
    /// A conversion `<to>.<instruction>` from a value of type `from`.
    Convert { from: DataType, to: DataType, instruction: &'static str },
}

/// The writer of `scenario`'s declarations in the module header, if it has any.
pub open spec fn wat_beginning_writer_of(scenario: Scenario) -> Option<WatBeginningWriter> {
    match scenario {
        Scenario::Call => Some(WatBeginningWriter::Call),
        Scenario::CallIndirect => Some(WatBeginningWriter::CallIndirect),
        Scenario::GlobalGet => Some(WatBeginningWriter::GlobalGet),
        Scenario::GlobalSet => Some(WatBeginningWriter::GlobalSet),
        _ => None,
    }
}

/// The writer of `scenario`'s start of the entry point's body, if it has any.
pub open spec fn exported_func_beginning_writer_of(scenario: Scenario) -> Option<
    ExportedFuncBeginningWriter,
> {
    match scenario {
        Scenario::LocalGet => Some(ExportedFuncBeginningWriter::LocalGet),
        Scenario::LocalSet => Some(ExportedFuncBeginningWriter::LocalSet),
        Scenario::LocalTee => Some(ExportedFuncBeginningWriter::LocalTee),
        _ => None,
    }
}

/// An `i32` instruction with one operand and one result.
pub open spec fn unary_i32(instruction: &'static str) -> WatOpsWriter {
    WatOpsWriter::InstructionWith1Arg1Return { data_type: DataType::I32, instruction }
}

/// An `i32` instruction with two operands and one result.
pub open spec fn binary_i32(instruction: &'static str) -> WatOpsWriter {
    WatOpsWriter::InstructionWith2Args1Return { data_type: DataType::I32, instruction }
}

/// The writer of the operations of one of `scenario`'s loop iterations: the
/// `i32` instructions are named as in the WebAssembly text format.
pub open spec fn wat_ops_writer_of(scenario: Scenario) -> WatOpsWriter {
    match scenario {
        Scenario::I32Add => binary_i32("add"),
        Scenario::I32And => binary_i32("and"),
        Scenario::I32Clz => unary_i32("clz"),
        Scenario::I32Ctz => unary_i32("ctz"),
        Scenario::I32DivS => binary_i32("div_s"),
        Scenario::I32DivU => binary_i32("div_u"),
        Scenario::I32Eq => binary_i32("eq"),
        Scenario::I32Eqz => unary_i32("eqz"),
        Scenario::I32GeS => binary_i32("ge_s"),
        Scenario::I32GeU => binary_i32("ge_u"),
        Scenario::I32GtU => binary_i32("gt_u"),
        Scenario::I32GtS => binary_i32("gt_s"),
        Scenario::I32LeU => binary_i32("le_u"),
        Scenario::I32LeS => binary_i32("le_s"),
        Scenario::I32LtU => binary_i32("lt_u"),
        Scenario::I32LtS => binary_i32("lt_s"),
        Scenario::I32Mul => binary_i32("mul"),
        Scenario::I32Ne => binary_i32("ne"),
        Scenario::I32Or => binary_i32("or"),
        Scenario::I32Popcnt => unary_i32("popcnt"),
        Scenario::I32RemS => binary_i32("rem_s"),
        Scenario::I32RemU => binary_i32("rem_u"),
        Scenario::I32Rotl => binary_i32("rotl"),
        Scenario::I32Rotr => binary_i32("rotr"),
        Scenario::I32Shl => binary_i32("shl"),
        Scenario::I32ShrS => binary_i32("shr_s"),
        Scenario::I32ShrU => binary_i32("shr_u"),
        Scenario::I32Sub => binary_i32("sub"),
        Scenario::I32WrapI64 => WatOpsWriter::Convert {
            from: DataType::I64,
            to: DataType::I32,
            instruction: "wrap_i64",
        },
        Scenario::I32Xor => binary_i32("xor"),
        Scenario::I64ExtendI32S => WatOpsWriter::Convert {
            from: DataType::I32,
            to: DataType::I64,
            instruction: "extend_i32_s",
        },
        Scenario::Call => WatOpsWriter::Call,
        Scenario::CallIndirect => WatOpsWriter::CallIndirect,
        Scenario::GlobalGet => WatOpsWriter::GlobalGet,
        Scenario::GlobalSet => WatOpsWriter::GlobalSet,
        Scenario::If => WatOpsWriter::If,
        Scenario::LocalGet => WatOpsWriter::LocalGet,
        Scenario::LocalSet => WatOpsWriter::LocalSet,
        Scenario::LocalTee => WatOpsWriter::LocalTee,
        Scenario::Select => WatOpsWriter::Select,
    }
}

impl Scenario {
    /// The writer of this scenario's declarations in the module header, or
    /// `None` where the scenario adds none.
    pub fn specific_wat_beginning_writer(&self) -> (writer: Option<WatBeginningWriter>)
        ensures
            writer == wat_beginning_writer_of(*self),
    {
        match self {
            Scenario::Call => Some(WatBeginningWriter::Call),
            Scenario::CallIndirect => Some(WatBeginningWriter::CallIndirect),
            Scenario::GlobalGet => Some(WatBeginningWriter::GlobalGet),
            Scenario::GlobalSet => Some(WatBeginningWriter::GlobalSet),
            Scenario::I32Add => None,
            Scenario::I32And => None,
            Scenario::I32Clz => None,
            Scenario::I32Ctz => None,
            Scenario::I32DivS => None,
            Scenario::I32DivU => None,
            Scenario::I32Eq => None,
            Scenario::I32Eqz => None,
            Scenario::I32GeS => None,
            Scenario::I32GeU => None,
            Scenario::I32GtU => None,
            Scenario::I32GtS => None,
            Scenario::I32LeU => None,
            Scenario::I32LeS => None,
            Scenario::I32LtU => None,
            Scenario::I32LtS => None,
            Scenario::I32Mul => None,
            Scenario::I32Ne => None,
            Scenario::I32Or => None,
            Scenario::I32Popcnt => None,
            Scenario::I32RemS => None,
            Scenario::I32RemU => None,
            Scenario::I32Rotl => None,
            Scenario::I32Rotr => None,
            Scenario::I32Shl => None,
            Scenario::I32ShrS => None,
            Scenario::I32ShrU => None,
            Scenario::I32Sub => None,
            Scenario::I32WrapI64 => None,
            Scenario::I32Xor => None,
            Scenario::I64ExtendI32S => None,
            Scenario::If => None,
            Scenario::LocalGet => None,
            Scenario::LocalSet => None,
            Scenario::LocalTee => None,
            Scenario::Select => None,
        }
    }

    /// The writer of this scenario's start of the entry point's body, or
    /// `None` where the scenario adds nothing there.
    pub fn specific_exported_func_beginning_writer(&self) -> (writer: Option<
        ExportedFuncBeginningWriter,
    >)
        ensures
            writer == exported_func_beginning_writer_of(*self),
    {
        match self {
            Scenario::LocalGet => Some(ExportedFuncBeginningWriter::LocalGet),
            Scenario::LocalSet => Some(ExportedFuncBeginningWriter::LocalSet),
            Scenario::LocalTee => Some(ExportedFuncBeginningWriter::LocalTee),
            Scenario::Call => None,
            Scenario::CallIndirect => None,
            Scenario::GlobalGet => None,
            Scenario::GlobalSet => None,
            Scenario::I32Add => None,
            Scenario::I32And => None,
            Scenario::I32Clz => None,
            Scenario::I32Ctz => None,
            Scenario::I32DivS => None,
            Scenario::I32DivU => None,
            Scenario::I32Eq => None,
            Scenario::I32Eqz => None,
            Scenario::I32GeS => None,
            Scenario::I32GeU => None,
            Scenario::I32GtU => None,
            Scenario::I32GtS => None,
            Scenario::I32LeU => None,
            Scenario::I32LeS => None,
            Scenario::I32LtU => None,
            Scenario::I32LtS => None,
            Scenario::I32Mul => None,
            Scenario::I32Ne => None,
            Scenario::I32Or => None,
            Scenario::I32Popcnt => None,
            Scenario::I32RemS => None,
            Scenario::I32RemU => None,
            Scenario::I32Rotl => None,
            Scenario::I32Rotr => None,
            Scenario::I32Shl => None,
            Scenario::I32ShrS => None,
            Scenario::I32ShrU => None,
            Scenario::I32Sub => None,
            Scenario::I32WrapI64 => None,
            Scenario::I32Xor => None,
            Scenario::I64ExtendI32S => None,
            Scenario::If => None,
            Scenario::Select => None,
        }
    }

    /// The writer of the operations of one of this scenario's loop iterations.
    pub fn wat_ops_writer(&self) -> (writer: WatOpsWriter)
        ensures
            writer == wat_ops_writer_of(*self),
    {
        match self {
            Scenario::Call => WatOpsWriter::Call,
            Scenario::CallIndirect => WatOpsWriter::CallIndirect,
            Scenario::GlobalGet => WatOpsWriter::GlobalGet,
            Scenario::GlobalSet => WatOpsWriter::GlobalSet,
            Scenario::I32Add => WatOpsWriter::InstructionWith2Args1Return {
                data_type: DataType::I32,
                instruction: "add",
            },
            Scenario::I32And => WatOpsWriter::InstructionWith2Args1Return {
                data_type: DataType::I32,
                instruction: "and",
            },
            Scenario::I32Clz => WatOpsWriter::InstructionWith1Arg1Return {
                data_type: DataType::I32,
                instruction: "clz",
            },
            Scenario::I32Ctz => WatOpsWriter::InstructionWith1Arg1Return {
                data_type: DataType::I32,
                instruction: "ctz",
            },
            Scenario::I32DivS => WatOpsWriter::InstructionWith2Args1Return {
                data_type: DataType::I32,
                instruction: "div_s",
            },
            Scenario::I32DivU => WatOpsWriter::InstructionWith2Args1Return {
                data_type: DataType::I32,
                instruction: "div_u",
            },
            Scenario::I32Eq => WatOpsWriter::InstructionWith2Args1Return {
                data_type: DataType::I32,
                instruction: "eq",
            },
            Scenario::I32Eqz => WatOpsWriter::InstructionWith1Arg1Return {
                data_type: DataType::I32,
                instruction: "eqz",
            },
            Scenario::I32GeS => WatOpsWriter::InstructionWith2Args1Return {
                data_type: DataType::I32,
                instruction: "ge_s",
            },
            Scenario::I32GeU => WatOpsWriter::InstructionWith2Args1Return {
                data_type: DataType::I32,
                instruction: "ge_u",
            },
            Scenario::I32GtU => WatOpsWriter::InstructionWith2Args1Return {
                data_type: DataType::I32,
                instruction: "gt_u",
            },
            Scenario::I32GtS => WatOpsWriter::InstructionWith2Args1Return {
                data_type: DataType::I32,
                instruction: "gt_s",
            },
            Scenario::I32LeU => WatOpsWriter::InstructionWith2Args1Return {
                data_type: DataType::I32,
                instruction: "le_u",
            },
            Scenario::I32LeS => WatOpsWriter::InstructionWith2Args1Return {
                data_type: DataType::I32,
                instruction: "le_s",
            },
            Scenario::I32LtU => WatOpsWriter::InstructionWith2Args1Return {
                data_type: DataType::I32,
                instruction: "lt_u",
            },
            Scenario::I32LtS => WatOpsWriter::InstructionWith2Args1Return {
                data_type: DataType::I32,
                instruction: "lt_s",
            },
            Scenario::I32Mul => WatOpsWriter::InstructionWith2Args1Return {
                data_type: DataType::I32,
                instruction: "mul",
            },
            Scenario::I32Ne => WatOpsWriter::InstructionWith2Args1Return {
                data_type: DataType::I32,
                instruction: "ne",
            },
            Scenario::I32Or => WatOpsWriter::InstructionWith2Args1Return {
                data_type: DataType::I32,
                instruction: "or",
            },
            Scenario::I32Popcnt => WatOpsWriter::InstructionWith1Arg1Return {
                data_type: DataType::I32,
                instruction: "popcnt",
            },
            Scenario::I32RemS => WatOpsWriter::InstructionWith2Args1Return {
                data_type: DataType::I32,
                instruction: "rem_s",
            },
            Scenario::I32RemU => WatOpsWriter::InstructionWith2Args1Return {
                data_type: DataType::I32,
                instruction: "rem_u",
            },
            Scenario::I32Rotl => WatOpsWriter::InstructionWith2Args1Return {
                data_type: DataType::I32,
                instruction: "rotl",
            },
            Scenario::I32Rotr => WatOpsWriter::InstructionWith2Args1Return {
                data_type: DataType::I32,
                instruction: "rotr",
            },
            Scenario::I32Shl => WatOpsWriter::InstructionWith2Args1Return {
                data_type: DataType::I32,
                instruction: "shl",
            },
            Scenario::I32ShrS => WatOpsWriter::InstructionWith2Args1Return {
                data_type: DataType::I32,
                instruction: "shr_s",
            },
            Scenario::I32ShrU => WatOpsWriter::InstructionWith2Args1Return {
                data_type: DataType::I32,
                instruction: "shr_u",
            },
            Scenario::I32Sub => WatOpsWriter::InstructionWith2Args1Return {
                data_type: DataType::I32,
                instruction: "sub",
            },
            Scenario::I32WrapI64 => WatOpsWriter::Convert {
                from: DataType::I64,
                to: DataType::I32,
                instruction: "wrap_i64",
            },
            Scenario::I32Xor => WatOpsWriter::InstructionWith2Args1Return {
                data_type: DataType::I32,
                instruction: "xor",
            },
            Scenario::I64ExtendI32S => WatOpsWriter::Convert {
                from: DataType::I32,
                to: DataType::I64,
                instruction: "extend_i32_s",
            },
            Scenario::If => WatOpsWriter::If,
            Scenario::LocalGet => WatOpsWriter::LocalGet,
            Scenario::LocalSet => WatOpsWriter::LocalSet,
            Scenario::LocalTee => WatOpsWriter::LocalTee,
            Scenario::Select => WatOpsWriter::Select,
        }
    }
}

/// The operations writer that belongs with a header writer.
pub open spec fn ops_writer_with_wat_beginning(writer: WatBeginningWriter) -> WatOpsWriter {
    match writer {
        WatBeginningWriter::Call => WatOpsWriter::Call,
        WatBeginningWriter::CallIndirect => WatOpsWriter::CallIndirect,
        WatBeginningWriter::GlobalGet => WatOpsWriter::GlobalGet,
        WatBeginningWriter::GlobalSet => WatOpsWriter::GlobalSet,
    }
}

/// The operations writer that belongs with an entry-point writer.
pub open spec fn ops_writer_with_exported_func_beginning(
    writer: ExportedFuncBeginningWriter,
) -> WatOpsWriter {
    match writer {
        ExportedFuncBeginningWriter::LocalGet => WatOpsWriter::LocalGet,
        ExportedFuncBeginningWriter::LocalSet => WatOpsWriter::LocalSet,
        ExportedFuncBeginningWriter::LocalTee => WatOpsWriter::LocalTee,
    }
}

/// The parts of one scenario's program come from one writer: where a scenario
/// adds declarations to the header or starts the entry point's body, its
/// operations come from the writer of the same name, and no scenario does
/// both; the scenarios that benchmark a single instruction add nothing outside
/// the loop, and every `i32` instruction scenario works on `i32` values.
pub proof fn lemma_scenario_parts_agree(scenario: Scenario)
    ensures
        wat_beginning_writer_of(scenario) matches Some(w) ==> wat_ops_writer_of(scenario)
            == ops_writer_with_wat_beginning(w),
        exported_func_beginning_writer_of(scenario) matches Some(w) ==> wat_ops_writer_of(
            scenario,
        ) == ops_writer_with_exported_func_beginning(w),
        !(wat_beginning_writer_of(scenario) is Some && exported_func_beginning_writer_of(
            scenario,
        ) is Some),
        wat_ops_writer_of(scenario) is InstructionWith1Arg1Return || wat_ops_writer_of(
            scenario,
        ) is InstructionWith2Args1Return || wat_ops_writer_of(scenario) is Convert
            ==> wat_beginning_writer_of(scenario) is None && exported_func_beginning_writer_of(
            scenario,
        ) is None,
        wat_ops_writer_of(scenario) matches WatOpsWriter::InstructionWith1Arg1Return {
            data_type,
            ..
        } ==> data_type == DataType::I32,
        wat_ops_writer_of(scenario) matches WatOpsWriter::InstructionWith2Args1Return {
            data_type,
            ..
        } ==> data_type == DataType::I32,
        wat_ops_writer_of(scenario) matches WatOpsWriter::Convert { from, to, .. } ==> from
            != to,
{
}

/// The arity of each benchmarked `i32` instruction, as WebAssembly defines
/// it: `clz`, `ctz`, `popcnt` and `eqz` pop one operand; the arithmetic,
/// bitwise, shift, rotate and comparison instructions pop two; the two
/// conversions change the value type. Every other scenario benchmarks
/// something other than a single instruction.
pub proof fn lemma_i32_instruction_arity(scenario: Scenario)
    ensures
        wat_ops_writer_of(scenario) is InstructionWith1Arg1Return <==> (scenario is I32Clz
            || scenario is I32Ctz
            || scenario is I32Popcnt
            || scenario is I32Eqz
        ),
        wat_ops_writer_of(scenario) is InstructionWith2Args1Return <==> (scenario is I32Add
            || scenario is I32And
            || scenario is I32DivS
            || scenario is I32DivU
            || scenario is I32Eq
            || scenario is I32GeS
            || scenario is I32GeU
            || scenario is I32GtU
            || scenario is I32GtS
            || scenario is I32LeU
            || scenario is I32LeS
            || scenario is I32LtU
            || scenario is I32LtS
            || scenario is I32Mul
            || scenario is I32Ne
            || scenario is I32Or
            || scenario is I32RemS
            || scenario is I32RemU
            || scenario is I32Rotl
            || scenario is I32Rotr
            || scenario is I32Shl
            || scenario is I32ShrS
            || scenario is I32ShrU
            || scenario is I32Sub
            || scenario is I32Xor
        ),
        wat_ops_writer_of(scenario) is Convert <==> (scenario is I32WrapI64
            || scenario is I64ExtendI32S),
{
}

/// Each `i32` instruction scenario benchmarks the instruction of the same
/// name in the WebAssembly text format (`I32DivS` is `i32.div_s`), with its
/// arity; the conversions read the source type and produce the target type.
pub proof fn lemma_i32_instruction_names()
    ensures
        wat_ops_writer_of(Scenario::I32Add) == (WatOpsWriter::InstructionWith2Args1Return {
            data_type: DataType::I32,
            instruction: "add",
        }),
        wat_ops_writer_of(Scenario::I32And) == (WatOpsWriter::InstructionWith2Args1Return {
            data_type: DataType::I32,
            instruction: "and",
        }),
        wat_ops_writer_of(Scenario::I32DivS) == (WatOpsWriter::InstructionWith2Args1Return {
            data_type: DataType::I32,
            instruction: "div_s",
        }),
        wat_ops_writer_of(Scenario::I32DivU) == (WatOpsWriter::InstructionWith2Args1Return {
            data_type: DataType::I32,
            instruction: "div_u",
        }),
        wat_ops_writer_of(Scenario::I32Eq) == (WatOpsWriter::InstructionWith2Args1Return {
            data_type: DataType::I32,
            instruction: "eq",
        }),
        wat_ops_writer_of(Scenario::I32GeS) == (WatOpsWriter::InstructionWith2Args1Return {
            data_type: DataType::I32,
            instruction: "ge_s",
        }),
        wat_ops_writer_of(Scenario::I32GeU) == (WatOpsWriter::InstructionWith2Args1Return {
            data_type: DataType::I32,
            instruction: "ge_u",
        }),
        wat_ops_writer_of(Scenario::I32GtU) == (WatOpsWriter::InstructionWith2Args1Return {
            data_type: DataType::I32,
            instruction: "gt_u",
        }),
        wat_ops_writer_of(Scenario::I32GtS) == (WatOpsWriter::InstructionWith2Args1Return {
            data_type: DataType::I32,
            instruction: "gt_s",
        }),
        wat_ops_writer_of(Scenario::I32LeU) == (WatOpsWriter::InstructionWith2Args1Return {
            data_type: DataType::I32,
            instruction: "le_u",
        }),
        wat_ops_writer_of(Scenario::I32LeS) == (WatOpsWriter::InstructionWith2Args1Return {
            data_type: DataType::I32,
            instruction: "le_s",
        }),
        wat_ops_writer_of(Scenario::I32LtU) == (WatOpsWriter::InstructionWith2Args1Return {
            data_type: DataType::I32,
            instruction: "lt_u",
        }),
        wat_ops_writer_of(Scenario::I32LtS) == (WatOpsWriter::InstructionWith2Args1Return {
            data_type: DataType::I32,
            instruction: "lt_s",
        }),
        wat_ops_writer_of(Scenario::I32Mul) == (WatOpsWriter::InstructionWith2Args1Return {
            data_type: DataType::I32,
            instruction: "mul",
        }),
        wat_ops_writer_of(Scenario::I32Ne) == (WatOpsWriter::InstructionWith2Args1Return {
            data_type: DataType::I32,
            instruction: "ne",
        }),
        wat_ops_writer_of(Scenario::I32Or) == (WatOpsWriter::InstructionWith2Args1Return {
            data_type: DataType::I32,
            instruction: "or",
        }),
        wat_ops_writer_of(Scenario::I32RemS) == (WatOpsWriter::InstructionWith2Args1Return {
            data_type: DataType::I32,
            instruction: "rem_s",
        }),
        wat_ops_writer_of(Scenario::I32RemU) == (WatOpsWriter::InstructionWith2Args1Return {
            data_type: DataType::I32,
            instruction: "rem_u",
        }),
        wat_ops_writer_of(Scenario::I32Rotl) == (WatOpsWriter::InstructionWith2Args1Return {
            data_type: DataType::I32,
            instruction: "rotl",
        }),
        wat_ops_writer_of(Scenario::I32Rotr) == (WatOpsWriter::InstructionWith2Args1Return {
            data_type: DataType::I32,
            instruction: "rotr",
        }),
        wat_ops_writer_of(Scenario::I32Shl) == (WatOpsWriter::InstructionWith2Args1Return {
            data_type: DataType::I32,
            instruction: "shl",
        }),
        wat_ops_writer_of(Scenario::I32ShrS) == (WatOpsWriter::InstructionWith2Args1Return {
            data_type: DataType::I32,
            instruction: "shr_s",
        }),
        wat_ops_writer_of(Scenario::I32ShrU) == (WatOpsWriter::InstructionWith2Args1Return {
            data_type: DataType::I32,
            instruction: "shr_u",
        }),
        wat_ops_writer_of(Scenario::I32Sub) == (WatOpsWriter::InstructionWith2Args1Return {
            data_type: DataType::I32,
            instruction: "sub",
        }),
        wat_ops_writer_of(Scenario::I32Xor) == (WatOpsWriter::InstructionWith2Args1Return {
            data_type: DataType::I32,
            instruction: "xor",
        }),
        wat_ops_writer_of(Scenario::I32Clz) == (WatOpsWriter::InstructionWith1Arg1Return {
            data_type: DataType::I32,
            instruction: "clz",
        }),
        wat_ops_writer_of(Scenario::I32Ctz) == (WatOpsWriter::InstructionWith1Arg1Return {
            data_type: DataType::I32,
            instruction: "ctz",
        }),
        wat_ops_writer_of(Scenario::I32Popcnt) == (WatOpsWriter::InstructionWith1Arg1Return {
            data_type: DataType::I32,
            instruction: "popcnt",
        }),
        wat_ops_writer_of(Scenario::I32Eqz) == (WatOpsWriter::InstructionWith1Arg1Return {
            data_type: DataType::I32,
            instruction: "eqz",
        }),
        wat_ops_writer_of(Scenario::I32WrapI64) == (WatOpsWriter::Convert {
            from: DataType::I64,
            to: DataType::I32,
            instruction: "wrap_i64",
        }),
        wat_ops_writer_of(Scenario::I64ExtendI32S) == (WatOpsWriter::Convert {
            from: DataType::I32,
            to: DataType::I64,
            instruction: "extend_i32_s",
        }),
{
}

/// The scenarios that need more than a loop body: calls need the callee (and
/// a table for indirect calls) declared in the module header, global accesses
/// need the global declared there, and local accesses need the local declared
/// at the start of the entry point; each such scenario's operations come from
/// the writer of the same name, and every other scenario adds nothing outside
/// the loop.
pub proof fn lemma_scenario_declarations(scenario: Scenario)
    ensures
        wat_beginning_writer_of(scenario) is Some <==> (scenario is Call || scenario is CallIndirect
            || scenario is GlobalGet || scenario is GlobalSet),
        exported_func_beginning_writer_of(scenario) is Some <==> (scenario is LocalGet
            || scenario is LocalSet || scenario is LocalTee),
        wat_beginning_writer_of(Scenario::Call) == Some(WatBeginningWriter::Call),
        wat_beginning_writer_of(Scenario::CallIndirect) == Some(WatBeginningWriter::CallIndirect),
        wat_beginning_writer_of(Scenario::GlobalGet) == Some(WatBeginningWriter::GlobalGet),
        wat_beginning_writer_of(Scenario::GlobalSet) == Some(WatBeginningWriter::GlobalSet),
        exported_func_beginning_writer_of(Scenario::LocalGet) == Some(
            ExportedFuncBeginningWriter::LocalGet,
        ),
        exported_func_beginning_writer_of(Scenario::LocalSet) == Some(
            ExportedFuncBeginningWriter::LocalSet,
        ),
        exported_func_beginning_writer_of(Scenario::LocalTee) == Some(
            ExportedFuncBeginningWriter::LocalTee,
        ),
        wat_ops_writer_of(Scenario::Call) == WatOpsWriter::Call,
        wat_ops_writer_of(Scenario::CallIndirect) == WatOpsWriter::CallIndirect,
        wat_ops_writer_of(Scenario::GlobalGet) == WatOpsWriter::GlobalGet,
        wat_ops_writer_of(Scenario::GlobalSet) == WatOpsWriter::GlobalSet,
        wat_ops_writer_of(Scenario::If) == WatOpsWriter::If,
        wat_ops_writer_of(Scenario::LocalGet) == WatOpsWriter::LocalGet,
        wat_ops_writer_of(Scenario::LocalSet) == WatOpsWriter::LocalSet,
        wat_ops_writer_of(Scenario::LocalTee) == WatOpsWriter::LocalTee,
        wat_ops_writer_of(Scenario::Select) == WatOpsWriter::Select,
{
}

} // verus!
