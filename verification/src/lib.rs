//! Generation of the WebAssembly text (WAT) programs that benchmark single
//! Stylus operations: each program runs a loop whose body repeats one kind of
//! operation many times, and counts the operations it executed.
pub mod decimal;
pub mod scenario;
pub mod wat;

pub use decimal::usize_to_decimal;
pub use scenario::{DataType, ExportedFuncBeginningWriter, Scenario, WatBeginningWriter, WatOpsWriter};
pub use wat::{
    generate_checked_wat, generate_wat, generate_wat_with_loop, write_common_wat_beginning, write_exported_func_beginning,
    write_loop_beginning, write_wat_end, ScenarioWat, NUMBER_OF_LOOP_ITERATIONS,
    NUMBER_OF_OPS_PER_LOOP_ITERATION,
};
