use stylus_benchmark::{
    generate_checked_wat, generate_wat, Scenario, generate_wat_with_loop, write_common_wat_beginning, write_exported_func_beginning,
    write_loop_beginning, write_wat_end, ScenarioWat, NUMBER_OF_LOOP_ITERATIONS,
    NUMBER_OF_OPS_PER_LOOP_ITERATION,
};

const COMMON: &str = "(module\n    (import \"debug\" \"start_benchmark\" (func $start_benchmark))\n    (import \"debug\" \"end_benchmark\" (func $end_benchmark))\n    (memory (export \"memory\") 0 0)\n    (global $ops_counter (mut i32) (i32.const 0))\n";
const EXPORTED: &str = "    (func (export \"user_entrypoint\") (param i32) (result i32)\n";
const LOOP: &str = "        call $start_benchmark\n        (loop $loop\n";

fn end_text(ops_per_iteration: usize, ops: usize) -> String {
    format!(
        "            global.get $ops_counter\n            i32.const {}\n            i32.add\n            global.set $ops_counter\n            global.get $ops_counter\n            i32.const {}\n            i32.lt_s\n            br_if $loop)\n        call $end_benchmark\n        i32.const 0)\n)",
        ops_per_iteration, ops
    )
}

#[test]
fn common_wat_beginning_is_the_module_header() {
    let mut wat = Vec::new();
    write_common_wat_beginning(&mut wat);
    assert_eq!(String::from_utf8(wat).unwrap(), COMMON);
}

#[test]
fn writers_append_to_what_is_there() {
    let mut wat = b"prefix".to_vec();
    write_exported_func_beginning(&mut wat);
    write_loop_beginning(&mut wat);
    assert_eq!(String::from_utf8(wat).unwrap(), format!("prefix{}{}", EXPORTED, LOOP));
}

#[test]
fn wat_end_counts_all_operations() {
    let mut wat = Vec::new();
    write_wat_end(&mut wat, 200_000, 2000);
    assert_eq!(String::from_utf8(wat).unwrap(), end_text(2000, 400_000_000));
}

#[test]
fn wat_end_with_small_numbers() {
    let mut wat = Vec::new();
    write_wat_end(&mut wat, 3, 7);
    assert_eq!(String::from_utf8(wat).unwrap(), end_text(7, 21));
    let mut wat = Vec::new();
    write_wat_end(&mut wat, 0, 10);
    assert_eq!(String::from_utf8(wat).unwrap(), end_text(10, 0));
}

#[test]
fn generate_wat_assembles_the_parts_in_order() {
    let parts = ScenarioWat {
        specific_wat_beginning: b"    (global $g (mut i32) (i32.const 0))\n".to_vec(),
        specific_exported_func_beginning: b"        (local $l i32)\n".to_vec(),
        wat_ops: b"            nop\n".to_vec(),
        number_of_ops_per_loop_iteration: NUMBER_OF_OPS_PER_LOOP_ITERATION,
    };
    let wat = generate_wat(Scenario::GlobalGet, &parts);
    let expected = format!(
        "{}    (global $g (mut i32) (i32.const 0))\n{}        (local $l i32)\n{}            nop\n{}",
        COMMON,
        EXPORTED,
        LOOP,
        end_text(NUMBER_OF_OPS_PER_LOOP_ITERATION, NUMBER_OF_LOOP_ITERATIONS * NUMBER_OF_OPS_PER_LOOP_ITERATION)
    );
    assert_eq!(String::from_utf8(wat).unwrap(), expected);
}

#[test]
fn generate_wat_with_empty_parts() {
    let parts = ScenarioWat {
        specific_wat_beginning: Vec::new(),
        specific_exported_func_beginning: Vec::new(),
        wat_ops: Vec::new(),
        number_of_ops_per_loop_iteration: 4,
    };
    let wat = generate_wat_with_loop(&parts, 5);
    let expected = format!("{}{}{}{}", COMMON, EXPORTED, LOOP, end_text(4, 20));
    assert_eq!(String::from_utf8(wat.clone()).unwrap(), expected);
    assert!(wat.starts_with(b"(module\n"));
    assert_eq!(*wat.last().unwrap(), b')');
}

#[test]
fn loop_constants_are_the_benchmark_sizes() {
    assert_eq!(NUMBER_OF_LOOP_ITERATIONS, 200_000);
    assert_eq!(NUMBER_OF_OPS_PER_LOOP_ITERATION, 2000);
}

#[test]
fn loop_runs_the_number_of_iterations() {
    // Simulates the emitted loop: add the ops of one iteration, loop while below the total.
    for (iterations, step) in [(1usize, 1usize), (3, 7), (200_000, 2000)] {
        let limit = (iterations * step) as i32;
        let mut counter: i32 = 0;
        let mut trips = 0usize;
        loop {
            trips += 1;
            counter += step as i32;
            if !(counter < limit) {
                break;
            }
        }
        assert_eq!(trips, iterations);
        assert_eq!(counter, limit);
    }
}

fn parts(beginning: &[u8], exported: &[u8], ops_count: usize) -> ScenarioWat {
    ScenarioWat {
        specific_wat_beginning: beginning.to_vec(),
        specific_exported_func_beginning: exported.to_vec(),
        wat_ops: b"            i32.const 1\n            drop\n".to_vec(),
        number_of_ops_per_loop_iteration: ops_count,
    }
}

#[test]
fn checked_wat_accepts_parts_that_fit() {
    let p = parts(b"", b"", NUMBER_OF_OPS_PER_LOOP_ITERATION);
    let wat = generate_checked_wat(Scenario::I32Add, &p).unwrap();
    assert_eq!(wat, generate_wat(Scenario::I32Add, &p));
    let p = parts(b"    (global $g (mut i32) (i32.const 0))\n", b"", NUMBER_OF_OPS_PER_LOOP_ITERATION);
    assert!(generate_checked_wat(Scenario::GlobalSet, &p).is_some());
    let p = parts(b"", b"        (local $l i32)\n", NUMBER_OF_OPS_PER_LOOP_ITERATION);
    assert!(generate_checked_wat(Scenario::LocalTee, &p).is_some());
}

#[test]
fn checked_wat_refuses_parts_of_another_scenario() {
    let header = parts(b"    (global $g (mut i32) (i32.const 0))\n", b"", NUMBER_OF_OPS_PER_LOOP_ITERATION);
    assert!(generate_checked_wat(Scenario::I32Add, &header).is_none());
    assert!(!header.fits(Scenario::LocalGet));
    let locals = parts(b"", b"        (local $l i32)\n", NUMBER_OF_OPS_PER_LOOP_ITERATION);
    assert!(generate_checked_wat(Scenario::Call, &locals).is_none());
}

#[test]
fn checked_wat_refuses_another_operation_count() {
    let p = parts(b"", b"", NUMBER_OF_OPS_PER_LOOP_ITERATION + 1);
    assert!(generate_checked_wat(Scenario::Select, &p).is_none());
    assert!(!p.fits(Scenario::Select));
}
