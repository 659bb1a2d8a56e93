//! The parts of a benchmark program that every scenario shares, and the
//! assembly of a whole program from them and a scenario's own parts.
//!
//! Programs to be benchmarked have a loop in which several similar operations
//! are executed. The number of operations per loop iteration is chosen large
//! enough for the overhead of the loop to be negligible, and small enough to
//! keep the program small, so that its code stays in the CPU cache.
use vstd::prelude::*;
use crate::decimal::{append_decimal, decimal};
use crate::scenario::{exported_func_beginning_writer_of, wat_beginning_writer_of, Scenario};

verus! {

/// Loop iterations of every generated benchmark program.
pub const NUMBER_OF_LOOP_ITERATIONS: usize = 200_000;

/// Operations per loop iteration of every generated benchmark program.
pub const NUMBER_OF_OPS_PER_LOOP_ITERATION: usize = 2000;

/// The UTF-8 bytes of a piece of text.
pub open spec fn text(s: &str) -> Seq<u8> {
    vstd::utf8::encode_utf8(s@)
}

/// Appends the bytes of `s` to `wat`.
fn append_text(wat: &mut Vec<u8>, s: &str)
    ensures
        final(wat)@ == old(wat)@ + text(s),
{
    wat.extend_from_slice(s.as_bytes());
    assert(final(wat)@ =~= old(wat)@ + text(s));
}

/// The module header: the two imported benchmark hooks, an empty exported
/// memory and the operations counter.
pub open spec fn common_wat_beginning() -> Seq<u8> {
    text("(module\n")
        + text("    (import \"debug\" \"start_benchmark\" (func $start_benchmark))\n")
        + text("    (import \"debug\" \"end_benchmark\" (func $end_benchmark))\n")
        + text("    (memory (export \"memory\") 0 0)\n")
        + text("    (global $ops_counter (mut i32) (i32.const 0))\n")
}

/// The header of the exported entry point.
pub open spec fn exported_func_beginning() -> Seq<u8> {
    text("    (func (export \"user_entrypoint\") (param i32) (result i32)\n")
}

/// The start of the benchmark and the head of its loop.
pub open spec fn loop_beginning() -> Seq<u8> {
    text("        call $start_benchmark\n") + text("        (loop $loop\n")
}

/// The line `i32.const <n>` of the loop's tail.
pub open spec fn i32_const_line(n: nat) -> Seq<u8> {
    text("            i32.const ") + decimal(n) + text("\n")
}

/// The part of the loop body that adds `step` to the operations counter.
pub open spec fn ops_counter_update(step: nat) -> Seq<u8> {
    text("            global.get $ops_counter\n") + i32_const_line(step) + text(
        "            i32.add\n",
    ) + text("            global.set $ops_counter\n")
}

/// The part of the loop body that jumps back to the loop's head while the
/// operations counter is below `number_of_ops`.
pub open spec fn loop_condition(number_of_ops: nat) -> Seq<u8> {
    text("            global.get $ops_counter\n") + i32_const_line(number_of_ops) + text(
        "            i32.lt_s\n",
    ) + text("            br_if $loop)\n")
}

/// What follows the loop: the end of the benchmark, the entry point's result
/// and the end of the module.
pub open spec fn benchmark_end() -> Seq<u8> {
    text("        call $end_benchmark\n") + text("        i32.const 0)\n") + text(")")
}

/// The end of the loop body, which adds `number_of_ops_per_loop_iteration` to
/// the operations counter and loops while the counter is below
/// `number_of_loop_iterations * number_of_ops_per_loop_iteration`; then the end
/// of the benchmark, the entry point's result and the end of the module.
pub open spec fn wat_end(
    number_of_loop_iterations: nat,
    number_of_ops_per_loop_iteration: nat,
) -> Seq<u8> {
    ops_counter_update(number_of_ops_per_loop_iteration) + loop_condition(
        number_of_loop_iterations * number_of_ops_per_loop_iteration,
    ) + benchmark_end()
}

/// Appends the module header that every benchmark program starts with.
pub fn write_common_wat_beginning(wat: &mut Vec<u8>)
    ensures
        final(wat)@ == old(wat)@ + common_wat_beginning(),
{
    append_text(wat, "(module\n");
    append_text(wat, "    (import \"debug\" \"start_benchmark\" (func $start_benchmark))\n");
    append_text(wat, "    (import \"debug\" \"end_benchmark\" (func $end_benchmark))\n");
    append_text(wat, "    (memory (export \"memory\") 0 0)\n");
    append_text(wat, "    (global $ops_counter (mut i32) (i32.const 0))\n");
    assert(final(wat)@ =~= old(wat)@ + common_wat_beginning());
}

/// Appends the header of the exported entry point.
pub fn write_exported_func_beginning(wat: &mut Vec<u8>)
    ensures
        final(wat)@ == old(wat)@ + exported_func_beginning(),
{
    append_text(wat, "    (func (export \"user_entrypoint\") (param i32) (result i32)\n");
}

/// Appends the call that starts the benchmark and the head of its loop.
pub fn write_loop_beginning(wat: &mut Vec<u8>)
    ensures
        final(wat)@ == old(wat)@ + loop_beginning(),
{
    append_text(wat, "        call $start_benchmark\n");
    append_text(wat, "        (loop $loop\n");
    assert(final(wat)@ =~= old(wat)@ + loop_beginning());
}

/// Appends an `i32.const` line with `n` in decimal.
fn write_i32_const_line(wat: &mut Vec<u8>, n: usize)
    ensures
        final(wat)@ == old(wat)@ + i32_const_line(n as nat),
{
    append_text(wat, "            i32.const ");
    append_decimal(wat, n);
    append_text(wat, "\n");
    assert(final(wat)@ =~= old(wat)@ + i32_const_line(n as nat));
}

/// Appends the update of the operations counter by `step`.
fn write_ops_counter_update(wat: &mut Vec<u8>, step: usize)
    ensures
        final(wat)@ == old(wat)@ + ops_counter_update(step as nat),
{
    append_text(wat, "            global.get $ops_counter\n");
    write_i32_const_line(wat, step);
    append_text(wat, "            i32.add\n");
    append_text(wat, "            global.set $ops_counter\n");
    assert(final(wat)@ =~= old(wat)@ + ops_counter_update(step as nat));
}

/// Appends the jump back to the loop's head while the counter is below
/// `number_of_ops`.
fn write_loop_condition(wat: &mut Vec<u8>, number_of_ops: usize)
    ensures
        final(wat)@ == old(wat)@ + loop_condition(number_of_ops as nat),
{
    append_text(wat, "            global.get $ops_counter\n");
    write_i32_const_line(wat, number_of_ops);
    append_text(wat, "            i32.lt_s\n");
    append_text(wat, "            br_if $loop)\n");
    assert(final(wat)@ =~= old(wat)@ + loop_condition(number_of_ops as nat));
}

/// Appends the end of the benchmark, the entry point's result and the end of
/// the module.
fn write_benchmark_end(wat: &mut Vec<u8>)
    ensures
        final(wat)@ == old(wat)@ + benchmark_end(),
{
    append_text(wat, "        call $end_benchmark\n");
    append_text(wat, "        i32.const 0)\n");
    append_text(wat, ")");
    assert(final(wat)@ =~= old(wat)@ + benchmark_end());
}

/// Appends the tail of the loop, which counts the operations of one iteration
/// and loops until all operations have been executed, and the end of the
/// module.
pub fn write_wat_end(
    wat: &mut Vec<u8>,
    number_of_loop_iterations: usize,
    number_of_ops_per_loop_iteration: usize,
)
    requires
        number_of_loop_iterations * number_of_ops_per_loop_iteration <= usize::MAX,
    ensures
        final(wat)@ == old(wat)@ + wat_end(
            number_of_loop_iterations as nat,
            number_of_ops_per_loop_iteration as nat,
        ),
{
    let number_of_ops = number_of_loop_iterations * number_of_ops_per_loop_iteration;

    // update ops_counter
    write_ops_counter_update(wat, number_of_ops_per_loop_iteration);

    // check if we need to continue looping
    write_loop_condition(wat, number_of_ops);

    write_benchmark_end(wat);
    assert(final(wat)@ =~= old(wat)@ + wat_end(
        number_of_loop_iterations as nat,
        number_of_ops_per_loop_iteration as nat,
    ));
}

} // verus!

verus! {

/// The text that a scenario's own writers produce for the three places where
/// benchmark programs differ: declarations added to the module header, the
/// start of the entry point's body before the loop, and the operations of one
/// loop iteration. Those writers are not part of this crate: a caller runs the
/// writers that [`crate::scenario::Scenario`]'s dispatch methods name, and
/// hands their output here, with the number of operations it asked the
/// operations writer for.
pub struct ScenarioWat {
    pub specific_wat_beginning: Vec<u8>,
    pub specific_exported_func_beginning: Vec<u8>,
    pub wat_ops: Vec<u8>,
    /// How many operations `wat_ops` holds: the count its writer was given.
    pub number_of_ops_per_loop_iteration: usize,
}

/// Whether `parts` can be `scenario`'s: a part is empty where the scenario has
/// no writer for it, and the operations were written for
/// [`NUMBER_OF_OPS_PER_LOOP_ITERATION`] operations, the step by which the
/// loop's counter grows.
pub open spec fn parts_fit_scenario(parts: ScenarioWat, scenario: Scenario) -> bool {
    &&& wat_beginning_writer_of(scenario) is None ==> parts.specific_wat_beginning@
        == Seq::<u8>::empty()
    &&& exported_func_beginning_writer_of(scenario) is None
        ==> parts.specific_exported_func_beginning@ == Seq::<u8>::empty()
    &&& parts.number_of_ops_per_loop_iteration == NUMBER_OF_OPS_PER_LOOP_ITERATION
}

impl ScenarioWat {
    /// Whether these parts can be `scenario`'s (see [`parts_fit_scenario`]).
    pub fn fits(&self, scenario: Scenario) -> (fits: bool)
        ensures
            fits == parts_fit_scenario(*self, scenario),
    {
        let beginning_ok = match scenario.specific_wat_beginning_writer() {
            Some(_) => true,
            None => self.specific_wat_beginning.len() == 0,
        };
        let exported_ok = match scenario.specific_exported_func_beginning_writer() {
            Some(_) => true,
            None => self.specific_exported_func_beginning.len() == 0,
        };
        proof {
            if self.specific_wat_beginning.len() == 0 {
                assert(self.specific_wat_beginning@ =~= Seq::<u8>::empty());
            }
            if self.specific_exported_func_beginning.len() == 0 {
                assert(self.specific_exported_func_beginning@ =~= Seq::<u8>::empty());
            }
        }
        beginning_ok && exported_ok && self.number_of_ops_per_loop_iteration
            == NUMBER_OF_OPS_PER_LOOP_ITERATION
    }
}

/// A whole benchmark program: the shared header, the scenario's declarations,
/// the entry point's header, the scenario's start of the body, the loop's head,
/// the scenario's operations and the loop's tail with the end of the module.
pub open spec fn benchmark_wat(
    specific_wat_beginning: Seq<u8>,
    specific_exported_func_beginning: Seq<u8>,
    wat_ops: Seq<u8>,
    number_of_loop_iterations: nat,
    number_of_ops_per_loop_iteration: nat,
) -> Seq<u8> {
    common_wat_beginning() + specific_wat_beginning + exported_func_beginning()
        + specific_exported_func_beginning + loop_beginning() + wat_ops + wat_end(
        number_of_loop_iterations,
        number_of_ops_per_loop_iteration,
    )
}

/// Appends `part` to `wat`.
fn append_bytes(wat: &mut Vec<u8>, part: &Vec<u8>)
    ensures
        final(wat)@ == old(wat)@ + part@,
{
    wat.extend_from_slice(part.as_slice());
    assert(final(wat)@ =~= old(wat)@ + part@);
}

/// The benchmark program made of `parts`, whose loop runs
/// `number_of_loop_iterations` times; the loop's counter grows per iteration
/// by the number of operations that `parts.wat_ops` holds.
pub fn generate_wat_with_loop(parts: &ScenarioWat, number_of_loop_iterations: usize) -> (wat: Vec<
    u8,
>)
    requires
        number_of_loop_iterations * parts.number_of_ops_per_loop_iteration <= usize::MAX,
    ensures
        wat@ == benchmark_wat(
            parts.specific_wat_beginning@,
            parts.specific_exported_func_beginning@,
            parts.wat_ops@,
            number_of_loop_iterations as nat,
            parts.number_of_ops_per_loop_iteration as nat,
        ),
{
    let mut wat: Vec<u8> = Vec::new();

    write_common_wat_beginning(&mut wat);
    append_bytes(&mut wat, &parts.specific_wat_beginning);

    write_exported_func_beginning(&mut wat);
    append_bytes(&mut wat, &parts.specific_exported_func_beginning);
    write_loop_beginning(&mut wat);

    append_bytes(&mut wat, &parts.wat_ops);

    write_wat_end(&mut wat, number_of_loop_iterations, parts.number_of_ops_per_loop_iteration);

    assert(wat@ =~= benchmark_wat(
        parts.specific_wat_beginning@,
        parts.specific_exported_func_beginning@,
        parts.wat_ops@,
        number_of_loop_iterations as nat,
        parts.number_of_ops_per_loop_iteration as nat,
    ));
    wat
}

/// `scenario`'s benchmark program, made of `parts`, with
/// [`NUMBER_OF_LOOP_ITERATIONS`] iterations of
/// [`NUMBER_OF_OPS_PER_LOOP_ITERATION`] operations each.
pub fn generate_wat(scenario: Scenario, parts: &ScenarioWat) -> (wat: Vec<u8>)
    requires
        parts_fit_scenario(*parts, scenario),
    ensures
        wat@ == benchmark_wat(
            parts.specific_wat_beginning@,
            parts.specific_exported_func_beginning@,
            parts.wat_ops@,
            NUMBER_OF_LOOP_ITERATIONS as nat,
            NUMBER_OF_OPS_PER_LOOP_ITERATION as nat,
        ),
        wat_beginning_writer_of(scenario) is None ==> wat@ == benchmark_wat(
            Seq::<u8>::empty(),
            parts.specific_exported_func_beginning@,
            parts.wat_ops@,
            NUMBER_OF_LOOP_ITERATIONS as nat,
            NUMBER_OF_OPS_PER_LOOP_ITERATION as nat,
        ),
        exported_func_beginning_writer_of(scenario) is None ==> wat@ == benchmark_wat(
            parts.specific_wat_beginning@,
            Seq::<u8>::empty(),
            parts.wat_ops@,
            NUMBER_OF_LOOP_ITERATIONS as nat,
            NUMBER_OF_OPS_PER_LOOP_ITERATION as nat,
        ),
{
    generate_wat_with_loop(parts, NUMBER_OF_LOOP_ITERATIONS)
}

/// `scenario`'s benchmark program made of `parts` where they fit the scenario
/// (see [`parts_fit_scenario`]), and `None` where they do not.
pub fn generate_checked_wat(scenario: Scenario, parts: &ScenarioWat) -> (wat: Option<Vec<u8>>)
    ensures
        wat is Some <==> parts_fit_scenario(*parts, scenario),
        wat matches Some(w) ==> w@ == benchmark_wat(
            parts.specific_wat_beginning@,
            parts.specific_exported_func_beginning@,
            parts.wat_ops@,
            NUMBER_OF_LOOP_ITERATIONS as nat,
            NUMBER_OF_OPS_PER_LOOP_ITERATION as nat,
        ),
{
    if parts.fits(scenario) {
        Some(generate_wat(scenario, parts))
    } else {
        None
    }
}

/// How many times the body of a loop runs that starts with the counter at
/// `counter`, adds `step` to it at the end of each iteration, and runs again
/// while the counter is below `limit` (the body runs at least once).
pub open spec fn loop_trip_count(counter: int, step: nat, limit: int) -> nat
    decreases limit - counter,
    when step > 0
{
    if counter + step < limit {
        1 + loop_trip_count(counter + step, step, limit)
    } else {
        1
    }
}

/// The loop that [`write_wat_end`] closes runs exactly
/// `number_of_loop_iterations` times, and so executes
/// `number_of_loop_iterations * number_of_ops_per_loop_iteration` operations:
/// the counter starts at zero, grows by `number_of_ops_per_loop_iteration` per
/// iteration, and the loop stops once it is no longer below their product.
/// Within the bound below the `i32` counter never wraps.
pub proof fn lemma_loop_runs_number_of_loop_iterations(
    number_of_loop_iterations: nat,
    number_of_ops_per_loop_iteration: nat,
)
    requires
        number_of_loop_iterations >= 1,
        number_of_ops_per_loop_iteration >= 1,
        number_of_loop_iterations * number_of_ops_per_loop_iteration <= i32::MAX,
    ensures
        loop_trip_count(
            0,
            number_of_ops_per_loop_iteration,
            (number_of_loop_iterations * number_of_ops_per_loop_iteration) as int,
        ) == number_of_loop_iterations,
{
    lemma_remaining_trips(0, number_of_loop_iterations, number_of_ops_per_loop_iteration);
}

/// After `done` of `total` iterations, the loop runs `total - done` more times.
proof fn lemma_remaining_trips(done: nat, total: nat, step: nat)
    requires
        done < total,
        step >= 1,
    ensures
        loop_trip_count((done * step) as int, step, (total * step) as int) == total - done,
    decreases total - done,
{
    assert(done * step + step == (done + 1) * step) by (nonlinear_arith);
    if done + 1 < total {
        assert((done + 1) * step < total * step) by (nonlinear_arith)
            requires
                done + 1 < total,
                step >= 1,
        ;
        lemma_remaining_trips(done + 1, total, step);
    } else {
        assert((done + 1) * step == total * step);
    }
}

/// Every benchmark program is one module: it starts with `(module` on its
/// own line and ends with the `)` that closes it.
pub proof fn lemma_benchmark_wat_is_one_module(
    specific_wat_beginning: Seq<u8>,
    specific_exported_func_beginning: Seq<u8>,
    wat_ops: Seq<u8>,
    number_of_loop_iterations: nat,
    number_of_ops_per_loop_iteration: nat,
)
    ensures
        ({
            let wat = benchmark_wat(
                specific_wat_beginning,
                specific_exported_func_beginning,
                wat_ops,
                number_of_loop_iterations,
                number_of_ops_per_loop_iteration,
            );
            &&& wat.len() > 8
            &&& wat.take(8) == seq!['(' as u8, 'm' as u8, 'o' as u8, 'd' as u8, 'u' as u8, 'l' as u8, 'e' as u8, '\n' as u8]
            &&& wat.last() == ')' as u8
        }),
{
    reveal_strlit("(module\n");
    reveal_strlit(")");
    vstd::utf8::is_ascii_chars_encode_utf8("(module\n"@);
    vstd::utf8::is_ascii_chars_encode_utf8(")"@);
    let head = text("(module\n");
    let wat = benchmark_wat(
        specific_wat_beginning,
        specific_exported_func_beginning,
        wat_ops,
        number_of_loop_iterations,
        number_of_ops_per_loop_iteration,
    );
    assert(wat.take(8) =~= head);
    assert(head =~= seq!['(' as u8, 'm' as u8, 'o' as u8, 'd' as u8, 'u' as u8, 'l' as u8, 'e' as u8, '\n' as u8]);
    assert(text(")") =~= seq![')' as u8]);
    assert(wat.last() == benchmark_end().last());
}

/// Where each part stands in a benchmark program: the shared header first,
/// then the scenario's declarations, the entry point's header, the scenario's
/// start of the body, the loop's head, the scenario's operations, and the
/// loop's tail last; every part is there whole, whatever the others hold.
pub proof fn lemma_benchmark_wat_layout(
    specific_wat_beginning: Seq<u8>,
    specific_exported_func_beginning: Seq<u8>,
    wat_ops: Seq<u8>,
    number_of_loop_iterations: nat,
    number_of_ops_per_loop_iteration: nat,
)
    ensures
        ({
            let wat = benchmark_wat(
                specific_wat_beginning,
                specific_exported_func_beginning,
                wat_ops,
                number_of_loop_iterations,
                number_of_ops_per_loop_iteration,
            );
            let end = wat_end(number_of_loop_iterations, number_of_ops_per_loop_iteration);
            let b0 = common_wat_beginning().len() as int;
            let b1 = b0 + specific_wat_beginning.len();
            let b2 = b1 + exported_func_beginning().len();
            let b3 = b2 + specific_exported_func_beginning.len();
            let b4 = b3 + loop_beginning().len();
            let b5 = b4 + wat_ops.len();
            &&& wat.len() == b5 + end.len()
            &&& wat.subrange(0, b0) == common_wat_beginning()
            &&& wat.subrange(b0, b1) == specific_wat_beginning
            &&& wat.subrange(b1, b2) == exported_func_beginning()
            &&& wat.subrange(b2, b3) == specific_exported_func_beginning
            &&& wat.subrange(b3, b4) == loop_beginning()
            &&& wat.subrange(b4, b5) == wat_ops
            &&& wat.subrange(b5, wat.len() as int) == end
        }),
{
    let wat = benchmark_wat(
        specific_wat_beginning,
        specific_exported_func_beginning,
        wat_ops,
        number_of_loop_iterations,
        number_of_ops_per_loop_iteration,
    );
    let end = wat_end(number_of_loop_iterations, number_of_ops_per_loop_iteration);
    let b0 = common_wat_beginning().len() as int;
    let b1 = b0 + specific_wat_beginning.len();
    let b2 = b1 + exported_func_beginning().len();
    let b3 = b2 + specific_exported_func_beginning.len();
    let b4 = b3 + loop_beginning().len();
    let b5 = b4 + wat_ops.len();
    assert(wat.subrange(0, b0) =~= common_wat_beginning());
    assert(wat.subrange(b0, b1) =~= specific_wat_beginning);
    assert(wat.subrange(b1, b2) =~= exported_func_beginning());
    assert(wat.subrange(b2, b3) =~= specific_exported_func_beginning);
    assert(wat.subrange(b3, b4) =~= loop_beginning());
    assert(wat.subrange(b4, b5) =~= wat_ops);
    assert(wat.subrange(b5, wat.len() as int) =~= end);
}

/// The loop's tail, line by line.
proof fn lemma_wat_end_text(number_of_loop_iterations: nat, number_of_ops_per_loop_iteration: nat)
    ensures
        wat_end(number_of_loop_iterations, number_of_ops_per_loop_iteration) == text(
            "            global.get $ops_counter\n",
        ) + text("            i32.const ") + decimal(number_of_ops_per_loop_iteration) + text(
            "\n",
        ) + text("            i32.add\n") + text("            global.set $ops_counter\n") + text(
            "            global.get $ops_counter\n",
        ) + text("            i32.const ") + decimal(
            number_of_loop_iterations * number_of_ops_per_loop_iteration,
        ) + text("\n") + text("            i32.lt_s\n") + text("            br_if $loop)\n")
            + text("        call $end_benchmark\n") + text("        i32.const 0)\n") + text(")"),
{
    let k = number_of_ops_per_loop_iteration;
    let total = number_of_loop_iterations * number_of_ops_per_loop_iteration;
    let g = text("            global.get $ops_counter\n");
    let ic = text("            i32.const ");
    let nl = text("\n");
    let update = g + ic + decimal(k) + nl + text("            i32.add\n") + text(
        "            global.set $ops_counter\n",
    );
    assert(ops_counter_update(k) =~= update);
    let condition = g + ic + decimal(total) + nl + text("            i32.lt_s\n") + text(
        "            br_if $loop)\n",
    );
    assert(loop_condition(total) =~= condition);
    let tail = text("        call $end_benchmark\n") + text("        i32.const 0)\n") + text(")");
    assert(wat_end(number_of_loop_iterations, k) == update + condition + tail);
    assert(update + condition + tail =~= update + g + ic + decimal(total) + nl + text(
        "            i32.lt_s\n",
    ) + text("            br_if $loop)\n") + text("        call $end_benchmark\n") + text(
        "        i32.const 0)\n",
    ) + text(")"));
}

/// The loop's tail counts one iteration's operations and stops after all of
/// them: the counter update adds the constant `number_of_ops_per_loop_iteration`
/// (its digits read back as that number), the loop condition compares the
/// counter with `number_of_loop_iterations * number_of_ops_per_loop_iteration`
/// (likewise), and with that step and limit the loop runs exactly
/// `number_of_loop_iterations` times, within `i32` range.
pub proof fn lemma_wat_end_counts_operations(
    number_of_loop_iterations: nat,
    number_of_ops_per_loop_iteration: nat,
)
    ensures
        wat_end(number_of_loop_iterations, number_of_ops_per_loop_iteration) == text(
            "            global.get $ops_counter\n",
        ) + text("            i32.const ") + decimal(number_of_ops_per_loop_iteration) + text(
            "\n",
        ) + text("            i32.add\n") + text("            global.set $ops_counter\n") + text(
            "            global.get $ops_counter\n",
        ) + text("            i32.const ") + decimal(
            number_of_loop_iterations * number_of_ops_per_loop_iteration,
        ) + text("\n") + text("            i32.lt_s\n") + text("            br_if $loop)\n")
            + text("        call $end_benchmark\n") + text("        i32.const 0)\n") + text(")"),
        crate::decimal::decimal_value(decimal(number_of_ops_per_loop_iteration))
            == number_of_ops_per_loop_iteration,
        crate::decimal::decimal_value(
            decimal(number_of_loop_iterations * number_of_ops_per_loop_iteration),
        ) == number_of_loop_iterations * number_of_ops_per_loop_iteration,
        number_of_loop_iterations >= 1 && number_of_ops_per_loop_iteration >= 1
            && number_of_loop_iterations * number_of_ops_per_loop_iteration <= i32::MAX
            ==> loop_trip_count(
            0,
            number_of_ops_per_loop_iteration,
            (number_of_loop_iterations * number_of_ops_per_loop_iteration) as int,
        ) == number_of_loop_iterations,
{
    crate::decimal::lemma_decimal_reads_back(number_of_ops_per_loop_iteration);
    crate::decimal::lemma_decimal_reads_back(
        number_of_loop_iterations * number_of_ops_per_loop_iteration,
    );
    if number_of_loop_iterations >= 1 && number_of_ops_per_loop_iteration >= 1
        && number_of_loop_iterations * number_of_ops_per_loop_iteration <= i32::MAX {
        lemma_loop_runs_number_of_loop_iterations(
            number_of_loop_iterations,
            number_of_ops_per_loop_iteration,
        );
    }
    lemma_wat_end_text(number_of_loop_iterations, number_of_ops_per_loop_iteration);
}

/// Which parts a scenario accepts: header declarations only for the call and
/// global scenarios, a start of the entry point's body only for the local
/// scenarios, any such bytes there, and operations written for
/// [`NUMBER_OF_OPS_PER_LOOP_ITERATION`] operations.
pub proof fn lemma_parts_fit_scenario(parts: ScenarioWat, scenario: Scenario)
    ensures
        parts_fit_scenario(parts, scenario) <==> ((parts.specific_wat_beginning@.len() == 0
            || scenario is Call || scenario is CallIndirect || scenario is GlobalGet
            || scenario is GlobalSet) && (parts.specific_exported_func_beginning@.len() == 0
            || scenario is LocalGet || scenario is LocalSet || scenario is LocalTee)
            && parts.number_of_ops_per_loop_iteration == NUMBER_OF_OPS_PER_LOOP_ITERATION),
{
    if parts.specific_wat_beginning@.len() == 0 {
        assert(parts.specific_wat_beginning@ =~= Seq::<u8>::empty());
    }
    if parts.specific_exported_func_beginning@.len() == 0 {
        assert(parts.specific_exported_func_beginning@ =~= Seq::<u8>::empty());
    }
}

} // verus!
