//! Model of the freestanding runtime shell: the single entry point, the
//! embedded greeting it writes to the console, and the two-state fault
//! policy (running or halted, with halted terminal).

use vstd::prelude::*;

verus! {

/// The runtime fault machine has exactly two states. `Running` is where the
/// image starts; any unrecoverable fault moves it to `Halted`, which is
/// terminal: only an external reset of the whole execution environment can
/// leave it.
#[derive(Clone, Copy, PartialEq, Eq, Structural, Debug)]
pub enum SystemState {
    Running,
    Halted,
}

/// One call into the console driver: the name of the exported symbol that is
/// invoked, and the bytes a pointer to which is handed to it. The callee
/// expects the bytes to end with a null terminator.
#[derive(Debug)]
pub struct ConsoleCall {
    pub symbol: Vec<u8>,
    pub bytes: Vec<u8>,
}

/// The bytes of the embedded greeting literal, `"Hello Rust!"`, followed by
/// the null terminator the console driver requires: twelve bytes in all.
pub open spec fn greeting_spec() -> Seq<u8> {
    seq![72u8, 101u8, 108u8, 108u8, 111u8, 32u8, 82u8, 117u8, 115u8, 116u8, 33u8, 0u8]
}

/// The name of the console driver's write symbol, `write`.
pub open spec fn write_symbol_spec() -> Seq<u8> {
    seq![119u8, 114u8, 105u8, 116u8, 101u8]
}

/// The greeting message as it is handed to the console driver: the literal
/// bytes followed by exactly one null terminator, and no null byte anywhere
/// before it.
pub fn greeting_message() -> (r: Vec<u8>)
    ensures
        r@ == greeting_spec(),
        r@.len() == 12,
        r@[11] == 0u8,
        forall|i: int| 0 <= i < 11 ==> r@[i] != 0u8,
{
    let mut v: Vec<u8> = Vec::new();
    v.push(72u8);
    v.push(101u8);
    v.push(108u8);
    v.push(108u8);
    v.push(111u8);
    v.push(32u8);
    v.push(82u8);
    v.push(117u8);
    v.push(115u8);
    v.push(116u8);
    v.push(33u8);
    v.push(0u8);
    proof {
        assert(v@ =~= greeting_spec());
    }
    v
}

/// The entry point's observable behaviour: invoked by the platform loader
/// with no arguments, it performs exactly one call into the console-write
/// binding, handing it the null-terminated greeting bytes. The caller that
/// actually crosses the foreign-function boundary performs precisely the
/// calls returned here, in order.
pub fn entry_point() -> (calls: Vec<ConsoleCall>)
    ensures
        calls@.len() == 1,
        calls@[0].symbol@ == write_symbol_spec(),
        calls@[0].bytes@ == greeting_spec(),
{
    let bytes = greeting_message();
    let mut symbol: Vec<u8> = Vec::new();
    symbol.push(119u8);
    symbol.push(114u8);
    symbol.push(105u8);
    symbol.push(116u8);
    symbol.push(101u8);
    proof {
        assert(symbol@ =~= write_symbol_spec());
    }
    let mut calls: Vec<ConsoleCall> = Vec::new();
    calls.push(ConsoleCall { symbol, bytes });
    calls
}

/// The fault policy as a transition function: an unrecoverable fault moves
/// the machine to `Halted` from every state, including `Halted` itself.
pub open spec fn fault_transition(s: SystemState) -> SystemState {
    SystemState::Halted
}

/// Handle an unrecoverable fault: from any state the machine halts.
pub fn handle_fault(s: SystemState) -> (r: SystemState)
    ensures
        r == fault_transition(s),
        r is Halted,
{
    SystemState::Halted
}

/// One iteration of the halted handler's loop: the state does not change and
/// no console call is made. The handler runs this step forever; it performs
/// no instruction with an observable effect.
pub fn halted_step(s: SystemState) -> (r: (SystemState, Option<ConsoleCall>))
    requires
        s is Halted,
    ensures
        r.0 is Halted,
        r.1 is None,
{
    (s, None)
}

/// A fault from anywhere halts the machine, and the halted state is
/// terminal: a further fault leaves the machine halted, and there is no
/// transition out of `Halted` at all.
pub proof fn lemma_halted_is_terminal(s: SystemState)
    ensures
        fault_transition(s) is Halted,
        fault_transition(SystemState::Halted) == SystemState::Halted,
{
}

} // verus!
