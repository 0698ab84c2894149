use vstd::prelude::*;

use crate::frame::{pushed_value, Frame, StepAction, StepResult};
use crate::heap::CommonDataStore;
use crate::semantics::{operand_i16, step_spec};
use crate::value::{pop_int_spec, JavaType};
use crate::vm::{handle_spec, Dispatch, VirtualMachine, VirtualMachineError};

verus! {

/// An instruction that pushes a `long` (`ldc2_w`, `ladd`, `lsub`, `lmul`, `ldiv`)
/// leaves a `Filler` on top of the operand stack with the `Long` right beneath it.
pub proof fn lemma_long_push_shape(
    f: Frame,
    d: CommonDataStore,
    f2: Frame,
    d2: CommonDataStore,
    r: StepResult<StepAction>,
)
    requires
        f.wf(),
        step_spec(f, d, f2, d2, r),
        r is Ok,
        f.pc() < f.code().len(),
        f.code()[f.pc()] == 20 || f.code()[f.pc()] == 97 || f.code()[f.pc()] == 101 || f.code()[f.pc()] == 105
            || f.code()[f.pc()] == 109,
    ensures
        f2.stack().len() >= 2,
        f2.stack().last() == JavaType::Filler,
        f2.stack()[f2.stack().len() - 2] is Long,
{
}

/// `if_icmpge` pops its two `int`s whichever way it goes, and when the first is
/// less than the second it goes on with the next instruction.
pub proof fn lemma_if_icmpge(
    f: Frame,
    d: CommonDataStore,
    f2: Frame,
    d2: CommonDataStore,
    r: StepResult<StepAction>,
)
    requires
        f.wf(),
        step_spec(f, d, f2, d2, r),
        r is Ok,
        f.pc() < f.code().len(),
        f.code()[f.pc()] == 162,
    ensures
        f2.stack() == f.stack().drop_last().drop_last(),
        f2.locals() == f.locals(),
        d2 == d,
        ({
            let v2 = pop_int_spec(f.stack())->Ok_0;
            let v1 = pop_int_spec(f.stack().drop_last())->Ok_0;
            &&& v1 < v2 ==> f2.pc() == f.pc() + 3
            &&& v1 >= v2 ==> f2.pc() == f.pc() + operand_i16(f)
        }),
{
}

/// A static call followed by the callee's return leaves the frame stack as deep
/// as before the call; a returned value is the one new item on the caller's
/// operand stack.
///
/// `stack` holds the frames beneath the caller. The call is handled into `vm1`;
/// the callee, on top of `vm1`, then stepped to `callee` and returned with `ret`,
/// handled into `vm2`.
pub proof fn lemma_invoke_return_round_trip(
    loader: crate::loader::BaseClassLoader,
    stack: Seq<Frame>,
    ds: CommonDataStore,
    caller: Frame,
    call: StepAction,
    vm1: VirtualMachine,
    ds1: CommonDataStore,
    callee: Frame,
    ret: StepAction,
    vm2: VirtualMachine,
    r2: Result<Dispatch, VirtualMachineError>,
)
    requires
        call is InvokeStaticMethod,
        handle_spec(loader, stack, ds, caller, call, vm1, Ok(Dispatch::Running)),
        ret is ReturnValue || ret is EndOfMethod,
        handle_spec(vm1.loader, vm1.stack@.drop_last(), ds1, callee, ret, vm2, r2),
    ensures
        r2 == Ok::<Dispatch, VirtualMachineError>(Dispatch::Running),
        vm2.stack@.len() == stack.len() + 1,
        vm2.stack@.drop_last() == stack,
        ret is EndOfMethod ==> vm2.stack@.last() == caller,
        ret is ReturnValue ==> pushed_value(caller, vm2.stack@.last(), ret->ReturnValue_0),
{
    assert(vm1.stack@.drop_last() == stack.push(caller));
    assert(stack.push(caller).drop_last() =~= stack);
}

} // verus!
