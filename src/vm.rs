use vstd::prelude::*;
use vstd::string::*;

use std::rc::Rc;

use crate::classfile::{is_native, method_index, ClassFile};
use crate::frame::{frame_fits, is_new_frame, pushed_value, Frame, StepAction, StepError, StepResult};
use crate::heap::{
    default_fields, is_new_array, is_new_object, CommonDataStore, DataStoreError, HeapAllocation,
    ObjectHeap,
};
use crate::loader::BaseClassLoader;
use crate::semantics::step_spec;
use crate::text::{char_from_unit, decimal, decimal_string, is_scalar_unit, push_char};
use crate::value::JavaType;

verus! {

/// The class whose instances string constants become.
pub const STRING_CLASS: &'static str = "java/lang/String";

/// The field of a string object that refers to its character array.
pub const STRING_VALUE_FIELD: &'static str = "value";

/// The method that initializes a class.
pub const CLASS_INITIALIZER: &'static str = "<clinit>";

/// The method a run starts with.
pub const MAIN_METHOD: &'static str = "main";

/// Deepest frame stack a run may build.
pub const MAX_STACK_DEPTH: usize = 256;

/// What each line printed by a program starts with.
pub const OUTPUT_PREFIX: &'static str = "OUT: ";

/// Why a run stopped. Every one of these is fatal.
#[derive(Debug)]
pub enum VirtualMachineError {
    ClassNotFound(String),
    MethodNotFound(String),
    /// The method has no code, or its arguments do not fit its locals.
    InvalidMethod(String),
    StackOverflow,
    ReturnWithoutCaller,
    HeapExhausted,
    StringTooLong,
    /// A string constant holds a character that one UTF-16 unit cannot hold.
    UnsupportedCharacter(char),
    Step(StepError),
    DataStore(DataStoreError),
    MissingPrintArgument,
    UnexpectedPrintArgument(&'static str),
    UnexpectedPrintClass(String),
    InvalidCharacter(u16),
}

/// What one dispatch iteration came to.
#[derive(Debug)]
pub enum Dispatch {
    /// The run goes on.
    Running,
    /// The program printed this line; the run goes on.
    Output(String),
    /// The frame stack is empty: the run is over.
    Finished,
    /// This class must be loaded before the run can go on; the pending action is
    /// handled at the next dispatch.
    NeedClass(String),
}

pub type DispatchResult = Result<Dispatch, VirtualMachineError>;

/// An action that waits for a class to be loaded, with the frame that asked for it.
pub struct PendingAction {
    pub frame: Frame,
    pub action: StepAction,
}

/// The driver: the frame stack, the data store and the loaded classes.
pub struct VirtualMachine {
    pub loader: BaseClassLoader,
    pub data_store: CommonDataStore,
    pub stack: Vec<Frame>,
    pub pending: Option<PendingAction>,
}

pub open spec fn frames_wf(frames: Seq<Frame>) -> bool {
    forall|i: int| 0 <= i < frames.len() ==> #[trigger] frames[i].wf()
}

/// The text that the `Char` elements `units` spell, if each is a character on its own.
pub open spec fn units_text(units: Seq<JavaType>) -> Option<Seq<char>>
    decreases units.len(),
{
    if units.len() == 0 {
        Some(Seq::empty())
    } else {
        match (units_text(units.drop_last()), units.last()) {
            (Some(t), JavaType::Char { value }) => if is_scalar_unit(value) {
                Some(t.push(value as char))
            } else {
                None
            },
            _ => None,
        }
    }
}

/// Why the elements `units` spell no text: the first that is not a `Char`
/// holding a character on its own.
pub open spec fn units_error(units: Seq<JavaType>) -> Option<VirtualMachineError>
    decreases units.len(),
{
    if units.len() == 0 {
        None
    } else {
        match units_error(units.drop_last()) {
            Some(e) => Some(e),
            None => match units.last() {
                JavaType::Char { value } => if is_scalar_unit(value) {
                    None
                } else {
                    Some(VirtualMachineError::InvalidCharacter(value))
                },
                other => Some(VirtualMachineError::UnexpectedPrintArgument(other.friendly_name())),
            },
        }
    }
}

/// `e` is why the string object at handle `h` cannot be read.
pub open spec fn string_error(heap: ObjectHeap, h: u64, e: VirtualMachineError) -> bool {
    match heap.entity(h) {
        None => e == VirtualMachineError::DataStore(DataStoreError::InvalidPointer(h)),
        Some(HeapAllocation::Array(_)) => e == VirtualMachineError::DataStore(DataStoreError::UnexpectedHeapType),
        Some(HeapAllocation::Object(o)) => if o.class_name@ != STRING_CLASS@ {
            e matches VirtualMachineError::UnexpectedPrintClass(n) && n@ == o.class_name@
        } else if !o.instance_variables@.contains_key(STRING_VALUE_FIELD@) {
            e matches VirtualMachineError::DataStore(DataStoreError::FieldNotFound(n)) && n@ == STRING_VALUE_FIELD@
        } else {
            match o.instance_variables@[STRING_VALUE_FIELD@] {
                JavaType::Reference { value } => match heap.entity(value) {
                    None => e == VirtualMachineError::DataStore(DataStoreError::InvalidPointer(value)),
                    Some(HeapAllocation::Object(_)) => e == VirtualMachineError::DataStore(
                        DataStoreError::UnexpectedHeapType,
                    ),
                    Some(HeapAllocation::Array(a)) => units_error(a.store@) == Some(e),
                },
                other => e == VirtualMachineError::UnexpectedPrintArgument(other.friendly_name()),
            }
        },
    }
}

/// `e` is why the print intrinsic cannot write its arguments `args`.
pub open spec fn print_error(heap: ObjectHeap, args: Seq<JavaType>, e: VirtualMachineError) -> bool {
    if args.len() == 0 {
        e == VirtualMachineError::MissingPrintArgument
    } else {
        match args.last() {
            JavaType::Int { .. } | JavaType::Byte { .. } | JavaType::Long { .. } => false,
            JavaType::Reference { value } => string_error(heap, value, e),
            other => e == VirtualMachineError::UnexpectedPrintArgument(other.friendly_name()),
        }
    }
}

/// A character that one UTF-16 code unit holds.
pub open spec fn is_unit_char(c: char) -> bool {
    (c as u32) <= 0xFFFF
}

/// Every character of `s` fits one code unit.
pub open spec fn all_unit_chars(s: Seq<char>) -> bool {
    forall|k: int| 0 <= k < s.len() ==> #[trigger] is_unit_char(s[k])
}

/// `c` is the first character of `s` that one code unit cannot hold.
pub open spec fn first_wide_char(s: Seq<char>, c: char) -> bool {
    exists|k: int|
        0 <= k < s.len() && s[k] == c && !is_unit_char(c) && forall|j: int| 0 <= j < k ==> #[trigger] is_unit_char(s[j])
}

/// The `Char` elements that hold the text `s`, one for each character; used where
/// every character of `s` fits one code unit (`all_unit_chars`).
pub open spec fn string_units(s: Seq<char>) -> Seq<JavaType> {
    Seq::new(s.len(), |i: int| JavaType::Char { value: (s[i] as u32) as u16 })
}

/// The text of the string object at handle `h`.
pub open spec fn string_text(heap: ObjectHeap, h: u64) -> Option<Seq<char>> {
    match heap.entity(h) {
        Some(HeapAllocation::Object(o)) => if o.class_name@ == STRING_CLASS@
            && o.instance_variables@.contains_key(STRING_VALUE_FIELD@) {
            match o.instance_variables@[STRING_VALUE_FIELD@] {
                JavaType::Reference { value } => match heap.entity(value) {
                    Some(HeapAllocation::Array(a)) => units_text(a.store@),
                    _ => None,
                },
                _ => None,
            }
        } else {
            None
        },
        _ => None,
    }
}

/// What the print intrinsic writes for `v`.
pub open spec fn value_text(heap: ObjectHeap, v: JavaType) -> Option<Seq<char>> {
    match v {
        JavaType::Int { value } => Some(decimal(value as int)),
        JavaType::Byte { value } => Some(decimal(value as int)),
        JavaType::Long { value } => Some(decimal(value as int)),
        JavaType::Reference { value } => string_text(heap, value),
        _ => None,
    }
}

/// What the print intrinsic writes for its arguments: the last of them.
pub open spec fn print_text(heap: ObjectHeap, args: Seq<JavaType>) -> Option<Seq<char>> {
    if args.len() == 0 {
        None
    } else {
        value_text(heap, args.last())
    }
}

/// A printed line.
pub open spec fn output_line(text: Seq<char>) -> Seq<char> {
    OUTPUT_PREFIX@ + text + "\n"@
}

/// The class an action needs loaded before it can be handled.
pub open spec fn required_class(a: StepAction) -> Option<Seq<char>> {
    match a {
        StepAction::InitializeClass(n) => Some(n@),
        StepAction::AllocateClass(n) => Some(n@),
        StepAction::AllocateString(_) => Some(STRING_CLASS@),
        StepAction::InvokeVirtualMethod { class_name, .. } => Some(class_name@),
        StepAction::InvokeSpecialMethod { class_name, .. } => Some(class_name@),
        StepAction::InvokeStaticMethod { class_name, .. } => Some(class_name@),
        _ => None,
    }
}

/// The statics after registering `name`.
pub open spec fn registered(
    statics: Map<Seq<char>, Map<Seq<char>, JavaType>>,
    name: Seq<char>,
) -> Map<Seq<char>, Map<Seq<char>, JavaType>> {
    if statics.contains_key(name) {
        statics
    } else {
        statics.insert(name, Map::empty())
    }
}

/// `class` has an initializer that no frame can run.
pub open spec fn initializer_fails(class: Rc<ClassFile>) -> bool {
    match method_index(class.methods@, CLASS_INITIALIZER@) {
        Some(i) => !frame_fits(*class.methods@[i], Seq::empty()),
        None => false,
    }
}

/// `r` reports an initializer that no frame can run.
pub open spec fn initializer_error(r: DispatchResult) -> bool {
    match r {
        Err(VirtualMachineError::InvalidMethod(n)) => n@ == CLASS_INITIALIZER@,
        _ => false,
    }
}

/// `after` is `before` with a frame for the initializer of `class` on top, if it has one.
pub open spec fn initializer_pushed(before: Seq<Frame>, after: Seq<Frame>, class: Rc<ClassFile>) -> bool {
    match method_index(class.methods@, CLASS_INITIALIZER@) {
        None => after == before,
        Some(i) => {
            &&& after.len() == before.len() + 1
            &&& after.drop_last() == before
            &&& is_new_frame(after.last(), class, class.methods@[i], Seq::empty())
        },
    }
}

/// A new array holding the characters of `s`.
pub open spec fn is_string_array(a: HeapAllocation, s: Seq<char>) -> bool {
    match a {
        HeapAllocation::Array(arr) => arr.count == s.len() && arr.store@ == string_units(s),
        _ => false,
    }
}

/// A new string object of `class` whose value is the array at `array_handle`.
pub open spec fn is_string_object(a: HeapAllocation, class: ClassFile, array_handle: u64) -> bool {
    match a {
        HeapAllocation::Object(o) => o.class_name@ == class.name@ && o.instance_variables@ == default_fields(
            class.fields@,
        ).insert(STRING_VALUE_FIELD@, JavaType::Reference { value: array_handle }),
        _ => false,
    }
}

/// The run goes on with data store `ds` and nothing pending.
pub open spec fn resumes(ds: CommonDataStore, vm2: VirtualMachine, r: DispatchResult) -> bool {
    r == Ok::<Dispatch, VirtualMachineError>(Dispatch::Running) && vm2.data_store == ds && vm2.pending is None
}

/// The heap gained one entity at its end; the statics are as in `ds`.
pub open spec fn allocated_one(ds: CommonDataStore, vm2: VirtualMachine) -> bool {
    &&& vm2.data_store.object_heap.wf()
    &&& vm2.data_store.object_heap.objects@.len() == ds.object_heap.objects@.len() + 1
    &&& vm2.data_store.object_heap.objects@.drop_last() == ds.object_heap.objects@
}

/// The handling of `action`, asked for by frame `f`, on top of `stack`, with data
/// store `ds` and classes from `loader`.
pub open spec fn handle_spec(
    loader: BaseClassLoader,
    stack: Seq<Frame>,
    ds: CommonDataStore,
    f: Frame,
    action: StepAction,
    vm2: VirtualMachine,
    r: DispatchResult,
) -> bool {
    &&& vm2.loader == loader
    &&& if required_class(action) is Some && !loader.classes().contains_key(required_class(action)->0) {
        &&& (match r {
            Ok(Dispatch::NeedClass(n)) => n@ == required_class(action)->0,
            _ => false,
        })
        &&& vm2.stack@ == stack
        &&& vm2.data_store == ds
        &&& vm2.pending == Some(PendingAction { frame: f, action })
    } else {
        match action {
            StepAction::Continue => resumes(ds, vm2, r) && vm2.stack@ == stack.push(f),
            StepAction::EndOfMethod => resumes(ds, vm2, r) && vm2.stack@ == stack,
            StepAction::ReturnValue(v) => if stack.len() == 0 {
                r == Err::<Dispatch, VirtualMachineError>(VirtualMachineError::ReturnWithoutCaller)
            } else {
                &&& resumes(ds, vm2, r)
                &&& vm2.stack@.len() == stack.len()
                &&& vm2.stack@.drop_last() == stack.drop_last()
                &&& pushed_value(stack.last(), vm2.stack@.last(), v)
            },
            StepAction::InitializeClass(n) => {
                let class = loader.classes()[n@];
                if initializer_fails(class) {
                    initializer_error(r)
                } else {
                    &&& r == Ok::<Dispatch, VirtualMachineError>(Dispatch::Running)
                    &&& vm2.pending is None
                    &&& vm2.data_store.object_heap == ds.object_heap
                    &&& vm2.data_store.statics() == registered(ds.statics(), n@)
                    &&& initializer_pushed(stack.push(f), vm2.stack@, class)
                }
            },
            StepAction::AllocateClass(n) => {
                let class = loader.classes()[n@];
                let was_initialized = ds.statics().contains_key(n@);
                if !ds.object_heap.has_room(1) {
                    r == Err::<Dispatch, VirtualMachineError>(VirtualMachineError::HeapExhausted)
                } else if !was_initialized && initializer_fails(class) {
                    initializer_error(r)
                } else {
                    &&& r == Ok::<Dispatch, VirtualMachineError>(Dispatch::Running)
                    &&& vm2.pending is None
                    &&& vm2.data_store.statics() == registered(ds.statics(), n@)
                    &&& allocated_one(ds, vm2)
                    &&& class.name@ == n@
                    &&& is_new_object(vm2.data_store.object_heap.objects@.last(), *class)
                    &&& vm2.stack@.len() >= 1
                    &&& (if was_initialized {
                        vm2.stack@.drop_last() == stack
                    } else {
                        initializer_pushed(stack, vm2.stack@.drop_last(), class)
                    })
                    &&& pushed_value(
                        f,
                        vm2.stack@.last(),
                        JavaType::Reference { value: ds.object_heap.current_pointer },
                    )
                }
            },
            StepAction::AllocateArray(count) => if !ds.object_heap.has_room(1) {
                r == Err::<Dispatch, VirtualMachineError>(VirtualMachineError::HeapExhausted)
            } else {
                &&& r == Ok::<Dispatch, VirtualMachineError>(Dispatch::Running)
                &&& vm2.pending is None
                &&& vm2.data_store.class_statics == ds.class_statics
                &&& allocated_one(ds, vm2)
                &&& is_new_array(vm2.data_store.object_heap.objects@.last(), count)
                &&& vm2.stack@.len() == stack.len() + 1
                &&& vm2.stack@.drop_last() == stack
                &&& pushed_value(f, vm2.stack@.last(), JavaType::Reference { value: ds.object_heap.current_pointer })
            },
            StepAction::AllocateString(s) => {
                let class = loader.classes()[STRING_CLASS@];
                let objects = ds.object_heap.objects@;
                let objects2 = vm2.data_store.object_heap.objects@;
                if !ds.object_heap.has_room(2) {
                    r == Err::<Dispatch, VirtualMachineError>(VirtualMachineError::HeapExhausted)
                } else if !all_unit_chars(s@) {
                    match r {
                        Err(VirtualMachineError::UnsupportedCharacter(c)) => first_wide_char(s@, c),
                        _ => false,
                    }
                } else if s@.len() > i32::MAX {
                    r == Err::<Dispatch, VirtualMachineError>(VirtualMachineError::StringTooLong)
                } else {
                    &&& r == Ok::<Dispatch, VirtualMachineError>(Dispatch::Running)
                    &&& vm2.pending is None
                    &&& vm2.data_store.class_statics == ds.class_statics
                    &&& vm2.data_store.object_heap.wf()
                    &&& objects2.len() == objects.len() + 2
                    &&& objects2.subrange(0, objects.len() as int) == objects
                    &&& class.name@ == STRING_CLASS@
                    &&& is_string_array(objects2[objects.len() as int], s@)
                    &&& is_string_object(objects2[objects.len() as int + 1], *class, ds.object_heap.current_pointer)
                    &&& vm2.stack@.len() == stack.len() + 1
                    &&& vm2.stack@.drop_last() == stack
                    &&& pushed_value(
                        f,
                        vm2.stack@.last(),
                        JavaType::Reference { value: (ds.object_heap.current_pointer + 1) as u64 },
                    )
                }
            },
            StepAction::InvokeVirtualMethod { class_name, name, args, .. } => invoke_handled(
                loader,
                stack,
                ds,
                f,
                class_name@,
                name@,
                args@,
                vm2,
                r,
            ),
            StepAction::InvokeSpecialMethod { class_name, name, args, .. } => invoke_handled(
                loader,
                stack,
                ds,
                f,
                class_name@,
                name@,
                args@,
                vm2,
                r,
            ),
            StepAction::InvokeStaticMethod { class_name, name, args, .. } => invoke_handled(
                loader,
                stack,
                ds,
                f,
                class_name@,
                name@,
                args@,
                vm2,
                r,
            ),
        }
    }
}

/// The handling of a call of method `name` of the loaded class `class_name`.
pub open spec fn invoke_handled(
    loader: BaseClassLoader,
    stack: Seq<Frame>,
    ds: CommonDataStore,
    f: Frame,
    class_name: Seq<char>,
    name: Seq<char>,
    args: Seq<JavaType>,
    vm2: VirtualMachine,
    r: DispatchResult,
) -> bool {
    let class = loader.classes()[class_name];
    match method_index(class.methods@, name) {
        None => match r {
            Err(VirtualMachineError::MethodNotFound(n)) => n@ == name,
            _ => false,
        },
        Some(i) => {
            let method = class.methods@[i];
            if is_native(method.access_flags) {
                &&& vm2.data_store == ds
                &&& vm2.pending is None
                &&& vm2.stack@ == stack.push(f)
                &&& match print_text(ds.object_heap, args) {
                    Some(t) => match r {
                        Ok(Dispatch::Output(line)) => line@ == output_line(t),
                        _ => false,
                    },
                    None => match r {
                        Err(e) => print_error(ds.object_heap, args, e),
                        _ => false,
                    },
                }
            } else if frame_fits(*method, args) {
                &&& resumes(ds, vm2, r)
                &&& vm2.stack@.len() == stack.len() + 2
                &&& vm2.stack@.drop_last() == stack.push(f)
                &&& is_new_frame(vm2.stack@.last(), class, method, args)
            } else {
                match r {
                    Err(VirtualMachineError::InvalidMethod(n)) => n@ == name,
                    _ => false,
                }
            }
        },
    }
}

/// One dispatch iteration from `vm` to `vm2` that returned `r`.
pub open spec fn dispatch_spec(vm: VirtualMachine, vm2: VirtualMachine, r: DispatchResult) -> bool {
    match vm.pending {
        Some(p) => handle_spec(vm.loader, vm.stack@, vm.data_store, p.frame, p.action, vm2, r),
        None => if vm.stack@.len() == 0 {
            r == Ok::<Dispatch, VirtualMachineError>(Dispatch::Finished) && vm2 == vm
        } else if vm.stack@.len() > MAX_STACK_DEPTH {
            r == Err::<Dispatch, VirtualMachineError>(VirtualMachineError::StackOverflow)
        } else {
            exists|f2: Frame, d2: CommonDataStore, s: StepResult<StepAction>|
                #[trigger] step_spec(vm.stack@.last(), vm.data_store, f2, d2, s) && match s {
                    Ok(a) => handle_spec(vm.loader, vm.stack@.drop_last(), d2, f2, a, vm2, r),
                    Err(e) => r == Err::<Dispatch, VirtualMachineError>(VirtualMachineError::Step(e)),
                }
        },
    }
}

proof fn lemma_frames_push(frames: Seq<Frame>, f: Frame)
    requires
        frames_wf(frames),
        f.wf(),
    ensures
        frames_wf(frames.push(f)),
{
    assert forall|i: int| 0 <= i < frames.push(f).len() implies #[trigger] frames.push(f)[i].wf() by {
        if i < frames.len() {
            assert(frames.push(f)[i] == frames[i]);
        }
    }
}

proof fn lemma_units_text_prefix(units: Seq<JavaType>, k: int)
    requires
        0 <= k <= units.len(),
        units_text(units.subrange(0, k)) is None,
    ensures
        units_text(units) is None,
    decreases units.len() - k,
{
    if k < units.len() {
        let next = units.subrange(0, k + 1);
        assert(next.drop_last() =~= units.subrange(0, k));
        lemma_units_text_prefix(units, k + 1);
    } else {
        assert(units.subrange(0, k) =~= units);
    }
}

proof fn lemma_units_error_prefix(units: Seq<JavaType>, k: int)
    requires
        0 <= k <= units.len(),
        units_error(units.subrange(0, k)) is Some,
    ensures
        units_error(units) == units_error(units.subrange(0, k)),
    decreases units.len() - k,
{
    if k < units.len() {
        let next = units.subrange(0, k + 1);
        assert(next.drop_last() =~= units.subrange(0, k));
        lemma_units_error_prefix(units, k + 1);
    } else {
        assert(units.subrange(0, k) =~= units);
    }
}

/// The class that `action` needs loaded, as an owned name.
fn required_class_name(action: &StepAction) -> (r: Option<String>)
    ensures
        match r {
            Some(n) => required_class(*action) == Some(n@),
            None => required_class(*action) is None,
        },
{
    match action {
        StepAction::InitializeClass(n) => Some(n.clone()),
        StepAction::AllocateClass(n) => Some(n.clone()),
        StepAction::AllocateString(_) => Some(String::from_str(STRING_CLASS)),
        StepAction::InvokeVirtualMethod { class_name, .. } => Some(class_name.clone()),
        StepAction::InvokeSpecialMethod { class_name, .. } => Some(class_name.clone()),
        StepAction::InvokeStaticMethod { class_name, .. } => Some(class_name.clone()),
        _ => None,
    }
}

/// The text of the string object that `reference` refers to.
fn string_contents(heap: &ObjectHeap, reference: &JavaType) -> (r: Result<String, VirtualMachineError>)
    requires
        heap.wf(),
        *reference is Reference,
    ensures
        match r {
            Ok(t) => string_text(*heap, reference->Reference_value) == Some(t@),
            Err(e) => string_text(*heap, reference->Reference_value) is None && string_error(
                *heap,
                reference->Reference_value,
                e,
            ),
        },
{
    let object = match heap.get_object(reference) {
        Ok(o) => o,
        Err(e) => {
            return Err(VirtualMachineError::DataStore(e));
        },
    };
    let string_class = String::from_str(STRING_CLASS);
    if object.class_name != string_class {
        return Err(VirtualMachineError::UnexpectedPrintClass(object.class_name.clone()));
    }
    let value_field = String::from_str(STRING_VALUE_FIELD);
    let array_ref = match object.instance_variables.get(&value_field) {
        Some(v) => *v,
        None => {
            return Err(VirtualMachineError::DataStore(DataStoreError::FieldNotFound(value_field)));
        },
    };
    match array_ref {
        JavaType::Reference { .. } => {},
        other => {
            return Err(VirtualMachineError::UnexpectedPrintArgument(other.to_friendly_name()));
        },
    }
    let array = match heap.get_array(&array_ref) {
        Ok(a) => a,
        Err(e) => {
            return Err(VirtualMachineError::DataStore(e));
        },
    };
    let ghost units = array.store@;
    assert(string_text(*heap, reference->Reference_value) == units_text(units));
    assert(forall|e: VirtualMachineError| string_error(*heap, reference->Reference_value, e) <==> units_error(units) == Some(e));
    let mut text = String::new();
    let mut i: usize = 0;
    assert(units.subrange(0, 0) =~= Seq::<JavaType>::empty());
    while i < array.store.len()
        invariant
            units == array.store@,
            string_text(*heap, reference->Reference_value) == units_text(units),
            forall|e: VirtualMachineError| string_error(*heap, reference->Reference_value, e) <==> units_error(units) == Some(e),
            i <= units.len(),
            units_text(units.subrange(0, i as int)) == Some(text@),
            units_error(units.subrange(0, i as int)) is None,
        decreases units.len() - i,
    {
        assert(units.subrange(0, i + 1).drop_last() =~= units.subrange(0, i as int));
        match array.store[i] {
            JavaType::Char { value } => match char_from_unit(value) {
                Some(c) => {
                    push_char(&mut text, c);
                },
                None => {
                    proof {
                        assert(units.subrange(0, i + 1).last() == units[i as int]);
                        assert(units_text(units.subrange(0, i + 1)) is None);
                        lemma_units_text_prefix(units, i + 1);
                        lemma_units_error_prefix(units, i + 1);
                    }
                    return Err(VirtualMachineError::InvalidCharacter(value));
                },
            },
            other => {
                proof {
                    assert(units.subrange(0, i + 1).last() == units[i as int]);
                    assert(units_text(units.subrange(0, i + 1)) is None);
                    lemma_units_text_prefix(units, i + 1);
                    lemma_units_error_prefix(units, i + 1);
                }
                return Err(VirtualMachineError::UnexpectedPrintArgument(other.to_friendly_name()));
            },
        }
        i = i + 1;
    }
    assert(units.subrange(0, i as int) =~= units);
    Ok(text)
}

/// The line that the print intrinsic writes for `args`.
pub fn print_value(heap: &ObjectHeap, args: &Vec<JavaType>) -> (r: Result<String, VirtualMachineError>)
    requires
        heap.wf(),
    ensures
        match r {
            Ok(line) => print_text(*heap, args@) matches Some(t) && line@ == output_line(t),
            Err(e) => print_text(*heap, args@) is None && print_error(*heap, args@, e),
        },
{
    let n = args.len();
    if n == 0 {
        return Err(VirtualMachineError::MissingPrintArgument);
    }
    let value = args[n - 1];
    let text = match value {
        JavaType::Int { value } => decimal_string(value as i64),
        JavaType::Byte { value } => decimal_string(value as i64),
        JavaType::Long { value } => decimal_string(value),
        JavaType::Reference { .. } => string_contents(heap, &value)?,
        other => {
            return Err(VirtualMachineError::UnexpectedPrintArgument(other.to_friendly_name()));
        },
    };
    let mut line = String::from_str(OUTPUT_PREFIX);
    line.append(text.as_str());
    line.append("\n");
    Ok(line)
}

/// The `Char` elements for the characters of `s`, or the first character that
/// one code unit cannot hold.
fn string_elements(s: &String) -> (r: Result<Vec<JavaType>, char>)
    ensures
        match r {
            Ok(units) => all_unit_chars(s@) && units@ == string_units(s@),
            Err(c) => first_wide_char(s@, c),
        },
{
    let text = s.as_str();
    let n = text.unicode_len();
    let mut units: Vec<JavaType> = Vec::new();
    let mut i: usize = 0;
    while i < n
        invariant
            n == text@.len(),
            text@ == s@,
            i <= n,
            forall|k: int| 0 <= k < i ==> #[trigger] is_unit_char(text@[k]),
            units@ == string_units(text@).subrange(0, i as int),
        decreases n - i,
    {
        let c = text.get_char(i);
        if c as u32 > 0xFFFF {
            assert(0 <= i < s@.len() && s@[i as int] == c && !is_unit_char(c) && forall|j: int|
                0 <= j < i ==> #[trigger] is_unit_char(s@[j]));
            return Err(c);
        }
        units.push(JavaType::Char { value: c as u32 as u16 });
        i = i + 1;
        assert(units@ =~= string_units(text@).subrange(0, i as int));
    }
    assert(string_units(text@).subrange(0, n as int) =~= string_units(text@));
    Ok(units)
}

impl VirtualMachine {
    pub open spec fn wf(&self) -> bool {
        &&& self.data_store.wf()
        &&& self.loader.names_match()
        &&& frames_wf(self.stack@)
        &&& (self.pending matches Some(p) ==> p.frame.wf())
    }

    pub fn new() -> (r: VirtualMachine)
        ensures
            r.wf(),
            r.stack@.len() == 0,
            r.pending is None,
            r.loader.classes() == Map::<Seq<char>, Rc<ClassFile>>::empty(),
            r.data_store.statics() == Map::<Seq<char>, Map<Seq<char>, JavaType>>::empty(),
            r.data_store.object_heap.objects@.len() == 0,
    {
        VirtualMachine {
            loader: BaseClassLoader::new(),
            data_store: CommonDataStore::new(),
            stack: Vec::new(),
            pending: None,
        }
    }

    /// Records a classpath entry: a classfile when `is_file` holds, else a directory.
    pub fn add_classfile_path(&mut self, path: String, is_file: bool)
        ensures
            final(self).loader.classes() == old(self).loader.classes(),
            final(self).stack == old(self).stack,
            final(self).data_store == old(self).data_store,
            final(self).pending == old(self).pending,
            is_file ==> final(self).loader.classfile_paths@ == old(self).loader.classfile_paths@.push(path),
            !is_file ==> final(self).loader.classfile_directories@ == old(self).loader.classfile_directories@.push(
                path,
            ),
    {
        self.loader.add_classfile_path(path, is_file);
    }

    /// Pushes the frame of the `main` method of the loaded class `main_class`.
    pub fn start(&mut self, main_class: &String) -> (r: Result<(), VirtualMachineError>)
        requires
            old(self).wf(),
        ensures
            final(self).wf(),
            final(self).loader == old(self).loader,
            final(self).data_store == old(self).data_store,
            final(self).pending == old(self).pending,
            !old(self).loader.classes().contains_key(main_class@) ==> final(self).stack == old(self).stack && (
            r matches Err(VirtualMachineError::ClassNotFound(n)) && n@ == main_class@),
            old(self).loader.classes().contains_key(main_class@) ==> {
                let class = old(self).loader.classes()[main_class@];
                match method_index(class.methods@, MAIN_METHOD@) {
                    None => final(self).stack == old(self).stack && (r matches Err(
                        VirtualMachineError::MethodNotFound(n),
                    ) && n@ == MAIN_METHOD@),
                    Some(i) => if frame_fits(*class.methods@[i], Seq::empty()) {
                        &&& r is Ok
                        &&& final(self).stack@.len() == old(self).stack@.len() + 1
                        &&& final(self).stack@.drop_last() == old(self).stack@
                        &&& is_new_frame(final(self).stack@.last(), class, class.methods@[i], Seq::empty())
                    } else {
                        final(self).stack == old(self).stack && (r matches Err(VirtualMachineError::InvalidMethod(n))
                            && n@ == MAIN_METHOD@)
                    },
                }
            },
    {
        let class = self.loader.resolve_class(main_class)?;
        let main_name = String::from_str(MAIN_METHOD);
        let method = match class.maybe_resolve_method(&main_name) {
            Some(m) => m,
            None => {
                return Err(VirtualMachineError::MethodNotFound(main_name));
            },
        };
        match Frame::new(class, method, Vec::new()) {
            Some(frame) => {
                self.stack.push(frame);
                assert(self.stack@.drop_last() =~= old(self).stack@);
                Ok(())
            },
            None => Err(VirtualMachineError::InvalidMethod(main_name)),
        }
    }

    /// Registers `class_name` and pushes a frame for the initializer of `class`, if it has one.
    fn initialize_class(&mut self, class_name: String, class: &Rc<ClassFile>) -> (r: Result<(), VirtualMachineError>)
        requires
            old(self).wf(),
        ensures
            final(self).loader == old(self).loader,
            final(self).pending == old(self).pending,
            final(self).data_store.object_heap == old(self).data_store.object_heap,
            final(self).data_store.statics() == registered(old(self).data_store.statics(), class_name@),
            r is Err <==> initializer_fails(*class),
            r matches Err(e) ==> (e matches VirtualMachineError::InvalidMethod(n) && n@ == CLASS_INITIALIZER@),
            r is Ok ==> final(self).wf() && initializer_pushed(old(self).stack@, final(self).stack@, *class),
    {
        self.data_store.register_class(class_name);
        let init_name = String::from_str(CLASS_INITIALIZER);
        match class.maybe_resolve_method(&init_name) {
            Some(init_method) => match Frame::new(class.clone(), init_method, Vec::new()) {
                Some(frame) => {
                    self.stack.push(frame);
                    assert(self.stack@.drop_last() =~= old(self).stack@);
                    Ok(())
                },
                None => Err(VirtualMachineError::InvalidMethod(init_name)),
            },
            None => Ok(()),
        }
    }

    /// Handles a call of `method` of `class` from `frame`: the print intrinsic for
    /// a native method, else a new frame on top of the caller.
    fn call_method(
        &mut self,
        frame: Frame,
        class: Rc<ClassFile>,
        method: Rc<crate::classfile::Method>,
        name: &String,
        args: Vec<JavaType>,
    ) -> (r: DispatchResult)
        requires
            old(self).wf(),
            old(self).pending is None,
            frame.wf(),
        ensures
            final(self).loader == old(self).loader,
            r is Ok ==> final(self).wf(),
            if is_native(method.access_flags) {
                &&& final(self).data_store == old(self).data_store
                &&& final(self).pending is None
                &&& final(self).stack@ == old(self).stack@.push(frame)
                &&& match print_text(old(self).data_store.object_heap, args@) {
                    Some(t) => match r {
                        Ok(Dispatch::Output(line)) => line@ == output_line(t),
                        _ => false,
                    },
                    None => match r {
                    Err(e) => print_error(old(self).data_store.object_heap, args@, e),
                    _ => false,
                },
                }
            } else if frame_fits(*method, args@) {
                &&& resumes(old(self).data_store, *final(self), r)
                &&& final(self).stack@.len() == old(self).stack@.len() + 2
                &&& final(self).stack@.drop_last() == old(self).stack@.push(frame)
                &&& is_new_frame(final(self).stack@.last(), class, method, args@)
            } else {
                match r {
                    Err(VirtualMachineError::InvalidMethod(n)) => n@ == name@,
                    _ => false,
                }
            },
    {
        if method.is_native() {
            self.stack.push(frame);
            let line = print_value(&self.data_store.object_heap, &args)?;
            return Ok(Dispatch::Output(line));
        }
        match Frame::new(class, method, args) {
            Some(callee) => {
                self.stack.push(frame);
                self.stack.push(callee);
                assert(self.stack@.drop_last() =~= old(self).stack@.push(frame));
                Ok(Dispatch::Running)
            },
            None => Err(VirtualMachineError::InvalidMethod(name.clone())),
        }
    }

    /// Handles a call of method `name` of the loaded class `class_name` from `frame`.
    fn invoke(&mut self, frame: Frame, class_name: String, name: String, args: Vec<JavaType>) -> (r: DispatchResult)
        requires
            old(self).wf(),
            old(self).pending is None,
            frame.wf(),
            old(self).loader.classes().contains_key(class_name@),
        ensures
            r is Ok ==> final(self).wf(),
            final(self).loader == old(self).loader,
            invoke_handled(
                old(self).loader,
                old(self).stack@,
                old(self).data_store,
                frame,
                class_name@,
                name@,
                args@,
                *final(self),
                r,
            ),
    {
        let class = self.loader.resolve_class(&class_name)?;
        let method = match class.maybe_resolve_method(&name) {
            Some(m) => m,
            None => {
                return Err(VirtualMachineError::MethodNotFound(name));
            },
        };
        self.call_method(frame, class, method, &name, args)
    }

    /// Makes a `java/lang/String` object of the loaded `class` holding `contents`.
    fn materialize_string(&mut self, contents: &String, class: &ClassFile) -> (r: Result<u64, VirtualMachineError>)
        requires
            old(self).wf(),
            old(self).data_store.object_heap.has_room(2),
        ensures
            final(self).loader == old(self).loader,
            final(self).stack == old(self).stack,
            final(self).pending == old(self).pending,
            final(self).data_store.class_statics == old(self).data_store.class_statics,
            match r {
                Ok(h) => {
                    let objects = old(self).data_store.object_heap.objects@;
                    let objects2 = final(self).data_store.object_heap.objects@;
                    &&& all_unit_chars(contents@)
                    &&& contents@.len() <= i32::MAX
                    &&& h == old(self).data_store.object_heap.current_pointer + 1
                    &&& final(self).wf()
                    &&& objects2.len() == objects.len() + 2
                    &&& objects2.subrange(0, objects.len() as int) == objects
                    &&& is_string_array(objects2[objects.len() as int], contents@)
                    &&& is_string_object(objects2[objects.len() as int + 1], *class, (h - 1) as u64)
                },
                Err(e) => if !all_unit_chars(contents@) {
                    e matches VirtualMachineError::UnsupportedCharacter(c) && first_wide_char(contents@, c)
                } else {
                    contents@.len() > i32::MAX && e == VirtualMachineError::StringTooLong
                },
            },
    {
        let elements = match string_elements(contents) {
            Ok(units) => units,
            Err(c) => {
                return Err(VirtualMachineError::UnsupportedCharacter(c));
            },
        };
        if elements.len() > i32::MAX as usize {
            return Err(VirtualMachineError::StringTooLong);
        }
        let ghost objects = self.data_store.object_heap.objects@;
        let array_pointer = self.data_store.object_heap.allocate_array(elements.len() as i32);
        let array_ref = JavaType::Reference { value: array_pointer };
        match self.data_store.object_heap.get_array_mut(&array_ref) {
            Ok(a) => {
                a.store = elements;
            },
            Err(_) => {},
        }
        let ghost objects1 = self.data_store.object_heap.objects@;
        assert(objects1.subrange(0, objects.len() as int) =~= objects);
        let string_pointer = self.data_store.object_heap.allocate_object(class);
        let ghost objects2 = self.data_store.object_heap.objects@;
        let string_ref = JavaType::Reference { value: string_pointer };
        let _ = self.data_store.object_heap.set_field(&string_ref, String::from_str(STRING_VALUE_FIELD), array_ref);
        let ghost objects3 = self.data_store.object_heap.objects@;
        assert(objects2.drop_last() == objects1);
        assert(objects3.subrange(0, objects.len() as int) =~= objects) by {
            assert forall|j: int| 0 <= j < objects.len() implies objects3[j] == objects[j] by {
                assert(objects3[j] == objects2[j]);
                assert(objects2[j] == objects1[j]);
            }
        }
        assert(objects3[objects.len() as int] == objects2[objects.len() as int]);
        assert(is_string_array(objects1[objects.len() as int], contents@));
        Ok(string_pointer)
    }

    /// Handles `action`, asked for by `frame`, which has been taken off the stack.
    fn handle(&mut self, frame: Frame, action: StepAction) -> (r: DispatchResult)
        requires
            old(self).wf(),
            old(self).pending is None,
            frame.wf(),
        ensures
            r is Ok ==> final(self).wf(),
            handle_spec(old(self).loader, old(self).stack@, old(self).data_store, frame, action, *final(self), r),
    {
        match required_class_name(&action) {
            Some(name) => {
                if !self.loader.loaded_classes.contains_key(&name) {
                    self.pending = Some(PendingAction { frame, action });
                    return Ok(Dispatch::NeedClass(name));
                }
            },
            None => {},
        }
        let mut frame = frame;
        match action {
            StepAction::Continue => {
                proof {
                    lemma_frames_push(self.stack@, frame);
                }
                self.stack.push(frame);
                Ok(Dispatch::Running)
            },
            StepAction::EndOfMethod => Ok(Dispatch::Running),
            StepAction::ReturnValue(value) => match self.stack.pop() {
                Some(caller) => {
                    assert(old(self).stack@[old(self).stack@.len() - 1].wf());
                    let mut caller = caller;
                    caller.push_operand_stack_value(value);
                    proof {
                        lemma_frames_push(self.stack@, caller);
                    }
                    self.stack.push(caller);
                    assert(self.stack@.drop_last() =~= old(self).stack@.drop_last());
                    Ok(Dispatch::Running)
                },
                None => Err(VirtualMachineError::ReturnWithoutCaller),
            },
            StepAction::InitializeClass(class_name) => {
                let class = self.loader.resolve_class(&class_name)?;
                proof {
                    lemma_frames_push(self.stack@, frame);
                }
                self.stack.push(frame);
                self.initialize_class(class_name, &class)?;
                Ok(Dispatch::Running)
            },
            StepAction::AllocateClass(class_name) => {
                let class = self.loader.resolve_class(&class_name)?;
                if !self.data_store.object_heap.can_allocate(1) {
                    return Err(VirtualMachineError::HeapExhausted);
                }
                if !self.data_store.has_class_statics(&class_name) {
                    self.initialize_class(class_name, &class)?;
                }
                let ghost before = self.stack@;
                let pointer = self.data_store.object_heap.allocate_object(&class);
                frame.push_operand_stack_value(JavaType::Reference { value: pointer });
                proof {
                    lemma_frames_push(self.stack@, frame);
                }
                self.stack.push(frame);
                assert(self.stack@.drop_last() =~= before);
                Ok(Dispatch::Running)
            },
            StepAction::AllocateArray(count) => {
                if !self.data_store.object_heap.can_allocate(1) {
                    return Err(VirtualMachineError::HeapExhausted);
                }
                let pointer = self.data_store.object_heap.allocate_array(count);
                frame.push_operand_stack_value(JavaType::Reference { value: pointer });
                proof {
                    lemma_frames_push(self.stack@, frame);
                }
                self.stack.push(frame);
                assert(self.stack@.drop_last() =~= old(self).stack@);
                Ok(Dispatch::Running)
            },
            StepAction::AllocateString(contents) => {
                let class = self.loader.resolve_class(&String::from_str(STRING_CLASS))?;
                if !self.data_store.object_heap.can_allocate(2) {
                    return Err(VirtualMachineError::HeapExhausted);
                }
                let pointer = self.materialize_string(&contents, &class)?;
                frame.push_operand_stack_value(JavaType::Reference { value: pointer });
                proof {
                    lemma_frames_push(self.stack@, frame);
                }
                self.stack.push(frame);
                assert(self.stack@.drop_last() =~= old(self).stack@);
                Ok(Dispatch::Running)
            },
            StepAction::InvokeVirtualMethod { class_name, name, args, .. } => self.invoke(frame, class_name, name, args),
            StepAction::InvokeSpecialMethod { class_name, name, args, .. } => self.invoke(frame, class_name, name, args),
            StepAction::InvokeStaticMethod { class_name, name, args, .. } => self.invoke(frame, class_name, name, args),
        }
    }

    /// One iteration of the dispatch loop: handles the pending action if there is
    /// one, else steps the top frame and handles what it asks for.
    pub fn dispatch(&mut self) -> (r: DispatchResult)
        requires
            old(self).wf(),
        ensures
            r is Ok ==> final(self).wf(),
            dispatch_spec(*old(self), *final(self), r),
    {
        let mut pending: Option<PendingAction> = None;
        std::mem::swap(&mut self.pending, &mut pending);
        match pending {
            Some(p) => {
                return self.handle(p.frame, p.action);
            },
            None => {},
        }
        if self.stack.len() == 0 {
            return Ok(Dispatch::Finished);
        }
        if self.stack.len() > MAX_STACK_DEPTH {
            return Err(VirtualMachineError::StackOverflow);
        }
        let mut frame = self.stack.pop().unwrap();
        let ghost top = frame;
        let ghost ds = self.data_store;
        let s = frame.step(&mut self.data_store);
        let ghost f2 = frame;
        let ghost d2 = self.data_store;
        match s {
            Ok(action) => {
                assert(self.stack@ == old(self).stack@.drop_last());
                let r = self.handle(frame, action);
                assert(top == old(self).stack@.last());
                assert(ds == old(self).data_store);
                r
            },
            Err(e) => {
                assert(top == old(self).stack@.last());
                assert(ds == old(self).data_store);
                Err(VirtualMachineError::Step(e))
            },
        }
    }
}

} // verus!
