use vstd::prelude::*;

use std::rc::Rc;

use crate::classfile::{
    first_code, resolve_class_name, resolve_member_info, resolve_string_constant, retrieve_item,
    ClassFile, CodeAttribute, ConstantPoolItem, MemberInfo, Method, ParserError,
};
use crate::descriptor::determine_number_of_arguments;
use crate::heap::{entry_wf, CommonDataStore, DataStoreError};
use crate::semantics::{invocation_args, has_operands, load_index, moved, operand_error, operand_i16, operand_u2, step_spec};
use crate::value::JavaType;

verus! {

/// Longest code a method may have, as the classfile format bounds it.
pub const MAX_CODE_LENGTH: usize = 65535;

/// A position in a method's code.
pub struct Codepoint {
    pub position: isize,
}

impl Codepoint {
    pub fn new() -> (r: Codepoint)
        ensures
            r.position == 0,
    {
        Codepoint { position: 0 }
    }

    /// Moves one byte on and returns the position it left.
    pub fn get_and_increment(&mut self) -> (r: usize)
        requires
            0 <= old(self).position < isize::MAX,
        ensures
            r == old(self).position,
            final(self).position == old(self).position + 1,
    {
        let current_position = self.position;
        self.position = self.position + 1;
        current_position as usize
    }

    /// Moves `steps` bytes back.
    pub fn reverse(&mut self, steps: usize)
        requires
            steps <= isize::MAX,
            old(self).position - steps >= isize::MIN,
        ensures
            final(self).position == old(self).position - steps,
    {
        self.position = self.position - steps as isize;
    }

    /// Moves by `offset` bytes.
    pub fn offset(&mut self, offset: isize)
        requires
            isize::MIN <= old(self).position + offset <= isize::MAX,
        ensures
            final(self).position == old(self).position + offset,
    {
        self.position = self.position + offset;
    }

    pub fn current(&self) -> (r: usize)
        requires
            self.position >= 0,
        ensures
            r == self.position,
    {
        self.position as usize
    }
}

pub type StepResult<T> = Result<T, StepError>;

/// What a step of a frame asks of the driver.
#[derive(Debug)]
pub enum StepAction {
    /// Instance call through `invokevirtual`; `args[0]` is the receiver.
    InvokeVirtualMethod { class_name: String, name: String, descriptor: String, args: Vec<JavaType> },
    /// Static call; the arguments are listed from the top of the operand stack down.
    InvokeStaticMethod { class_name: String, name: String, descriptor: String, args: Vec<JavaType> },
    /// Instance call through `invokespecial`; `args[0]` is the receiver.
    InvokeSpecialMethod { class_name: String, name: String, descriptor: String, args: Vec<JavaType> },
    /// The class must be initialized first; the frame will run the same instruction again.
    InitializeClass(String),
    /// Push a reference to a new `java/lang/String` holding this text.
    AllocateString(String),
    /// Push a reference to a new instance of this class.
    AllocateClass(String),
    /// Push a reference to a new array of this many elements.
    AllocateArray(i32),
    ReturnValue(JavaType),
    EndOfMethod,
    /// The instruction completed; step the frame again.
    Continue,
}

/// Why a step of a frame failed. Every one of these is fatal to the run.
#[derive(Debug)]
pub enum StepError {
    CodeIndexOutOfBounds(usize),
    UnexpectedEmptyVec,
    Parser(ParserError),
    UnexpectedConstantPoolItem(&'static str),
    UnknownOpcode(u8),
    UnexpectedJavaType(&'static str),
    DataStore(DataStoreError),
    LocalIndexOutOfBounds(usize),
    ArrayIndexOutOfBounds(i32),
    DivisionByZero,
}

/// The activation of one method: its code, code pointer, operand stack and locals.
pub struct Frame {
    pub classfile: Rc<ClassFile>,
    pub code_attribute: Rc<CodeAttribute>,
    pub code_position: Codepoint,
    pub operand_stack: Vec<JavaType>,
    pub variables: Vec<JavaType>,
    /// The method's descriptor ends in `V`: reaching the end of its code ends it.
    pub returns_void: bool,
}

/// The descriptor's return type is `V`.
pub open spec fn descriptor_is_void(descriptor: Seq<char>) -> bool {
    descriptor.len() > 0 && descriptor.last() == 'V'
}

/// Locals of a new frame: the arguments, then `Empty` up to `max_locals`.
pub open spec fn initial_locals(args: Seq<JavaType>, max_locals: nat) -> Seq<JavaType> {
    args + Seq::new((max_locals - args.len()) as nat, |i: int| JavaType::Empty)
}

/// `method` has code that a frame can run, and `args` fit its locals.
pub open spec fn frame_fits(method: Method, args: Seq<JavaType>) -> bool {
    match first_code(method.attributes@) {
        Some(code) => code.code@.len() <= MAX_CODE_LENGTH && args.len() <= code.max_locals,
        None => false,
    }
}

/// `f` is a fresh frame for `method` of `class`, called with `args`.
pub open spec fn is_new_frame(f: Frame, class: Rc<ClassFile>, method: Rc<Method>, args: Seq<JavaType>) -> bool {
    match first_code(method.attributes@) {
        Some(code) => {
            &&& f.wf()
            &&& f.classfile == class
            &&& f.code_attribute == code
            &&& f.pc() == 0
            &&& f.stack().len() == 0
            &&& f.locals() == initial_locals(args, code.max_locals as nat)
            &&& f.returns_void == descriptor_is_void(method.descriptor@)
        },
        None => false,
    }
}

/// `g` is `f` with `value` pushed on its operand stack.
pub open spec fn pushed_value(f: Frame, g: Frame, value: JavaType) -> bool {
    &&& g.classfile == f.classfile
    &&& g.code_attribute == f.code_attribute
    &&& g.returns_void == f.returns_void
    &&& g.pc() == f.pc()
    &&& g.locals() == f.locals()
    &&& g.stack() == f.stack().push(value)
}

impl Frame {
    pub open spec fn pc(&self) -> int {
        self.code_position.position as int
    }

    pub open spec fn code(&self) -> Seq<u8> {
        self.code_attribute.code@
    }

    pub open spec fn stack(&self) -> Seq<JavaType> {
        self.operand_stack@
    }

    pub open spec fn locals(&self) -> Seq<JavaType> {
        self.variables@
    }

    pub open spec fn pool(&self) -> Seq<ConstantPoolItem> {
        self.classfile.constant_pool@
    }

    /// Between steps the code pointer lies in the code, its end included, and
    /// there are `max_locals` locals.
    pub open spec fn wf(&self) -> bool {
        &&& 0 <= self.pc() <= self.code().len()
        &&& self.code().len() <= MAX_CODE_LENGTH
        &&& self.locals().len() == self.code_attribute.max_locals
    }

    /// A frame for `method` of `classfile`, with `provided_variables` in the first
    /// local slots; none when the method has no code, its code is too long, or the
    /// arguments do not fit its locals.
    pub fn new(classfile: Rc<ClassFile>, method: Rc<Method>, provided_variables: Vec<JavaType>) -> (r: Option<Frame>)
        ensures
            match r {
                Some(f) => frame_fits(*method, provided_variables@) && is_new_frame(
                    f,
                    classfile,
                    method,
                    provided_variables@,
                ),
                None => !frame_fits(*method, provided_variables@),
            },
    {
        let code_attribute = match method.resolve_code_attribute() {
            Some(c) => c,
            None => {
                return None;
            },
        };
        let max_locals = code_attribute.max_locals as usize;
        if code_attribute.code.len() > MAX_CODE_LENGTH || provided_variables.len() > max_locals {
            return None;
        }
        let mut variables = provided_variables;
        let ghost args = variables@;
        while variables.len() < max_locals
            invariant
                args.len() <= variables@.len() <= max_locals,
                variables@ == args + Seq::new((variables@.len() - args.len()) as nat, |i: int| JavaType::Empty),
            decreases max_locals - variables@.len(),
        {
            variables.push(JavaType::Empty);
            assert(variables@ =~= args + Seq::new((variables@.len() - args.len()) as nat, |i: int| JavaType::Empty));
        }
        let d = method.descriptor.as_str();
        let n = d.unicode_len();
        let returns_void = n > 0 && d.get_char(n - 1) == 'V';
        Some(Frame {
            classfile,
            code_attribute,
            code_position: Codepoint::new(),
            operand_stack: Vec::new(),
            variables,
            returns_void,
        })
    }

    pub fn push_operand_stack_value(&mut self, value: JavaType)
        ensures
            pushed_value(*old(self), *final(self), value),
    {
        self.operand_stack.push(value);
    }
}


impl Frame {
    /// Operand byte `k` after the opcode.
    fn next_opcode_entry_u1(&self, k: usize) -> (r: StepResult<u8>)
        requires
            self.wf(),
            self.pc() < self.code().len(),
            1 <= k <= 2,
        ensures
            match r {
                Ok(b) => has_operands(*self, k as int) && b == self.code()[self.pc() + k],
                Err(e) => !has_operands(*self, k as int) && e == operand_error(*self),
            },
    {
        let i = self.code_position.current() + k;
        if i < self.code_attribute.code.len() {
            Ok(self.code_attribute.code[i])
        } else {
            Err(StepError::CodeIndexOutOfBounds(self.code_attribute.code.len()))
        }
    }

    /// The two operand bytes after the opcode, big-endian.
    fn next_opcode_entry_u2(&self) -> (r: StepResult<u16>)
        requires
            self.wf(),
            self.pc() < self.code().len(),
        ensures
            match r {
                Ok(v) => has_operands(*self, 2) && v == operand_u2(*self),
                Err(e) => !has_operands(*self, 2) && e == operand_error(*self),
            },
    {
        let high = self.next_opcode_entry_u1(1)?;
        let low = self.next_opcode_entry_u1(2)?;
        Ok((high as u16) * 256 + (low as u16))
    }

    /// The signed branch offset after the opcode, measured from the opcode.
    fn calculate_offset(&self) -> (r: StepResult<isize>)
        requires
            self.wf(),
            self.pc() < self.code().len(),
        ensures
            match r {
                Ok(v) => has_operands(*self, 2) && v == operand_i16(*self),
                Err(e) => !has_operands(*self, 2) && e == operand_error(*self),
            },
    {
        let v = self.next_opcode_entry_u2()?;
        if v >= 0x8000 {
            Ok(v as isize - 0x10000)
        } else {
            Ok(v as isize)
        }
    }

    /// Moves the code pointer to `target`.
    fn jump(&mut self, target: usize)
        requires
            target <= old(self).code().len(),
            old(self).wf(),
        ensures
            final(self).wf(),
            moved(*old(self), *final(self), target as int, old(self).stack(), old(self).locals()),
    {
        let delta = target as isize - self.code_position.position;
        self.code_position.offset(delta);
    }

    fn push_constant(&mut self, opcode: u8, data_store: &CommonDataStore) -> (r: StepResult<StepAction>)
        requires
            old(self).wf(),
            old(self).pc() < old(self).code().len(),
            old(self).code()[old(self).pc()] == opcode,
            3 <= opcode <= 8 || opcode == 16 || opcode == 18 || opcode == 20,
        ensures
            final(self).wf(),
            step_spec(*old(self), *data_store, *final(self), *data_store, r),
    {
        let p = self.code_position.current();
        if opcode >= 3 && opcode <= 8 {
            self.operand_stack.push(JavaType::Int { value: (opcode - 3) as i32 });
            self.jump(p + 1);
            return Ok(StepAction::Continue);
        }
        if opcode == 16 {
            let entry = self.next_opcode_entry_u1(1)?;
            self.operand_stack.push(JavaType::Int { value: entry as i32 });
            self.jump(p + 2);
            return Ok(StepAction::Continue);
        }
        if opcode == 18 {
            let index = self.next_opcode_entry_u1(1)?;
            let item = match retrieve_item(index as usize, &self.classfile.constant_pool) {
                Ok(item) => item,
                Err(e) => {
                    return Err(StepError::Parser(e));
                },
            };
            match item {
                ConstantPoolItem::String { .. } => {
                    let contents = match resolve_string_constant(index as u16, &self.classfile.constant_pool) {
                        Ok(s) => s,
                        Err(e) => {
                            return Err(StepError::Parser(e));
                        },
                    };
                    self.jump(p + 2);
                    Ok(StepAction::AllocateString(contents))
                },
                ConstantPoolItem::Integer { bytes } => {
                    let value = *bytes as i32;
                    self.operand_stack.push(JavaType::Int { value });
                    self.jump(p + 2);
                    Ok(StepAction::Continue)
                },
                other => Err(StepError::UnexpectedConstantPoolItem(other.to_friendly_name())),
            }
        } else {
            let index = self.next_opcode_entry_u2()?;
            let item = match retrieve_item(index as usize, &self.classfile.constant_pool) {
                Ok(item) => item,
                Err(e) => {
                    return Err(StepError::Parser(e));
                },
            };
            match item {
                ConstantPoolItem::Long { high_bytes, low_bytes } => {
                    let value = (((*high_bytes as u64) << 32u64) | (*low_bytes as u64)) as i64;
                    self.operand_stack.push(JavaType::Long { value });
                    // A 64-bit value takes a second slot.
                    self.operand_stack.push(JavaType::Filler);
                    self.jump(p + 3);
                    Ok(StepAction::Continue)
                },
                other => Err(StepError::UnexpectedConstantPoolItem(other.to_friendly_name())),
            }
        }
    }

    fn load_local(&mut self, opcode: u8, data_store: &CommonDataStore) -> (r: StepResult<StepAction>)
        requires
            old(self).wf(),
            old(self).pc() < old(self).code().len(),
            old(self).code()[old(self).pc()] == opcode,
            load_index(opcode) is Some,
        ensures
            final(self).wf(),
            step_spec(*old(self), *data_store, *final(self), *data_store, r),
    {
        let p = self.code_position.current();
        let index: usize = if opcode == 26 || opcode == 42 {
            0
        } else if opcode == 28 {
            2
        } else if opcode == 32 {
            3
        } else {
            1
        };
        let value = JavaType::load(index, &self.variables)?;
        self.operand_stack.push(value);
        self.jump(p + 1);
        Ok(StepAction::Continue)
    }

    fn store_local(&mut self, opcode: u8, data_store: &CommonDataStore) -> (r: StepResult<StepAction>)
        requires
            old(self).wf(),
            old(self).pc() < old(self).code().len(),
            old(self).code()[old(self).pc()] == opcode,
            opcode == 60 || opcode == 61 || opcode == 76,
        ensures
            final(self).wf(),
            step_spec(*old(self), *data_store, *final(self), *data_store, r),
    {
        let p = self.code_position.current();
        let index: usize = if opcode == 61 {
            2
        } else {
            1
        };
        let value = match self.operand_stack.pop() {
            Some(v) => v,
            None => {
                return Err(StepError::UnexpectedEmptyVec);
            },
        };
        if index >= self.variables.len() {
            return Err(StepError::LocalIndexOutOfBounds(index));
        }
        self.variables.set(index, value);
        self.jump(p + 1);
        Ok(StepAction::Continue)
    }

    fn duplicate(&mut self, opcode: u8, data_store: &CommonDataStore) -> (r: StepResult<StepAction>)
        requires
            old(self).wf(),
            old(self).pc() < old(self).code().len(),
            old(self).code()[old(self).pc()] == opcode,
            opcode == 89,
        ensures
            final(self).wf(),
            step_spec(*old(self), *data_store, *final(self), *data_store, r),
    {
        let p = self.code_position.current();
        let value = match self.operand_stack.pop() {
            Some(v) => v,
            None => {
                return Err(StepError::UnexpectedEmptyVec);
            },
        };
        self.operand_stack.push(value);
        assert(self.stack() =~= old(self).stack());
        self.operand_stack.push(value);
        self.jump(p + 1);
        Ok(StepAction::Continue)
    }

    fn int_arithmetic(&mut self, opcode: u8, data_store: &CommonDataStore) -> (r: StepResult<StepAction>)
        requires
            old(self).wf(),
            old(self).pc() < old(self).code().len(),
            old(self).code()[old(self).pc()] == opcode,
            opcode == 96 || opcode == 100 || opcode == 104 || opcode == 108 || opcode == 145,
        ensures
            final(self).wf(),
            step_spec(*old(self), *data_store, *final(self), *data_store, r),
    {
        let p = self.code_position.current();
        let value2 = JavaType::pop_int(&mut self.operand_stack)?;
        if opcode == 145 {
            self.operand_stack.push(JavaType::Byte { value: value2 as i8 });
            self.jump(p + 1);
            return Ok(StepAction::Continue);
        }
        let value1 = JavaType::pop_int(&mut self.operand_stack)?;
        let result = if opcode == 96 {
            value1.wrapping_add(value2)
        } else if opcode == 100 {
            value1.wrapping_sub(value2)
        } else if opcode == 104 {
            value1.wrapping_mul(value2)
        } else {
            if value2 == 0 {
                return Err(StepError::DivisionByZero);
            }
            match value1.checked_div(value2) {
                Some(q) => q,
                None => i32::MIN,
            }
        };
        self.operand_stack.push(JavaType::Int { value: result });
        self.jump(p + 1);
        Ok(StepAction::Continue)
    }

    fn long_arithmetic(&mut self, opcode: u8, data_store: &CommonDataStore) -> (r: StepResult<StepAction>)
        requires
            old(self).wf(),
            old(self).pc() < old(self).code().len(),
            old(self).code()[old(self).pc()] == opcode,
            opcode == 97 || opcode == 101 || opcode == 105 || opcode == 109,
        ensures
            final(self).wf(),
            step_spec(*old(self), *data_store, *final(self), *data_store, r),
    {
        let p = self.code_position.current();
        let value2 = JavaType::pop_long(&mut self.operand_stack)?;
        let value1 = JavaType::pop_long(&mut self.operand_stack)?;
        let result = if opcode == 97 {
            value1.wrapping_add(value2)
        } else if opcode == 101 {
            value1.wrapping_sub(value2)
        } else if opcode == 105 {
            value1.wrapping_mul(value2)
        } else {
            if value2 == 0 {
                return Err(StepError::DivisionByZero);
            }
            match value1.checked_div(value2) {
                Some(q) => q,
                None => i64::MIN,
            }
        };
        self.operand_stack.push(JavaType::Long { value: result });
        self.operand_stack.push(JavaType::Filler);
        self.jump(p + 1);
        Ok(StepAction::Continue)
    }

    fn increment(&mut self, opcode: u8, data_store: &CommonDataStore) -> (r: StepResult<StepAction>)
        requires
            old(self).wf(),
            old(self).pc() < old(self).code().len(),
            old(self).code()[old(self).pc()] == opcode,
            opcode == 132,
        ensures
            final(self).wf(),
            step_spec(*old(self), *data_store, *final(self), *data_store, r),
    {
        let p = self.code_position.current();
        let index = self.next_opcode_entry_u1(1)? as usize;
        let const_value = self.next_opcode_entry_u1(2)? as i32;
        let current_value = JavaType::retrieve_int(index, &self.variables)?;
        self.variables.set(index, JavaType::Int { value: current_value.wrapping_add(const_value) });
        self.jump(p + 3);
        Ok(StepAction::Continue)
    }

    fn branch(&mut self, opcode: u8, data_store: &CommonDataStore) -> (r: StepResult<StepAction>)
        requires
            old(self).wf(),
            old(self).pc() < old(self).code().len(),
            old(self).code()[old(self).pc()] == opcode,
            opcode == 162 || opcode == 167,
        ensures
            final(self).wf(),
            step_spec(*old(self), *data_store, *final(self), *data_store, r),
    {
        let p = self.code_position.current();
        let taken = if opcode == 162 {
            let value_2 = JavaType::pop_int(&mut self.operand_stack)?;
            let value_1 = JavaType::pop_int(&mut self.operand_stack)?;
            value_1 >= value_2
        } else {
            true
        };
        let offset = self.calculate_offset()?;
        if !taken {
            self.jump(p + 3);
            return Ok(StepAction::Continue);
        }
        let target = p as isize + offset;
        if target < 0 || target as usize > self.code_attribute.code.len() {
            return Err(StepError::CodeIndexOutOfBounds(p));
        }
        self.jump(target as usize);
        Ok(StepAction::Continue)
    }

    fn method_return(&mut self, opcode: u8, data_store: &CommonDataStore) -> (r: StepResult<StepAction>)
        requires
            old(self).wf(),
            old(self).pc() < old(self).code().len(),
            old(self).code()[old(self).pc()] == opcode,
            opcode == 172 || opcode == 176 || opcode == 177,
        ensures
            final(self).wf(),
            step_spec(*old(self), *data_store, *final(self), *data_store, r),
    {
        let p = self.code_position.current();
        if opcode == 177 {
            self.jump(p + 1);
            return Ok(StepAction::EndOfMethod);
        }
        let value = match self.operand_stack.pop() {
            Some(v) => v,
            None => {
                return Err(StepError::UnexpectedEmptyVec);
            },
        };
        self.jump(p + 1);
        Ok(StepAction::ReturnValue(value))
    }
}

/// A reference value, or the error for popping something else where one is needed.
fn expect_reference(value: &JavaType) -> (r: StepResult<()>)
    ensures
        match r {
            Ok(_) => *value is Reference,
            Err(e) => !(*value is Reference) && e == StepError::UnexpectedJavaType(value.friendly_name()),
        },
{
    match value {
        JavaType::Reference { .. } => Ok(()),
        other => Err(StepError::UnexpectedJavaType(other.to_friendly_name())),
    }
}

impl Frame {
    fn array_access(&mut self, opcode: u8, data_store: &mut CommonDataStore) -> (r: StepResult<StepAction>)
        requires
            old(self).wf(),
            old(data_store).wf(),
            old(self).pc() < old(self).code().len(),
            old(self).code()[old(self).pc()] == opcode,
            opcode == 46 || opcode == 79 || opcode == 190,
        ensures
            final(self).wf(),
            final(data_store).wf(),
            step_spec(*old(self), *old(data_store), *final(self), *final(data_store), r),
            r is Err ==> *final(data_store) == *old(data_store),
    {
        let p = self.code_position.current();
        let value = if opcode == 79 {
            match self.operand_stack.pop() {
                Some(v) => v,
                None => {
                    return Err(StepError::UnexpectedEmptyVec);
                },
            }
        } else {
            JavaType::Null
        };
        let index = if opcode == 190 {
            0
        } else {
            JavaType::pop_int(&mut self.operand_stack)?
        };
        let array_ref = match self.operand_stack.pop() {
            Some(v) => v,
            None => {
                return Err(StepError::UnexpectedEmptyVec);
            },
        };
        expect_reference(&array_ref)?;
        let array = match data_store.object_heap.get_array(&array_ref) {
            Ok(a) => a,
            Err(e) => {
                return Err(StepError::DataStore(e));
            },
        };
        if opcode == 190 {
            self.operand_stack.push(JavaType::Int { value: array.count });
            self.jump(p + 1);
            return Ok(StepAction::Continue);
        }
        if index < 0 || index as usize >= array.store.len() {
            return Err(StepError::ArrayIndexOutOfBounds(index));
        }
        if opcode == 46 {
            let element = array.store[index as usize];
            self.operand_stack.push(element);
            self.jump(p + 1);
            return Ok(StepAction::Continue);
        }
        let ghost before = data_store.object_heap.objects@;
        match data_store.object_heap.get_array_mut(&array_ref) {
            Ok(a) => {
                a.store.set(index as usize, value);
            },
            Err(_) => {},
        }
        assert forall|h: int| 0 <= h < data_store.object_heap.objects@.len() implies #[trigger] entry_wf(
            data_store.object_heap.objects@[h],
        ) by {
            assert(entry_wf(before[h]));
        }
        self.jump(p + 1);
        Ok(StepAction::Continue)
    }

    fn static_access(&mut self, opcode: u8, data_store: &mut CommonDataStore) -> (r: StepResult<StepAction>)
        requires
            old(self).wf(),
            old(data_store).wf(),
            old(self).pc() < old(self).code().len(),
            old(self).code()[old(self).pc()] == opcode,
            opcode == 178 || opcode == 179,
        ensures
            final(self).wf(),
            final(data_store).wf(),
            step_spec(*old(self), *old(data_store), *final(self), *final(data_store), r),
            r is Err ==> *final(data_store) == *old(data_store),
    {
        let p = self.code_position.current();
        let index = self.next_opcode_entry_u2()?;
        let field = match resolve_member_info(index, &self.classfile.constant_pool, true) {
            Ok(f) => f,
            Err(e) => {
                return Err(StepError::Parser(e));
            },
        };
        if !data_store.has_class_statics(&field.class_name) {
            // The class is initialized first; this instruction then runs again.
            return Ok(StepAction::InitializeClass(field.class_name));
        }
        if opcode == 178 {
            let value = match data_store.get_class_static(&field.class_name, &field.name) {
                Ok(v) => *v,
                Err(e) => {
                    return Err(StepError::DataStore(e));
                },
            };
            self.operand_stack.push(value);
        } else {
            let value = match self.operand_stack.pop() {
                Some(v) => v,
                None => {
                    return Err(StepError::UnexpectedEmptyVec);
                },
            };
            data_store.set_class_static(&field.class_name, field.name, value);
        }
        self.jump(p + 3);
        Ok(StepAction::Continue)
    }

    fn field_access(&mut self, opcode: u8, data_store: &mut CommonDataStore) -> (r: StepResult<StepAction>)
        requires
            old(self).wf(),
            old(data_store).wf(),
            old(self).pc() < old(self).code().len(),
            old(self).code()[old(self).pc()] == opcode,
            opcode == 180 || opcode == 181,
        ensures
            final(self).wf(),
            final(data_store).wf(),
            step_spec(*old(self), *old(data_store), *final(self), *final(data_store), r),
            r is Err ==> *final(data_store) == *old(data_store),
    {
        let p = self.code_position.current();
        let index = self.next_opcode_entry_u2()?;
        let field = match resolve_member_info(index, &self.classfile.constant_pool, true) {
            Ok(f) => f,
            Err(e) => {
                return Err(StepError::Parser(e));
            },
        };
        let value = if opcode == 181 {
            match self.operand_stack.pop() {
                Some(v) => v,
                None => {
                    return Err(StepError::UnexpectedEmptyVec);
                },
            }
        } else {
            JavaType::Null
        };
        let reference = match self.operand_stack.pop() {
            Some(v) => v,
            None => {
                return Err(StepError::UnexpectedEmptyVec);
            },
        };
        expect_reference(&reference)?;
        if opcode == 180 {
            let found = match data_store.object_heap.get_field(&reference, &field.name) {
                Ok(v) => *v,
                Err(e) => {
                    return Err(StepError::DataStore(e));
                },
            };
            self.operand_stack.push(found);
        } else {
            match data_store.object_heap.get_object(&reference) {
                Ok(_) => {},
                Err(e) => {
                    return Err(StepError::DataStore(e));
                },
            }
            let _ = data_store.object_heap.set_field(&reference, field.name, value);
        }
        self.jump(p + 3);
        Ok(StepAction::Continue)
    }
}

/// Takes the top `count` values off `operand_stack`, in stack order.
pub fn build_arguments(count: usize, operand_stack: &mut Vec<JavaType>) -> (r: Vec<JavaType>)
    requires
        count <= old(operand_stack)@.len(),
    ensures
        r@ == old(operand_stack)@.subrange(old(operand_stack)@.len() - count, old(operand_stack)@.len() as int),
        final(operand_stack)@ == old(operand_stack)@.subrange(0, old(operand_stack)@.len() - count),
{
    let ghost s = operand_stack@;
    let mut args: Vec<JavaType> = Vec::new();
    let mut i: usize = 0;
    while i < count
        invariant
            i <= count <= s.len(),
            args@ == s.subrange(s.len() - i, s.len() as int),
            operand_stack@ == s.subrange(0, s.len() - i),
        decreases count - i,
    {
        let value = operand_stack.pop().unwrap();
        args.insert(0, value);
        i = i + 1;
        assert(args@ =~= s.subrange(s.len() - i, s.len() as int));
        assert(operand_stack@ =~= s.subrange(0, s.len() - i));
    }
    args
}

/// Takes the top `count` values off `operand_stack`, top first.
pub fn build_static_arguments(count: usize, operand_stack: &mut Vec<JavaType>) -> (r: Vec<JavaType>)
    requires
        count <= old(operand_stack)@.len(),
    ensures
        r@ == old(operand_stack)@.subrange(old(operand_stack)@.len() - count, old(operand_stack)@.len() as int).reverse(),
        final(operand_stack)@ == old(operand_stack)@.subrange(0, old(operand_stack)@.len() - count),
{
    let ghost s = operand_stack@;
    let mut args: Vec<JavaType> = Vec::new();
    let mut i: usize = 0;
    while i < count
        invariant
            i <= count <= s.len(),
            args@ == s.subrange(s.len() - i, s.len() as int).reverse(),
            operand_stack@ == s.subrange(0, s.len() - i),
        decreases count - i,
    {
        let value = operand_stack.pop().unwrap();
        args.push(value);
        i = i + 1;
        assert(args@ =~= s.subrange(s.len() - i, s.len() as int).reverse());
        assert(operand_stack@ =~= s.subrange(0, s.len() - i));
    }
    args
}

impl Frame {
    fn invoke(&mut self, opcode: u8, data_store: &CommonDataStore) -> (r: StepResult<StepAction>)
        requires
            old(self).wf(),
            old(self).pc() < old(self).code().len(),
            old(self).code()[old(self).pc()] == opcode,
            opcode == 182 || opcode == 183 || opcode == 184,
        ensures
            final(self).wf(),
            step_spec(*old(self), *data_store, *final(self), *data_store, r),
    {
        let p = self.code_position.current();
        let index = self.next_opcode_entry_u2()?;
        let method = match resolve_member_info(index, &self.classfile.constant_pool, false) {
            Ok(m) => m,
            Err(e) => {
                return Err(StepError::Parser(e));
            },
        };
        let mut argument_count = determine_number_of_arguments(method.descriptor.as_str());
        if opcode != 184 {
            // The receiver comes first.
            argument_count = argument_count.saturating_add(1);
        }
        if argument_count > self.operand_stack.len() {
            return Err(StepError::UnexpectedEmptyVec);
        }
        let ghost s = self.stack();
        let args = if opcode == 184 {
            build_static_arguments(argument_count, &mut self.operand_stack)
        } else {
            build_arguments(argument_count, &mut self.operand_stack)
        };
        assert(args@ == invocation_args(s, argument_count as int, opcode == 184));
        self.jump(p + 3);
        let MemberInfo { class_name, name, descriptor } = method;
        if opcode == 182 {
            Ok(StepAction::InvokeVirtualMethod { class_name, name, descriptor, args })
        } else if opcode == 183 {
            Ok(StepAction::InvokeSpecialMethod { class_name, name, descriptor, args })
        } else {
            Ok(StepAction::InvokeStaticMethod { class_name, name, descriptor, args })
        }
    }

    fn allocation(&mut self, opcode: u8, data_store: &CommonDataStore) -> (r: StepResult<StepAction>)
        requires
            old(self).wf(),
            old(self).pc() < old(self).code().len(),
            old(self).code()[old(self).pc()] == opcode,
            opcode == 187 || opcode == 188,
        ensures
            final(self).wf(),
            step_spec(*old(self), *data_store, *final(self), *data_store, r),
    {
        let p = self.code_position.current();
        if opcode == 187 {
            let index = self.next_opcode_entry_u2()?;
            let class_name = match resolve_class_name(index, &self.classfile.constant_pool) {
                Ok(c) => c,
                Err(e) => {
                    return Err(StepError::Parser(e));
                },
            };
            self.jump(p + 3);
            return Ok(StepAction::AllocateClass(class_name));
        }
        let count = JavaType::pop_int(&mut self.operand_stack)?;
        // The element type is not needed: every new array holds `Null`s.
        let _ = self.next_opcode_entry_u1(1)?;
        self.jump(p + 2);
        Ok(StepAction::AllocateArray(count))
    }

    /// Executes the instruction at the code pointer.
    ///
    /// Reaching the end of the code ends a `void` method; anything else there is
    /// an error.
    pub fn step(&mut self, data_store: &mut CommonDataStore) -> (r: StepResult<StepAction>)
        requires
            old(self).wf(),
            old(data_store).wf(),
        ensures
            final(self).wf(),
            final(data_store).wf(),
            step_spec(*old(self), *old(data_store), *final(self), *final(data_store), r),
            r is Err ==> *final(data_store) == *old(data_store),
    {
        let p = self.code_position.current();
        if p >= self.code_attribute.code.len() {
            if self.returns_void {
                return Ok(StepAction::EndOfMethod);
            } else {
                return Err(StepError::CodeIndexOutOfBounds(p));
            }
        }
        let opcode = self.code_attribute.code[p];
        if (3 <= opcode && opcode <= 8) || opcode == 16 || opcode == 18 || opcode == 20 {
            self.push_constant(opcode, data_store)
        } else if opcode == 26 || opcode == 27 || opcode == 28 || opcode == 30 || opcode == 32 || opcode == 42
            || opcode == 43 {
            self.load_local(opcode, data_store)
        } else if opcode == 60 || opcode == 61 || opcode == 76 {
            self.store_local(opcode, data_store)
        } else if opcode == 46 || opcode == 79 || opcode == 190 {
            self.array_access(opcode, data_store)
        } else if opcode == 89 {
            self.duplicate(opcode, data_store)
        } else if opcode == 96 || opcode == 100 || opcode == 104 || opcode == 108 || opcode == 145 {
            self.int_arithmetic(opcode, data_store)
        } else if opcode == 97 || opcode == 101 || opcode == 105 || opcode == 109 {
            self.long_arithmetic(opcode, data_store)
        } else if opcode == 132 {
            self.increment(opcode, data_store)
        } else if opcode == 162 || opcode == 167 {
            self.branch(opcode, data_store)
        } else if opcode == 172 || opcode == 176 || opcode == 177 {
            self.method_return(opcode, data_store)
        } else if opcode == 178 || opcode == 179 {
            self.static_access(opcode, data_store)
        } else if opcode == 180 || opcode == 181 {
            self.field_access(opcode, data_store)
        } else if opcode == 182 || opcode == 183 || opcode == 184 {
            self.invoke(opcode, data_store)
        } else if opcode == 187 || opcode == 188 {
            self.allocation(opcode, data_store)
        } else {
            Err(StepError::UnknownOpcode(opcode))
        }
    }
}
} // verus!
