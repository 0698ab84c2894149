use vstd::prelude::*;

use crate::classfile::{class_name_at, member_at, pool_item, string_constant_at, ConstantPoolItem};
use crate::descriptor::{descriptor_arity, saturated};
use crate::frame::{Frame, StepAction, StepError, StepResult};
use crate::heap::{element_set, field_set, CommonDataStore, DataStoreError, HeapAllocation};
use crate::value::{load_spec, pop_int_spec, pop_long_spec, retrieve_int_spec, JavaType};

verus! {

/// The meaning of one step of a frame, opcode by opcode.
///
/// `f`, `d` are the frame and data store before the step, `f2`, `d2` after it,
/// and `r` what the step returned. On an error only the error is fixed.
pub open spec fn step_spec(
    f: Frame,
    d: CommonDataStore,
    f2: Frame,
    d2: CommonDataStore,
    r: StepResult<StepAction>,
) -> bool {
    if f.pc() >= f.code().len() {
        if f.returns_void {
            r == Ok::<StepAction, StepError>(StepAction::EndOfMethod) && f2 == f && d2 == d
        } else {
            fails(r, StepError::CodeIndexOutOfBounds(f.pc() as usize))
        }
    } else {
        let op = f.code()[f.pc()];
        if 3 <= op <= 8 || op == 16 || op == 18 || op == 20 {
            constant_spec(f, d, f2, d2, r, op)
        } else if load_index(op) is Some {
            match load_spec(load_index(op)->0, f.locals()) {
                Ok(v) => continues(f, d, f2, d2, r, 1, f.stack().push(v)),
                Err(e) => fails(r, e),
            }
        } else if op == 60 || op == 61 || op == 76 {
            let n: int = if op == 61 { 2 } else { 1 };
            if f.stack().len() == 0 {
                fails(r, StepError::UnexpectedEmptyVec)
            } else if n >= f.locals().len() {
                fails(r, StepError::LocalIndexOutOfBounds(n as usize))
            } else {
                r == Ok::<StepAction, StepError>(StepAction::Continue) && moved(
                    f,
                    f2,
                    f.pc() + 1,
                    f.stack().drop_last(),
                    f.locals().update(n, f.stack().last()),
                ) && d2 == d
            }
        } else if op == 46 || op == 79 || op == 190 {
            array_spec(f, d, f2, d2, r, op)
        } else if op == 89 {
            if f.stack().len() == 0 {
                fails(r, StepError::UnexpectedEmptyVec)
            } else {
                continues(f, d, f2, d2, r, 1, f.stack().push(f.stack().last()))
            }
        } else if op == 96 || op == 100 || op == 104 || op == 108 || op == 145 {
            int_spec(f, d, f2, d2, r, op)
        } else if op == 97 || op == 101 || op == 105 || op == 109 {
            long_spec(f, d, f2, d2, r, op)
        } else if op == 132 {
            if !has_operands(f, 2) {
                fails(r, operand_error(f))
            } else {
                let index = f.code()[f.pc() + 1] as int;
                let delta = f.code()[f.pc() + 2];
                match retrieve_int_spec(index, f.locals()) {
                    Ok(v) => r == Ok::<StepAction, StepError>(StepAction::Continue) && moved(
                        f,
                        f2,
                        f.pc() + 3,
                        f.stack(),
                        f.locals().update(index, JavaType::Int { value: v.wrapping_add(delta as i32) }),
                    ) && d2 == d,
                    Err(e) => fails(r, e),
                }
            }
        } else if op == 162 || op == 167 {
            branch_spec(f, d, f2, d2, r, op)
        } else if op == 172 || op == 176 {
            if f.stack().len() == 0 {
                fails(r, StepError::UnexpectedEmptyVec)
            } else {
                r == Ok::<StepAction, StepError>(StepAction::ReturnValue(f.stack().last())) && moved(
                    f,
                    f2,
                    f.pc() + 1,
                    f.stack().drop_last(),
                    f.locals(),
                ) && d2 == d
            }
        } else if op == 177 {
            r == Ok::<StepAction, StepError>(StepAction::EndOfMethod) && moved(f, f2, f.pc() + 1, f.stack(), f.locals())
                && d2 == d
        } else if op == 178 || op == 179 {
            static_spec(f, d, f2, d2, r, op)
        } else if op == 180 || op == 181 {
            field_spec(f, d, f2, d2, r, op)
        } else if op == 182 || op == 183 || op == 184 {
            invoke_spec(f, d, f2, d2, r, op)
        } else if op == 187 || op == 188 {
            allocation_spec(f, d, f2, d2, r, op)
        } else {
            fails(r, StepError::UnknownOpcode(op))
        }
    }
}

/// The local slot that a load opcode reads: `lload_n` reads the slot after `n`.
pub open spec fn load_index(op: u8) -> Option<int> {
    if op == 26 || op == 42 {
        Some(0)
    } else if op == 27 || op == 30 || op == 43 {
        Some(1)
    } else if op == 28 {
        Some(2)
    } else if op == 32 {
        Some(3)
    } else {
        None
    }
}

pub open spec fn fails(r: StepResult<StepAction>, e: StepError) -> bool {
    r == Err::<StepAction, StepError>(e)
}

/// `f2` runs the same code as `f`, at `pc`, with `stack` and `locals`.
pub open spec fn moved(f: Frame, f2: Frame, pc: int, stack: Seq<JavaType>, locals: Seq<JavaType>) -> bool {
    &&& f2.classfile == f.classfile
    &&& f2.code_attribute == f.code_attribute
    &&& f2.returns_void == f.returns_void
    &&& f2.pc() == pc
    &&& f2.stack() == stack
    &&& f2.locals() == locals
}

/// The step went on `n` bytes further with `stack`, and changed nothing else.
pub open spec fn continues(
    f: Frame,
    d: CommonDataStore,
    f2: Frame,
    d2: CommonDataStore,
    r: StepResult<StepAction>,
    n: int,
    stack: Seq<JavaType>,
) -> bool {
    r == Ok::<StepAction, StepError>(StepAction::Continue) && moved(f, f2, f.pc() + n, stack, f.locals()) && d2 == d
}

/// The `n` operand bytes after the opcode lie inside the code.
pub open spec fn has_operands(f: Frame, n: int) -> bool {
    f.pc() + n < f.code().len()
}

/// Decoding ran off the end of the code.
pub open spec fn operand_error(f: Frame) -> StepError {
    StepError::CodeIndexOutOfBounds(f.code().len() as usize)
}

/// The two operand bytes after the opcode, big-endian, unsigned.
pub open spec fn operand_u2(f: Frame) -> int {
    f.code()[f.pc() + 1] as int * 256 + f.code()[f.pc() + 2] as int
}

/// The two operand bytes after the opcode, big-endian, signed.
pub open spec fn operand_i16(f: Frame) -> int {
    if operand_u2(f) >= 0x8000 {
        operand_u2(f) - 0x10000
    } else {
        operand_u2(f)
    }
}

/// The value of a `Long` constant with these halves.
pub open spec fn long_value(high_bytes: u32, low_bytes: u32) -> i64 {
    (((high_bytes as u64) << 32u64) | (low_bytes as u64)) as i64
}

pub open spec fn constant_spec(
    f: Frame,
    d: CommonDataStore,
    f2: Frame,
    d2: CommonDataStore,
    r: StepResult<StepAction>,
    op: u8,
) -> bool {
    if 3 <= op <= 8 {
        continues(f, d, f2, d2, r, 1, f.stack().push(JavaType::Int { value: (op - 3) as i32 }))
    } else if op == 16 {
        if !has_operands(f, 1) {
            fails(r, operand_error(f))
        } else {
            continues(f, d, f2, d2, r, 2, f.stack().push(JavaType::Int { value: f.code()[f.pc() + 1] as i32 }))
        }
    } else if op == 18 {
        if !has_operands(f, 1) {
            fails(r, operand_error(f))
        } else {
            let index = f.code()[f.pc() + 1] as int;
            match pool_item(f.pool(), index) {
                Err(e) => fails(r, StepError::Parser(e)),
                Ok(ConstantPoolItem::String { .. }) => match string_constant_at(f.pool(), index) {
                    Err(e) => fails(r, StepError::Parser(e)),
                    Ok(s) => (match r {
                        Ok(StepAction::AllocateString(t)) => t@ == s,
                        _ => false,
                    }) && moved(f, f2, f.pc() + 2, f.stack(), f.locals()) && d2 == d,
                },
                Ok(ConstantPoolItem::Integer { bytes }) => continues(
                    f,
                    d,
                    f2,
                    d2,
                    r,
                    2,
                    f.stack().push(JavaType::Int { value: bytes as i32 }),
                ),
                Ok(item) => fails(r, StepError::UnexpectedConstantPoolItem(item.friendly_name())),
            }
        }
    } else {
        if !has_operands(f, 2) {
            fails(r, operand_error(f))
        } else {
            match pool_item(f.pool(), operand_u2(f)) {
                Err(e) => fails(r, StepError::Parser(e)),
                Ok(ConstantPoolItem::Long { high_bytes, low_bytes }) => continues(
                    f,
                    d,
                    f2,
                    d2,
                    r,
                    3,
                    f.stack().push(JavaType::Long { value: long_value(high_bytes, low_bytes) }).push(
                        JavaType::Filler,
                    ),
                ),
                Ok(item) => fails(r, StepError::UnexpectedConstantPoolItem(item.friendly_name())),
            }
        }
    }
}

/// The array that `array_ref` refers to, or why there is none.
pub open spec fn array_at(d: CommonDataStore, array_ref: JavaType) -> Result<crate::heap::AllocatedArray, StepError> {
    match array_ref {
        JavaType::Reference { value } => match d.object_heap.entity(value) {
            None => Err(StepError::DataStore(DataStoreError::InvalidPointer(value))),
            Some(HeapAllocation::Object(_)) => Err(StepError::DataStore(DataStoreError::UnexpectedHeapType)),
            Some(HeapAllocation::Array(a)) => Ok(a),
        },
        other => Err(StepError::UnexpectedJavaType(other.friendly_name())),
    }
}

pub open spec fn array_spec(
    f: Frame,
    d: CommonDataStore,
    f2: Frame,
    d2: CommonDataStore,
    r: StepResult<StepAction>,
    op: u8,
) -> bool {
    let s = f.stack();
    if op == 46 {
        match pop_int_spec(s) {
            Err(e) => fails(r, e),
            Ok(index) => {
                let s1 = s.drop_last();
                if s1.len() == 0 {
                    fails(r, StepError::UnexpectedEmptyVec)
                } else {
                    match array_at(d, s1.last()) {
                        Err(e) => fails(r, e),
                        Ok(a) => if 0 <= index < a.store@.len() {
                            continues(f, d, f2, d2, r, 1, s1.drop_last().push(a.store@[index as int]))
                        } else {
                            fails(r, StepError::ArrayIndexOutOfBounds(index))
                        },
                    }
                }
            },
        }
    } else if op == 79 {
        if s.len() == 0 {
            fails(r, StepError::UnexpectedEmptyVec)
        } else {
            let value = s.last();
            let s1 = s.drop_last();
            match pop_int_spec(s1) {
                Err(e) => fails(r, e),
                Ok(index) => {
                    let s2 = s1.drop_last();
                    if s2.len() == 0 {
                        fails(r, StepError::UnexpectedEmptyVec)
                    } else {
                        match array_at(d, s2.last()) {
                            Err(e) => fails(r, e),
                            Ok(a) => if 0 <= index < a.store@.len() {
                                &&& r == Ok::<StepAction, StepError>(StepAction::Continue)
                                &&& moved(f, f2, f.pc() + 1, s2.drop_last(), f.locals())
                                &&& d2.class_statics == d.class_statics
                                &&& d2.object_heap.current_pointer == d.object_heap.current_pointer
                                &&& element_set(
                                    d.object_heap.objects@,
                                    d2.object_heap.objects@,
                                    s2.last()->Reference_value as int,
                                    index as int,
                                    value,
                                )
                            } else {
                                fails(r, StepError::ArrayIndexOutOfBounds(index))
                            },
                        }
                    }
                },
            }
        }
    } else {
        if s.len() == 0 {
            fails(r, StepError::UnexpectedEmptyVec)
        } else {
            match array_at(d, s.last()) {
                Err(e) => fails(r, e),
                Ok(a) => continues(f, d, f2, d2, r, 1, s.drop_last().push(JavaType::Int { value: a.count })),
            }
        }
    }
}

/// `value1 op value2` for an `int` arithmetic opcode, where `value2` was on top of
/// the stack; `idiv` truncates toward zero and needs a nonzero `value2`.
pub open spec fn int_op(op: u8, value1: i32, value2: i32) -> i32 {
    if op == 96 {
        value1.wrapping_add(value2)
    } else if op == 100 {
        value1.wrapping_sub(value2)
    } else if op == 104 {
        value1.wrapping_mul(value2)
    } else {
        match value1.checked_div(value2) {
            Some(q) => q,
            None => i32::MIN,
        }
    }
}

/// `value1 op value2` for a `long` arithmetic opcode, where `value2` was on top of
/// the stack; `ldiv` truncates toward zero and needs a nonzero `value2`.
pub open spec fn long_op(op: u8, value1: i64, value2: i64) -> i64 {
    if op == 97 {
        value1.wrapping_add(value2)
    } else if op == 101 {
        value1.wrapping_sub(value2)
    } else if op == 105 {
        value1.wrapping_mul(value2)
    } else {
        match value1.checked_div(value2) {
            Some(q) => q,
            None => i64::MIN,
        }
    }
}

pub open spec fn int_spec(
    f: Frame,
    d: CommonDataStore,
    f2: Frame,
    d2: CommonDataStore,
    r: StepResult<StepAction>,
    op: u8,
) -> bool {
    let s = f.stack();
    match pop_int_spec(s) {
        Err(e) => fails(r, e),
        Ok(value2) => if op == 145 {
            continues(f, d, f2, d2, r, 1, s.drop_last().push(JavaType::Byte { value: value2 as i8 }))
        } else {
            match pop_int_spec(s.drop_last()) {
                Err(e) => fails(r, e),
                Ok(value1) => if op == 108 && value2 == 0 {
                    fails(r, StepError::DivisionByZero)
                } else {
                    continues(
                        f,
                        d,
                        f2,
                        d2,
                        r,
                        1,
                        s.drop_last().drop_last().push(JavaType::Int { value: int_op(op, value1, value2) }),
                    )
                },
            }
        },
    }
}

pub open spec fn long_spec(
    f: Frame,
    d: CommonDataStore,
    f2: Frame,
    d2: CommonDataStore,
    r: StepResult<StepAction>,
    op: u8,
) -> bool {
    let s = f.stack();
    match pop_long_spec(s) {
        Err(e) => fails(r, e),
        Ok(value2) => {
            let s1 = s.subrange(0, s.len() - 2);
            match pop_long_spec(s1) {
                Err(e) => fails(r, e),
                Ok(value1) => if op == 109 && value2 == 0 {
                    fails(r, StepError::DivisionByZero)
                } else {
                    continues(
                        f,
                        d,
                        f2,
                        d2,
                        r,
                        1,
                        s1.subrange(0, s1.len() - 2).push(JavaType::Long { value: long_op(op, value1, value2) }).push(
                            JavaType::Filler,
                        ),
                    )
                },
            }
        },
    }
}

/// A jump to `target`, which must lie inside the code (its end included).
pub open spec fn jump_spec(
    f: Frame,
    d: CommonDataStore,
    f2: Frame,
    d2: CommonDataStore,
    r: StepResult<StepAction>,
    target: int,
    stack: Seq<JavaType>,
) -> bool {
    if 0 <= target <= f.code().len() {
        r == Ok::<StepAction, StepError>(StepAction::Continue) && moved(f, f2, target, stack, f.locals()) && d2 == d
    } else {
        fails(r, StepError::CodeIndexOutOfBounds(f.pc() as usize))
    }
}

pub open spec fn branch_spec(
    f: Frame,
    d: CommonDataStore,
    f2: Frame,
    d2: CommonDataStore,
    r: StepResult<StepAction>,
    op: u8,
) -> bool {
    let s = f.stack();
    if op == 167 {
        if !has_operands(f, 2) {
            fails(r, operand_error(f))
        } else {
            jump_spec(f, d, f2, d2, r, f.pc() + operand_i16(f), s)
        }
    } else {
        match pop_int_spec(s) {
            Err(e) => fails(r, e),
            Ok(v2) => match pop_int_spec(s.drop_last()) {
                Err(e) => fails(r, e),
                Ok(v1) => if !has_operands(f, 2) {
                    fails(r, operand_error(f))
                } else if v1 >= v2 {
                    jump_spec(f, d, f2, d2, r, f.pc() + operand_i16(f), s.drop_last().drop_last())
                } else {
                    continues(f, d, f2, d2, r, 3, s.drop_last().drop_last())
                },
            },
        }
    }
}

pub open spec fn static_spec(
    f: Frame,
    d: CommonDataStore,
    f2: Frame,
    d2: CommonDataStore,
    r: StepResult<StepAction>,
    op: u8,
) -> bool {
    if !has_operands(f, 2) {
        fails(r, operand_error(f))
    } else {
        match member_at(f.pool(), operand_u2(f), true) {
            Err(e) => fails(r, StepError::Parser(e)),
            Ok((class_name, name, _)) => if !d.statics().contains_key(class_name) {
                (match r {
                    Ok(StepAction::InitializeClass(c)) => c@ == class_name,
                    _ => false,
                }) && moved(f, f2, f.pc(), f.stack(), f.locals()) && d2 == d
            } else if op == 178 {
                if d.statics()[class_name].contains_key(name) {
                    continues(f, d, f2, d2, r, 3, f.stack().push(d.statics()[class_name][name]))
                } else {
                    match r {
                        Err(StepError::DataStore(DataStoreError::StaticFieldNotFound(n))) => n@ == name,
                        _ => false,
                    }
                }
            } else {
                if f.stack().len() == 0 {
                    fails(r, StepError::UnexpectedEmptyVec)
                } else {
                    &&& r == Ok::<StepAction, StepError>(StepAction::Continue)
                    &&& moved(f, f2, f.pc() + 3, f.stack().drop_last(), f.locals())
                    &&& d2.object_heap == d.object_heap
                    &&& d2.statics() == d.statics().insert(
                        class_name,
                        d.statics()[class_name].insert(name, f.stack().last()),
                    )
                }
            },
        }
    }
}

/// The object that `object_ref` refers to, or why there is none.
pub open spec fn object_at(d: CommonDataStore, object_ref: JavaType) -> Result<crate::heap::AllocatedObject, StepError> {
    match object_ref {
        JavaType::Reference { value } => match d.object_heap.entity(value) {
            None => Err(StepError::DataStore(DataStoreError::InvalidPointer(value))),
            Some(HeapAllocation::Array(_)) => Err(StepError::DataStore(DataStoreError::UnexpectedHeapType)),
            Some(HeapAllocation::Object(o)) => Ok(o),
        },
        other => Err(StepError::UnexpectedJavaType(other.friendly_name())),
    }
}

pub open spec fn field_spec(
    f: Frame,
    d: CommonDataStore,
    f2: Frame,
    d2: CommonDataStore,
    r: StepResult<StepAction>,
    op: u8,
) -> bool {
    let s = f.stack();
    if !has_operands(f, 2) {
        fails(r, operand_error(f))
    } else {
        match member_at(f.pool(), operand_u2(f), true) {
            Err(e) => fails(r, StepError::Parser(e)),
            Ok((_, name, _)) => if op == 180 {
                if s.len() == 0 {
                    fails(r, StepError::UnexpectedEmptyVec)
                } else {
                    match object_at(d, s.last()) {
                        Err(e) => fails(r, e),
                        Ok(o) => if o.instance_variables@.contains_key(name) {
                            continues(f, d, f2, d2, r, 3, s.drop_last().push(o.instance_variables@[name]))
                        } else {
                            match r {
                                Err(StepError::DataStore(DataStoreError::FieldNotFound(n))) => n@ == name,
                                _ => false,
                            }
                        },
                    }
                }
            } else {
                if s.len() < 2 {
                    fails(r, StepError::UnexpectedEmptyVec)
                } else {
                    let s1 = s.drop_last();
                    match object_at(d, s1.last()) {
                        Err(e) => fails(r, e),
                        Ok(o) => {
                            &&& r == Ok::<StepAction, StepError>(StepAction::Continue)
                            &&& moved(f, f2, f.pc() + 3, s1.drop_last(), f.locals())
                            &&& d2.class_statics == d.class_statics
                            &&& d2.object_heap.current_pointer == d.object_heap.current_pointer
                            &&& field_set(
                                d.object_heap.objects@,
                                d2.object_heap.objects@,
                                s1.last()->Reference_value as int,
                                name,
                                s.last(),
                            )
                        },
                    }
                }
            },
        }
    }
}

/// The arguments that an invocation takes off `stack`: `count` values from the top,
/// in stack order for an instance call and top first for a static call.
pub open spec fn invocation_args(stack: Seq<JavaType>, count: int, is_static: bool) -> Seq<JavaType> {
    let taken = stack.subrange(stack.len() - count, stack.len() as int);
    if is_static {
        taken.reverse()
    } else {
        taken
    }
}

/// The operand slots that an invocation takes: the descriptor's arity, and one
/// more for the receiver of an instance call.
pub open spec fn invocation_arity(descriptor: Seq<char>, is_static: bool) -> int {
    if is_static {
        saturated(descriptor_arity(descriptor) as int)
    } else {
        saturated(descriptor_arity(descriptor) as int + 1)
    }
}

/// `a` is the invocation that opcode `op` asks for.
pub open spec fn is_invocation(
    a: StepAction,
    op: u8,
    class_name: Seq<char>,
    name: Seq<char>,
    descriptor: Seq<char>,
    args: Seq<JavaType>,
) -> bool {
    match a {
        StepAction::InvokeVirtualMethod { class_name: c, name: n, descriptor: t, args: v } => op == 182
            && c@ == class_name && n@ == name && t@ == descriptor && v@ == args,
        StepAction::InvokeSpecialMethod { class_name: c, name: n, descriptor: t, args: v } => op == 183
            && c@ == class_name && n@ == name && t@ == descriptor && v@ == args,
        StepAction::InvokeStaticMethod { class_name: c, name: n, descriptor: t, args: v } => op == 184
            && c@ == class_name && n@ == name && t@ == descriptor && v@ == args,
        _ => false,
    }
}

pub open spec fn invoke_spec(
    f: Frame,
    d: CommonDataStore,
    f2: Frame,
    d2: CommonDataStore,
    r: StepResult<StepAction>,
    op: u8,
) -> bool {
    let s = f.stack();
    if !has_operands(f, 2) {
        fails(r, operand_error(f))
    } else {
        match member_at(f.pool(), operand_u2(f), false) {
            Err(e) => fails(r, StepError::Parser(e)),
            Ok((class_name, name, descriptor)) => {
                let count = invocation_arity(descriptor, op == 184);
                if count > s.len() {
                    fails(r, StepError::UnexpectedEmptyVec)
                } else {
                    &&& (match r {
                        Ok(a) => is_invocation(a, op, class_name, name, descriptor, invocation_args(s, count, op == 184)),
                        Err(_) => false,
                    })
                    &&& moved(f, f2, f.pc() + 3, s.subrange(0, s.len() - count), f.locals())
                    &&& d2 == d
                }
            },
        }
    }
}

pub open spec fn allocation_spec(
    f: Frame,
    d: CommonDataStore,
    f2: Frame,
    d2: CommonDataStore,
    r: StepResult<StepAction>,
    op: u8,
) -> bool {
    if op == 187 {
        if !has_operands(f, 2) {
            fails(r, operand_error(f))
        } else {
            match class_name_at(f.pool(), operand_u2(f)) {
                Err(e) => fails(r, StepError::Parser(e)),
                Ok(class_name) => (match r {
                    Ok(StepAction::AllocateClass(c)) => c@ == class_name,
                    _ => false,
                }) && moved(f, f2, f.pc() + 3, f.stack(), f.locals()) && d2 == d,
            }
        }
    } else {
        match pop_int_spec(f.stack()) {
            Err(e) => fails(r, e),
            Ok(count) => if !has_operands(f, 1) {
                fails(r, operand_error(f))
            } else {
                r == Ok::<StepAction, StepError>(StepAction::AllocateArray(count)) && moved(
                    f,
                    f2,
                    f.pc() + 2,
                    f.stack().drop_last(),
                    f.locals(),
                ) && d2 == d
            },
        }
    }
}

} // verus!
