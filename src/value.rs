use vstd::prelude::*;

use crate::frame::{StepError, StepResult};

verus! {

/// A tagged slot value, shared by operand stacks, locals and heap storage.
///
/// A 64-bit value takes two slots: the value itself, then a `Filler`.
#[derive(Clone, Copy, Debug, PartialEq, Eq, Structural)]
pub enum JavaType {
    Byte { value: i8 },
    Char { value: u16 },
    Int { value: i32 },
    Long { value: i64 },
    Reference { value: u64 },
    Null,
    Filler,
    Empty,
}

impl JavaType {
    pub open spec fn friendly_name(self) -> &'static str {
        match self {
            JavaType::Byte { .. } => "Byte",
            JavaType::Char { .. } => "Char",
            JavaType::Int { .. } => "Int",
            JavaType::Long { .. } => "Long",
            JavaType::Reference { .. } => "Reference",
            JavaType::Null => "Null",
            JavaType::Filler => "Filler",
            JavaType::Empty => "Empty",
        }
    }

    /// The name of the variant, for diagnostics.
    pub fn to_friendly_name(&self) -> (r: &'static str)
        ensures
            r == self.friendly_name(),
    {
        match self {
            JavaType::Byte { .. } => "Byte",
            JavaType::Char { .. } => "Char",
            JavaType::Int { .. } => "Int",
            JavaType::Long { .. } => "Long",
            JavaType::Reference { .. } => "Reference",
            JavaType::Null => "Null",
            JavaType::Filler => "Filler",
            JavaType::Empty => "Empty",
        }
    }

    /// Reads slot `index` of a locals array.
    pub fn load(index: usize, variables: &Vec<JavaType>) -> (r: StepResult<JavaType>)
        ensures
            r == load_spec(index as int, variables@),
    {
        if index < variables.len() {
            Ok(variables[index])
        } else {
            Err(StepError::LocalIndexOutOfBounds(index))
        }
    }

    /// Pops an `Int` off the top of `stack`.
    pub fn pop_int(stack: &mut Vec<JavaType>) -> (r: StepResult<i32>)
        ensures
            r == pop_int_spec(old(stack)@),
            old(stack)@.len() > 0 ==> final(stack)@ == old(stack)@.drop_last(),
            old(stack)@.len() == 0 ==> final(stack)@ == old(stack)@,
    {
        match stack.pop() {
            Some(JavaType::Int { value }) => Ok(value),
            Some(other) => Err(StepError::UnexpectedJavaType(other.to_friendly_name())),
            None => Err(StepError::UnexpectedEmptyVec),
        }
    }

    /// Pops a `Long`, held as the value followed by a `Filler`, off the top of `stack`.
    pub fn pop_long(stack: &mut Vec<JavaType>) -> (r: StepResult<i64>)
        ensures
            r == pop_long_spec(old(stack)@),
            r is Ok ==> final(stack)@ == old(stack)@.subrange(0, old(stack)@.len() - 2),
    {
        match stack.pop() {
            Some(JavaType::Filler) => {},
            Some(other) => {
                return Err(StepError::UnexpectedJavaType(other.to_friendly_name()));
            },
            None => {
                return Err(StepError::UnexpectedEmptyVec);
            },
        }
        match stack.pop() {
            Some(JavaType::Long { value }) => Ok(value),
            Some(other) => Err(StepError::UnexpectedJavaType(other.to_friendly_name())),
            None => Err(StepError::UnexpectedEmptyVec),
        }
    }

    /// Reads slot `index` of a locals array, which must hold an `Int`.
    pub fn retrieve_int(index: usize, variables: &Vec<JavaType>) -> (r: StepResult<i32>)
        ensures
            r == retrieve_int_spec(index as int, variables@),
    {
        if index >= variables.len() {
            return Err(StepError::LocalIndexOutOfBounds(index));
        }
        match variables[index] {
            JavaType::Int { value } => Ok(value),
            other => Err(StepError::UnexpectedJavaType(other.to_friendly_name())),
        }
    }
}

pub open spec fn load_spec(index: int, variables: Seq<JavaType>) -> StepResult<JavaType> {
    if 0 <= index < variables.len() {
        Ok(variables[index])
    } else {
        Err(StepError::LocalIndexOutOfBounds(index as usize))
    }
}

pub open spec fn pop_int_spec(stack: Seq<JavaType>) -> StepResult<i32> {
    if stack.len() == 0 {
        Err(StepError::UnexpectedEmptyVec)
    } else {
        match stack.last() {
            JavaType::Int { value } => Ok(value),
            other => Err(StepError::UnexpectedJavaType(other.friendly_name())),
        }
    }
}

pub open spec fn pop_long_spec(stack: Seq<JavaType>) -> StepResult<i64> {
    if stack.len() == 0 {
        Err(StepError::UnexpectedEmptyVec)
    } else if stack.last() != JavaType::Filler {
        Err(StepError::UnexpectedJavaType(stack.last().friendly_name()))
    } else if stack.len() == 1 {
        Err(StepError::UnexpectedEmptyVec)
    } else {
        match stack[stack.len() - 2] {
            JavaType::Long { value } => Ok(value),
            other => Err(StepError::UnexpectedJavaType(other.friendly_name())),
        }
    }
}

pub open spec fn retrieve_int_spec(index: int, variables: Seq<JavaType>) -> StepResult<i32> {
    if 0 <= index < variables.len() {
        match variables[index] {
            JavaType::Int { value } => Ok(value),
            other => Err(StepError::UnexpectedJavaType(other.friendly_name())),
        }
    } else {
        Err(StepError::LocalIndexOutOfBounds(index as usize))
    }
}

} // verus!
