//! The execution core of a small virtual machine for JVM bytecode.
//!
//! - `value`: the tagged slot values of operand stacks, locals and the heap.
//! - `classfile`: parsed classes as the interpreter reads them, and
//!   constant-pool resolution.
//! - `descriptor`: argument arity of method descriptors.
//! - `table`: the name-keyed tables behind fields, statics and loaded classes.
//! - `heap`: class statics and the object heap.
//! - `frame`: a method activation and its single-instruction step.
//! - `semantics`: what one step does, opcode by opcode.
//! - `loader`: the loaded classes, by name.
//! - `vm`: the driver that owns the frame stack and handles what steps ask for.
//! - `laws`: properties of steps, allocation and calls.

pub mod classfile;
pub mod descriptor;
pub mod frame;
pub mod heap;
pub mod laws;
pub mod loader;
pub mod semantics;
pub mod table;
pub mod text;
pub mod value;
pub mod vm;
