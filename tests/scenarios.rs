use pantomime_vm::classfile::{
    Attribute, ClassFile, CodeAttribute, ConstantPoolItem, Field, Method, ACC_NATIVE, ACC_STATIC,
};
use pantomime_vm::value::JavaType;
use pantomime_vm::vm::{Dispatch, VirtualMachine, VirtualMachineError};
use std::rc::Rc;

struct Pool {
    items: Vec<ConstantPoolItem>,
}

impl Pool {
    fn new() -> Pool {
        Pool { items: Vec::new() }
    }

    fn add(&mut self, item: ConstantPoolItem) -> u16 {
        self.items.push(item);
        self.items.len() as u16
    }

    fn utf8(&mut self, s: &str) -> u16 {
        self.add(ConstantPoolItem::Utf8 { value: s.to_string() })
    }

    fn class(&mut self, name: &str) -> u16 {
        let name_index = self.utf8(name);
        self.add(ConstantPoolItem::Class { name_index })
    }

    fn member(&mut self, class: &str, name: &str, descriptor: &str, field: bool) -> u16 {
        let class_index = self.class(class);
        let name_index = self.utf8(name);
        let descriptor_index = self.utf8(descriptor);
        let name_and_type_index = self.add(ConstantPoolItem::NameAndType { name_index, descriptor_index });
        if field {
            self.add(ConstantPoolItem::Fieldref { class_index, name_and_type_index })
        } else {
            self.add(ConstantPoolItem::Methodref { class_index, name_and_type_index })
        }
    }
}

fn hi(index: u16) -> u8 {
    (index >> 8) as u8
}

fn lo(index: u16) -> u8 {
    (index & 0xff) as u8
}

fn code_method(name: &str, descriptor: &str, code: Vec<u8>, max_locals: u16) -> Rc<Method> {
    Rc::new(Method {
        access_flags: ACC_STATIC,
        name: name.to_string(),
        descriptor: descriptor.to_string(),
        attributes: vec![Attribute::Code(Rc::new(CodeAttribute { code, max_locals, max_stack: 8 }))],
    })
}

fn native_method(name: &str, descriptor: &str) -> Rc<Method> {
    Rc::new(Method {
        access_flags: ACC_STATIC | ACC_NATIVE,
        name: name.to_string(),
        descriptor: descriptor.to_string(),
        attributes: vec![],
    })
}

fn class(name: &str, pool: Pool, fields: Vec<Field>, methods: Vec<Rc<Method>>) -> ClassFile {
    ClassFile { name: name.to_string(), constant_pool: pool.items, fields, methods }
}

fn string_class() -> ClassFile {
    let value = Field { access_flags: 0, name: "value".to_string(), descriptor: "[C".to_string() };
    let hash = Field { access_flags: 0, name: "hash".to_string(), descriptor: "I".to_string() };
    class("java/lang/String", Pool::new(), vec![value, hash], vec![])
}

/// Runs `main` of `main_class` to the end and returns what it printed.
fn run(vm: &mut VirtualMachine, main_class: &str) -> String {
    vm.start(&main_class.to_string()).unwrap();
    let mut out = String::new();
    for _ in 0..100_000 {
        match vm.dispatch() {
            Ok(Dispatch::Running) => {},
            Ok(Dispatch::Output(line)) => out.push_str(&line),
            Ok(Dispatch::Finished) => return out,
            Ok(Dispatch::NeedClass(name)) => panic!("class not loaded: {}", name),
            Err(e) => panic!("run failed: {:?}", e),
        }
    }
    panic!("run did not finish")
}

/// A class `Main` whose `main` runs `code` (with the print method at pool index
/// `print` of `descriptor` patched in by the caller).
fn main_with_print(mut pool: Pool, descriptor: &str, code: impl Fn(u16) -> Vec<u8>, max_locals: u16) -> ClassFile {
    let print = pool.member("Main", "print", descriptor, false);
    let main = code_method("main", "([Ljava/lang/String;)V", code(print), max_locals);
    class("Main", pool, vec![], vec![main, native_method("print", descriptor)])
}

#[test]
fn int_add_narrowed_to_byte_is_printed() {
    let main = main_with_print(Pool::new(), "(B)V", |p| vec![5, 6, 96, 145, 184, hi(p), lo(p), 177], 1);
    let mut vm = VirtualMachine::new();
    vm.loader.add_class(main);
    assert_eq!(run(&mut vm, "Main"), "OUT: 5\n");
}

#[test]
fn long_constants_add_and_print() {
    let mut pool = Pool::new();
    let one = pool.add(ConstantPoolItem::Long { high_bytes: 0, low_bytes: 1 });
    let two = pool.add(ConstantPoolItem::Long { high_bytes: 0, low_bytes: 2 });
    let main = main_with_print(
        pool,
        "(J)V",
        |p| vec![20, hi(one), lo(one), 20, hi(two), lo(two), 97, 184, hi(p), lo(p), 177],
        1,
    );
    let mut vm = VirtualMachine::new();
    vm.loader.add_class(main);
    assert_eq!(run(&mut vm, "Main"), "OUT: 3\n");
}

#[test]
fn string_constant_is_printed() {
    let mut pool = Pool::new();
    let text = pool.utf8("hello");
    let constant = pool.add(ConstantPoolItem::String { string_index: text });
    let main = main_with_print(pool, "(Ljava/lang/String;)V", |p| vec![18, constant as u8, 184, hi(p), lo(p), 177], 1);
    let mut vm = VirtualMachine::new();
    vm.loader.add_class(main);
    vm.loader.add_class(string_class());
    assert_eq!(run(&mut vm, "Main"), "OUT: hello\n");
}

#[test]
fn counting_loop_prints_each_value() {
    // 0: iconst_0  1: istore_1  2: iload_1  3: bipush 3  5: if_icmpge +13
    // 8: iload_1  9: invokestatic print  12: iinc 1 1  15: goto -13  18: return
    let main = main_with_print(
        Pool::new(),
        "(I)V",
        |p| vec![3, 60, 27, 16, 3, 162, 0, 13, 27, 184, hi(p), lo(p), 132, 1, 1, 167, 0xff, 0xf3, 177],
        2,
    );
    let mut vm = VirtualMachine::new();
    vm.loader.add_class(main);
    assert_eq!(run(&mut vm, "Main"), "OUT: 0\nOUT: 1\nOUT: 2\n");
}

#[test]
fn static_store_waits_for_class_initialization() {
    let mut pool = Pool::new();
    let foo = pool.class("Foo");
    let init = pool.member("Foo", "<init>", "()V", false);
    let f = pool.member("Bar", "f", "LFoo;", true);
    let g = pool.member("Bar", "g", "LFoo;", true);
    // new Foo; dup; invokespecial Foo.<init>; putstatic Bar.f; getstatic Bar.f; putstatic Bar.g; return
    let code = vec![
        187, hi(foo), lo(foo), 89, 183, hi(init), lo(init), 179, hi(f), lo(f), 178, hi(f), lo(f), 179, hi(g), lo(g),
        177,
    ];
    let main = class("Main", pool, vec![], vec![code_method("main", "([Ljava/lang/String;)V", code, 1)]);

    let foo_class = class("Foo", Pool::new(), vec![], vec![code_method("<init>", "()V", vec![177], 1)]);

    let mut bar_pool = Pool::new();
    let ready = bar_pool.member("Bar", "ready", "I", true);
    let clinit = code_method("<clinit>", "()V", vec![4, 179, hi(ready), lo(ready), 177], 0);
    let bar_class = class("Bar", bar_pool, vec![], vec![clinit]);

    let mut vm = VirtualMachine::new();
    vm.loader.add_class(main);
    vm.loader.add_class(foo_class);
    vm.loader.add_class(bar_class);
    assert_eq!(run(&mut vm, "Main"), "");

    let bar = "Bar".to_string();
    let stored = *vm.data_store.get_class_static(&bar, &"f".to_string()).unwrap();
    let read_back = *vm.data_store.get_class_static(&bar, &"g".to_string()).unwrap();
    let ready_value = *vm.data_store.get_class_static(&bar, &"ready".to_string()).unwrap();
    assert_eq!(ready_value, JavaType::Int { value: 1 });
    assert_eq!(stored, read_back);
    let object = vm.data_store.object_heap.get_object(&stored).unwrap();
    assert_eq!(object.class_name, "Foo");
}

#[test]
fn array_store_then_load() {
    // iconst_5; newarray int; dup; iconst_2; bipush 9; iastore; iconst_2; iaload; invokestatic print; return
    let main =
        main_with_print(Pool::new(), "(I)V", |p| vec![8, 188, 10, 89, 5, 16, 9, 79, 5, 46, 184, hi(p), lo(p), 177], 1);
    let mut vm = VirtualMachine::new();
    vm.loader.add_class(main);
    assert_eq!(run(&mut vm, "Main"), "OUT: 9\n");
}

#[test]
fn negative_int_is_printed_with_sign() {
    // iconst_0; iconst_3; isub -> 0 - 3
    let main = main_with_print(Pool::new(), "(I)V", |p| vec![3, 6, 100, 184, hi(p), lo(p), 177], 1);
    let mut vm = VirtualMachine::new();
    vm.loader.add_class(main);
    assert_eq!(run(&mut vm, "Main"), "OUT: -3\n");
}

#[test]
fn missing_class_is_asked_for_and_then_used() {
    let mut pool = Pool::new();
    let text = pool.utf8("hi");
    let constant = pool.add(ConstantPoolItem::String { string_index: text });
    let main = main_with_print(pool, "(Ljava/lang/String;)V", |p| vec![18, constant as u8, 184, hi(p), lo(p), 177], 1);
    let mut vm = VirtualMachine::new();
    vm.loader.add_class(main);
    vm.start(&"Main".to_string()).unwrap();
    let mut out = String::new();
    let mut asked = Vec::new();
    loop {
        match vm.dispatch().unwrap() {
            Dispatch::Running => {},
            Dispatch::Output(line) => out.push_str(&line),
            Dispatch::Finished => break,
            Dispatch::NeedClass(name) => {
                asked.push(name);
                vm.loader.add_class(string_class());
            },
        }
    }
    assert_eq!(asked, vec!["java/lang/String".to_string()]);
    assert_eq!(out, "OUT: hi\n");
}

#[test]
fn runaway_recursion_overflows_the_stack() {
    let mut pool = Pool::new();
    let me = pool.member("Main", "main", "()V", false);
    let main = class("Main", pool, vec![], vec![code_method("main", "()V", vec![184, hi(me), lo(me), 177], 1)]);
    let mut vm = VirtualMachine::new();
    vm.loader.add_class(main);
    vm.start(&"Main".to_string()).unwrap();
    let mut result = None;
    for _ in 0..10_000 {
        match vm.dispatch() {
            Ok(Dispatch::Running) => {},
            Ok(other) => panic!("unexpected {:?}", other),
            Err(e) => {
                result = Some(e);
                break;
            },
        }
    }
    assert!(matches!(result, Some(VirtualMachineError::StackOverflow)));
    assert_eq!(vm.stack.len(), 257);
}

#[test]
fn returning_a_value_from_main_has_no_caller() {
    let main = class("Main", Pool::new(), vec![], vec![code_method("main", "()I", vec![4, 172], 1)]);
    let mut vm = VirtualMachine::new();
    vm.loader.add_class(main);
    vm.start(&"Main".to_string()).unwrap();
    assert!(matches!(vm.dispatch(), Ok(Dispatch::Running)));
    assert!(matches!(vm.dispatch(), Err(VirtualMachineError::ReturnWithoutCaller)));
}

#[test]
fn start_without_the_main_class_fails() {
    let mut vm = VirtualMachine::new();
    let r = vm.start(&"Nowhere".to_string());
    assert!(matches!(r, Err(VirtualMachineError::ClassNotFound(n)) if n == "Nowhere"));
}

#[test]
fn printing_a_non_string_object_fails() {
    let mut pool = Pool::new();
    let foo = pool.class("Foo");
    let main = main_with_print(pool, "(LFoo;)V", |p| vec![187, hi(foo), lo(foo), 184, hi(p), lo(p), 177], 1);
    let foo_class = class("Foo", Pool::new(), vec![], vec![]);
    let mut vm = VirtualMachine::new();
    vm.loader.add_class(main);
    vm.loader.add_class(foo_class);
    vm.start(&"Main".to_string()).unwrap();
    let mut failure = None;
    for _ in 0..100 {
        match vm.dispatch() {
            Ok(Dispatch::Running) => {},
            Ok(other) => panic!("unexpected {:?}", other),
            Err(e) => {
                failure = Some(e);
                break;
            },
        }
    }
    assert!(matches!(failure, Some(VirtualMachineError::UnexpectedPrintClass(n)) if n == "Foo"));
}

#[test]
fn invoke_and_return_keeps_depth_and_pushes_result() {
    let mut pool = Pool::new();
    let seven = pool.member("Main", "seven", "()I", false);
    // invokestatic seven; istore_1; return
    let main = code_method("main", "()V", vec![184, hi(seven), lo(seven), 60, 177], 2);
    let callee = code_method("seven", "()I", vec![16, 7, 172], 1);
    let mut vm = VirtualMachine::new();
    vm.loader.add_class(class("Main", pool, vec![], vec![main, callee]));
    vm.start(&"Main".to_string()).unwrap();
    assert_eq!(vm.stack.len(), 1);
    assert!(matches!(vm.dispatch(), Ok(Dispatch::Running)));
    assert_eq!(vm.stack.len(), 2);
    assert!(matches!(vm.dispatch(), Ok(Dispatch::Running)));
    assert!(matches!(vm.dispatch(), Ok(Dispatch::Running)));
    assert_eq!(vm.stack.len(), 1);
    assert_eq!(vm.stack[0].operand_stack, vec![JavaType::Int { value: 7 }]);
}

#[test]
fn subtraction_takes_the_top_value_from_the_one_below() {
    // iconst_5; iconst_3; isub -> 5 - 3
    let main = main_with_print(Pool::new(), "(I)V", |p| vec![8, 6, 100, 184, hi(p), lo(p), 177], 1);
    let mut vm = VirtualMachine::new();
    vm.loader.add_class(main);
    assert_eq!(run(&mut vm, "Main"), "OUT: 2\n");
}

#[test]
fn static_call_of_a_method_returning_an_object_takes_its_arguments() {
    let mut pool = Pool::new();
    let make = pool.member("Main", "make", "(II)Ljava/lang/Object;", false);
    // iconst_1; iconst_2; invokestatic make; pop into local 1; return
    let main = code_method("main", "()V", vec![4, 5, 184, hi(make), lo(make), 60, 177], 2);
    let callee = code_method("make", "(II)Ljava/lang/Object;", vec![42, 176], 2);
    let mut vm = VirtualMachine::new();
    vm.loader.add_class(class("Main", pool, vec![], vec![main, callee]));
    vm.start(&"Main".to_string()).unwrap();
    assert!(matches!(vm.dispatch(), Ok(Dispatch::Running)));
    assert!(matches!(vm.dispatch(), Ok(Dispatch::Running)));
    assert!(matches!(vm.dispatch(), Ok(Dispatch::Running)));
    assert_eq!(vm.stack.len(), 2);
    assert!(vm.stack[0].operand_stack.is_empty());
    assert_eq!(vm.stack[1].variables, vec![JavaType::Int { value: 2 }, JavaType::Int { value: 1 }]);
}

#[test]
fn string_with_a_character_beyond_one_unit_is_refused() {
    let mut pool = Pool::new();
    let text = pool.utf8("a\u{1F600}");
    let constant = pool.add(ConstantPoolItem::String { string_index: text });
    let main = main_with_print(pool, "(Ljava/lang/String;)V", |p| vec![18, constant as u8, 184, hi(p), lo(p), 177], 1);
    let mut vm = VirtualMachine::new();
    vm.loader.add_class(main);
    vm.loader.add_class(string_class());
    vm.start(&"Main".to_string()).unwrap();
    assert!(matches!(vm.dispatch(), Err(VirtualMachineError::UnsupportedCharacter('\u{1F600}'))));
}

#[test]
fn start_reports_a_missing_or_codeless_main() {
    let mut vm = VirtualMachine::new();
    vm.loader.add_class(class("Empty", Pool::new(), vec![], vec![]));
    assert!(matches!(vm.start(&"Empty".to_string()), Err(VirtualMachineError::MethodNotFound(n)) if n == "main"));
    vm.loader.add_class(class("Native", Pool::new(), vec![], vec![native_method("main", "()V")]));
    assert!(matches!(vm.start(&"Native".to_string()), Err(VirtualMachineError::InvalidMethod(n)) if n == "main"));
    assert!(vm.stack.is_empty());
}
