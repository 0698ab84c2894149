use pantomime_vm::classfile::{Attribute, ClassFile, CodeAttribute, ConstantPoolItem, Field, Method, ParserError};
use pantomime_vm::descriptor::determine_number_of_arguments;
use pantomime_vm::frame::{Codepoint, Frame, StepAction, StepError};
use pantomime_vm::heap::{AllocatedArray, CommonDataStore, DataStoreError, HeapAllocation, ObjectHeap};
use pantomime_vm::loader::{name_segments, BaseClassLoader};
use pantomime_vm::table::NameTable;
use pantomime_vm::value::JavaType;
use pantomime_vm::vm::{print_value, VirtualMachine, VirtualMachineError};
use std::rc::Rc;

fn frame_with(pool: Vec<ConstantPoolItem>, code: Vec<u8>, max_locals: u16, args: Vec<JavaType>, descriptor: &str) -> Frame {
    let class = Rc::new(ClassFile { name: "T".to_string(), constant_pool: pool, fields: vec![], methods: vec![] });
    let method = Rc::new(Method {
        access_flags: 0,
        name: "m".to_string(),
        descriptor: descriptor.to_string(),
        attributes: vec![Attribute::Other, Attribute::Code(Rc::new(CodeAttribute { code, max_locals, max_stack: 4 }))],
    });
    Frame::new(class, method, args).unwrap()
}

fn frame(code: Vec<u8>, max_locals: u16) -> Frame {
    frame_with(vec![], code, max_locals, vec![], "()V")
}

fn step_ok(f: &mut Frame, ds: &mut CommonDataStore) -> StepAction {
    f.step(ds).unwrap()
}

#[test]
fn new_frame_sizes_locals_and_places_arguments() {
    let f = frame_with(vec![], vec![177], 4, vec![JavaType::Int { value: 1 }, JavaType::Long { value: 2 }], "(IJ)V");
    assert_eq!(f.variables.len(), 4);
    assert_eq!(
        f.variables,
        vec![JavaType::Int { value: 1 }, JavaType::Long { value: 2 }, JavaType::Empty, JavaType::Empty]
    );
    assert!(f.operand_stack.is_empty());
    assert_eq!(f.code_position.current(), 0);
}

#[test]
fn new_frame_refuses_a_method_without_code_or_too_many_arguments() {
    let class = Rc::new(ClassFile { name: "T".to_string(), constant_pool: vec![], fields: vec![], methods: vec![] });
    let no_code =
        Rc::new(Method { access_flags: 0, name: "m".to_string(), descriptor: "()V".to_string(), attributes: vec![] });
    assert!(Frame::new(class.clone(), no_code, vec![]).is_none());
    let small = Rc::new(Method {
        access_flags: 0,
        name: "m".to_string(),
        descriptor: "(I)V".to_string(),
        attributes: vec![Attribute::Code(Rc::new(CodeAttribute { code: vec![177], max_locals: 0, max_stack: 1 }))],
    });
    assert!(Frame::new(class, small, vec![JavaType::Int { value: 1 }]).is_none());
}

#[test]
fn locals_keep_their_size_across_steps() {
    // iconst_1; istore_1; iconst_2; istore_2; return
    let mut f = frame(vec![4, 60, 5, 61, 177], 3);
    let mut ds = CommonDataStore::new();
    for _ in 0..4 {
        assert!(matches!(step_ok(&mut f, &mut ds), StepAction::Continue));
        assert_eq!(f.variables.len(), 3);
    }
    assert_eq!(f.variables, vec![JavaType::Empty, JavaType::Int { value: 1 }, JavaType::Int { value: 2 }]);
    assert!(matches!(step_ok(&mut f, &mut ds), StepAction::EndOfMethod));
}

#[test]
fn long_constant_is_followed_by_filler() {
    let pool = vec![ConstantPoolItem::Long { high_bytes: 1, low_bytes: 2 }];
    let mut f = frame_with(pool, vec![20, 0, 1, 177], 1, vec![], "()V");
    let mut ds = CommonDataStore::new();
    step_ok(&mut f, &mut ds);
    assert_eq!(f.operand_stack, vec![JavaType::Long { value: (1i64 << 32) + 2 }, JavaType::Filler]);
    assert_eq!(f.code_position.current(), 3);
}

#[test]
fn long_constant_with_high_bit_is_negative() {
    let pool = vec![ConstantPoolItem::Long { high_bytes: 0xffff_ffff, low_bytes: 0xffff_fffe }];
    let mut f = frame_with(pool, vec![20, 0, 1], 1, vec![], "()V");
    let mut ds = CommonDataStore::new();
    step_ok(&mut f, &mut ds);
    assert_eq!(f.operand_stack, vec![JavaType::Long { value: -2 }, JavaType::Filler]);
}

#[test]
fn long_arithmetic_keeps_filler_on_top() {
    let pool = vec![
        ConstantPoolItem::Long { high_bytes: 0, low_bytes: 6 },
        ConstantPoolItem::Long { high_bytes: 0, low_bytes: 3 },
    ];
    // ldc2_w #1; ldc2_w #2; lsub  -> 6 - 3
    let mut f = frame_with(pool, vec![20, 0, 1, 20, 0, 2, 101], 1, vec![], "()V");
    let mut ds = CommonDataStore::new();
    step_ok(&mut f, &mut ds);
    step_ok(&mut f, &mut ds);
    step_ok(&mut f, &mut ds);
    assert_eq!(f.operand_stack, vec![JavaType::Long { value: 3 }, JavaType::Filler]);
}

#[test]
fn long_pop_without_filler_is_a_type_error() {
    // iconst_1; iconst_1; ladd
    let mut f = frame(vec![4, 4, 97], 1);
    let mut ds = CommonDataStore::new();
    step_ok(&mut f, &mut ds);
    step_ok(&mut f, &mut ds);
    assert!(matches!(f.step(&mut ds), Err(StepError::UnexpectedJavaType("Int"))));
}

#[test]
fn heap_handles_grow_and_stay_valid() {
    let mut heap = ObjectHeap::new();
    let class = ClassFile {
        name: "P".to_string(),
        constant_pool: vec![],
        fields: vec![
            Field { access_flags: 0, name: "x".to_string(), descriptor: "I".to_string() },
            Field { access_flags: 0, name: "next".to_string(), descriptor: "LP;".to_string() },
            Field { access_flags: 0x0008, name: "count".to_string(), descriptor: "I".to_string() },
        ],
        methods: vec![],
    };
    let a = heap.allocate_array(3);
    let o = heap.allocate_object(&class);
    let b = heap.allocate_array(0);
    assert_eq!((a, o, b), (0, 1, 2));
    assert!(heap.get(&JavaType::Reference { value: a }).is_ok());
    let array = heap.get_array(&JavaType::Reference { value: a }).unwrap();
    assert_eq!(array.count, 3);
    assert_eq!(array.store, vec![JavaType::Null, JavaType::Null, JavaType::Null]);
    let object = heap.get_object(&JavaType::Reference { value: o }).unwrap();
    assert_eq!(object.class_name, "P");
    let r = JavaType::Reference { value: o };
    assert_eq!(*heap.get_field(&r, &"x".to_string()).unwrap(), JavaType::Int { value: 0 });
    assert_eq!(*heap.get_field(&r, &"next".to_string()).unwrap(), JavaType::Null);
    assert!(matches!(heap.get_field(&r, &"count".to_string()), Err(DataStoreError::FieldNotFound(n)) if n == "count"));
    assert!(matches!(heap.get(&JavaType::Reference { value: 3 }), Err(DataStoreError::InvalidPointer(3))));
    assert!(matches!(heap.get_object(&JavaType::Reference { value: a }), Err(DataStoreError::UnexpectedHeapType)));
    assert!(matches!(heap.get_array(&r), Err(DataStoreError::UnexpectedHeapType)));
}

#[test]
fn heap_fields_and_arrays_can_be_changed() {
    let mut heap = ObjectHeap::new();
    let class = ClassFile { name: "P".to_string(), constant_pool: vec![], fields: vec![], methods: vec![] };
    let o = heap.allocate_object(&class);
    let r = JavaType::Reference { value: o };
    heap.set_field(&r, "y".to_string(), JavaType::Byte { value: -1 }).unwrap();
    assert_eq!(*heap.get_field(&r, &"y".to_string()).unwrap(), JavaType::Byte { value: -1 });
    heap.get_object_mut(&r).unwrap().class_name = "Q".to_string();
    assert_eq!(heap.get_object(&r).unwrap().class_name, "Q");
    let a = heap.allocate_array(2);
    heap.get_array_mut(&JavaType::Reference { value: a }).unwrap().store[1] = JavaType::Int { value: 4 };
    match heap.get_mut(&JavaType::Reference { value: a }).unwrap() {
        HeapAllocation::Array(arr) => assert_eq!(arr.store[1], JavaType::Int { value: 4 }),
        HeapAllocation::Object(_) => panic!("expected an array"),
    }
}

#[test]
fn negative_array_size_holds_no_elements() {
    let array = AllocatedArray::new(-2);
    assert_eq!(array.count, -2);
    assert!(array.store.is_empty());
}

#[test]
fn class_statics_register_and_read() {
    let mut ds = CommonDataStore::new();
    let bar = "Bar".to_string();
    let f = "f".to_string();
    assert!(!ds.has_class_statics(&bar));
    assert!(matches!(ds.get_class_static(&bar, &f), Err(DataStoreError::UninitializedClass(n)) if n == "Bar"));
    ds.register_class(bar.clone());
    assert!(ds.has_class_statics(&bar));
    assert!(matches!(ds.get_class_static(&bar, &f), Err(DataStoreError::StaticFieldNotFound(n)) if n == "f"));
    ds.set_class_static(&bar, f.clone(), JavaType::Int { value: 3 });
    ds.register_class(bar.clone());
    assert_eq!(*ds.get_class_static(&bar, &f).unwrap(), JavaType::Int { value: 3 });
    ds.set_class_static(&bar, f.clone(), JavaType::Null);
    assert_eq!(*ds.get_class_static(&bar, &f).unwrap(), JavaType::Null);
    assert_eq!(ds.heap().objects.len(), 0);
}

#[test]
fn name_table_keeps_the_latest_binding() {
    let mut t: NameTable<i32> = NameTable::new();
    t.insert("a".to_string(), 1);
    t.insert("b".to_string(), 2);
    t.insert("a".to_string(), 3);
    assert_eq!(t.get(&"a".to_string()), Some(&3));
    assert_eq!(t.get(&"b".to_string()), Some(&2));
    assert_eq!(t.get(&"c".to_string()), None);
    assert_eq!(t.entries.len(), 2);
    *t.get_mut(&"b".to_string()).unwrap() = 5;
    assert_eq!(t.get(&"b".to_string()), Some(&5));
    assert!(t.contains_key(&"b".to_string()));
    assert!(!t.contains_key(&"z".to_string()));
}

#[test]
fn descriptor_arity_counts_slots() {
    assert_eq!(determine_number_of_arguments("(ILjava/lang/String;J[I)V"), 5);
    assert_eq!(determine_number_of_arguments("(BCFISZ)V"), 6);
    assert_eq!(determine_number_of_arguments("(JD)J"), 4);
    assert_eq!(determine_number_of_arguments("([Ljava/lang/Object;)V"), 1);
    assert_eq!(determine_number_of_arguments("()V"), 0);
    assert_eq!(determine_number_of_arguments("(J)Ljava/lang/String;"), 2);
    assert_eq!(determine_number_of_arguments("(LFoo$Bar;)V"), 1);
    assert_eq!(determine_number_of_arguments("(Lcom/acme/Foo2;)V"), 1);
    assert_eq!(determine_number_of_arguments("(I)Lcom/acme/Foo2;"), 1);
    assert_eq!(determine_number_of_arguments("(Lmy_pkg/Inner_1;J)V"), 3);
    assert_eq!(determine_number_of_arguments("(ILjava/lang/Object;)[Ljava/lang/String;"), 2);
    assert_eq!(determine_number_of_arguments("not a descriptor"), 0);
    assert_eq!(determine_number_of_arguments("(I)"), 0);
}

#[test]
fn if_icmpge_not_taken_goes_to_next_instruction() {
    // iconst_1; iconst_2; if_icmpge +5; nop...
    let mut f = frame(vec![4, 5, 162, 0, 5, 177, 177], 1);
    let mut ds = CommonDataStore::new();
    step_ok(&mut f, &mut ds);
    step_ok(&mut f, &mut ds);
    step_ok(&mut f, &mut ds);
    assert_eq!(f.code_position.current(), 5);
    assert!(f.operand_stack.is_empty());
}

#[test]
fn if_icmpge_taken_jumps_from_the_opcode() {
    // iconst_2; iconst_1; if_icmpge +4 -> 6
    let mut f = frame(vec![5, 4, 162, 0, 4, 177, 177], 1);
    let mut ds = CommonDataStore::new();
    step_ok(&mut f, &mut ds);
    step_ok(&mut f, &mut ds);
    step_ok(&mut f, &mut ds);
    assert_eq!(f.code_position.current(), 6);
    assert!(f.operand_stack.is_empty());
}

#[test]
fn goto_outside_the_code_is_an_error() {
    let mut f = frame(vec![167, 0xff, 0x00], 1);
    let mut ds = CommonDataStore::new();
    assert!(matches!(f.step(&mut ds), Err(StepError::CodeIndexOutOfBounds(0))));
}

#[test]
fn step_errors_are_reported() {
    let mut ds = CommonDataStore::new();
    assert!(matches!(frame(vec![0xca], 1).step(&mut ds), Err(StepError::UnknownOpcode(0xca))));
    assert!(matches!(frame(vec![96], 1).step(&mut ds), Err(StepError::UnexpectedEmptyVec)));
    assert!(matches!(frame(vec![16], 1).step(&mut ds), Err(StepError::CodeIndexOutOfBounds(1))));
    assert!(matches!(frame(vec![28], 1).step(&mut ds), Err(StepError::LocalIndexOutOfBounds(2))));
    assert!(matches!(frame(vec![18, 1], 1).step(&mut ds), Err(StepError::Parser(ParserError::InvalidConstantPoolIndex(1)))));
    let pool = vec![ConstantPoolItem::Class { name_index: 1 }];
    assert!(matches!(
        frame_with(pool, vec![18, 1], 1, vec![], "()V").step(&mut ds),
        Err(StepError::UnexpectedConstantPoolItem("Class"))
    ));
    // iconst_1; iconst_0; idiv: the divisor is the top value
    let mut div = frame(vec![4, 3, 108], 1);
    div.step(&mut ds).unwrap();
    div.step(&mut ds).unwrap();
    assert!(matches!(div.step(&mut ds), Err(StepError::DivisionByZero)));
    // iconst_2; newarray int asks for an array of two elements
    let mut arr = frame(vec![5, 188, 10], 1);
    arr.step(&mut ds).unwrap();
    assert!(matches!(arr.step(&mut ds), Ok(StepAction::AllocateArray(2))));
}

#[test]
fn array_index_out_of_bounds_is_an_error() {
    let mut ds = CommonDataStore::new();
    let h = ds.heap().allocate_array(2);
    let mut f = frame(vec![5, 46], 1);
    f.push_operand_stack_value(JavaType::Reference { value: h });
    f.step(&mut ds).unwrap();
    assert!(matches!(f.step(&mut ds), Err(StepError::ArrayIndexOutOfBounds(2))));
    let mut g = frame(vec![4, 46], 1);
    g.push_operand_stack_value(JavaType::Null);
    g.step(&mut ds).unwrap();
    assert!(matches!(g.step(&mut ds), Err(StepError::UnexpectedJavaType("Null"))));
    let mut k = frame(vec![4, 46], 1);
    k.push_operand_stack_value(JavaType::Reference { value: 9 });
    k.step(&mut ds).unwrap();
    assert!(matches!(k.step(&mut ds), Err(StepError::DataStore(DataStoreError::InvalidPointer(9)))));
}

#[test]
fn int_arithmetic_wraps_and_truncates() {
    let mut ds = CommonDataStore::new();
    // iload_0; iload_1; imul  -> locals 0 and 1 hold the operands
    let mut f = frame_with(vec![], vec![26, 27, 104], 2, vec![JavaType::Int { value: i32::MAX }, JavaType::Int { value: 2 }], "(II)V");
    for _ in 0..3 {
        f.step(&mut ds).unwrap();
    }
    assert_eq!(f.operand_stack, vec![JavaType::Int { value: -2 }]);
    // 7 below, -2 on top: idiv gives 7 / -2, truncated toward zero
    let mut g = frame_with(vec![], vec![26, 27, 108], 2, vec![JavaType::Int { value: 7 }, JavaType::Int { value: -2 }], "(II)V");
    for _ in 0..3 {
        g.step(&mut ds).unwrap();
    }
    assert_eq!(g.operand_stack, vec![JavaType::Int { value: -3 }]);
    let mut h = frame_with(vec![], vec![26, 27, 108], 2, vec![JavaType::Int { value: 2 }, JavaType::Int { value: -7 }], "(II)V");
    for _ in 0..3 {
        h.step(&mut ds).unwrap();
    }
    assert_eq!(h.operand_stack, vec![JavaType::Int { value: 0 }]);
    let mut i = frame_with(vec![], vec![26, 145], 1, vec![JavaType::Int { value: 300 }], "(I)V");
    i.step(&mut ds).unwrap();
    i.step(&mut ds).unwrap();
    assert_eq!(i.operand_stack, vec![JavaType::Byte { value: 44 }]);
}

#[test]
fn iinc_adds_to_an_int_local() {
    let mut ds = CommonDataStore::new();
    let mut f = frame_with(vec![], vec![132, 0, 5], 1, vec![JavaType::Int { value: 10 }], "(I)V");
    f.step(&mut ds).unwrap();
    assert_eq!(f.variables, vec![JavaType::Int { value: 15 }]);
    let mut g = frame(vec![132, 0, 5], 1);
    assert!(matches!(g.step(&mut ds), Err(StepError::UnexpectedJavaType("Empty"))));
}

#[test]
fn end_of_code_ends_only_a_void_method() {
    let mut ds = CommonDataStore::new();
    let mut f = frame(vec![], 1);
    assert!(matches!(f.step(&mut ds), Ok(StepAction::EndOfMethod)));
    let mut g = frame_with(vec![], vec![], 1, vec![], "()I");
    assert!(matches!(g.step(&mut ds), Err(StepError::CodeIndexOutOfBounds(0))));
}

#[test]
fn getstatic_of_an_uninitialized_class_rewinds() {
    let pool = vec![
        ConstantPoolItem::Utf8 { value: "Bar".to_string() },
        ConstantPoolItem::Class { name_index: 1 },
        ConstantPoolItem::Utf8 { value: "f".to_string() },
        ConstantPoolItem::Utf8 { value: "I".to_string() },
        ConstantPoolItem::NameAndType { name_index: 3, descriptor_index: 4 },
        ConstantPoolItem::Fieldref { class_index: 2, name_and_type_index: 5 },
    ];
    let mut f = frame_with(pool, vec![4, 178, 0, 6], 1, vec![], "()V");
    let mut ds = CommonDataStore::new();
    f.step(&mut ds).unwrap();
    assert!(matches!(f.step(&mut ds), Ok(StepAction::InitializeClass(n)) if n == "Bar"));
    assert_eq!(f.code_position.current(), 1);
    ds.register_class("Bar".to_string());
    assert!(matches!(
        f.step(&mut ds),
        Err(StepError::DataStore(DataStoreError::StaticFieldNotFound(n))) if n == "f"
    ));
}

#[test]
fn invocation_arguments_keep_their_conventions() {
    let pool = || vec![
        ConstantPoolItem::Utf8 { value: "C".to_string() },
        ConstantPoolItem::Class { name_index: 1 },
        ConstantPoolItem::Utf8 { value: "m".to_string() },
        ConstantPoolItem::Utf8 { value: "(II)V".to_string() },
        ConstantPoolItem::NameAndType { name_index: 3, descriptor_index: 4 },
        ConstantPoolItem::Methodref { class_index: 2, name_and_type_index: 5 },
    ];
    let mut ds = CommonDataStore::new();
    // iconst_1; iconst_2; invokestatic
    let mut s = frame_with(pool(), vec![4, 5, 184, 0, 6], 1, vec![], "()V");
    s.step(&mut ds).unwrap();
    s.step(&mut ds).unwrap();
    match s.step(&mut ds).unwrap() {
        StepAction::InvokeStaticMethod { class_name, name, descriptor, args } => {
            assert_eq!((class_name.as_str(), name.as_str(), descriptor.as_str()), ("C", "m", "(II)V"));
            assert_eq!(args, vec![JavaType::Int { value: 2 }, JavaType::Int { value: 1 }]);
        },
        other => panic!("unexpected {:?}", other),
    }
    // aload_0; iconst_1; iconst_2; invokevirtual
    let mut v = frame_with(pool(), vec![42, 4, 5, 182, 0, 6], 1, vec![JavaType::Reference { value: 0 }], "()V");
    v.step(&mut ds).unwrap();
    v.step(&mut ds).unwrap();
    v.step(&mut ds).unwrap();
    match v.step(&mut ds).unwrap() {
        StepAction::InvokeVirtualMethod { args, .. } => {
            assert_eq!(args, vec![JavaType::Reference { value: 0 }, JavaType::Int { value: 1 }, JavaType::Int { value: 2 }]);
        },
        other => panic!("unexpected {:?}", other),
    }
    assert!(v.operand_stack.is_empty());
}

#[test]
fn codepoint_moves() {
    let mut c = Codepoint::new();
    assert_eq!(c.get_and_increment(), 0);
    assert_eq!(c.current(), 1);
    c.offset(5);
    assert_eq!(c.current(), 6);
    c.reverse(3);
    assert_eq!(c.current(), 3);
}

#[test]
fn class_names_split_into_segments() {
    assert_eq!(name_segments(&"java/lang/Foo".to_string()), vec!["java", "lang", "Foo"]);
    assert_eq!(name_segments(&"Main".to_string()), vec!["Main"]);
}

#[test]
fn loader_keeps_the_first_class_of_a_name() {
    let mut loader = BaseClassLoader::new();
    let first = ClassFile { name: "A".to_string(), constant_pool: vec![], fields: vec![], methods: vec![] };
    let second = ClassFile {
        name: "A".to_string(),
        constant_pool: vec![ConstantPoolItem::Integer { bytes: 1 }],
        fields: vec![],
        methods: vec![],
    };
    assert!(loader.add_class(first));
    assert!(!loader.add_class(second));
    assert!(loader.resolve_class(&"A".to_string()).unwrap().constant_pool.is_empty());
    assert!(matches!(loader.resolve_class(&"B".to_string()), Err(VirtualMachineError::ClassNotFound(n)) if n == "B"));
    loader.add_classfile_path("a.class".to_string(), true);
    loader.add_classfile_path("classes".to_string(), false);
    assert_eq!(loader.classfile_paths, vec!["a.class".to_string()]);
    assert_eq!(loader.classfile_directories, vec!["classes".to_string()]);
}

fn string_object(heap: &mut ObjectHeap, units: Vec<JavaType>) -> JavaType {
    let class = ClassFile {
        name: "java/lang/String".to_string(),
        constant_pool: vec![],
        fields: vec![Field { access_flags: 0, name: "value".to_string(), descriptor: "[C".to_string() }],
        methods: vec![],
    };
    let a = heap.allocate_array(units.len() as i32);
    heap.get_array_mut(&JavaType::Reference { value: a }).unwrap().store = units;
    let s = heap.allocate_object(&class);
    let r = JavaType::Reference { value: s };
    heap.set_field(&r, "value".to_string(), JavaType::Reference { value: a }).unwrap();
    r
}

#[test]
fn print_writes_the_last_argument() {
    let mut heap = ObjectHeap::new();
    let text = string_object(&mut heap, vec![JavaType::Char { value: 0x68 }, JavaType::Char { value: 0xe9 }]);
    assert_eq!(print_value(&heap, &vec![JavaType::Filler, JavaType::Long { value: -9_000_000_000 }]).unwrap(), "OUT: -9000000000\n");
    assert_eq!(print_value(&heap, &vec![JavaType::Byte { value: -128 }]).unwrap(), "OUT: -128\n");
    assert_eq!(print_value(&heap, &vec![text]).unwrap(), "OUT: h\u{e9}\n");
}

#[test]
fn print_refuses_what_it_cannot_write() {
    let mut heap = ObjectHeap::new();
    assert!(matches!(print_value(&heap, &vec![]), Err(VirtualMachineError::MissingPrintArgument)));
    assert!(matches!(print_value(&heap, &vec![JavaType::Null]), Err(VirtualMachineError::UnexpectedPrintArgument("Null"))));
    let surrogate = string_object(&mut heap, vec![JavaType::Char { value: 0xd800 }]);
    assert!(matches!(print_value(&heap, &vec![surrogate]), Err(VirtualMachineError::InvalidCharacter(0xd800))));
    let mixed = string_object(&mut heap, vec![JavaType::Int { value: 1 }]);
    assert!(matches!(print_value(&heap, &vec![mixed]), Err(VirtualMachineError::UnexpectedPrintArgument("Int"))));
}

#[test]
fn calling_a_missing_or_codeless_method_fails() {
    let pool = vec![
        ConstantPoolItem::Utf8 { value: "Main".to_string() },
        ConstantPoolItem::Class { name_index: 1 },
        ConstantPoolItem::Utf8 { value: "gone".to_string() },
        ConstantPoolItem::Utf8 { value: "()V".to_string() },
        ConstantPoolItem::NameAndType { name_index: 3, descriptor_index: 4 },
        ConstantPoolItem::Methodref { class_index: 2, name_and_type_index: 5 },
    ];
    let main = Rc::new(Method {
        access_flags: 0,
        name: "main".to_string(),
        descriptor: "()V".to_string(),
        attributes: vec![Attribute::Code(Rc::new(CodeAttribute { code: vec![184, 0, 6, 177], max_locals: 0, max_stack: 1 }))],
    });
    let mut vm = VirtualMachine::new();
    vm.loader.add_class(ClassFile { name: "Main".to_string(), constant_pool: pool, fields: vec![], methods: vec![main.clone()] });
    vm.start(&"Main".to_string()).unwrap();
    assert!(matches!(vm.dispatch(), Err(VirtualMachineError::MethodNotFound(n)) if n == "gone"));

    let gone = Rc::new(Method { access_flags: 0, name: "gone".to_string(), descriptor: "()V".to_string(), attributes: vec![] });
    let mut vm = VirtualMachine::new();
    let pool2 = vec![
        ConstantPoolItem::Utf8 { value: "Main".to_string() },
        ConstantPoolItem::Class { name_index: 1 },
        ConstantPoolItem::Utf8 { value: "gone".to_string() },
        ConstantPoolItem::Utf8 { value: "()V".to_string() },
        ConstantPoolItem::NameAndType { name_index: 3, descriptor_index: 4 },
        ConstantPoolItem::Methodref { class_index: 2, name_and_type_index: 5 },
    ];
    vm.loader.add_class(ClassFile { name: "Main".to_string(), constant_pool: pool2, fields: vec![], methods: vec![main, gone] });
    vm.start(&"Main".to_string()).unwrap();
    assert!(matches!(vm.dispatch(), Err(VirtualMachineError::InvalidMethod(n)) if n == "gone"));
}

#[test]
fn division_tests_the_top_value_for_zero() {
    let mut ds = CommonDataStore::new();
    // iconst_0; iconst_5; idiv -> 0 / 5
    let mut f = frame(vec![3, 8, 108], 1);
    f.step(&mut ds).unwrap();
    f.step(&mut ds).unwrap();
    f.step(&mut ds).unwrap();
    assert_eq!(f.operand_stack, vec![JavaType::Int { value: 0 }]);
    let pool = vec![
        ConstantPoolItem::Long { high_bytes: 0, low_bytes: 5 },
        ConstantPoolItem::Long { high_bytes: 0, low_bytes: 0 },
    ];
    // ldc2_w 5; ldc2_w 0; ldiv
    let mut g = frame_with(pool, vec![20, 0, 1, 20, 0, 2, 109], 1, vec![], "()V");
    g.step(&mut ds).unwrap();
    g.step(&mut ds).unwrap();
    assert!(matches!(g.step(&mut ds), Err(StepError::DivisionByZero)));
}
