use shuriken_bindings::analysis::{DvmBasicBlocks, DvmMethodAnalysis, DvmRefType, DvmRefTypeMethodIdx};
use shuriken_bindings::disassembler::{DexInstType, DvmDisassembledMethod, DvmInstruction};
use shuriken_bindings::dvm_access_flags::{DvmAccessFlag, DvmAccessFlagType};
use shuriken_bindings::native::{
    LiftError, NativeBasicBlock, NativeBasicBlocks, NativeClass, NativeClassIdx,
    NativeClassMethodIdx, NativeDisassembledMethod, NativeException, NativeField, NativeHandler,
    NativeInstruction, NativeMethod, NativeMethodAnalysis, NativeRefTypeMethodIdx,
};
use shuriken_bindings::parser::{DexBasicTypes, DexTypes, DvmClass, DvmField, DvmMethod};

fn b(s: &str) -> Vec<u8> {
    s.as_bytes().to_vec()
}

fn field(name: &str, type_: u32, fundamental_value: u32, type_value: &str) -> NativeField {
    NativeField {
        class_name: b("LFoo;"),
        name: b(name),
        type_,
        fundamental_value,
        type_value: b(type_value),
        access_flags: 0x2,
    }
}

fn method(name: &str, access_flags: u16) -> NativeMethod {
    NativeMethod {
        class_name: b("LFoo;"),
        method_name: b(name),
        prototype: b("()V"),
        access_flags,
        code_size: 2,
        code: vec![0x0e, 0x00],
        dalvik_name: b(&format!("LFoo;->{}()V", name)),
        demangled_name: b(&format!("void Foo.{}()", name)),
    }
}

fn class_foo() -> NativeClass {
    NativeClass {
        class_name: b("Foo"),
        super_class: b("java.lang.Object"),
        source_file: b("Foo.java"),
        access_flags: 0x1,
        direct_methods_size: 1,
        direct_methods: vec![method("bar", 0x2)],
        virtual_methods_size: 0,
        virtual_methods: vec![],
        instance_fields_size: 2,
        instance_fields: vec![field("count", 0, 5, "I"), field("label", 1, 0, "Ljava/lang/String;")],
        static_fields_size: 0,
        static_fields: vec![],
    }
}

fn ins(address: u64, length: u32, text: &str) -> NativeInstruction {
    NativeInstruction { instruction_type: 1, instruction_length: length, address, op: 0, disassembly: b(text) }
}

#[test]
fn single_class_fixture_private_method() {
    let class = DvmClass::from_ptr(&class_foo()).unwrap();
    assert_eq!(class.class_name(), "Foo");
    assert_eq!(class.super_class(), "java.lang.Object");
    assert_eq!(class.source_file(), "Foo.java");
    assert_eq!(class.access_flags(), &[DvmAccessFlag::ACC_PUBLIC]);
    assert_eq!(class.direct_methods_size(), 1);
    assert_eq!(class.virtual_methods_size(), 0);
    let bar = &class.direct_methods()[0];
    assert_eq!(bar.dalvik_name(), "LFoo;->bar()V");
    assert_eq!(bar.method_name(), "bar");
    assert_eq!(bar.prototype(), "()V");
    assert_eq!(bar.class_name(), "LFoo;");
    assert_eq!(bar.demangled_name(), "void Foo.bar()");
    assert_eq!(bar.code_size(), 2);
    assert_eq!(bar.code(), &[0x0e, 0x00]);
    assert_eq!(bar.access_flags(), &[DvmAccessFlag::ACC_PRIVATE]);
    assert_eq!(DvmAccessFlag::parse(0x2, DvmAccessFlagType::Method), vec![DvmAccessFlag::ACC_PRIVATE]);
    assert_eq!(DvmAccessFlag::parse(0x2, DvmAccessFlagType::Field), vec![DvmAccessFlag::ACC_PRIVATE]);
}

#[test]
fn fundamental_and_class_fields() {
    let int_field = DvmField::from_ptr(&field("count", 0, 5, "I")).unwrap();
    assert_eq!(int_field.field_type(), DexTypes::Fundamental);
    assert_eq!(int_field.fundamental_value(), DexBasicTypes::Int);
    assert_eq!(int_field.type_value(), "I");
    assert_eq!(int_field.name(), "count");
    assert_eq!(int_field.class_name(), "LFoo;");
    assert_eq!(int_field.access_flags(), &[DvmAccessFlag::ACC_PRIVATE]);

    let string_field = DvmField::from_ptr(&field("label", 1, 5, "Ljava/lang/String;")).unwrap();
    assert_eq!(string_field.field_type(), DexTypes::Class);
    assert_eq!(string_field.fundamental_value(), DexBasicTypes::FundamentalNone);
    assert_eq!(string_field.type_value(), "Ljava/lang/String;");

    let array_field = DvmField::from_ptr(&field("all", 2, 5, "[I")).unwrap();
    assert_eq!(array_field.field_type(), DexTypes::Array);
    assert_eq!(array_field.fundamental_value(), DexBasicTypes::FundamentalNone);

    let odd_field = DvmField::from_ptr(&field("odd", 7, 0, "?")).unwrap();
    assert_eq!(odd_field.field_type(), DexTypes::Unknown);
}

#[test]
fn field_access_flags_decode_as_field() {
    let mut raw = field("f", 1, 0, "LBar;");
    raw.access_flags = 0x40 | 0x4000 | 0x400;
    let f = DvmField::from_ptr(&raw).unwrap();
    assert_eq!(f.access_flags(), &[DvmAccessFlag::ACC_VOLATILE, DvmAccessFlag::ACC_ENUM]);
}

#[test]
fn invalid_fundamental_code_is_fatal() {
    assert_eq!(DvmField::from_ptr(&field("x", 0, 9, "I")).unwrap_err(), LiftError::InvalidValue);
    assert_eq!(DvmField::from_ptr(&field("x", 0, 8, "V")).unwrap().fundamental_value(), DexBasicTypes::Void);
}

#[test]
fn invalid_text_is_fatal() {
    let mut raw = class_foo();
    raw.direct_methods[0].prototype = vec![0x28, 0xff, 0x29];
    assert_eq!(DvmClass::from_ptr(&raw).unwrap_err(), LiftError::InvalidText);
    let bad = field("x", 1, 0, "L");
    let mut bad = bad;
    bad.name = vec![0xc3];
    assert_eq!(DvmField::from_ptr(&bad).unwrap_err(), LiftError::InvalidText);
}

#[test]
fn multibyte_text_is_decoded() {
    let f = DvmField::from_ptr(&field("caf\u{e9}", 1, 0, "Ljava/lang/String;")).unwrap();
    assert_eq!(f.name(), "café");
    assert_eq!(f.name().chars().count(), 4);
}

#[test]
fn declared_size_mismatch_is_fatal() {
    let mut raw = class_foo();
    raw.instance_fields_size = 3;
    assert_eq!(DvmClass::from_ptr(&raw).unwrap_err(), LiftError::SizeMismatch);
    let mut m = method("bar", 0);
    m.code_size = 4;
    assert_eq!(DvmMethod::from_ptr(&m).unwrap_err(), LiftError::SizeMismatch);
}

#[test]
fn instruction_formats() {
    let mut raw = ins(4, 4, "add-int v0, v5, v6");
    raw.instruction_type = 24;
    raw.op = 0x90;
    let i = DvmInstruction::from_ins(&raw).unwrap();
    assert_eq!(i.instruction_type(), DexInstType::DexInstruction35c);
    assert_eq!(i.instruction_length(), 4);
    assert_eq!(i.address(), 4);
    assert_eq!(i.op(), 0x90);
    assert_eq!(i.disassembly(), "add-int v0, v5, v6");
    raw.instruction_type = 99;
    assert_eq!(DvmInstruction::from_ins(&raw).unwrap().instruction_type(), DexInstType::DexNoneOp);
    raw.instruction_type = 32;
    assert_eq!(DvmInstruction::from_ins(&raw).unwrap().instruction_type(), DexInstType::DexDalvikIncorrect);
    raw.instruction_type = 0;
    assert_eq!(DvmInstruction::from_ins(&raw).unwrap().instruction_type(), DexInstType::DexInstruction00x);
    raw.instruction_type = 31;
    assert_eq!(DvmInstruction::from_ins(&raw).unwrap().instruction_type(), DexInstType::DexFillArrayData);
}

fn disassembled_bar() -> NativeDisassembledMethod {
    NativeDisassembledMethod {
        method_id: Some(method("bar", 0x2)),
        n_of_registers: 3,
        n_of_exceptions: 1,
        exception_information: vec![NativeException {
            try_value_start_addr: 0,
            try_value_end_addr: 4,
            n_of_handlers: 2,
            handler: vec![
                NativeHandler { handler_type: b("Ljava/io/IOException;"), handler_start_addr: 8 },
                NativeHandler { handler_type: b("Ljava/lang/Throwable;"), handler_start_addr: 6 },
            ],
        }],
        n_of_instructions: 3,
        instructions: vec![ins(0, 4, "const/16 v0, 42"), ins(4, 2, "return-void"), ins(6, 2, "move-exception v0")],
        method_string: b(".method private LFoo;->bar()V\n.end method"),
    }
}

#[test]
fn disassembled_method_lifts_whole() {
    let d = DvmDisassembledMethod::from_ptr(&disassembled_bar()).unwrap();
    assert_eq!(d.method_id().dalvik_name(), "LFoo;->bar()V");
    assert_eq!(d.n_of_registers(), 3);
    assert_eq!(d.n_of_exceptions(), 1);
    assert_eq!(d.n_of_instructions(), 3);
    assert_eq!(d.instructions().len(), 3);
    assert_eq!(d.instructions()[1].disassembly(), "return-void");
    assert_eq!(d.method_string(), ".method private LFoo;->bar()V\n.end method");
    let e = &d.exception_information()[0];
    assert_eq!(e.try_value_start_addr(), 0);
    assert_eq!(e.try_value_end_addr(), 4);
    assert_eq!(e.n_of_handlers(), 2);
    assert_eq!(e.handlers()[0].handler_type(), "Ljava/io/IOException;");
    assert_eq!(e.handlers()[0].handler_start_addr(), 8);
    assert_eq!(e.handlers()[1].handler_type(), "Ljava/lang/Throwable;");
}

#[test]
fn null_method_pointer_is_fatal() {
    let mut raw = disassembled_bar();
    raw.method_id = None;
    assert_eq!(DvmDisassembledMethod::from_ptr(&raw).unwrap_err(), LiftError::NullPointer);
    let m = DvmMethod::from_ptr(&method("bar", 0)).unwrap();
    let d = DvmDisassembledMethod::from_dvmdisassembled_method_t(&raw, m).unwrap();
    assert_eq!(d.method_id().method_name(), "bar");
}

#[test]
fn handler_count_mismatch_is_fatal() {
    let mut raw = disassembled_bar();
    raw.exception_information[0].n_of_handlers = 1;
    assert_eq!(DvmDisassembledMethod::from_ptr(&raw).unwrap_err(), LiftError::SizeMismatch);
}

fn block(name: &str, instructions: Vec<NativeInstruction>, handler_type: Option<Vec<u8>>) -> NativeBasicBlock {
    NativeBasicBlock {
        n_of_instructions: instructions.len(),
        instructions,
        try_block: 0,
        catch_block: 1,
        handler_type,
        name: b(name),
        block_string: b(name),
    }
}

fn xref(class: &str, method: &str, idx: u64) -> NativeClassMethodIdx {
    NativeClassMethodIdx { cls: Some(b(class)), method: Some(b(method)), idx }
}

fn analysis(full_name: &str, xrefto: Vec<NativeClassMethodIdx>, xreffrom: Vec<NativeClassMethodIdx>) -> NativeMethodAnalysis {
    NativeMethodAnalysis {
        name: b("bar"),
        descriptor: b("()V"),
        full_name: b(full_name),
        external: 1,
        is_android_api: 1,
        access_flags: 0x2,
        class_name: b("LFoo;"),
        basic_blocks: Some(NativeBasicBlocks {
            n_of_blocks: 2,
            blocks: vec![
                block("BB.0-6", vec![ins(0, 4, "const/16 v0, 42"), ins(4, 2, "return-void")], None),
                block("BB.6-8", vec![ins(6, 2, "move-exception v0")], Some(vec![0xff])),
            ],
        }),
        n_of_xrefread: 0,
        xrefread: vec![],
        n_of_xrefwrite: 0,
        xrefwrite: vec![],
        n_of_xrefto: xrefto.len(),
        xrefto,
        n_of_xreffrom: xreffrom.len(),
        xreffrom,
        n_of_xrefnewinstance: 1,
        xrefnewinstance: vec![NativeClassIdx { cls: Some(b("LBaz;")), idx: 0 }],
        n_of_xrefconstclass: 0,
        xrefconstclass: vec![],
        method_string: b(".method private LFoo;->bar()V"),
    }
}

#[test]
fn basic_blocks_partition_the_instructions() {
    let a = DvmMethodAnalysis::from_ptr(&analysis("LFoo;->bar()V", vec![], vec![])).unwrap();
    let d = DvmDisassembledMethod::from_ptr(&disassembled_bar()).unwrap();
    let blocks: &DvmBasicBlocks = a.basic_blocks();
    assert_eq!(blocks.n_of_blocks(), 2);
    let flat: Vec<&DvmInstruction> = blocks.blocks().iter().flat_map(|bb| bb.instructions().iter()).collect();
    let expected: Vec<&DvmInstruction> = d.instructions().iter().collect();
    assert_eq!(flat, expected);
    for w in flat.windows(2) {
        assert!(w[0].address() < w[1].address());
    }
}

#[test]
fn basic_block_flags_and_handler_type() {
    let a = DvmMethodAnalysis::from_ptr(&analysis("LFoo;->bar()V", vec![], vec![])).unwrap();
    let first = &a.basic_blocks().blocks()[0];
    assert!(first.try_block());
    assert!(!first.catch_block());
    assert_eq!(first.handler_type(), "");
    assert_eq!(first.name(), "BB.0-6");
    assert_eq!(first.block_string(), "BB.0-6");
    assert_eq!(first.n_of_instructions(), 2);
    let second = &a.basic_blocks().blocks()[1];
    assert_eq!(second.handler_type(), "");
    let mut raw = analysis("LFoo;->bar()V", vec![], vec![]);
    raw.basic_blocks.as_mut().unwrap().blocks[1].handler_type = Some(b("Ljava/lang/Exception;"));
    let a = DvmMethodAnalysis::from_ptr(&raw).unwrap();
    assert_eq!(a.basic_blocks().blocks()[1].handler_type(), "Ljava/lang/Exception;");
}

#[test]
fn method_analysis_fields() {
    let a = DvmMethodAnalysis::from_ptr(&analysis("LFoo;->bar()V", vec![xref("Foo", "LFoo;->baz()V", 3)], vec![])).unwrap();
    assert_eq!(a.name(), "bar");
    assert_eq!(a.descriptor(), "()V");
    assert_eq!(a.full_name(), "LFoo;->bar()V");
    assert_eq!(a.class_name(), "LFoo;");
    assert!(!a.external());
    assert!(!a.is_android_api());
    assert_eq!(a.access_flags(), &[DvmAccessFlag::ACC_PRIVATE]);
    assert_eq!(a.n_of_xrefto(), 1);
    assert_eq!(a.xrefto()[0].class(), "Foo");
    assert_eq!(a.xrefto()[0].method(), "LFoo;->baz()V");
    assert_eq!(a.xrefto()[0].idx(), 3);
    assert_eq!(a.n_of_xreffrom(), 0);
    assert_eq!(a.n_of_xrefread(), 0);
    assert_eq!(a.n_of_xrefwrite(), 0);
    assert_eq!(a.n_of_xrefnewinstance(), 1);
    assert_eq!(a.xrefnewinstance()[0].class(), "LBaz;");
    assert_eq!(a.n_of_xrefconstclass(), 0);
    assert_eq!(a.method_string(), ".method private LFoo;->bar()V");
}

#[test]
fn missing_basic_blocks_or_xref_target_is_fatal() {
    let mut raw = analysis("LFoo;->bar()V", vec![], vec![]);
    raw.basic_blocks = None;
    assert_eq!(DvmMethodAnalysis::from_ptr(&raw).unwrap_err(), LiftError::NullPointer);
    let raw = analysis("LFoo;->bar()V", vec![NativeClassMethodIdx { cls: Some(b("Foo")), method: None, idx: 1 }], vec![]);
    assert_eq!(DvmMethodAnalysis::from_ptr(&raw).unwrap_err(), LiftError::NullPointer);
}

#[test]
fn call_xrefs_are_symmetric() {
    let caller = DvmMethodAnalysis::from_ptr(&analysis("LFoo;->bar()V", vec![xref("Foo", "LFoo;->baz()V", 12)], vec![])).unwrap();
    let callee = DvmMethodAnalysis::from_ptr(&analysis("LFoo;->baz()V", vec![], vec![xref("Foo", "LFoo;->bar()V", 12)])).unwrap();
    for to in caller.xrefto().iter().filter(|x| x.method() == callee.full_name()) {
        assert!(callee.xreffrom().iter().any(|x| x.method() == caller.full_name() && x.idx() == to.idx()));
    }
    assert_eq!(caller.xrefto().len(), 1);
}

#[test]
fn typed_method_references() {
    let raw = NativeRefTypeMethodIdx { re_type: 0x71, method_analysis: Some(b("LFoo;->bar()V")), idx: 7 };
    let r = DvmRefTypeMethodIdx::from_ptr(&raw).unwrap();
    assert_eq!(r.ref_type(), DvmRefType::INVOKE_STATIC);
    assert_eq!(r.method(), "LFoo;->bar()V");
    assert_eq!(r.idx(), 7);
    let raw = NativeRefTypeMethodIdx { re_type: 0x22, method_analysis: Some(b("m")), idx: 0 };
    assert_eq!(DvmRefTypeMethodIdx::from_ptr(&raw).unwrap().ref_type(), DvmRefType::REF_NEW_INSTANCE);
    let raw = NativeRefTypeMethodIdx { re_type: 0x73, method_analysis: Some(b("m")), idx: 0 };
    assert_eq!(DvmRefTypeMethodIdx::from_ptr(&raw).unwrap_err(), LiftError::InvalidValue);
}
