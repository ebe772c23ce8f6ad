use shuriken_bindings::cache::IdentityCache;
use shuriken_bindings::native::{
    LiftError, NativeBasicBlocks, NativeClass, NativeClassAnalysis, NativeClassXref,
    NativeDisassembledMethod, NativeFieldAnalysis, NativeMethod, NativeMethodAnalysis,
    NativeMethodIdx, NativeRefTypeMethodIdx, NativeStringAnalysis, NativeClassMethodIdx,
};
use shuriken_bindings::analysis::DvmRefType;
use shuriken_bindings::session::{EngineLookup, SessionError, SessionState};
use shuriken_bindings::{ApkContext, DexContext};

fn b(s: &str) -> Vec<u8> {
    s.as_bytes().to_vec()
}

fn method(name: &str) -> NativeMethod {
    NativeMethod {
        class_name: b("LFoo;"),
        method_name: b(name),
        prototype: b("()V"),
        access_flags: 0x2,
        code_size: 0,
        code: vec![],
        dalvik_name: b(&format!("LFoo;->{}()V", name)),
        demangled_name: b(name),
    }
}

fn class_foo() -> NativeClass {
    NativeClass {
        class_name: b("Foo"),
        super_class: b("java.lang.Object"),
        source_file: b("Foo.java"),
        access_flags: 0x1,
        direct_methods_size: 1,
        direct_methods: vec![method("bar")],
        virtual_methods_size: 0,
        virtual_methods: vec![],
        instance_fields_size: 0,
        instance_fields: vec![],
        static_fields_size: 0,
        static_fields: vec![],
    }
}

fn disassembled_bar() -> NativeDisassembledMethod {
    NativeDisassembledMethod {
        method_id: Some(method("bar")),
        n_of_registers: 1,
        n_of_exceptions: 0,
        exception_information: vec![],
        n_of_instructions: 0,
        instructions: vec![],
        method_string: b(".method private LFoo;->bar()V"),
    }
}

fn method_analysis() -> NativeMethodAnalysis {
    NativeMethodAnalysis {
        name: b("bar"),
        descriptor: b("()V"),
        full_name: b("LFoo;->bar()V"),
        external: 1,
        is_android_api: 1,
        access_flags: 0x2,
        class_name: b("LFoo;"),
        basic_blocks: Some(NativeBasicBlocks { n_of_blocks: 0, blocks: vec![] }),
        n_of_xrefread: 0,
        xrefread: vec![],
        n_of_xrefwrite: 0,
        xrefwrite: vec![],
        n_of_xrefto: 0,
        xrefto: vec![],
        n_of_xreffrom: 0,
        xreffrom: vec![],
        n_of_xrefnewinstance: 0,
        xrefnewinstance: vec![],
        n_of_xrefconstclass: 0,
        xrefconstclass: vec![],
        method_string: b(""),
    }
}

fn class_analysis() -> NativeClassAnalysis {
    NativeClassAnalysis {
        is_external: 1,
        extends_: b("Ljava/lang/Object;"),
        name_: b("Foo"),
        n_of_methods: 1,
        methods: vec![method_analysis()],
        n_of_fields: 1,
        fields: vec![NativeFieldAnalysis {
            name: b("LFoo;->count I"),
            n_of_xrefread: 1,
            xrefread: vec![NativeClassMethodIdx { cls: Some(b("Foo")), method: Some(b("LFoo;->bar()V")), idx: 2 }],
            n_of_xrefwrite: 0,
            xrefwrite: vec![],
        }],
        n_of_xrefnewinstance: 1,
        xrefnewinstance: vec![NativeMethodIdx { method: Some(b("LFoo;->bar()V")), idx: 0 }],
        n_of_xrefconstclass: 0,
        xrefconstclass: vec![],
        n_of_xrefto: 1,
        xrefto: vec![NativeClassXref {
            class_analysis: Some(b("Ljava/lang/Object;")),
            n_of_reftype_method_idx: 1,
            reftype_method_idx: vec![NativeRefTypeMethodIdx { re_type: 0x70, method_analysis: Some(b("LFoo;->bar()V")), idx: 4 }],
        }],
        n_of_xreffrom: 0,
        xreffrom: vec![],
    }
}

fn parsed() -> DexContext {
    let mut ctx = DexContext::new();
    assert_eq!(ctx.parse_dex(true), Ok(()));
    ctx
}

#[test]
fn class_round_trip_by_id_then_name() {
    let mut ctx = parsed();
    let by_id = ctx.get_class_by_id(Some((0x1000, class_foo()))).unwrap().unwrap();
    assert_eq!(ctx.class_lookup("Foo"), EngineLookup::ByHandle(0x1000));
    let by_name = ctx.get_class_by_name(Some((0x1000, class_foo()))).unwrap().unwrap();
    assert_eq!(by_id, by_name);
    assert_eq!(ctx.class_lookup("Bar"), EngineLookup::ByName("Bar".to_string()));
}

#[test]
fn disassembly_is_absent_before_disassemble() {
    let mut ctx = parsed();
    assert_eq!(ctx.get_disassembled_method(Some(disassembled_bar())), Ok(None));
    assert_eq!(ctx.disassemble_dex(), Ok(true));
    let d = ctx.get_disassembled_method(Some(disassembled_bar())).unwrap().unwrap();
    assert_eq!(d.method_id().dalvik_name(), "LFoo;->bar()V");
    assert_eq!(ctx.get_disassembled_method(None), Ok(None));
    assert_eq!(ctx.disassemble_dex(), Ok(false));
}

#[test]
fn session_transitions() {
    let mut ctx = DexContext::new();
    assert_eq!(ctx.state(), SessionState::Created);
    assert_eq!(ctx.disassemble_dex(), Err(SessionError::NotParsed));
    assert_eq!(ctx.create_dex_analysis(true), Err(SessionError::NotParsed));
    assert_eq!(ctx.analyze_classes(), Err(SessionError::NotParsed));
    assert_eq!(ctx.parse_dex(false), Err(SessionError::ParseFailed));
    assert_eq!(ctx.state(), SessionState::Created);
    assert_eq!(ctx.parse_dex(true), Ok(()));
    assert_eq!(ctx.parse_dex(true), Err(SessionError::AlreadyParsed));
    assert_eq!(ctx.state(), SessionState::Parsed);
    assert_eq!(ctx.create_dex_analysis(true), Err(SessionError::NotDisassembled));
    assert_eq!(ctx.analyze_classes(), Err(SessionError::NoAnalysis));
    assert_eq!(ctx.disassemble_dex(), Ok(true));
    assert_eq!(ctx.analyze_classes(), Err(SessionError::NoAnalysis));
    assert_eq!(ctx.create_dex_analysis(true), Ok(()));
    assert!(ctx.has_xrefs());
    assert_eq!(ctx.state(), SessionState::AnalysisCreated);
    assert_eq!(ctx.create_dex_analysis(false), Err(SessionError::AlreadyAnalyzed));
    assert_eq!(ctx.analyze_classes(), Ok(true));
    assert_eq!(ctx.state(), SessionState::Analyzed);
    assert_eq!(ctx.analyze_classes(), Ok(false));
    assert_eq!(ctx.disassemble_dex(), Ok(false));
    assert_eq!(ctx.state(), SessionState::Analyzed);
}

#[test]
fn analyses_are_absent_before_analysis() {
    let mut ctx = parsed();
    assert_eq!(ctx.get_analyzed_class(Some(class_analysis())), Ok(None));
    assert_eq!(ctx.get_analyzed_method(Some(method_analysis())), Ok(None));
    ctx.disassemble_dex().unwrap();
    ctx.create_dex_analysis(false).unwrap();
    assert!(!ctx.has_xrefs());
    assert_eq!(ctx.get_analyzed_class(Some(class_analysis())), Ok(None));
    ctx.analyze_classes().unwrap();
    let c = ctx.get_analyzed_class(Some(class_analysis())).unwrap().unwrap();
    assert_eq!(c.name(), "Foo");
    assert_eq!(ctx.get_analyzed_class(None), Ok(None));
    let m = ctx.get_analyzed_method(Some(method_analysis())).unwrap().unwrap();
    assert_eq!(m.full_name(), "LFoo;->bar()V");
}

#[test]
fn analysis_of_held_values_goes_through_the_cache() {
    let mut ctx = parsed();
    let class = ctx.get_class_by_id(Some((0x20, class_foo()))).unwrap().unwrap();
    assert_eq!(ctx.get_analyzed_class_by_hdvmclass(&class), EngineLookup::ByHandle(0x20));
    let m = class.direct_methods()[0].dalvik_name().to_string();
    assert_eq!(m, "LFoo;->bar()V");
    let mut other = parsed();
    assert_eq!(other.get_analyzed_class_by_hdvmclass(&class), EngineLookup::ByName("Foo".to_string()));
    let method = other.get_method_by_name(Some((0x30, method("bar")))).unwrap().unwrap();
    assert_eq!(other.get_analyzed_method_by_hdvmmethod(&method), EngineLookup::ByHandle(0x30));
    assert_eq!(ctx.get_analyzed_method_by_hdvmmethod(&method), EngineLookup::ByName("LFoo;->bar()V".to_string()));
    assert_eq!(other.get_method_by_name(None), Ok(None));
}

#[test]
fn later_fetch_under_same_name_wins() {
    let mut ctx = parsed();
    ctx.get_class_by_id(Some((1, class_foo()))).unwrap();
    ctx.get_class_by_id(Some((2, class_foo()))).unwrap();
    assert_eq!(ctx.class_lookup("Foo"), EngineLookup::ByHandle(2));
}

#[test]
fn failed_lift_leaves_cache_untouched() {
    let mut ctx = parsed();
    let mut bad = class_foo();
    bad.direct_methods_size = 5;
    assert_eq!(ctx.get_class_by_id(Some((9, bad))), Err(LiftError::SizeMismatch));
    assert_eq!(ctx.class_lookup("Foo"), EngineLookup::ByName("Foo".to_string()));
    assert_eq!(ctx.get_class_by_id(None), Ok(None));
}

#[test]
fn identity_cache_remember_and_lookup() {
    let mut cache = IdentityCache::new();
    assert_eq!(cache.lookup(&"a".to_string()), None);
    cache.remember("a".to_string(), 1);
    cache.remember("b".to_string(), 2);
    cache.remember("a".to_string(), 3);
    cache.remember("a".to_string(), 3);
    assert_eq!(cache.lookup(&"a".to_string()), Some(3));
    assert_eq!(cache.lookup(&"b".to_string()), Some(2));
    assert_eq!(cache.lookup(&"c".to_string()), None);
}

#[test]
fn strings_by_id() {
    let ctx = parsed();
    assert_eq!(ctx.get_string_by_id(Some(b("Hello, Dex Parser!"))), Some("Hello, Dex Parser!".to_string()));
    assert_eq!(ctx.get_string_by_id(Some(vec![0xfe])), None);
    assert_eq!(ctx.get_string_by_id(None), None);
}

#[test]
fn class_analysis_lifts_flat_xrefs() {
    let apk = ApkContext::new(true);
    assert!(apk.has_xrefs());
    let c = apk.get_analyzed_class_from_apk(Some(class_analysis())).unwrap().unwrap();
    assert!(!c.is_external());
    assert_eq!(c.extends(), "Ljava/lang/Object;");
    assert_eq!(c.name(), "Foo");
    assert_eq!(c.n_of_methods(), 1);
    assert_eq!(c.methods()[0].full_name(), "LFoo;->bar()V");
    assert_eq!(c.n_of_fields(), 1);
    let f = &c.fields()[0];
    assert_eq!(f.name(), "LFoo;->count I");
    assert_eq!(f.n_of_xrefread(), 1);
    assert_eq!(f.xrefread()[0].method(), "LFoo;->bar()V");
    assert_eq!(f.xrefread()[0].idx(), 2);
    assert_eq!(f.n_of_xrefwrite(), 0);
    assert!(f.xrefwrite().is_empty());
    assert_eq!(c.n_of_xrefnewinstance(), 1);
    assert_eq!(c.xrefnewinstance()[0].method(), "LFoo;->bar()V");
    assert_eq!(c.xrefnewinstance()[0].idx(), 0);
    assert_eq!(c.n_of_xrefconstclass(), 0);
    assert!(c.xrefconstclass().is_empty());
    assert_eq!(c.n_of_xrefto(), 1);
    let x = &c.xrefto()[0];
    assert_eq!(x.class(), "Ljava/lang/Object;");
    assert_eq!(x.n_of_reftype_method_idx(), 1);
    assert_eq!(x.methods_xrefs()[0].ref_type(), DvmRefType::INVOKE_DIRECT);
    assert_eq!(x.methods_xrefs()[0].idx(), 4);
    assert_eq!(c.n_of_xreffrom(), 0);
    assert!(c.xreffrom().is_empty());
}

#[test]
fn class_xref_count_mismatch_is_fatal() {
    let apk = ApkContext::new(false);
    let mut raw = class_analysis();
    raw.xrefto[0].n_of_reftype_method_idx = 2;
    assert_eq!(apk.get_analyzed_class_from_apk(Some(raw)), Err(LiftError::SizeMismatch));
    let mut raw = class_analysis();
    raw.xrefto[0].class_analysis = None;
    assert_eq!(apk.get_analyzed_class_from_apk(Some(raw)), Err(LiftError::NullPointer));
    assert_eq!(apk.get_analyzed_class_from_apk(None), Ok(None));
}

#[test]
fn apk_queries() {
    let mut apk = ApkContext::new(false);
    assert_eq!(apk.get_dex_file_by_index(Some(b("classes.dex"))), Some("classes.dex".to_string()));
    assert_eq!(apk.get_dex_file_by_index(None), None);
    assert_eq!(apk.get_number_of_classes_from_dex(-1), None);
    assert_eq!(apk.get_number_of_classes_from_dex(3), Some(3));
    assert_eq!(apk.get_number_of_strings_from_dex(33), Some(33));
    assert_eq!(apk.get_number_of_strings_from_dex(-1), None);
    assert_eq!(apk.get_string_by_id_from_dex(Some(b("main"))), Some("main".to_string()));
    let class = apk.get_hdvmclass_from_dex_by_index(Some((0x44, class_foo()))).unwrap().unwrap();
    assert_eq!(apk.get_analyzed_class_by_hdvmclass_from_apk(&class), EngineLookup::ByHandle(0x44));
    let m = &class.direct_methods()[0];
    assert_eq!(apk.get_analyzed_method_by_hdvmmethod_from_apk(m), "LFoo;->bar()V");
    assert_eq!(apk.get_analyzed_method_from_apk(Some(method_analysis())).unwrap().unwrap().name(), "bar");
    assert_eq!(apk.get_analyzed_method_by_idx(Some(method_analysis())).unwrap().unwrap().descriptor(), "()V");
    assert_eq!(apk.get_analyzed_method_by_idx(None), Ok(None));
    let d = apk.get_disassembled_method_from_apk(Some(disassembled_bar())).unwrap().unwrap();
    assert_eq!(d.method_string(), ".method private LFoo;->bar()V");
}

#[test]
fn string_analysis() {
    let apk = ApkContext::new(true);
    let raw = NativeStringAnalysis {
        value: b("Hello"),
        n_of_xreffrom: 1,
        xreffrom: vec![NativeClassMethodIdx { cls: Some(b("Foo")), method: Some(b("LFoo;->bar()V")), idx: 6 }],
    };
    let s = apk.get_analyzed_string_from_apk(Some(raw.clone())).unwrap().unwrap();
    assert_eq!(s.value(), "Hello");
    assert_eq!(s.n_of_xreffrom(), 1);
    assert_eq!(s.xreffrom()[0].class(), "Foo");
    assert_eq!(s.xreffrom()[0].idx(), 6);
    let mut bad = raw;
    bad.n_of_xreffrom = 0;
    assert_eq!(apk.get_analyzed_string_from_apk(Some(bad)), Err(LiftError::SizeMismatch));
}
