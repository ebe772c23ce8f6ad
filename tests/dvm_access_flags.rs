use shuriken_bindings::dvm_access_flags::{DvmAccessFlag, DvmAccessFlagType};

#[test]
fn test_access_flag_type_display() {
    let class_flag = DvmAccessFlagType::Class;
    let field_flag = DvmAccessFlagType::Field;
    let method_flag = DvmAccessFlagType::Method;

    assert_eq!(class_flag.to_string(), "class");
    assert_eq!(field_flag.to_string(), "field");
    assert_eq!(method_flag.to_string(), "method");
}

#[test]
fn test_access_flag_class_parse() {
    let flags = DvmAccessFlag::parse(0x3ffff, DvmAccessFlagType::Class);
    assert_eq!(flags, vec![DvmAccessFlag::ACC_PUBLIC,
                           DvmAccessFlag::ACC_PRIVATE,
                           DvmAccessFlag::ACC_PROTECTED,
                           DvmAccessFlag::ACC_STATIC,
                           DvmAccessFlag::ACC_FINAL,
                           DvmAccessFlag::ACC_INTERFACE,
                           DvmAccessFlag::ACC_ABSTRACT,
                           DvmAccessFlag::ACC_SYNTHETIC,
                           DvmAccessFlag::ACC_ANNOTATION,
                           DvmAccessFlag::ACC_ENUM]);
}

#[test]
fn test_access_flag_field_parse() {
    let flags = DvmAccessFlag::parse(0x3ffff, DvmAccessFlagType::Field);
    assert_eq!(flags, vec![DvmAccessFlag::ACC_PUBLIC,
                           DvmAccessFlag::ACC_PRIVATE,
                           DvmAccessFlag::ACC_PROTECTED,
                           DvmAccessFlag::ACC_STATIC,
                           DvmAccessFlag::ACC_FINAL,
                           DvmAccessFlag::ACC_VOLATILE,
                           DvmAccessFlag::ACC_TRANSIENT,
                           DvmAccessFlag::ACC_SYNTHETIC,
                           DvmAccessFlag::ACC_ENUM]);
}

#[test]
fn test_access_flag_method_parse() {
    let flags = DvmAccessFlag::parse(0x3ffff, DvmAccessFlagType::Method);
    assert_eq!(flags, vec![DvmAccessFlag::ACC_PUBLIC,
                           DvmAccessFlag::ACC_PRIVATE,
                           DvmAccessFlag::ACC_PROTECTED,
                           DvmAccessFlag::ACC_STATIC,
                           DvmAccessFlag::ACC_FINAL,
                           DvmAccessFlag::ACC_SYNCHRONIZED,
                           DvmAccessFlag::ACC_BRIDGE,
                           DvmAccessFlag::ACC_VARARGS,
                           DvmAccessFlag::ACC_NATIVE,
                           DvmAccessFlag::ACC_ABSTRACT,
                           DvmAccessFlag::ACC_STRICT,
                           DvmAccessFlag::ACC_SYNTHETIC,
                           DvmAccessFlag::ACC_CONSTRUCTOR,
                           DvmAccessFlag::ACC_DECLARED_SYNCHRONIZED]);
}

#[test]
fn private_bit_means_private_for_every_owner() {
    for kind in [DvmAccessFlagType::Class, DvmAccessFlagType::Field, DvmAccessFlagType::Method] {
        assert_eq!(DvmAccessFlag::parse(0x2, kind), vec![DvmAccessFlag::ACC_PRIVATE]);
    }
}

#[test]
fn polysemous_bits_follow_the_owner() {
    assert_eq!(DvmAccessFlag::parse(0x40, DvmAccessFlagType::Field), vec![DvmAccessFlag::ACC_VOLATILE]);
    assert_eq!(DvmAccessFlag::parse(0x40, DvmAccessFlagType::Method), vec![DvmAccessFlag::ACC_BRIDGE]);
    assert_eq!(DvmAccessFlag::parse(0x40, DvmAccessFlagType::Class), vec![]);
    assert_eq!(DvmAccessFlag::parse(0x80, DvmAccessFlagType::Field), vec![DvmAccessFlag::ACC_TRANSIENT]);
    assert_eq!(DvmAccessFlag::parse(0x80, DvmAccessFlagType::Method), vec![DvmAccessFlag::ACC_VARARGS]);
    assert_eq!(DvmAccessFlag::parse(0x80, DvmAccessFlagType::Class), vec![]);
    assert_eq!(DvmAccessFlag::parse(0x400, DvmAccessFlagType::Field), vec![]);
    assert_eq!(DvmAccessFlag::parse(0x400, DvmAccessFlagType::Class), vec![DvmAccessFlag::ACC_ABSTRACT]);
    assert_eq!(DvmAccessFlag::parse(0x4000, DvmAccessFlagType::Method), vec![]);
    assert_eq!(DvmAccessFlag::parse(0x4000, DvmAccessFlagType::Field), vec![DvmAccessFlag::ACC_ENUM]);
}

#[test]
fn reserved_bits_are_ignored() {
    assert_eq!(DvmAccessFlag::parse(0x8000, DvmAccessFlagType::Method), vec![]);
    assert_eq!(DvmAccessFlag::parse(0xfffc_0000, DvmAccessFlagType::Class), vec![]);
    assert_eq!(DvmAccessFlag::parse(0, DvmAccessFlagType::Field), vec![]);
}

#[test]
fn public_static_constructor_method() {
    let flags = DvmAccessFlag::parse(0x0001_0009, DvmAccessFlagType::Method);
    assert_eq!(flags, vec![DvmAccessFlag::ACC_PUBLIC,
                           DvmAccessFlag::ACC_STATIC,
                           DvmAccessFlag::ACC_CONSTRUCTOR]);
    assert_eq!(DvmAccessFlag::vec_to_string(&flags), "public|static|constructor");
}

#[test]
fn flag_names() {
    assert_eq!(DvmAccessFlag::vec_to_string(&[]), "");
    assert_eq!(DvmAccessFlag::vec_to_string(&[DvmAccessFlag::ACC_ENUM]), "enum");
    assert_eq!(DvmAccessFlag::ACC_DECLARED_SYNCHRONIZED.to_string(), "synchronized");
    assert_eq!(DvmAccessFlag::ACC_SYNCHRONIZED.to_string(), "synchronized");
    assert_eq!(DvmAccessFlag::ACC_VARARGS.to_string(), "varargs");
}
