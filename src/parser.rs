//! Classes, methods and fields of a parsed unit.
use vstd::prelude::*;
use crate::dvm_access_flags::{DvmAccessFlag, DvmAccessFlagType, flags_of};
use crate::native::{
    Lift, LiftError, NativeClass, NativeField, NativeMethod, lifts, some_fault,
    lifted_all, views, counted_fault, text_ok, text, lift_text, lift_counted,
};

verus! {

/// Kind of a DEX type: fundamental, class, array or unknown.
#[derive(Debug, Clone, Copy, PartialEq, Eq, Structural)]
pub enum DexTypes {
    /// Fundamental type (int, float...)
    Fundamental,
    /// User defined class
    Class,
    /// Array type
    Array,
    /// Any other type code
    Unknown,
}

/// The basic DEX types.
#[derive(Debug, Clone, Copy, PartialEq, Eq, Structural)]
pub enum DexBasicTypes {
    Boolean,
    Byte,
    Char,
    Double,
    Float,
    Int,
    Long,
    Short,
    Void,
    /// The type is not a fundamental one
    FundamentalNone,
}

/// The header of a DEX file.
#[derive(Debug, Clone, Copy, PartialEq, Eq)]
pub struct DvmHeader {
    /// Magic bytes from dex, different values are possible
    pub magic: [u8; 8],
    /// Checksum to see if file is correct
    pub checksum: u32,
    /// Signature of dex
    pub signature: [u8; 20],
    /// Current file size
    pub file_size: u32,
    /// Size of this header
    pub header_size: u32,
    /// Type of endianess of the file
    pub endian_tag: u32,
    /// Size of the link section, or 0 if this file isn't statically linked
    pub link_size: u32,
    /// Offset from the start of the file to the link section
    pub link_off: u32,
    /// Offset from the start of the file to the map item
    pub map_off: u32,
    /// Number of DexStrings
    pub string_ids_size: u32,
    /// Offset of the DexStrings
    pub string_ids_off: u32,
    /// Number of DexTypes
    pub type_ids_size: u32,
    /// Offset of the DexTypes
    pub type_ids_off: u32,
    /// Number of prototypes
    pub proto_ids_size: u32,
    /// Offset of the prototypes
    pub proto_ids_off: u32,
    /// Number of fields
    pub field_ids_size: u32,
    /// Offset of the fields
    pub field_ids_off: u32,
    /// Number of methods
    pub method_ids_size: u32,
    /// Offset of the methods
    pub method_ids_off: u32,
    /// Number of class definitions
    pub class_defs_size: u32,
    /// Offset of the class definitions
    pub class_defs_off: u32,
    /// Data area, containing all the support data for the tables listed above
    pub data_size: u32,
    /// Data offset
    pub data_off: u32,
}

/// The kind that a type code stands for.
pub open spec fn dex_type_of(code: u32) -> DexTypes {
    if code == 0 {
        DexTypes::Fundamental
    } else if code == 1 {
        DexTypes::Class
    } else if code == 2 {
        DexTypes::Array
    } else {
        DexTypes::Unknown
    }
}

/// The basic type that a fundamental code stands for, if any.
pub open spec fn basic_type_of(code: u32) -> Option<DexBasicTypes> {
    if code == 0 {
        Some(DexBasicTypes::Boolean)
    } else if code == 1 {
        Some(DexBasicTypes::Byte)
    } else if code == 2 {
        Some(DexBasicTypes::Char)
    } else if code == 3 {
        Some(DexBasicTypes::Double)
    } else if code == 4 {
        Some(DexBasicTypes::Float)
    } else if code == 5 {
        Some(DexBasicTypes::Int)
    } else if code == 6 {
        Some(DexBasicTypes::Long)
    } else if code == 7 {
        Some(DexBasicTypes::Short)
    } else if code == 8 {
        Some(DexBasicTypes::Void)
    } else {
        None
    }
}

/// What a field holds.
pub ghost struct FieldView {
    pub class_name: Seq<char>,
    pub name: Seq<char>,
    pub field_type: DexTypes,
    pub fundamental_value: DexBasicTypes,
    pub type_value: Seq<char>,
    pub access_flags: Seq<DvmAccessFlag>,
}

impl FieldView {
    /// The fundamental sub-kind is set exactly for a fundamental field.
    pub open spec fn wf(self) -> bool {
        (self.fundamental_value == DexBasicTypes::FundamentalNone) <==> (self.field_type
            != DexTypes::Fundamental)
    }
}

/// A field of a class.
#[derive(Debug, PartialEq)]
pub struct DvmField {
    class_name: String,
    name: String,
    field_type: DexTypes,
    fundamental_value: DexBasicTypes,
    type_value: String,
    access_flags: Vec<DvmAccessFlag>,
}

impl View for DvmField {
    type V = FieldView;

    closed spec fn view(&self) -> FieldView {
        FieldView {
            class_name: self.class_name@,
            name: self.name@,
            field_type: self.field_type,
            fundamental_value: self.fundamental_value,
            type_value: self.type_value@,
            access_flags: self.access_flags@,
        }
    }
}

impl Lift for NativeField {
    type Out = DvmField;

    open spec fn has_fault(&self, e: LiftError) -> bool {
        match e {
            LiftError::InvalidText => !text_ok(self.class_name@) || !text_ok(self.name@)
                || !text_ok(self.type_value@),
            LiftError::InvalidValue => self.type_ == 0 && basic_type_of(self.fundamental_value)
                is None,
            _ => false,
        }
    }

    open spec fn lifted(&self) -> FieldView {
        FieldView {
            class_name: text(self.class_name@),
            name: text(self.name@),
            field_type: dex_type_of(self.type_),
            fundamental_value: if self.type_ == 0 {
                basic_type_of(self.fundamental_value)->Some_0
            } else {
                DexBasicTypes::FundamentalNone
            },
            type_value: text(self.type_value@),
            access_flags: flags_of(self.access_flags as u32, DvmAccessFlagType::Field),
        }
    }

    fn lift(&self) -> (r: Result<DvmField, LiftError>) {
        let class_name = lift_text(&self.class_name)?;
        let name = lift_text(&self.name)?;
        let type_value = lift_text(&self.type_value)?;
        let access_flags = DvmAccessFlag::parse(self.access_flags as u32, DvmAccessFlagType::Field);
        let field_type = match self.type_ {
            0 => DexTypes::Fundamental,
            1 => DexTypes::Class,
            2 => DexTypes::Array,
            _ => DexTypes::Unknown,
        };
        let fundamental_value = if self.type_ == 0 {
            match self.fundamental_value {
                0 => DexBasicTypes::Boolean,
                1 => DexBasicTypes::Byte,
                2 => DexBasicTypes::Char,
                3 => DexBasicTypes::Double,
                4 => DexBasicTypes::Float,
                5 => DexBasicTypes::Int,
                6 => DexBasicTypes::Long,
                7 => DexBasicTypes::Short,
                8 => DexBasicTypes::Void,
                _ => return Err(LiftError::InvalidValue),
            }
        } else {
            DexBasicTypes::FundamentalNone
        };
        Ok(DvmField { class_name, name, field_type, fundamental_value, type_value, access_flags })
    }
}

impl DvmField {
    /// Lifts a field record of the engine.
    pub fn from_ptr(ptr: &NativeField) -> (r: Result<Self, LiftError>)
        ensures
            r is Ok <==> lifts(*ptr),
            r is Ok ==> r->Ok_0@ == ptr.lifted() && r->Ok_0@.wf(),
            r is Err ==> ptr.has_fault(r->Err_0),
    {
        ptr.lift()
    }

    /// Return a reference to the class name
    pub fn class_name(&self) -> (r: &str)
        ensures
            r@ == self@.class_name,
    {
        self.class_name.as_str()
    }

    /// Return a reference to the field name
    pub fn name(&self) -> (r: &str)
        ensures
            r@ == self@.name,
    {
        self.name.as_str()
    }

    /// Return the field type
    pub fn field_type(&self) -> (r: DexTypes)
        ensures
            r == self@.field_type,
    {
        self.field_type
    }

    /// Return the fundamental value
    pub fn fundamental_value(&self) -> (r: DexBasicTypes)
        ensures
            r == self@.fundamental_value,
    {
        self.fundamental_value
    }

    /// Return a reference to the field type value
    pub fn type_value(&self) -> (r: &str)
        ensures
            r@ == self@.type_value,
    {
        self.type_value.as_str()
    }

    /// Return a reference to the access flags
    pub fn access_flags(&self) -> (r: &[DvmAccessFlag])
        ensures
            r@ == self@.access_flags,
    {
        self.access_flags.as_slice()
    }
}

/// What a method holds.
pub ghost struct MethodView {
    pub class_name: Seq<char>,
    pub method_name: Seq<char>,
    pub prototype: Seq<char>,
    pub access_flags: Seq<DvmAccessFlag>,
    pub code_size: usize,
    pub code: Seq<u8>,
    pub dalvik_name: Seq<char>,
    pub demangled_name: Seq<char>,
}

impl MethodView {
    /// The declared code size is the length of the code.
    pub open spec fn wf(self) -> bool {
        self.code_size == self.code.len()
    }
}

/// A method of a class. Its dalvik name is the key of every by-name lookup.
#[derive(Debug, PartialEq)]
pub struct DvmMethod {
    class_name: String,
    method_name: String,
    prototype: String,
    access_flags: Vec<DvmAccessFlag>,
    code_size: usize,
    code: Vec<u8>,
    dalvik_name: String,
    demangled_name: String,
}

impl View for DvmMethod {
    type V = MethodView;

    closed spec fn view(&self) -> MethodView {
        MethodView {
            class_name: self.class_name@,
            method_name: self.method_name@,
            prototype: self.prototype@,
            access_flags: self.access_flags@,
            code_size: self.code_size,
            code: self.code@,
            dalvik_name: self.dalvik_name@,
            demangled_name: self.demangled_name@,
        }
    }
}

/// A copy of a byte buffer.
fn copy_bytes(v: &Vec<u8>) -> (r: Vec<u8>)
    ensures
        r@ == v@,
{
    let mut out: Vec<u8> = Vec::new();
    let mut i: usize = 0;
    while i < v.len()
        invariant
            i <= v@.len(),
            out@ == v@.subrange(0, i as int),
        decreases v@.len() - i,
    {
        out.push(v[i]);
        i = i + 1;
        assert(out@ =~= v@.subrange(0, i as int));
    }
    assert(v@.subrange(0, v@.len() as int) =~= v@);
    out
}

impl Lift for NativeMethod {
    type Out = DvmMethod;

    open spec fn has_fault(&self, e: LiftError) -> bool {
        match e {
            LiftError::InvalidText => !text_ok(self.class_name@) || !text_ok(self.method_name@)
                || !text_ok(self.prototype@) || !text_ok(self.dalvik_name@) || !text_ok(
                self.demangled_name@,
            ),
            LiftError::SizeMismatch => self.code_size != self.code@.len(),
            _ => false,
        }
    }

    open spec fn lifted(&self) -> MethodView {
        MethodView {
            class_name: text(self.class_name@),
            method_name: text(self.method_name@),
            prototype: text(self.prototype@),
            access_flags: flags_of(self.access_flags as u32, DvmAccessFlagType::Method),
            code_size: self.code_size as usize,
            code: self.code@,
            dalvik_name: text(self.dalvik_name@),
            demangled_name: text(self.demangled_name@),
        }
    }

    fn lift(&self) -> (r: Result<DvmMethod, LiftError>) {
        let class_name = lift_text(&self.class_name)?;
        let method_name = lift_text(&self.method_name)?;
        let prototype = lift_text(&self.prototype)?;
        let dalvik_name = lift_text(&self.dalvik_name)?;
        let demangled_name = lift_text(&self.demangled_name)?;
        if self.code_size as usize != self.code.len() {
            return Err(LiftError::SizeMismatch);
        }
        let access_flags = DvmAccessFlag::parse(self.access_flags as u32, DvmAccessFlagType::Method);
        Ok(
            DvmMethod {
                class_name,
                method_name,
                prototype,
                access_flags,
                code_size: self.code_size as usize,
                code: copy_bytes(&self.code),
                dalvik_name,
                demangled_name,
            },
        )
    }
}

impl DvmMethod {
    /// Lifts a method record of the engine.
    pub fn from_ptr(method: &NativeMethod) -> (r: Result<Self, LiftError>)
        ensures
            r is Ok <==> lifts(*method),
            r is Ok ==> r->Ok_0@ == method.lifted() && r->Ok_0@.wf(),
            r is Err ==> method.has_fault(r->Err_0),
    {
        method.lift()
    }

    /// Return a reference to the class name
    pub fn class_name(&self) -> (r: &str)
        ensures
            r@ == self@.class_name,
    {
        self.class_name.as_str()
    }

    /// Return a reference to the method name
    pub fn method_name(&self) -> (r: &str)
        ensures
            r@ == self@.method_name,
    {
        self.method_name.as_str()
    }

    /// Return a reference to the method prototype
    pub fn prototype(&self) -> (r: &str)
        ensures
            r@ == self@.prototype,
    {
        self.prototype.as_str()
    }

    /// Return a reference to the method access flags
    pub fn access_flags(&self) -> (r: &[DvmAccessFlag])
        ensures
            r@ == self@.access_flags,
    {
        self.access_flags.as_slice()
    }

    /// Return the method's code size
    pub fn code_size(&self) -> (r: usize)
        ensures
            r == self@.code_size,
    {
        self.code_size
    }

    /// Return the method's code
    pub fn code(&self) -> (r: &[u8])
        ensures
            r@ == self@.code,
    {
        self.code.as_slice()
    }

    /// Return a reference to the dalvik name
    pub fn dalvik_name(&self) -> (r: &str)
        ensures
            r@ == self@.dalvik_name,
    {
        self.dalvik_name.as_str()
    }

    /// Return a reference to the method demangled name
    pub fn demangled_name(&self) -> (r: &str)
        ensures
            r@ == self@.demangled_name,
    {
        self.demangled_name.as_str()
    }
}

/// What a class holds.
pub ghost struct ClassView {
    pub class_name: Seq<char>,
    pub super_class: Seq<char>,
    pub source_file: Seq<char>,
    pub access_flags: Seq<DvmAccessFlag>,
    pub direct_methods_size: usize,
    pub direct_methods: Seq<MethodView>,
    pub virtual_methods_size: usize,
    pub virtual_methods: Seq<MethodView>,
    pub instance_fields_size: usize,
    pub instance_fields: Seq<FieldView>,
    pub static_fields_size: usize,
    pub static_fields: Seq<FieldView>,
}

impl ClassView {
    /// Each declared size is the length of its group.
    pub open spec fn wf(self) -> bool {
        &&& self.direct_methods_size == self.direct_methods.len()
        &&& self.virtual_methods_size == self.virtual_methods.len()
        &&& self.instance_fields_size == self.instance_fields.len()
        &&& self.static_fields_size == self.static_fields.len()
        &&& forall|i: int|
            0 <= i < self.direct_methods.len() ==> (#[trigger] self.direct_methods[i]).wf()
        &&& forall|i: int|
            0 <= i < self.virtual_methods.len() ==> (#[trigger] self.virtual_methods[i]).wf()
        &&& forall|i: int|
            0 <= i < self.instance_fields.len() ==> (#[trigger] self.instance_fields[i]).wf()
        &&& forall|i: int|
            0 <= i < self.static_fields.len() ==> (#[trigger] self.static_fields[i]).wf()
    }
}

/// A class with its methods and fields.
#[derive(Debug, PartialEq)]
pub struct DvmClass {
    class_name: String,
    super_class: String,
    source_file: String,
    access_flags: Vec<DvmAccessFlag>,
    direct_methods_size: usize,
    direct_methods: Vec<DvmMethod>,
    virtual_methods_size: usize,
    virtual_methods: Vec<DvmMethod>,
    instance_fields_size: usize,
    instance_fields: Vec<DvmField>,
    static_fields_size: usize,
    static_fields: Vec<DvmField>,
}

impl View for DvmClass {
    type V = ClassView;

    closed spec fn view(&self) -> ClassView {
        ClassView {
            class_name: self.class_name@,
            super_class: self.super_class@,
            source_file: self.source_file@,
            access_flags: self.access_flags@,
            direct_methods_size: self.direct_methods_size,
            direct_methods: views(self.direct_methods@),
            virtual_methods_size: self.virtual_methods_size,
            virtual_methods: views(self.virtual_methods@),
            instance_fields_size: self.instance_fields_size,
            instance_fields: views(self.instance_fields@),
            static_fields_size: self.static_fields_size,
            static_fields: views(self.static_fields@),
        }
    }
}

impl Lift for NativeClass {
    type Out = DvmClass;

    open spec fn has_fault(&self, e: LiftError) -> bool {
        ||| e == LiftError::InvalidText && (!text_ok(self.class_name@) || !text_ok(
            self.super_class@,
        ) || !text_ok(self.source_file@))
        ||| counted_fault(self.direct_methods_size as nat, self.direct_methods@, e)
        ||| counted_fault(self.virtual_methods_size as nat, self.virtual_methods@, e)
        ||| counted_fault(self.instance_fields_size as nat, self.instance_fields@, e)
        ||| counted_fault(self.static_fields_size as nat, self.static_fields@, e)
    }

    open spec fn lifted(&self) -> ClassView {
        ClassView {
            class_name: text(self.class_name@),
            super_class: text(self.super_class@),
            source_file: text(self.source_file@),
            access_flags: flags_of(self.access_flags as u32, DvmAccessFlagType::Class),
            direct_methods_size: self.direct_methods_size as usize,
            direct_methods: lifted_all(self.direct_methods@),
            virtual_methods_size: self.virtual_methods_size as usize,
            virtual_methods: lifted_all(self.virtual_methods@),
            instance_fields_size: self.instance_fields_size as usize,
            instance_fields: lifted_all(self.instance_fields@),
            static_fields_size: self.static_fields_size as usize,
            static_fields: lifted_all(self.static_fields@),
        }
    }

    fn lift(&self) -> (r: Result<DvmClass, LiftError>) {
        let class_name = lift_text(&self.class_name)?;
        let super_class = lift_text(&self.super_class)?;
        let source_file = lift_text(&self.source_file)?;
        let access_flags = DvmAccessFlag::parse(self.access_flags as u32, DvmAccessFlagType::Class);
        let direct_methods = lift_counted(self.direct_methods_size as usize, &self.direct_methods)?;
        let virtual_methods = lift_counted(
            self.virtual_methods_size as usize,
            &self.virtual_methods,
        )?;
        let instance_fields = lift_counted(
            self.instance_fields_size as usize,
            &self.instance_fields,
        )?;
        let static_fields = lift_counted(self.static_fields_size as usize, &self.static_fields)?;
        Ok(
            DvmClass {
                class_name,
                super_class,
                source_file,
                access_flags,
                direct_methods_size: self.direct_methods_size as usize,
                direct_methods,
                virtual_methods_size: self.virtual_methods_size as usize,
                virtual_methods,
                instance_fields_size: self.instance_fields_size as usize,
                instance_fields,
                static_fields_size: self.static_fields_size as usize,
                static_fields,
            },
        )
    }
}

proof fn lemma_lifted_method_wf(s: Seq<NativeMethod>, i: int)
    requires
        0 <= i < s.len(),
        !some_fault(s, LiftError::SizeMismatch),
    ensures
        lifted_all(s)[i].wf(),
{
    assert(!s[i].has_fault(LiftError::SizeMismatch));
}

proof fn lemma_lifted_field_wf(s: Seq<NativeField>, i: int)
    requires
        0 <= i < s.len(),
        !some_fault(s, LiftError::InvalidValue),
    ensures
        lifted_all(s)[i].wf(),
{
    assert(!s[i].has_fault(LiftError::InvalidValue));
}

impl DvmClass {
    /// Lifts a class record of the engine with all its methods and fields.
    pub fn from_ptr(ptr: &NativeClass) -> (r: Result<Self, LiftError>)
        ensures
            r is Ok <==> lifts(*ptr),
            r is Ok ==> r->Ok_0@ == ptr.lifted() && r->Ok_0@.wf(),
            r is Err ==> ptr.has_fault(r->Err_0),
    {
        let r = ptr.lift();
        proof {
            if r is Ok {
                let v = r->Ok_0@;
                assert forall|i: int| 0 <= i < v.direct_methods.len() implies (
                #[trigger] v.direct_methods[i]).wf() by {
                    lemma_lifted_method_wf(ptr.direct_methods@, i);
                }
                assert forall|i: int| 0 <= i < v.virtual_methods.len() implies (
                #[trigger] v.virtual_methods[i]).wf() by {
                    lemma_lifted_method_wf(ptr.virtual_methods@, i);
                }
                assert forall|i: int| 0 <= i < v.instance_fields.len() implies (
                #[trigger] v.instance_fields[i]).wf() by {
                    lemma_lifted_field_wf(ptr.instance_fields@, i);
                }
                assert forall|i: int| 0 <= i < v.static_fields.len() implies (
                #[trigger] v.static_fields[i]).wf() by {
                    lemma_lifted_field_wf(ptr.static_fields@, i);
                }
            }
        }
        r
    }

    /// Returns a reference to the class name
    pub fn class_name(&self) -> (r: &str)
        ensures
            r@ == self@.class_name,
    {
        self.class_name.as_str()
    }

    /// Returns a reference to the super class
    pub fn super_class(&self) -> (r: &str)
        ensures
            r@ == self@.super_class,
    {
        self.super_class.as_str()
    }

    /// Returns a reference to the source file
    pub fn source_file(&self) -> (r: &str)
        ensures
            r@ == self@.source_file,
    {
        self.source_file.as_str()
    }

    /// Returns a reference to the access flags
    pub fn access_flags(&self) -> (r: &[DvmAccessFlag])
        ensures
            r@ == self@.access_flags,
    {
        self.access_flags.as_slice()
    }

    /// Returns the direct methods size
    pub fn direct_methods_size(&self) -> (r: usize)
        ensures
            r == self@.direct_methods_size,
    {
        self.direct_methods_size
    }

    /// Returns a reference to the direct methods
    pub fn direct_methods(&self) -> (r: &[DvmMethod])
        ensures
            views(r@) == self@.direct_methods,
    {
        self.direct_methods.as_slice()
    }

    /// Returns the virtual methods size
    pub fn virtual_methods_size(&self) -> (r: usize)
        ensures
            r == self@.virtual_methods_size,
    {
        self.virtual_methods_size
    }

    /// Returns a reference to the virtual methods
    pub fn virtual_methods(&self) -> (r: &[DvmMethod])
        ensures
            views(r@) == self@.virtual_methods,
    {
        self.virtual_methods.as_slice()
    }

    /// Returns the instance fields size
    pub fn instance_fields_size(&self) -> (r: usize)
        ensures
            r == self@.instance_fields_size,
    {
        self.instance_fields_size
    }

    /// Returns a reference to the instance fields
    pub fn instance_fields(&self) -> (r: &[DvmField])
        ensures
            views(r@) == self@.instance_fields,
    {
        self.instance_fields.as_slice()
    }

    /// Returns the static fields size
    pub fn static_fields_size(&self) -> (r: usize)
        ensures
            r == self@.static_fields_size,
    {
        self.static_fields_size
    }

    /// Returns a reference to the static fields
    pub fn static_fields(&self) -> (r: &[DvmField])
        ensures
            views(r@) == self@.static_fields,
    {
        self.static_fields.as_slice()
    }
}

} // verus!
