//! Records as the analysis engine hands them over, and the lifting discipline.
//!
//! Every record here is plain data copied out of the engine: text is the raw
//! byte content of a null-terminated string in the engine's encoding (UTF-8),
//! an array is a declared count beside the records actually present, and a
//! nested pointer that may be null is an `Option`. A back-reference into the
//! engine's graph (the class or method that a cross-reference points at) is
//! carried only as the name of its target.
//!
//! The engine reports its boolean flags with `0` meaning *set*.
use vstd::prelude::*;
use vstd::utf8::*;
use crate::text::decode_text;

verus! {

/// A field of a class (the engine's `hdvmfield_t`).
#[derive(Debug, Clone)]
pub struct NativeField {
    pub class_name: Vec<u8>,
    pub name: Vec<u8>,
    /// Type code: 0 fundamental, 1 class, 2 array, anything else unknown.
    pub type_: u32,
    /// Fundamental code, 0 (boolean) to 8 (void); read only for a fundamental field.
    pub fundamental_value: u32,
    pub type_value: Vec<u8>,
    pub access_flags: u16,
}

/// A method of a class (the engine's `hdvmmethod_t`).
#[derive(Debug, Clone)]
pub struct NativeMethod {
    pub class_name: Vec<u8>,
    pub method_name: Vec<u8>,
    pub prototype: Vec<u8>,
    pub access_flags: u16,
    pub code_size: u32,
    pub code: Vec<u8>,
    pub dalvik_name: Vec<u8>,
    pub demangled_name: Vec<u8>,
}

/// A class (the engine's `hdvmclass_t`).
#[derive(Debug, Clone)]
pub struct NativeClass {
    pub class_name: Vec<u8>,
    pub super_class: Vec<u8>,
    pub source_file: Vec<u8>,
    pub access_flags: u16,
    pub direct_methods_size: u16,
    pub direct_methods: Vec<NativeMethod>,
    pub virtual_methods_size: u16,
    pub virtual_methods: Vec<NativeMethod>,
    pub instance_fields_size: u16,
    pub instance_fields: Vec<NativeField>,
    pub static_fields_size: u16,
    pub static_fields: Vec<NativeField>,
}

/// One disassembled instruction (the engine's `hdvminstruction_t`).
#[derive(Debug, Clone)]
pub struct NativeInstruction {
    /// Format code: 0 to 31 for the instruction formats, 99 for none.
    pub instruction_type: u32,
    pub instruction_length: u32,
    pub address: u64,
    pub op: u32,
    pub disassembly: Vec<u8>,
}

/// An exception handler (the engine's `dvmhandler_data_t`).
#[derive(Debug, Clone)]
pub struct NativeHandler {
    pub handler_type: Vec<u8>,
    pub handler_start_addr: u64,
}

/// A try region with its handlers (the engine's `dvmexceptions_data_t`).
#[derive(Debug, Clone)]
pub struct NativeException {
    pub try_value_start_addr: u64,
    pub try_value_end_addr: u64,
    pub n_of_handlers: usize,
    pub handler: Vec<NativeHandler>,
}

/// A disassembled method (the engine's `dvmdisassembled_method_t`).
#[derive(Debug, Clone)]
pub struct NativeDisassembledMethod {
    /// The method that was disassembled; the engine's pointer to it may be null.
    pub method_id: Option<NativeMethod>,
    pub n_of_registers: u16,
    pub n_of_exceptions: usize,
    pub exception_information: Vec<NativeException>,
    pub n_of_instructions: usize,
    pub instructions: Vec<NativeInstruction>,
    pub method_string: Vec<u8>,
}

/// Cross-reference to a class, a method and an instruction index
/// (the engine's `hdvm_class_method_idx_t`).
#[derive(Debug, Clone)]
pub struct NativeClassMethodIdx {
    /// Name of the class analysis pointed at, `None` for a null pointer.
    pub cls: Option<Vec<u8>>,
    /// Full name of the method analysis pointed at, `None` for a null pointer.
    pub method: Option<Vec<u8>>,
    pub idx: u64,
}

/// Cross-reference to a method and an instruction index
/// (the engine's `hdvm_method_idx_t`).
#[derive(Debug, Clone)]
pub struct NativeMethodIdx {
    pub method: Option<Vec<u8>>,
    pub idx: u64,
}

/// Cross-reference to a class, a field and an instruction index
/// (the engine's `hdvm_class_field_idx_t`).
#[derive(Debug, Clone)]
pub struct NativeClassFieldIdx {
    pub cls: Option<Vec<u8>>,
    /// Name of the field pointed at, `None` for a null pointer.
    pub field: Option<Vec<u8>>,
    pub idx: u64,
}

/// Cross-reference to a class and an instruction index
/// (the engine's `hdvm_class_idx_t`).
#[derive(Debug, Clone)]
pub struct NativeClassIdx {
    pub cls: Option<Vec<u8>>,
    pub idx: u64,
}

/// Typed cross-reference to a method (the engine's `hdvm_reftype_method_idx_t`).
#[derive(Debug, Clone)]
pub struct NativeRefTypeMethodIdx {
    /// Reference kind, the opcode of the referencing instruction.
    pub re_type: u32,
    pub method_analysis: Option<Vec<u8>>,
    pub idx: u64,
}

/// Cross-reference between classes (the engine's `hdvm_classxref_t`).
#[derive(Debug, Clone)]
pub struct NativeClassXref {
    pub class_analysis: Option<Vec<u8>>,
    pub n_of_reftype_method_idx: usize,
    pub reftype_method_idx: Vec<NativeRefTypeMethodIdx>,
}

/// A basic block (the engine's `hdvmbasicblock_t`).
#[derive(Debug, Clone)]
pub struct NativeBasicBlock {
    pub n_of_instructions: usize,
    pub instructions: Vec<NativeInstruction>,
    /// `0` when the block is a try block.
    pub try_block: u8,
    /// `0` when the block is a catch block.
    pub catch_block: u8,
    /// The handler type, `None` where the engine could not resolve it.
    pub handler_type: Option<Vec<u8>>,
    pub name: Vec<u8>,
    pub block_string: Vec<u8>,
}

/// The basic blocks of a method (the engine's `basic_blocks_t`).
#[derive(Debug, Clone)]
pub struct NativeBasicBlocks {
    pub n_of_blocks: usize,
    pub blocks: Vec<NativeBasicBlock>,
}

/// Analysis of a field (the engine's `hdvmfieldanalysis_t`).
#[derive(Debug, Clone)]
pub struct NativeFieldAnalysis {
    pub name: Vec<u8>,
    pub n_of_xrefread: usize,
    pub xrefread: Vec<NativeClassMethodIdx>,
    pub n_of_xrefwrite: usize,
    pub xrefwrite: Vec<NativeClassMethodIdx>,
}

/// Analysis of a string (the engine's `hdvmstringanalysis_t`).
#[derive(Debug, Clone)]
pub struct NativeStringAnalysis {
    pub value: Vec<u8>,
    pub n_of_xreffrom: usize,
    pub xreffrom: Vec<NativeClassMethodIdx>,
}

/// Analysis of a method (the engine's `hdvmmethodanalysis_t`).
#[derive(Debug, Clone)]
pub struct NativeMethodAnalysis {
    pub name: Vec<u8>,
    pub descriptor: Vec<u8>,
    pub full_name: Vec<u8>,
    /// `0` when the method is external.
    pub external: u8,
    /// `0` when the method belongs to the Android API.
    pub is_android_api: u8,
    pub access_flags: u32,
    pub class_name: Vec<u8>,
    /// The engine's pointer to the basic blocks, `None` when null.
    pub basic_blocks: Option<NativeBasicBlocks>,
    pub n_of_xrefread: usize,
    pub xrefread: Vec<NativeClassFieldIdx>,
    pub n_of_xrefwrite: usize,
    pub xrefwrite: Vec<NativeClassFieldIdx>,
    pub n_of_xrefto: usize,
    pub xrefto: Vec<NativeClassMethodIdx>,
    pub n_of_xreffrom: usize,
    pub xreffrom: Vec<NativeClassMethodIdx>,
    pub n_of_xrefnewinstance: usize,
    pub xrefnewinstance: Vec<NativeClassIdx>,
    pub n_of_xrefconstclass: usize,
    pub xrefconstclass: Vec<NativeClassIdx>,
    pub method_string: Vec<u8>,
}

/// Analysis of a class (the engine's `hdvmclassanalysis_t`).
#[derive(Debug, Clone)]
pub struct NativeClassAnalysis {
    /// `0` when the class is external.
    pub is_external: u8,
    pub extends_: Vec<u8>,
    pub name_: Vec<u8>,
    pub n_of_methods: usize,
    pub methods: Vec<NativeMethodAnalysis>,
    pub n_of_fields: usize,
    pub fields: Vec<NativeFieldAnalysis>,
    pub n_of_xrefnewinstance: usize,
    pub xrefnewinstance: Vec<NativeMethodIdx>,
    pub n_of_xrefconstclass: usize,
    pub xrefconstclass: Vec<NativeMethodIdx>,
    pub n_of_xrefto: usize,
    pub xrefto: Vec<NativeClassXref>,
    pub n_of_xreffrom: usize,
    pub xreffrom: Vec<NativeClassXref>,
}

/// Why a lift failed. A failed lift aborts the whole conversion.
#[derive(Debug, Clone, Copy, PartialEq, Eq, Structural)]
pub enum LiftError {
    /// A string is not valid text in the engine's encoding.
    InvalidText,
    /// A declared array size differs from the number of records present.
    SizeMismatch,
    /// A required pointer is null.
    NullPointer,
    /// An enumeration code is outside the values that the engine defines.
    InvalidValue,
}

/// A record of the engine that lifts into an owned value of type `Out`.
pub trait Lift: Sized {
    type Out: View;

    /// Whether this record shows fault `e`.
    spec fn has_fault(&self, e: LiftError) -> bool;

    /// The value that this record lifts to, when it has no fault.
    spec fn lifted(&self) -> <Self::Out as View>::V;

    /// Lifts this record: it fails exactly when the record shows a fault.
    fn lift(&self) -> (r: Result<Self::Out, LiftError>)
        ensures
            r is Ok <==> {
                &&& !self.has_fault(LiftError::InvalidText)
                &&& !self.has_fault(LiftError::SizeMismatch)
                &&& !self.has_fault(LiftError::NullPointer)
                &&& !self.has_fault(LiftError::InvalidValue)
            },
            r is Ok ==> r->Ok_0@ == self.lifted(),
            r is Err ==> self.has_fault(r->Err_0),
    ;
}

/// A record lifts when it shows no fault of any kind.
pub open spec fn lifts<T: Lift>(x: T) -> bool {
    &&& !x.has_fault(LiftError::InvalidText)
    &&& !x.has_fault(LiftError::SizeMismatch)
    &&& !x.has_fault(LiftError::NullPointer)
    &&& !x.has_fault(LiftError::InvalidValue)
}

/// Every record of `s` lifts.
pub open spec fn all_lift<T: Lift>(s: Seq<T>) -> bool {
    forall|i: int| 0 <= i < s.len() ==> lifts(#[trigger] s[i])
}

/// Some record of `s` shows fault `e`.
pub open spec fn some_fault<T: Lift>(s: Seq<T>, e: LiftError) -> bool {
    exists|i: int| 0 <= i < s.len() && #[trigger] s[i].has_fault(e)
}

/// The values that the records of `s` lift to, in order.
pub open spec fn lifted_all<T: Lift>(s: Seq<T>) -> Seq<<T::Out as View>::V> {
    s.map_values(|x: T| x.lifted())
}

/// The views of the values of `s`, in order.
pub open spec fn views<U: View>(s: Seq<U>) -> Seq<U::V> {
    s.map_values(|u: U| u@)
}

/// A counted array shows fault `e`: its count is wrong, or one of its records
/// shows `e`.
pub open spec fn counted_fault<T: Lift>(count: nat, s: Seq<T>, e: LiftError) -> bool {
    ||| e == LiftError::SizeMismatch && count != s.len()
    ||| some_fault(s, e)
}

/// Text shows a fault when it is not valid UTF-8.
pub open spec fn text_ok(b: Seq<u8>) -> bool {
    valid_utf8(b)
}

/// The characters of valid text.
pub open spec fn text(b: Seq<u8>) -> Seq<char> {
    decode_utf8(b)
}

/// Lifts one string.
pub fn lift_text(bytes: &Vec<u8>) -> (r: Result<String, LiftError>)
    ensures
        r is Ok <==> text_ok(bytes@),
        r is Ok ==> r->Ok_0@ == text(bytes@),
        r is Err ==> r->Err_0 == LiftError::InvalidText,
{
    match decode_text(bytes) {
        Some(s) => Ok(s),
        None => Err(LiftError::InvalidText),
    }
}

/// Lifts an optional string; one that is absent or not valid text becomes
/// empty.
pub fn lift_text_or_empty(bytes: &Option<Vec<u8>>) -> (r: String)
    ensures
        r@ == text_or_empty(*bytes),
{
    match bytes {
        Some(b) => match decode_text(b) {
            Some(s) => s,
            None => String::new(),
        },
        None => String::new(),
    }
}

/// The text of an optional string, empty where it is absent or invalid.
pub open spec fn text_or_empty(bytes: Option<Vec<u8>>) -> Seq<char> {
    match bytes {
        Some(b) => if text_ok(b@) { text(b@) } else { Seq::empty() },
        None => Seq::empty(),
    }
}

/// Lifts the name of the target of a back-reference: the pointer must not be
/// null, and the name must be text.
pub fn lift_target(name: &Option<Vec<u8>>) -> (r: Result<String, LiftError>)
    ensures
        r is Ok <==> target_ok(*name),
        r is Ok ==> r->Ok_0@ == text(name->Some_0@),
        r is Err ==> target_fault(*name, r->Err_0),
{
    match name {
        Some(b) => lift_text(b),
        None => Err(LiftError::NullPointer),
    }
}

/// The target of a back-reference is present and named by valid text.
pub open spec fn target_ok(name: Option<Vec<u8>>) -> bool {
    name is Some && text_ok(name->Some_0@)
}

/// The target of a back-reference shows fault `e`.
pub open spec fn target_fault(name: Option<Vec<u8>>, e: LiftError) -> bool {
    match name {
        Some(b) => e == LiftError::InvalidText && !text_ok(b@),
        None => e == LiftError::NullPointer,
    }
}

/// Lifts every record of an array, in order; the first failure aborts.
pub fn lift_all<T: Lift>(raw: &Vec<T>) -> (r: Result<Vec<T::Out>, LiftError>)
    ensures
        r is Ok <==> all_lift(raw@),
        r is Ok ==> views(r->Ok_0@) == lifted_all(raw@),
        r is Err ==> some_fault(raw@, r->Err_0),
{
    let mut out: Vec<T::Out> = Vec::new();
    let mut i: usize = 0;
    while i < raw.len()
        invariant
            i <= raw@.len(),
            out@.len() == i,
            forall|j: int| 0 <= j < i ==> lifts(#[trigger] raw@[j]),
            forall|j: int| 0 <= j < i ==> (#[trigger] out@[j])@ == raw@[j].lifted(),
        decreases raw@.len() - i,
    {
        match raw[i].lift() {
            Ok(v) => out.push(v),
            Err(e) => {
                assert(raw@[i as int].has_fault(e));
                assert(!lifts(raw@[i as int]));
                return Err(e);
            },
        }
        i = i + 1;
    }
    assert(views(out@) =~= lifted_all(raw@));
    Ok(out)
}

/// Lifts a counted array: the declared count must match the records present.
pub fn lift_counted<T: Lift>(count: usize, raw: &Vec<T>) -> (r: Result<Vec<T::Out>, LiftError>)
    ensures
        r is Ok <==> (count == raw@.len() && all_lift(raw@)),
        r is Ok ==> views(r->Ok_0@) == lifted_all(raw@),
        r is Err ==> counted_fault(count as nat, raw@, r->Err_0),
{
    if count != raw.len() {
        return Err(LiftError::SizeMismatch);
    }
    lift_all(raw)
}

/// Lifts an optional record; an absent one stays absent.
pub fn lift_optional<T: Lift>(raw: &Option<T>) -> (r: Result<Option<T::Out>, LiftError>)
    ensures
        r is Ok <==> (raw is None || lifts(raw->Some_0)),
        r matches Ok(Some(v)) ==> raw is Some && v@ == raw->Some_0.lifted(),
        r matches Ok(None) ==> raw is None,
        r is Err ==> raw is Some && raw->Some_0.has_fault(r->Err_0),
{
    match raw {
        Some(x) => match x.lift() {
            Ok(v) => Ok(Some(v)),
            Err(e) => Err(e),
        },
        None => Ok(None),
    }
}

} // verus!
