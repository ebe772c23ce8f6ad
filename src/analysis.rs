//! Analysis results: cross-references, basic blocks, and field, string,
//! method and class analyses.
//!
//! A cross-reference never embeds the entity that it points at: it names it
//! (class name, method full name, field name) beside the instruction index.
//! This keeps every lifted value a finite tree although the engine's graph has
//! cycles.
use vstd::prelude::*;
use vstd::utf8::*;
use crate::disassembler::{DvmInstruction, InstructionView};
use crate::dvm_access_flags::{DvmAccessFlag, DvmAccessFlagType, flags_of};
use crate::native::{
    Lift, LiftError, NativeBasicBlock, NativeBasicBlocks, NativeClassAnalysis, NativeClassFieldIdx,
    NativeDisassembledMethod, NativeInstruction,
    NativeClassIdx, NativeClassMethodIdx, NativeClassXref, NativeFieldAnalysis,
    NativeMethodAnalysis, NativeMethodIdx, NativeRefTypeMethodIdx, NativeStringAnalysis, lifts,
    lifted_all, views, counted_fault, text_ok, text, text_or_empty, target_fault, lift_text,
    lift_text_or_empty, lift_target, lift_counted, some_fault,
};

verus! {

/// Kind of a typed reference to a method.
#[allow(non_camel_case_types)]
#[derive(Debug, Clone, Copy, PartialEq, Eq, Structural)]
pub enum DvmRefType {
    /// New instance of a class (opcode 0x22)
    REF_NEW_INSTANCE,
    /// Class is used somewhere (opcode 0x1c)
    REF_CLASS_USAGE,
    /// Call of a method from a class (opcode 0x6e)
    INVOKE_VIRTUAL,
    /// Call of constructor of super class (opcode 0x6f)
    INVOKE_SUPER,
    /// Call a method from a class (opcode 0x70)
    INVOKE_DIRECT,
    /// Call a static method from a class (opcode 0x71)
    INVOKE_STATIC,
    /// Call an interface method (opcode 0x72)
    INVOKE_INTERFACE,
    /// Call of a method from a class with arguments range (opcode 0x74)
    INVOKE_VIRTUAL_RANGE,
    /// Call of constructor of super class with arguments range (opcode 0x75)
    INVOKE_SUPER_RANGE,
    /// Call a method from a class with arguments range (opcode 0x76)
    INVOKE_DIRECT_RANGE,
    /// Call a static method from a class with arguments range (opcode 0x77)
    INVOKE_STATIC_RANGE,
    /// Call an interface method with arguments range (opcode 0x78)
    INVOKE_INTERFACE_RANGE,
}

/// The reference kind that an opcode stands for, if any.
pub open spec fn ref_type_of(code: u32) -> Option<DvmRefType> {
    if code == 0x22 {
        Some(DvmRefType::REF_NEW_INSTANCE)
    } else if code == 0x1c {
        Some(DvmRefType::REF_CLASS_USAGE)
    } else if code == 0x6e {
        Some(DvmRefType::INVOKE_VIRTUAL)
    } else if code == 0x6f {
        Some(DvmRefType::INVOKE_SUPER)
    } else if code == 0x70 {
        Some(DvmRefType::INVOKE_DIRECT)
    } else if code == 0x71 {
        Some(DvmRefType::INVOKE_STATIC)
    } else if code == 0x72 {
        Some(DvmRefType::INVOKE_INTERFACE)
    } else if code == 0x74 {
        Some(DvmRefType::INVOKE_VIRTUAL_RANGE)
    } else if code == 0x75 {
        Some(DvmRefType::INVOKE_SUPER_RANGE)
    } else if code == 0x76 {
        Some(DvmRefType::INVOKE_DIRECT_RANGE)
    } else if code == 0x77 {
        Some(DvmRefType::INVOKE_STATIC_RANGE)
    } else if code == 0x78 {
        Some(DvmRefType::INVOKE_INTERFACE_RANGE)
    } else {
        None
    }
}

/// What a class/method cross-reference holds.
pub ghost struct ClassMethodIdxView {
    pub class: Seq<char>,
    pub method: Seq<char>,
    pub idx: u64,
}

/// Cross-reference to a class, a method and an instruction index.
#[derive(Debug, PartialEq)]
pub struct DvmClassMethodIdx {
    class: String,
    method: String,
    idx: u64,
}

impl View for DvmClassMethodIdx {
    type V = ClassMethodIdxView;

    closed spec fn view(&self) -> ClassMethodIdxView {
        ClassMethodIdxView {
            class: self.class@,
            method: self.method@,
            idx: self.idx,
        }
    }
}

impl Lift for NativeClassMethodIdx {
    type Out = DvmClassMethodIdx;

    open spec fn has_fault(&self, e: LiftError) -> bool {
        target_fault(self.cls, e) || target_fault(self.method, e)
    }

    open spec fn lifted(&self) -> ClassMethodIdxView {
        ClassMethodIdxView {
            class: text(self.cls->Some_0@),
            method: text(self.method->Some_0@),
            idx: self.idx,
        }
    }

    fn lift(&self) -> (r: Result<DvmClassMethodIdx, LiftError>) {
        let class = lift_target(&self.cls)?;
        let method = lift_target(&self.method)?;
        Ok(DvmClassMethodIdx { class, method, idx: self.idx })
    }
}

impl DvmClassMethodIdx {
    /// Lifts a class/method cross-reference of the engine.
    pub fn from_ptr(ptr: &NativeClassMethodIdx) -> (r: Result<Self, LiftError>)
        ensures
            r is Ok <==> lifts(*ptr),
            r is Ok ==> r->Ok_0@ == ptr.lifted(),
            r is Err ==> ptr.has_fault(r->Err_0),
    {
        ptr.lift()
    }

    /// Return a reference to the class of the struct
    pub fn class(&self) -> (r: &str)
        ensures
            r@ == self@.class,
    {
        self.class.as_str()
    }

    /// Return a reference to the method of the struct
    pub fn method(&self) -> (r: &str)
        ensures
            r@ == self@.method,
    {
        self.method.as_str()
    }

    /// Return the index
    pub fn idx(&self) -> (r: u64)
        ensures
            r == self@.idx,
    {
        self.idx
    }
}

/// What a method cross-reference holds.
pub ghost struct MethodIdxView {
    pub method: Seq<char>,
    pub idx: u64,
}

/// Cross-reference to a method and an instruction index.
#[derive(Debug, PartialEq)]
pub struct DvmMethodIdx {
    method: String,
    idx: u64,
}

impl View for DvmMethodIdx {
    type V = MethodIdxView;

    closed spec fn view(&self) -> MethodIdxView {
        MethodIdxView {
            method: self.method@,
            idx: self.idx,
        }
    }
}

impl Lift for NativeMethodIdx {
    type Out = DvmMethodIdx;

    open spec fn has_fault(&self, e: LiftError) -> bool {
        target_fault(self.method, e)
    }

    open spec fn lifted(&self) -> MethodIdxView {
        MethodIdxView { method: text(self.method->Some_0@), idx: self.idx }
    }

    fn lift(&self) -> (r: Result<DvmMethodIdx, LiftError>) {
        let method = lift_target(&self.method)?;
        Ok(DvmMethodIdx { method, idx: self.idx })
    }
}

impl DvmMethodIdx {
    /// Lifts a method cross-reference of the engine.
    pub fn from_ptr(ptr: &NativeMethodIdx) -> (r: Result<Self, LiftError>)
        ensures
            r is Ok <==> lifts(*ptr),
            r is Ok ==> r->Ok_0@ == ptr.lifted(),
            r is Err ==> ptr.has_fault(r->Err_0),
    {
        ptr.lift()
    }

    /// Return a reference to the method of the XRef
    pub fn method(&self) -> (r: &str)
        ensures
            r@ == self@.method,
    {
        self.method.as_str()
    }

    /// Return the idx
    pub fn idx(&self) -> (r: u64)
        ensures
            r == self@.idx,
    {
        self.idx
    }
}

/// What a class/field cross-reference holds.
pub ghost struct ClassFieldIdxView {
    pub class: Seq<char>,
    pub field: Seq<char>,
    pub idx: u64,
}

/// Cross-reference to a class, a field and an instruction index.
#[derive(Debug, PartialEq)]
pub struct DvmClassFieldIdx {
    class: String,
    field: String,
    idx: u64,
}

impl View for DvmClassFieldIdx {
    type V = ClassFieldIdxView;

    closed spec fn view(&self) -> ClassFieldIdxView {
        ClassFieldIdxView {
            class: self.class@,
            field: self.field@,
            idx: self.idx,
        }
    }
}

impl Lift for NativeClassFieldIdx {
    type Out = DvmClassFieldIdx;

    open spec fn has_fault(&self, e: LiftError) -> bool {
        target_fault(self.cls, e) || target_fault(self.field, e)
    }

    open spec fn lifted(&self) -> ClassFieldIdxView {
        ClassFieldIdxView {
            class: text(self.cls->Some_0@),
            field: text(self.field->Some_0@),
            idx: self.idx,
        }
    }

    fn lift(&self) -> (r: Result<DvmClassFieldIdx, LiftError>) {
        let class = lift_target(&self.cls)?;
        let field = lift_target(&self.field)?;
        Ok(DvmClassFieldIdx { class, field, idx: self.idx })
    }
}

impl DvmClassFieldIdx {
    /// Lifts a class/field cross-reference of the engine.
    pub fn from_ptr(ptr: &NativeClassFieldIdx) -> (r: Result<Self, LiftError>)
        ensures
            r is Ok <==> lifts(*ptr),
            r is Ok ==> r->Ok_0@ == ptr.lifted(),
            r is Err ==> ptr.has_fault(r->Err_0),
    {
        ptr.lift()
    }

    /// Return a reference to the class of the XRef
    pub fn class(&self) -> (r: &str)
        ensures
            r@ == self@.class,
    {
        self.class.as_str()
    }

    /// Return a reference to the field of the XRef
    pub fn field(&self) -> (r: &str)
        ensures
            r@ == self@.field,
    {
        self.field.as_str()
    }

    /// Return the idx
    pub fn idx(&self) -> (r: u64)
        ensures
            r == self@.idx,
    {
        self.idx
    }
}

/// What a class cross-reference holds.
pub ghost struct ClassIdxView {
    pub class: Seq<char>,
    pub idx: u64,
}

/// Cross-reference to a class and an instruction index.
#[derive(Debug, PartialEq)]
pub struct DvmClassIdx {
    class: String,
    idx: u64,
}

impl View for DvmClassIdx {
    type V = ClassIdxView;

    closed spec fn view(&self) -> ClassIdxView {
        ClassIdxView {
            class: self.class@,
            idx: self.idx,
        }
    }
}

impl Lift for NativeClassIdx {
    type Out = DvmClassIdx;

    open spec fn has_fault(&self, e: LiftError) -> bool {
        target_fault(self.cls, e)
    }

    open spec fn lifted(&self) -> ClassIdxView {
        ClassIdxView { class: text(self.cls->Some_0@), idx: self.idx }
    }

    fn lift(&self) -> (r: Result<DvmClassIdx, LiftError>) {
        let class = lift_target(&self.cls)?;
        Ok(DvmClassIdx { class, idx: self.idx })
    }
}

impl DvmClassIdx {
    /// Lifts a class cross-reference of the engine.
    pub fn from_ptr(ptr: &NativeClassIdx) -> (r: Result<Self, LiftError>)
        ensures
            r is Ok <==> lifts(*ptr),
            r is Ok ==> r->Ok_0@ == ptr.lifted(),
            r is Err ==> ptr.has_fault(r->Err_0),
    {
        ptr.lift()
    }

    /// Return a reference to the class of the XRef
    pub fn class(&self) -> (r: &str)
        ensures
            r@ == self@.class,
    {
        self.class.as_str()
    }

    /// Return the idx
    pub fn idx(&self) -> (r: u64)
        ensures
            r == self@.idx,
    {
        self.idx
    }
}

/// What a typed method reference holds.
pub ghost struct RefTypeMethodIdxView {
    pub ref_type: DvmRefType,
    pub method: Seq<char>,
    pub idx: u64,
}

/// Typed reference to a method, with the instruction index where it stands.
#[derive(Debug, PartialEq)]
pub struct DvmRefTypeMethodIdx {
    ref_type: DvmRefType,
    method: String,
    idx: u64,
}

impl View for DvmRefTypeMethodIdx {
    type V = RefTypeMethodIdxView;

    closed spec fn view(&self) -> RefTypeMethodIdxView {
        RefTypeMethodIdxView {
            ref_type: self.ref_type,
            method: self.method@,
            idx: self.idx,
        }
    }
}

impl Lift for NativeRefTypeMethodIdx {
    type Out = DvmRefTypeMethodIdx;

    open spec fn has_fault(&self, e: LiftError) -> bool {
        ||| e == LiftError::InvalidValue && ref_type_of(self.re_type) is None
        ||| target_fault(self.method_analysis, e)
    }

    open spec fn lifted(&self) -> RefTypeMethodIdxView {
        RefTypeMethodIdxView {
            ref_type: ref_type_of(self.re_type)->Some_0,
            method: text(self.method_analysis->Some_0@),
            idx: self.idx,
        }
    }

    fn lift(&self) -> (r: Result<DvmRefTypeMethodIdx, LiftError>) {
        let ref_type = match self.re_type {
            0x22 => DvmRefType::REF_NEW_INSTANCE,
            0x1c => DvmRefType::REF_CLASS_USAGE,
            0x6e => DvmRefType::INVOKE_VIRTUAL,
            0x6f => DvmRefType::INVOKE_SUPER,
            0x70 => DvmRefType::INVOKE_DIRECT,
            0x71 => DvmRefType::INVOKE_STATIC,
            0x72 => DvmRefType::INVOKE_INTERFACE,
            0x74 => DvmRefType::INVOKE_VIRTUAL_RANGE,
            0x75 => DvmRefType::INVOKE_SUPER_RANGE,
            0x76 => DvmRefType::INVOKE_DIRECT_RANGE,
            0x77 => DvmRefType::INVOKE_STATIC_RANGE,
            0x78 => DvmRefType::INVOKE_INTERFACE_RANGE,
            _ => return Err(LiftError::InvalidValue),
        };
        let method = lift_target(&self.method_analysis)?;
        Ok(DvmRefTypeMethodIdx { ref_type, method, idx: self.idx })
    }
}

impl DvmRefTypeMethodIdx {
    /// Lifts a typed method reference of the engine.
    pub fn from_ptr(ptr: &NativeRefTypeMethodIdx) -> (r: Result<Self, LiftError>)
        ensures
            r is Ok <==> lifts(*ptr),
            r is Ok ==> r->Ok_0@ == ptr.lifted(),
            r is Err ==> ptr.has_fault(r->Err_0),
    {
        ptr.lift()
    }

    /// Return the reference type
    pub fn ref_type(&self) -> (r: DvmRefType)
        ensures
            r == self@.ref_type,
    {
        self.ref_type
    }

    /// Return a reference to the method name
    pub fn method(&self) -> (r: &str)
        ensures
            r@ == self@.method,
    {
        self.method.as_str()
    }

    /// Return the index
    pub fn idx(&self) -> (r: u64)
        ensures
            r == self@.idx,
    {
        self.idx
    }
}

/// What a class cross-reference holds.
pub ghost struct ClassXrefView {
    pub class: Seq<char>,
    pub n_of_reftype_method_idx: usize,
    pub methods_xrefs: Seq<RefTypeMethodIdxView>,
}

/// Cross-reference between classes, with the typed method references behind it.
#[derive(Debug, PartialEq)]
pub struct DvmClassXref {
    class: String,
    n_of_reftype_method_idx: usize,
    methods_xrefs: Vec<DvmRefTypeMethodIdx>,
}

impl View for DvmClassXref {
    type V = ClassXrefView;

    closed spec fn view(&self) -> ClassXrefView {
        ClassXrefView {
            class: self.class@,
            n_of_reftype_method_idx: self.n_of_reftype_method_idx,
            methods_xrefs: views(self.methods_xrefs@),
        }
    }
}

impl ClassXrefView {
    /// The declared count is the number of method references.
    pub open spec fn wf(self) -> bool {
        self.n_of_reftype_method_idx == self.methods_xrefs.len()
    }
}

impl Lift for NativeClassXref {
    type Out = DvmClassXref;

    open spec fn has_fault(&self, e: LiftError) -> bool {
        ||| target_fault(self.class_analysis, e)
        ||| counted_fault(self.n_of_reftype_method_idx as nat, self.reftype_method_idx@, e)
    }

    open spec fn lifted(&self) -> ClassXrefView {
        ClassXrefView {
            class: text(self.class_analysis->Some_0@),
            n_of_reftype_method_idx: self.n_of_reftype_method_idx,
            methods_xrefs: lifted_all(self.reftype_method_idx@),
        }
    }

    fn lift(&self) -> (r: Result<DvmClassXref, LiftError>) {
        let class = lift_target(&self.class_analysis)?;
        let methods_xrefs = lift_counted(self.n_of_reftype_method_idx, &self.reftype_method_idx)?;
        Ok(
            DvmClassXref {
                class,
                n_of_reftype_method_idx: self.n_of_reftype_method_idx,
                methods_xrefs,
            },
        )
    }
}

impl DvmClassXref {
    /// Lifts a class cross-reference of the engine.
    pub fn from_ptr(ptr: &NativeClassXref) -> (r: Result<Self, LiftError>)
        ensures
            r is Ok <==> lifts(*ptr),
            r is Ok ==> r->Ok_0@ == ptr.lifted() && r->Ok_0@.wf(),
            r is Err ==> ptr.has_fault(r->Err_0),
    {
        ptr.lift()
    }

    /// Return a reference to the class name
    pub fn class(&self) -> (r: &str)
        ensures
            r@ == self@.class,
    {
        self.class.as_str()
    }

    /// Return the number of methods references
    pub fn n_of_reftype_method_idx(&self) -> (r: usize)
        ensures
            r == self@.n_of_reftype_method_idx,
    {
        self.n_of_reftype_method_idx
    }

    /// Return a reference to the methods
    pub fn methods_xrefs(&self) -> (r: &[DvmRefTypeMethodIdx])
        ensures
            views(r@) == self@.methods_xrefs,
    {
        self.methods_xrefs.as_slice()
    }
}

/// What a basic block holds.
pub ghost struct BasicBlockView {
    pub n_of_instructions: usize,
    pub instructions: Seq<InstructionView>,
    pub try_block: bool,
    pub catch_block: bool,
    pub handler_type: Seq<char>,
    pub name: Seq<char>,
    pub block_string: Seq<char>,
}

/// A basic block: a straight run of instructions in program order. A block may be both a try and a catch block.
#[derive(Debug, PartialEq)]
pub struct DvmBasicBlock {
    n_of_instructions: usize,
    instructions: Vec<DvmInstruction>,
    try_block: bool,
    catch_block: bool,
    handler_type: String,
    name: String,
    block_string: String,
}

impl View for DvmBasicBlock {
    type V = BasicBlockView;

    closed spec fn view(&self) -> BasicBlockView {
        BasicBlockView {
            n_of_instructions: self.n_of_instructions,
            instructions: views(self.instructions@),
            try_block: self.try_block,
            catch_block: self.catch_block,
            handler_type: self.handler_type@,
            name: self.name@,
            block_string: self.block_string@,
        }
    }
}

impl BasicBlockView {
    /// The declared count is the number of instructions.
    pub open spec fn wf(self) -> bool {
        self.n_of_instructions == self.instructions.len()
    }
}

impl Lift for NativeBasicBlock {
    type Out = DvmBasicBlock;

    open spec fn has_fault(&self, e: LiftError) -> bool {
        ||| e == LiftError::InvalidText && (!text_ok(self.name@) || !text_ok(self.block_string@))
        ||| counted_fault(self.n_of_instructions as nat, self.instructions@, e)
    }

    open spec fn lifted(&self) -> BasicBlockView {
        BasicBlockView {
            n_of_instructions: self.n_of_instructions,
            instructions: lifted_all(self.instructions@),
            try_block: self.try_block == 0,
            catch_block: self.catch_block == 0,
            handler_type: text_or_empty(self.handler_type),
            name: text(self.name@),
            block_string: text(self.block_string@),
        }
    }

    fn lift(&self) -> (r: Result<DvmBasicBlock, LiftError>) {
        let instructions = lift_counted(self.n_of_instructions, &self.instructions)?;
        let name = lift_text(&self.name)?;
        let block_string = lift_text(&self.block_string)?;
        Ok(
            DvmBasicBlock {
                n_of_instructions: self.n_of_instructions,
                instructions,
                try_block: self.try_block == 0,
                catch_block: self.catch_block == 0,
                handler_type: lift_text_or_empty(&self.handler_type),
                name,
                block_string,
            },
        )
    }
}

impl DvmBasicBlock {
    /// Lifts a basic block of the engine. A handler type that the engine could not resolve becomes empty instead of failing the lift.
    pub fn from_ptr(ptr: &NativeBasicBlock) -> (r: Result<Self, LiftError>)
        ensures
            r is Ok <==> lifts(*ptr),
            r is Ok ==> r->Ok_0@ == ptr.lifted() && r->Ok_0@.wf(),
            r is Err ==> ptr.has_fault(r->Err_0),
    {
        ptr.lift()
    }

    /// Return the number of instructions in the block
    pub fn n_of_instructions(&self) -> (r: usize)
        ensures
            r == self@.n_of_instructions,
    {
        self.n_of_instructions
    }

    /// Return a reference to the instructions in the block
    pub fn instructions(&self) -> (r: &[DvmInstruction])
        ensures
            views(r@) == self@.instructions,
    {
        self.instructions.as_slice()
    }

    /// Return whether it is a try block
    pub fn try_block(&self) -> (r: bool)
        ensures
            r == self@.try_block,
    {
        self.try_block
    }

    /// Return whether it is a catch block
    pub fn catch_block(&self) -> (r: bool)
        ensures
            r == self@.catch_block,
    {
        self.catch_block
    }

    /// Return a reference to the string value of the handler type
    pub fn handler_type(&self) -> (r: &str)
        ensures
            r@ == self@.handler_type,
    {
        self.handler_type.as_str()
    }

    /// Return a reference to the name of the basic block
    pub fn name(&self) -> (r: &str)
        ensures
            r@ == self@.name,
    {
        self.name.as_str()
    }

    /// Return a reference to the whole representation of a basic block in string format
    pub fn block_string(&self) -> (r: &str)
        ensures
            r@ == self@.block_string,
    {
        self.block_string.as_str()
    }
}

/// What the basic blocks of a method hold.
pub ghost struct BasicBlocksView {
    pub n_of_blocks: usize,
    pub blocks: Seq<BasicBlockView>,
}

/// The basic blocks of a method, in block order.
#[derive(Debug, PartialEq)]
pub struct DvmBasicBlocks {
    n_of_blocks: usize,
    blocks: Vec<DvmBasicBlock>,
}

impl View for DvmBasicBlocks {
    type V = BasicBlocksView;

    closed spec fn view(&self) -> BasicBlocksView {
        BasicBlocksView {
            n_of_blocks: self.n_of_blocks,
            blocks: views(self.blocks@),
        }
    }
}

impl BasicBlocksView {
    /// The declared count is the number of blocks.
    pub open spec fn wf(self) -> bool {
        self.n_of_blocks == self.blocks.len()
    }
}

impl Lift for NativeBasicBlocks {
    type Out = DvmBasicBlocks;

    open spec fn has_fault(&self, e: LiftError) -> bool {
        counted_fault(self.n_of_blocks as nat, self.blocks@, e)
    }

    open spec fn lifted(&self) -> BasicBlocksView {
        BasicBlocksView { n_of_blocks: self.n_of_blocks, blocks: lifted_all(self.blocks@) }
    }

    fn lift(&self) -> (r: Result<DvmBasicBlocks, LiftError>) {
        let blocks = lift_counted(self.n_of_blocks, &self.blocks)?;
        Ok(DvmBasicBlocks { n_of_blocks: self.n_of_blocks, blocks })
    }
}

impl DvmBasicBlocks {
    /// Lifts the basic blocks of a method.
    pub fn from_ptr(ptr: &NativeBasicBlocks) -> (r: Result<Self, LiftError>)
        ensures
            r is Ok <==> lifts(*ptr),
            r is Ok ==> r->Ok_0@ == ptr.lifted() && r->Ok_0@.wf(),
            r is Err ==> ptr.has_fault(r->Err_0),
    {
        ptr.lift()
    }

    /// Return the number of basic blocks
    pub fn n_of_blocks(&self) -> (r: usize)
        ensures
            r == self@.n_of_blocks,
    {
        self.n_of_blocks
    }

    /// Return a reference to the basic blocks
    pub fn blocks(&self) -> (r: &[DvmBasicBlock])
        ensures
            views(r@) == self@.blocks,
    {
        self.blocks.as_slice()
    }
}

/// What a field analysis holds.
pub ghost struct FieldAnalysisView {
    pub name: Seq<char>,
    pub n_of_xrefread: usize,
    pub xrefread: Seq<ClassMethodIdxView>,
    pub n_of_xrefwrite: usize,
    pub xrefwrite: Seq<ClassMethodIdxView>,
}

/// Analysis of a field: where it is read and written.
#[derive(Debug, PartialEq)]
pub struct DvmFieldAnalysis {
    name: String,
    n_of_xrefread: usize,
    xrefread: Vec<DvmClassMethodIdx>,
    n_of_xrefwrite: usize,
    xrefwrite: Vec<DvmClassMethodIdx>,
}

impl View for DvmFieldAnalysis {
    type V = FieldAnalysisView;

    closed spec fn view(&self) -> FieldAnalysisView {
        FieldAnalysisView {
            name: self.name@,
            n_of_xrefread: self.n_of_xrefread,
            xrefread: views(self.xrefread@),
            n_of_xrefwrite: self.n_of_xrefwrite,
            xrefwrite: views(self.xrefwrite@),
        }
    }
}

impl FieldAnalysisView {
    /// Each declared count is the length of its list.
    pub open spec fn wf(self) -> bool {
        self.n_of_xrefread == self.xrefread.len() && self.n_of_xrefwrite == self.xrefwrite.len()
    }
}

impl Lift for NativeFieldAnalysis {
    type Out = DvmFieldAnalysis;

    open spec fn has_fault(&self, e: LiftError) -> bool {
        ||| e == LiftError::InvalidText && !text_ok(self.name@)
        ||| counted_fault(self.n_of_xrefread as nat, self.xrefread@, e)
        ||| counted_fault(self.n_of_xrefwrite as nat, self.xrefwrite@, e)
    }

    open spec fn lifted(&self) -> FieldAnalysisView {
        FieldAnalysisView {
            name: text(self.name@),
            n_of_xrefread: self.n_of_xrefread,
            xrefread: lifted_all(self.xrefread@),
            n_of_xrefwrite: self.n_of_xrefwrite,
            xrefwrite: lifted_all(self.xrefwrite@),
        }
    }

    fn lift(&self) -> (r: Result<DvmFieldAnalysis, LiftError>) {
        let name = lift_text(&self.name)?;
        let xrefread = lift_counted(self.n_of_xrefread, &self.xrefread)?;
        let xrefwrite = lift_counted(self.n_of_xrefwrite, &self.xrefwrite)?;
        Ok(
            DvmFieldAnalysis {
                name,
                n_of_xrefread: self.n_of_xrefread,
                xrefread,
                n_of_xrefwrite: self.n_of_xrefwrite,
                xrefwrite,
            },
        )
    }
}

impl DvmFieldAnalysis {
    /// Lifts a field analysis of the engine.
    pub fn from_ptr(ptr: &NativeFieldAnalysis) -> (r: Result<Self, LiftError>)
        ensures
            r is Ok <==> lifts(*ptr),
            r is Ok ==> r->Ok_0@ == ptr.lifted() && r->Ok_0@.wf(),
            r is Err ==> ptr.has_fault(r->Err_0),
    {
        ptr.lift()
    }

    /// Return a reference to the full name of the field
    pub fn name(&self) -> (r: &str)
        ensures
            r@ == self@.name,
    {
        self.name.as_str()
    }

    /// Return the number of reads
    pub fn n_of_xrefread(&self) -> (r: usize)
        ensures
            r == self@.n_of_xrefread,
    {
        self.n_of_xrefread
    }

    /// Return a reference to the reads
    pub fn xrefread(&self) -> (r: &[DvmClassMethodIdx])
        ensures
            views(r@) == self@.xrefread,
    {
        self.xrefread.as_slice()
    }

    /// Return the number of writes
    pub fn n_of_xrefwrite(&self) -> (r: usize)
        ensures
            r == self@.n_of_xrefwrite,
    {
        self.n_of_xrefwrite
    }

    /// Return a reference to the writes
    pub fn xrefwrite(&self) -> (r: &[DvmClassMethodIdx])
        ensures
            views(r@) == self@.xrefwrite,
    {
        self.xrefwrite.as_slice()
    }
}

/// What a string analysis holds.
pub ghost struct StringAnalysisView {
    pub value: Seq<char>,
    pub n_of_xreffrom: usize,
    pub xreffrom: Seq<ClassMethodIdxView>,
}

/// Analysis of a string literal: where it is referenced from.
#[derive(Debug, PartialEq)]
pub struct DvmStringAnalysis {
    value: String,
    n_of_xreffrom: usize,
    xreffrom: Vec<DvmClassMethodIdx>,
}

impl View for DvmStringAnalysis {
    type V = StringAnalysisView;

    closed spec fn view(&self) -> StringAnalysisView {
        StringAnalysisView {
            value: self.value@,
            n_of_xreffrom: self.n_of_xreffrom,
            xreffrom: views(self.xreffrom@),
        }
    }
}

impl StringAnalysisView {
    /// The declared count is the number of references.
    pub open spec fn wf(self) -> bool {
        self.n_of_xreffrom == self.xreffrom.len()
    }
}

impl Lift for NativeStringAnalysis {
    type Out = DvmStringAnalysis;

    open spec fn has_fault(&self, e: LiftError) -> bool {
        ||| e == LiftError::InvalidText && !text_ok(self.value@)
        ||| counted_fault(self.n_of_xreffrom as nat, self.xreffrom@, e)
    }

    open spec fn lifted(&self) -> StringAnalysisView {
        StringAnalysisView {
            value: text(self.value@),
            n_of_xreffrom: self.n_of_xreffrom,
            xreffrom: lifted_all(self.xreffrom@),
        }
    }

    fn lift(&self) -> (r: Result<DvmStringAnalysis, LiftError>) {
        let value = lift_text(&self.value)?;
        let xreffrom = lift_counted(self.n_of_xreffrom, &self.xreffrom)?;
        Ok(DvmStringAnalysis { value, n_of_xreffrom: self.n_of_xreffrom, xreffrom })
    }
}

impl DvmStringAnalysis {
    /// Lifts a string analysis of the engine.
    pub fn from_ptr(ptr: &NativeStringAnalysis) -> (r: Result<Self, LiftError>)
        ensures
            r is Ok <==> lifts(*ptr),
            r is Ok ==> r->Ok_0@ == ptr.lifted() && r->Ok_0@.wf(),
            r is Err ==> ptr.has_fault(r->Err_0),
    {
        ptr.lift()
    }

    /// Return a reference to the value of the string
    pub fn value(&self) -> (r: &str)
        ensures
            r@ == self@.value,
    {
        self.value.as_str()
    }

    /// Return the number of references
    pub fn n_of_xreffrom(&self) -> (r: usize)
        ensures
            r == self@.n_of_xreffrom,
    {
        self.n_of_xreffrom
    }

    /// Return a reference to the places the string is referenced from
    pub fn xreffrom(&self) -> (r: &[DvmClassMethodIdx])
        ensures
            views(r@) == self@.xreffrom,
    {
        self.xreffrom.as_slice()
    }
}

/// What a method analysis holds.
pub ghost struct MethodAnalysisView {
    pub name: Seq<char>,
    pub descriptor: Seq<char>,
    pub full_name: Seq<char>,
    pub external: bool,
    pub is_android_api: bool,
    pub access_flags: Seq<DvmAccessFlag>,
    pub class_name: Seq<char>,
    pub basic_blocks: BasicBlocksView,
    pub n_of_xrefread: usize,
    pub xrefread: Seq<ClassFieldIdxView>,
    pub n_of_xrefwrite: usize,
    pub xrefwrite: Seq<ClassFieldIdxView>,
    pub n_of_xrefto: usize,
    pub xrefto: Seq<ClassMethodIdxView>,
    pub n_of_xreffrom: usize,
    pub xreffrom: Seq<ClassMethodIdxView>,
    pub n_of_xrefnewinstance: usize,
    pub xrefnewinstance: Seq<ClassIdxView>,
    pub n_of_xrefconstclass: usize,
    pub xrefconstclass: Seq<ClassIdxView>,
    pub method_string: Seq<char>,
}

/// Analysis of a method: its basic blocks and cross-references.
#[derive(Debug, PartialEq)]
pub struct DvmMethodAnalysis {
    name: String,
    descriptor: String,
    full_name: String,
    external: bool,
    is_android_api: bool,
    access_flags: Vec<DvmAccessFlag>,
    class_name: String,
    basic_blocks: DvmBasicBlocks,
    n_of_xrefread: usize,
    xrefread: Vec<DvmClassFieldIdx>,
    n_of_xrefwrite: usize,
    xrefwrite: Vec<DvmClassFieldIdx>,
    n_of_xrefto: usize,
    xrefto: Vec<DvmClassMethodIdx>,
    n_of_xreffrom: usize,
    xreffrom: Vec<DvmClassMethodIdx>,
    n_of_xrefnewinstance: usize,
    xrefnewinstance: Vec<DvmClassIdx>,
    n_of_xrefconstclass: usize,
    xrefconstclass: Vec<DvmClassIdx>,
    method_string: String,
}

impl View for DvmMethodAnalysis {
    type V = MethodAnalysisView;

    closed spec fn view(&self) -> MethodAnalysisView {
        MethodAnalysisView {
            name: self.name@,
            descriptor: self.descriptor@,
            full_name: self.full_name@,
            external: self.external,
            is_android_api: self.is_android_api,
            access_flags: self.access_flags@,
            class_name: self.class_name@,
            basic_blocks: self.basic_blocks@,
            n_of_xrefread: self.n_of_xrefread,
            xrefread: views(self.xrefread@),
            n_of_xrefwrite: self.n_of_xrefwrite,
            xrefwrite: views(self.xrefwrite@),
            n_of_xrefto: self.n_of_xrefto,
            xrefto: views(self.xrefto@),
            n_of_xreffrom: self.n_of_xreffrom,
            xreffrom: views(self.xreffrom@),
            n_of_xrefnewinstance: self.n_of_xrefnewinstance,
            xrefnewinstance: views(self.xrefnewinstance@),
            n_of_xrefconstclass: self.n_of_xrefconstclass,
            xrefconstclass: views(self.xrefconstclass@),
            method_string: self.method_string@,
        }
    }
}

impl MethodAnalysisView {
    /// Each declared count is the length of its list.
    pub open spec fn wf(self) -> bool {
        &&& self.basic_blocks.wf()
        &&& forall|i: int|
            0 <= i < self.basic_blocks.blocks.len() ==> (#[trigger] self.basic_blocks.blocks[i]).wf()
        &&& self.n_of_xrefread == self.xrefread.len()
        &&& self.n_of_xrefwrite == self.xrefwrite.len()
        &&& self.n_of_xrefto == self.xrefto.len()
        &&& self.n_of_xreffrom == self.xreffrom.len()
        &&& self.n_of_xrefnewinstance == self.xrefnewinstance.len()
        &&& self.n_of_xrefconstclass == self.xrefconstclass.len()
    }
}

impl Lift for NativeMethodAnalysis {
    type Out = DvmMethodAnalysis;

    open spec fn has_fault(&self, e: LiftError) -> bool {
        ||| e == LiftError::InvalidText && (!text_ok(self.name@) || !text_ok(self.descriptor@)
            || !text_ok(self.class_name@) || !text_ok(self.full_name@) || !text_ok(
            self.method_string@,
        ))
        ||| e == LiftError::NullPointer && self.basic_blocks is None
        ||| self.basic_blocks is Some && self.basic_blocks->Some_0.has_fault(e)
        ||| counted_fault(self.n_of_xrefread as nat, self.xrefread@, e)
        ||| counted_fault(self.n_of_xrefwrite as nat, self.xrefwrite@, e)
        ||| counted_fault(self.n_of_xrefto as nat, self.xrefto@, e)
        ||| counted_fault(self.n_of_xreffrom as nat, self.xreffrom@, e)
        ||| counted_fault(self.n_of_xrefnewinstance as nat, self.xrefnewinstance@, e)
        ||| counted_fault(self.n_of_xrefconstclass as nat, self.xrefconstclass@, e)
    }

    open spec fn lifted(&self) -> MethodAnalysisView {
        MethodAnalysisView {
            name: text(self.name@),
            descriptor: text(self.descriptor@),
            full_name: text(self.full_name@),
            external: self.external == 0,
            is_android_api: self.is_android_api == 0,
            access_flags: flags_of(self.access_flags, DvmAccessFlagType::Method),
            class_name: text(self.class_name@),
            basic_blocks: self.basic_blocks->Some_0.lifted(),
            n_of_xrefread: self.n_of_xrefread,
            xrefread: lifted_all(self.xrefread@),
            n_of_xrefwrite: self.n_of_xrefwrite,
            xrefwrite: lifted_all(self.xrefwrite@),
            n_of_xrefto: self.n_of_xrefto,
            xrefto: lifted_all(self.xrefto@),
            n_of_xreffrom: self.n_of_xreffrom,
            xreffrom: lifted_all(self.xreffrom@),
            n_of_xrefnewinstance: self.n_of_xrefnewinstance,
            xrefnewinstance: lifted_all(self.xrefnewinstance@),
            n_of_xrefconstclass: self.n_of_xrefconstclass,
            xrefconstclass: lifted_all(self.xrefconstclass@),
            method_string: text(self.method_string@),
        }
    }

    fn lift(&self) -> (r: Result<DvmMethodAnalysis, LiftError>) {
        let name = lift_text(&self.name)?;
        let descriptor = lift_text(&self.descriptor)?;
        let class_name = lift_text(&self.class_name)?;
        let full_name = lift_text(&self.full_name)?;
        let method_string = lift_text(&self.method_string)?;
        let basic_blocks = match &self.basic_blocks {
            Some(b) => DvmBasicBlocks::from_ptr(b)?,
            None => return Err(LiftError::NullPointer),
        };
        let xrefread = lift_counted(self.n_of_xrefread, &self.xrefread)?;
        let xrefwrite = lift_counted(self.n_of_xrefwrite, &self.xrefwrite)?;
        let xrefto = lift_counted(self.n_of_xrefto, &self.xrefto)?;
        let xreffrom = lift_counted(self.n_of_xreffrom, &self.xreffrom)?;
        let xrefnewinstance = lift_counted(self.n_of_xrefnewinstance, &self.xrefnewinstance)?;
        let xrefconstclass = lift_counted(self.n_of_xrefconstclass, &self.xrefconstclass)?;
        Ok(
            DvmMethodAnalysis {
                name,
                descriptor,
                full_name,
                external: self.external == 0,
                is_android_api: self.is_android_api == 0,
                access_flags: DvmAccessFlag::parse(self.access_flags, DvmAccessFlagType::Method),
                class_name,
                basic_blocks,
                n_of_xrefread: self.n_of_xrefread,
                xrefread,
                n_of_xrefwrite: self.n_of_xrefwrite,
                xrefwrite,
                n_of_xrefto: self.n_of_xrefto,
                xrefto,
                n_of_xreffrom: self.n_of_xreffrom,
                xreffrom,
                n_of_xrefnewinstance: self.n_of_xrefnewinstance,
                xrefnewinstance,
                n_of_xrefconstclass: self.n_of_xrefconstclass,
                xrefconstclass,
                method_string,
            },
        )
    }
}

proof fn lemma_lifted_block_wf(s: Seq<NativeBasicBlock>, i: int)
    requires
        0 <= i < s.len(),
        !some_fault(s, LiftError::SizeMismatch),
    ensures
        lifted_all(s)[i].wf(),
{
    assert(!s[i].has_fault(LiftError::SizeMismatch));
}

proof fn lemma_method_analysis_wf(m: NativeMethodAnalysis)
    requires
        lifts(m),
    ensures
        m.lifted().wf(),
{
    let bs = m.basic_blocks->Some_0;
    assert(!bs.has_fault(LiftError::SizeMismatch));
    assert forall|i: int| 0 <= i < m.lifted().basic_blocks.blocks.len() implies (
    #[trigger] m.lifted().basic_blocks.blocks[i]).wf() by {
        lemma_lifted_block_wf(bs.blocks@, i);
    }
}

proof fn lemma_class_analysis_wf(c: NativeClassAnalysis)
    requires
        lifts(c),
    ensures
        c.lifted().wf(),
{
    let v = c.lifted();
    assert forall|i: int| 0 <= i < v.methods.len() implies (#[trigger] v.methods[i]).wf() by {
        let m = c.methods@[i];
        if m.has_fault(LiftError::InvalidText) {
            assert(some_fault(c.methods@, LiftError::InvalidText));
        }
        if m.has_fault(LiftError::SizeMismatch) {
            assert(some_fault(c.methods@, LiftError::SizeMismatch));
        }
        if m.has_fault(LiftError::NullPointer) {
            assert(some_fault(c.methods@, LiftError::NullPointer));
        }
        if m.has_fault(LiftError::InvalidValue) {
            assert(some_fault(c.methods@, LiftError::InvalidValue));
        }
        lemma_method_analysis_wf(m);
    }
    assert forall|i: int| 0 <= i < v.fields.len() implies (#[trigger] v.fields[i]).wf() by {
        assert(!c.fields@[i].has_fault(LiftError::SizeMismatch));
    }
    assert forall|i: int| 0 <= i < v.xrefto.len() implies (#[trigger] v.xrefto[i]).wf() by {
        assert(!c.xrefto@[i].has_fault(LiftError::SizeMismatch));
    }
    assert forall|i: int| 0 <= i < v.xreffrom.len() implies (#[trigger] v.xreffrom[i]).wf() by {
        assert(!c.xreffrom@[i].has_fault(LiftError::SizeMismatch));
    }
}

impl DvmMethodAnalysis {
    /// Lifts a method analysis of the engine with its basic blocks; its cross-references are lifted as flat records.
    pub fn from_ptr(ptr: &NativeMethodAnalysis) -> (r: Result<Self, LiftError>)
        ensures
            r is Ok <==> lifts(*ptr),
            r is Ok ==> r->Ok_0@ == ptr.lifted() && r->Ok_0@.wf(),
            r is Err ==> ptr.has_fault(r->Err_0),
    {
        let r = ptr.lift();
        proof {
            if r is Ok {
                lemma_method_analysis_wf(*ptr);
            }
        }
        r
    }

    /// Return a reference to the name of the method
    pub fn name(&self) -> (r: &str)
        ensures
            r@ == self@.name,
    {
        self.name.as_str()
    }

    /// Return a reference to the descriptor of the method
    pub fn descriptor(&self) -> (r: &str)
        ensures
            r@ == self@.descriptor,
    {
        self.descriptor.as_str()
    }

    /// Return a reference to the full name of the method including class name and descriptor
    pub fn full_name(&self) -> (r: &str)
        ensures
            r@ == self@.full_name,
    {
        self.full_name.as_str()
    }

    /// Return the flag indicating if the method is external or not
    pub fn external(&self) -> (r: bool)
        ensures
            r == self@.external,
    {
        self.external
    }

    /// Return the flag indicating if the method is an android API
    pub fn is_android_api(&self) -> (r: bool)
        ensures
            r == self@.is_android_api,
    {
        self.is_android_api
    }

    /// Return a reference to the access flags
    pub fn access_flags(&self) -> (r: &[DvmAccessFlag])
        ensures
            r@ == self@.access_flags,
    {
        self.access_flags.as_slice()
    }

    /// Return a reference to the class name
    pub fn class_name(&self) -> (r: &str)
        ensures
            r@ == self@.class_name,
    {
        self.class_name.as_str()
    }

    /// Return a reference to the basic blocks
    pub fn basic_blocks(&self) -> (r: &DvmBasicBlocks)
        ensures
            r@ == self@.basic_blocks,
    {
        &self.basic_blocks
    }

    /// Return the number of field reads in the method
    pub fn n_of_xrefread(&self) -> (r: usize)
        ensures
            r == self@.n_of_xrefread,
    {
        self.n_of_xrefread
    }

    /// Return a reference to the xrefs of field reads
    pub fn xrefread(&self) -> (r: &[DvmClassFieldIdx])
        ensures
            views(r@) == self@.xrefread,
    {
        self.xrefread.as_slice()
    }

    /// Return the number of field writes
    pub fn n_of_xrefwrite(&self) -> (r: usize)
        ensures
            r == self@.n_of_xrefwrite,
    {
        self.n_of_xrefwrite
    }

    /// Return a reference to the xrefs of field writes
    pub fn xrefwrite(&self) -> (r: &[DvmClassFieldIdx])
        ensures
            views(r@) == self@.xrefwrite,
    {
        self.xrefwrite.as_slice()
    }

    /// Return the number of xrefto
    pub fn n_of_xrefto(&self) -> (r: usize)
        ensures
            r == self@.n_of_xrefto,
    {
        self.n_of_xrefto
    }

    /// Return a reference to the methods called from the current method
    pub fn xrefto(&self) -> (r: &[DvmClassMethodIdx])
        ensures
            views(r@) == self@.xrefto,
    {
        self.xrefto.as_slice()
    }

    /// Return the number of xreffrom
    pub fn n_of_xreffrom(&self) -> (r: usize)
        ensures
            r == self@.n_of_xreffrom,
    {
        self.n_of_xreffrom
    }

    /// Return a reference to the methods that call the current method
    pub fn xreffrom(&self) -> (r: &[DvmClassMethodIdx])
        ensures
            views(r@) == self@.xreffrom,
    {
        self.xreffrom.as_slice()
    }

    /// Return the number of xrefnewinstance
    pub fn n_of_xrefnewinstance(&self) -> (r: usize)
        ensures
            r == self@.n_of_xrefnewinstance,
    {
        self.n_of_xrefnewinstance
    }

    /// Return a reference to the new instances created in the method
    pub fn xrefnewinstance(&self) -> (r: &[DvmClassIdx])
        ensures
            views(r@) == self@.xrefnewinstance,
    {
        self.xrefnewinstance.as_slice()
    }

    /// Return the number of xrefconstclass
    pub fn n_of_xrefconstclass(&self) -> (r: usize)
        ensures
            r == self@.n_of_xrefconstclass,
    {
        self.n_of_xrefconstclass
    }

    /// Return a reference to the uses of const class
    pub fn xrefconstclass(&self) -> (r: &[DvmClassIdx])
        ensures
            views(r@) == self@.xrefconstclass,
    {
        self.xrefconstclass.as_slice()
    }

    /// Return a reference to the cache of method string
    pub fn method_string(&self) -> (r: &str)
        ensures
            r@ == self@.method_string,
    {
        self.method_string.as_str()
    }
}

/// What a class analysis holds.
pub ghost struct ClassAnalysisView {
    pub is_external: bool,
    pub extends: Seq<char>,
    pub name: Seq<char>,
    pub n_of_methods: usize,
    pub methods: Seq<MethodAnalysisView>,
    pub n_of_fields: usize,
    pub fields: Seq<FieldAnalysisView>,
    pub n_of_xrefnewinstance: usize,
    pub xrefnewinstance: Seq<MethodIdxView>,
    pub n_of_xrefconstclass: usize,
    pub xrefconstclass: Seq<MethodIdxView>,
    pub n_of_xrefto: usize,
    pub xrefto: Seq<ClassXrefView>,
    pub n_of_xreffrom: usize,
    pub xreffrom: Seq<ClassXrefView>,
}

/// Analysis of a class: its method and field analyses and its cross-references.
#[derive(Debug, PartialEq)]
pub struct DvmClassAnalysis {
    is_external: bool,
    extends: String,
    name: String,
    n_of_methods: usize,
    methods: Vec<DvmMethodAnalysis>,
    n_of_fields: usize,
    fields: Vec<DvmFieldAnalysis>,
    n_of_xrefnewinstance: usize,
    xrefnewinstance: Vec<DvmMethodIdx>,
    n_of_xrefconstclass: usize,
    xrefconstclass: Vec<DvmMethodIdx>,
    n_of_xrefto: usize,
    xrefto: Vec<DvmClassXref>,
    n_of_xreffrom: usize,
    xreffrom: Vec<DvmClassXref>,
}

impl View for DvmClassAnalysis {
    type V = ClassAnalysisView;

    closed spec fn view(&self) -> ClassAnalysisView {
        ClassAnalysisView {
            is_external: self.is_external,
            extends: self.extends@,
            name: self.name@,
            n_of_methods: self.n_of_methods,
            methods: views(self.methods@),
            n_of_fields: self.n_of_fields,
            fields: views(self.fields@),
            n_of_xrefnewinstance: self.n_of_xrefnewinstance,
            xrefnewinstance: views(self.xrefnewinstance@),
            n_of_xrefconstclass: self.n_of_xrefconstclass,
            xrefconstclass: views(self.xrefconstclass@),
            n_of_xrefto: self.n_of_xrefto,
            xrefto: views(self.xrefto@),
            n_of_xreffrom: self.n_of_xreffrom,
            xreffrom: views(self.xreffrom@),
        }
    }
}

impl ClassAnalysisView {
    /// Each declared count is the length of its list.
    pub open spec fn wf(self) -> bool {
        &&& self.n_of_methods == self.methods.len()
        &&& self.n_of_fields == self.fields.len()
        &&& self.n_of_xrefnewinstance == self.xrefnewinstance.len()
        &&& self.n_of_xrefconstclass == self.xrefconstclass.len()
        &&& self.n_of_xrefto == self.xrefto.len()
        &&& self.n_of_xreffrom == self.xreffrom.len()
        &&& forall|i: int| 0 <= i < self.methods.len() ==> (#[trigger] self.methods[i]).wf()
        &&& forall|i: int| 0 <= i < self.fields.len() ==> (#[trigger] self.fields[i]).wf()
        &&& forall|i: int| 0 <= i < self.xrefto.len() ==> (#[trigger] self.xrefto[i]).wf()
        &&& forall|i: int| 0 <= i < self.xreffrom.len() ==> (#[trigger] self.xreffrom[i]).wf()
    }
}

impl Lift for NativeClassAnalysis {
    type Out = DvmClassAnalysis;

    open spec fn has_fault(&self, e: LiftError) -> bool {
        ||| e == LiftError::InvalidText && (!text_ok(self.extends_@) || !text_ok(self.name_@))
        ||| counted_fault(self.n_of_methods as nat, self.methods@, e)
        ||| counted_fault(self.n_of_fields as nat, self.fields@, e)
        ||| counted_fault(self.n_of_xrefnewinstance as nat, self.xrefnewinstance@, e)
        ||| counted_fault(self.n_of_xrefconstclass as nat, self.xrefconstclass@, e)
        ||| counted_fault(self.n_of_xrefto as nat, self.xrefto@, e)
        ||| counted_fault(self.n_of_xreffrom as nat, self.xreffrom@, e)
    }

    open spec fn lifted(&self) -> ClassAnalysisView {
        ClassAnalysisView {
            is_external: self.is_external == 0,
            extends: text(self.extends_@),
            name: text(self.name_@),
            n_of_methods: self.n_of_methods,
            methods: lifted_all(self.methods@),
            n_of_fields: self.n_of_fields,
            fields: lifted_all(self.fields@),
            n_of_xrefnewinstance: self.n_of_xrefnewinstance,
            xrefnewinstance: lifted_all(self.xrefnewinstance@),
            n_of_xrefconstclass: self.n_of_xrefconstclass,
            xrefconstclass: lifted_all(self.xrefconstclass@),
            n_of_xrefto: self.n_of_xrefto,
            xrefto: lifted_all(self.xrefto@),
            n_of_xreffrom: self.n_of_xreffrom,
            xreffrom: lifted_all(self.xreffrom@),
        }
    }

    fn lift(&self) -> (r: Result<DvmClassAnalysis, LiftError>) {
        let extends = lift_text(&self.extends_)?;
        let name = lift_text(&self.name_)?;
        let methods = lift_counted(self.n_of_methods, &self.methods)?;
        let fields = lift_counted(self.n_of_fields, &self.fields)?;
        let xrefnewinstance = lift_counted(self.n_of_xrefnewinstance, &self.xrefnewinstance)?;
        let xrefconstclass = lift_counted(self.n_of_xrefconstclass, &self.xrefconstclass)?;
        let xrefto = lift_counted(self.n_of_xrefto, &self.xrefto)?;
        let xreffrom = lift_counted(self.n_of_xreffrom, &self.xreffrom)?;
        Ok(
            DvmClassAnalysis {
                is_external: self.is_external == 0,
                extends,
                name,
                n_of_methods: self.n_of_methods,
                methods,
                n_of_fields: self.n_of_fields,
                fields,
                n_of_xrefnewinstance: self.n_of_xrefnewinstance,
                xrefnewinstance,
                n_of_xrefconstclass: self.n_of_xrefconstclass,
                xrefconstclass,
                n_of_xrefto: self.n_of_xrefto,
                xrefto,
                n_of_xreffrom: self.n_of_xreffrom,
                xreffrom,
            },
        )
    }
}

impl DvmClassAnalysis {
    /// Lifts a class analysis of the engine with its method and field analyses.
    pub fn from_ptr(ptr: &NativeClassAnalysis) -> (r: Result<Self, LiftError>)
        ensures
            r is Ok <==> lifts(*ptr),
            r is Ok ==> r->Ok_0@ == ptr.lifted() && r->Ok_0@.wf(),
            r is Err ==> ptr.has_fault(r->Err_0),
    {
        let r = ptr.lift();
        proof {
            if r is Ok {
                lemma_class_analysis_wf(*ptr);
            }
        }
        r
    }

    /// Return whether the class is external
    pub fn is_external(&self) -> (r: bool)
        ensures
            r == self@.is_external,
    {
        self.is_external
    }

    /// Return a reference to the name of the class it extends
    pub fn extends(&self) -> (r: &str)
        ensures
            r@ == self@.extends,
    {
        self.extends.as_str()
    }

    /// Return a reference to the name of the class
    pub fn name(&self) -> (r: &str)
        ensures
            r@ == self@.name,
    {
        self.name.as_str()
    }

    /// Return the number of methods
    pub fn n_of_methods(&self) -> (r: usize)
        ensures
            r == self@.n_of_methods,
    {
        self.n_of_methods
    }

    /// Return a reference to the method analyses
    pub fn methods(&self) -> (r: &[DvmMethodAnalysis])
        ensures
            views(r@) == self@.methods,
    {
        self.methods.as_slice()
    }

    /// Return the number of fields
    pub fn n_of_fields(&self) -> (r: usize)
        ensures
            r == self@.n_of_fields,
    {
        self.n_of_fields
    }

    /// Return a reference to the field analyses
    pub fn fields(&self) -> (r: &[DvmFieldAnalysis])
        ensures
            views(r@) == self@.fields,
    {
        self.fields.as_slice()
    }

    /// Return the number of xrefnewinstance
    pub fn n_of_xrefnewinstance(&self) -> (r: usize)
        ensures
            r == self@.n_of_xrefnewinstance,
    {
        self.n_of_xrefnewinstance
    }

    /// Return a reference to the new instances of this class
    pub fn xrefnewinstance(&self) -> (r: &[DvmMethodIdx])
        ensures
            views(r@) == self@.xrefnewinstance,
    {
        self.xrefnewinstance.as_slice()
    }

    /// Return the number of const class uses
    pub fn n_of_xrefconstclass(&self) -> (r: usize)
        ensures
            r == self@.n_of_xrefconstclass,
    {
        self.n_of_xrefconstclass
    }

    /// Return a reference to the const class uses of this class
    pub fn xrefconstclass(&self) -> (r: &[DvmMethodIdx])
        ensures
            views(r@) == self@.xrefconstclass,
    {
        self.xrefconstclass.as_slice()
    }

    /// Return the number of xrefto
    pub fn n_of_xrefto(&self) -> (r: usize)
        ensures
            r == self@.n_of_xrefto,
    {
        self.n_of_xrefto
    }

    /// Return a reference to the classes that this class calls
    pub fn xrefto(&self) -> (r: &[DvmClassXref])
        ensures
            views(r@) == self@.xrefto,
    {
        self.xrefto.as_slice()
    }

    /// Return the number of xreffrom
    pub fn n_of_xreffrom(&self) -> (r: usize)
        ensures
            r == self@.n_of_xreffrom,
    {
        self.n_of_xreffrom
    }

    /// Return a reference to the classes that call this class
    pub fn xreffrom(&self) -> (r: &[DvmClassXref])
        ensures
            views(r@) == self@.xreffrom,
    {
        self.xreffrom.as_slice()
    }
}

/// The instructions of a sequence of blocks, concatenated in block order.
pub open spec fn block_instructions(blocks: Seq<BasicBlockView>) -> Seq<InstructionView>
    decreases blocks.len(),
{
    if blocks.len() == 0 {
        Seq::empty()
    } else {
        block_instructions(blocks.drop_last()) + blocks.last().instructions
    }
}

/// Addresses strictly increase along `instrs`: program order, no address twice.
pub open spec fn addresses_increase(instrs: Seq<InstructionView>) -> bool {
    forall|i: int, j: int|
        0 <= i < j < instrs.len() ==> (#[trigger] instrs[i]).address < (#[trigger] instrs[j]).address
}

/// The blocks, read in order, give exactly the instruction list `instrs`, whose
/// addresses strictly increase.
pub open spec fn partitions(blocks: BasicBlocksView, instrs: Seq<InstructionView>) -> bool {
    block_instructions(blocks.blocks) == instrs && addresses_increase(instrs)
}

/// The engine's instructions of a sequence of blocks, in block order.
pub open spec fn native_block_instructions(blocks: Seq<NativeBasicBlock>) -> Seq<NativeInstruction>
    decreases blocks.len(),
{
    if blocks.len() == 0 {
        Seq::empty()
    } else {
        native_block_instructions(blocks.drop_last()) + blocks.last().instructions@
    }
}

/// The engine's blocks, read in order, give exactly the instruction list
/// `instrs`, whose addresses strictly increase.
pub open spec fn native_partitions(blocks: NativeBasicBlocks, instrs: Seq<NativeInstruction>) -> bool {
    &&& native_block_instructions(blocks.blocks@) == instrs
    &&& forall|i: int, j: int|
        0 <= i < j < instrs.len() ==> (#[trigger] instrs[i]).address < (#[trigger] instrs[j]).address
}

proof fn lemma_block_instructions_lift(blocks: Seq<NativeBasicBlock>)
    ensures
        lifted_all(native_block_instructions(blocks)) == block_instructions(lifted_all(blocks)),
    decreases blocks.len(),
{
    if blocks.len() > 0 {
        let init = blocks.drop_last();
        lemma_block_instructions_lift(init);
        assert(lifted_all(blocks).drop_last() =~= lifted_all(init));
        assert(lifted_all(blocks).last() == blocks.last().lifted());
        assert(lifted_all(native_block_instructions(init) + blocks.last().instructions@)
            =~= lifted_all(native_block_instructions(init)) + lifted_all(
            blocks.last().instructions@,
        ));
    }
}

/// Lifting keeps a partition: when the engine's basic blocks of a method,
/// concatenated in block order, give the method's instruction list in strictly
/// increasing address order, so do the lifted blocks and the lifted
/// disassembled method.
pub proof fn lemma_partition_lifts(blocks: NativeBasicBlocks, method: NativeDisassembledMethod)
    requires
        lifts(blocks),
        lifts(method),
        native_partitions(blocks, method.instructions@),
    ensures
        partitions(blocks.lifted(), method.lifted().instructions),
{
    lemma_block_instructions_lift(blocks.blocks@);
    let instrs = method.lifted().instructions;
    assert forall|i: int, j: int| 0 <= i < j < instrs.len() implies (
    #[trigger] instrs[i]).address < (#[trigger] instrs[j]).address by {
        assert(instrs[i] == method.instructions@[i].lifted());
        assert(instrs[j] == method.instructions@[j].lifted());
    }
}

/// Every call that `a` makes to `b` is matched by an incoming entry of `b`
/// that names `a` at the same instruction index.
pub open spec fn calls_answered(a: MethodAnalysisView, b: MethodAnalysisView) -> bool {
    forall|i: int|
        0 <= i < a.xrefto.len() && (#[trigger] a.xrefto[i]).method == b.full_name ==> exists|j: int|
            0 <= j < b.xreffrom.len() && (#[trigger] b.xreffrom[j]).method == a.full_name
                && b.xreffrom[j].idx == a.xrefto[i].idx
}

/// The engine's analyses agree: every call that `a` makes to `b` is matched by
/// an incoming entry of `b` that names `a` at the same instruction index.
pub open spec fn native_calls_answered(a: NativeMethodAnalysis, b: NativeMethodAnalysis) -> bool {
    forall|i: int|
        0 <= i < a.xrefto@.len() && (#[trigger] a.xrefto@[i]).method is Some
            && a.xrefto@[i].method->Some_0@ == b.full_name@ ==> exists|j: int|
            0 <= j < b.xreffrom@.len() && (#[trigger] b.xreffrom@[j]).method is Some
                && b.xreffrom@[j].method->Some_0@ == a.full_name@ && b.xreffrom@[j].idx
                == a.xrefto@[i].idx
}

/// Valid text that decodes to the same characters is the same bytes.
proof fn lemma_text_injective(x: Seq<u8>, y: Seq<u8>)
    requires
        text_ok(x),
        text_ok(y),
        text(x) == text(y),
    ensures
        x == y,
{
    decode_utf8_encode_utf8(x);
    decode_utf8_encode_utf8(y);
}

/// Lifting keeps cross-references symmetric: when the engine's analyses of
/// `a` and `b` answer every call from `a` to `b` with an incoming entry of `b`,
/// the lifted analyses do too.
pub proof fn lemma_xref_symmetry_lifts(a: NativeMethodAnalysis, b: NativeMethodAnalysis)
    requires
        lifts(a),
        lifts(b),
        native_calls_answered(a, b),
    ensures
        calls_answered(a.lifted(), b.lifted()),
{
    let la = a.lifted();
    let lb = b.lifted();
    assert forall|i: int|
        0 <= i < la.xrefto.len() && (#[trigger] la.xrefto[i]).method == lb.full_name implies exists|j: int|
        0 <= j < lb.xreffrom.len() && (#[trigger] lb.xreffrom[j]).method == la.full_name
            && lb.xreffrom[j].idx == la.xrefto[i].idx by {
        let x = a.xrefto@[i];
        assert(la.xrefto[i] == x.lifted());
        assert(!x.has_fault(LiftError::InvalidText) && !x.has_fault(LiftError::NullPointer)) by {
            if x.has_fault(LiftError::InvalidText) {
                assert(some_fault(a.xrefto@, LiftError::InvalidText));
            }
            if x.has_fault(LiftError::NullPointer) {
                assert(some_fault(a.xrefto@, LiftError::NullPointer));
            }
        }
        lemma_text_injective(x.method->Some_0@, b.full_name@);
        let j = choose|j: int|
            0 <= j < b.xreffrom@.len() && (#[trigger] b.xreffrom@[j]).method is Some
                && b.xreffrom@[j].method->Some_0@ == a.full_name@ && b.xreffrom@[j].idx == x.idx;
        assert(lb.xreffrom[j] == b.xreffrom@[j].lifted());
    }
}

} // verus!
