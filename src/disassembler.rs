//! Disassembled methods: instructions, exception handlers and try regions.
use vstd::prelude::*;
use crate::parser::{DvmMethod, MethodView};
use crate::native::{
    Lift, LiftError, NativeDisassembledMethod, NativeException, NativeHandler, NativeInstruction,
    lifts, lifted_all, views, counted_fault, some_fault, text_ok, text, lift_text, lift_counted,
};

verus! {

/// Instruction formats of the Dalvik Virtual Machine.
#[derive(Debug, Clone, Copy, PartialEq, Eq, Structural)]
pub enum DexInstType {
    DexInstruction00x,
    DexInstruction10x,
    DexInstruction12x,
    DexInstruction11n,
    DexInstruction11x,
    DexInstruction10t,
    DexInstruction20t,
    DexInstruction20bc,
    DexInstruction22x,
    DexInstruction21t,
    DexInstruction21s,
    DexInstruction21h,
    DexInstruction21c,
    DexInstruction23x,
    DexInstruction22b,
    DexInstruction22t,
    DexInstruction22s,
    DexInstruction22c,
    DexInstruction22cs,
    DexInstruction30t,
    DexInstruction32x,
    DexInstruction31i,
    DexInstruction31t,
    DexInstruction31c,
    DexInstruction35c,
    DexInstruction3rc,
    DexInstruction45cc,
    DexInstruction4rcc,
    DexInstruction51l,
    DexPackedSwitch,
    DexSparseSwitch,
    DexFillArrayData,
    /// A format code that the engine does not define
    DexDalvikIncorrect,
    /// No instruction
    DexNoneOp,
}

/// The instruction format that a format code stands for.
pub open spec fn inst_type_of(code: u32) -> DexInstType {
    if code == 0 {
        DexInstType::DexInstruction00x
    } else if code == 1 {
        DexInstType::DexInstruction10x
    } else if code == 2 {
        DexInstType::DexInstruction12x
    } else if code == 3 {
        DexInstType::DexInstruction11n
    } else if code == 4 {
        DexInstType::DexInstruction11x
    } else if code == 5 {
        DexInstType::DexInstruction10t
    } else if code == 6 {
        DexInstType::DexInstruction20t
    } else if code == 7 {
        DexInstType::DexInstruction20bc
    } else if code == 8 {
        DexInstType::DexInstruction22x
    } else if code == 9 {
        DexInstType::DexInstruction21t
    } else if code == 10 {
        DexInstType::DexInstruction21s
    } else if code == 11 {
        DexInstType::DexInstruction21h
    } else if code == 12 {
        DexInstType::DexInstruction21c
    } else if code == 13 {
        DexInstType::DexInstruction23x
    } else if code == 14 {
        DexInstType::DexInstruction22b
    } else if code == 15 {
        DexInstType::DexInstruction22t
    } else if code == 16 {
        DexInstType::DexInstruction22s
    } else if code == 17 {
        DexInstType::DexInstruction22c
    } else if code == 18 {
        DexInstType::DexInstruction22cs
    } else if code == 19 {
        DexInstType::DexInstruction30t
    } else if code == 20 {
        DexInstType::DexInstruction32x
    } else if code == 21 {
        DexInstType::DexInstruction31i
    } else if code == 22 {
        DexInstType::DexInstruction31t
    } else if code == 23 {
        DexInstType::DexInstruction31c
    } else if code == 24 {
        DexInstType::DexInstruction35c
    } else if code == 25 {
        DexInstType::DexInstruction3rc
    } else if code == 26 {
        DexInstType::DexInstruction45cc
    } else if code == 27 {
        DexInstType::DexInstruction4rcc
    } else if code == 28 {
        DexInstType::DexInstruction51l
    } else if code == 29 {
        DexInstType::DexPackedSwitch
    } else if code == 30 {
        DexInstType::DexSparseSwitch
    } else if code == 31 {
        DexInstType::DexFillArrayData
    } else if code == 99 {
        DexInstType::DexNoneOp
    } else {
        DexInstType::DexDalvikIncorrect
    }
}

/// What an instruction holds.
pub ghost struct InstructionView {
    pub instruction_type: DexInstType,
    pub instruction_length: usize,
    pub address: u64,
    pub op: u32,
    pub disassembly: Seq<char>,
}

/// An instruction of the Dalvik Virtual Machine.
#[derive(Debug, PartialEq)]
pub struct DvmInstruction {
    instruction_type: DexInstType,
    instruction_length: usize,
    address: u64,
    op: u32,
    disassembly: String,
}

impl View for DvmInstruction {
    type V = InstructionView;

    closed spec fn view(&self) -> InstructionView {
        InstructionView {
            instruction_type: self.instruction_type,
            instruction_length: self.instruction_length,
            address: self.address,
            op: self.op,
            disassembly: self.disassembly@,
        }
    }
}

impl Lift for NativeInstruction {
    type Out = DvmInstruction;

    open spec fn has_fault(&self, e: LiftError) -> bool {
        e == LiftError::InvalidText && !text_ok(self.disassembly@)
    }

    open spec fn lifted(&self) -> InstructionView {
        InstructionView {
            instruction_type: inst_type_of(self.instruction_type),
            instruction_length: self.instruction_length as usize,
            address: self.address,
            op: self.op,
            disassembly: text(self.disassembly@),
        }
    }

    fn lift(&self) -> (r: Result<DvmInstruction, LiftError>) {
        let instruction_type = match self.instruction_type {
            0 => DexInstType::DexInstruction00x,
            1 => DexInstType::DexInstruction10x,
            2 => DexInstType::DexInstruction12x,
            3 => DexInstType::DexInstruction11n,
            4 => DexInstType::DexInstruction11x,
            5 => DexInstType::DexInstruction10t,
            6 => DexInstType::DexInstruction20t,
            7 => DexInstType::DexInstruction20bc,
            8 => DexInstType::DexInstruction22x,
            9 => DexInstType::DexInstruction21t,
            10 => DexInstType::DexInstruction21s,
            11 => DexInstType::DexInstruction21h,
            12 => DexInstType::DexInstruction21c,
            13 => DexInstType::DexInstruction23x,
            14 => DexInstType::DexInstruction22b,
            15 => DexInstType::DexInstruction22t,
            16 => DexInstType::DexInstruction22s,
            17 => DexInstType::DexInstruction22c,
            18 => DexInstType::DexInstruction22cs,
            19 => DexInstType::DexInstruction30t,
            20 => DexInstType::DexInstruction32x,
            21 => DexInstType::DexInstruction31i,
            22 => DexInstType::DexInstruction31t,
            23 => DexInstType::DexInstruction31c,
            24 => DexInstType::DexInstruction35c,
            25 => DexInstType::DexInstruction3rc,
            26 => DexInstType::DexInstruction45cc,
            27 => DexInstType::DexInstruction4rcc,
            28 => DexInstType::DexInstruction51l,
            29 => DexInstType::DexPackedSwitch,
            30 => DexInstType::DexSparseSwitch,
            31 => DexInstType::DexFillArrayData,
            99 => DexInstType::DexNoneOp,
            _ => DexInstType::DexDalvikIncorrect,
        };
        let disassembly = lift_text(&self.disassembly)?;
        Ok(
            DvmInstruction {
                instruction_type,
                instruction_length: self.instruction_length as usize,
                address: self.address,
                op: self.op,
                disassembly,
            },
        )
    }
}

impl DvmInstruction {
    /// Lifts an instruction record of the engine.
    pub fn from_ins(ins: &NativeInstruction) -> (r: Result<Self, LiftError>)
        ensures
            r is Ok <==> lifts(*ins),
            r is Ok ==> r->Ok_0@ == ins.lifted(),
            r is Err ==> ins.has_fault(r->Err_0),
    {
        ins.lift()
    }

    /// Return the instruction type
    pub fn instruction_type(&self) -> (r: DexInstType)
        ensures
            r == self@.instruction_type,
    {
        self.instruction_type
    }

    /// Return the instruction length
    pub fn instruction_length(&self) -> (r: usize)
        ensures
            r == self@.instruction_length,
    {
        self.instruction_length
    }

    /// Return the instruction address
    pub fn address(&self) -> (r: u64)
        ensures
            r == self@.address,
    {
        self.address
    }

    /// Return the instruction opcode
    pub fn op(&self) -> (r: u32)
        ensures
            r == self@.op,
    {
        self.op
    }

    /// Return the instruction string disassembly representation
    pub fn disassembly(&self) -> (r: &str)
        ensures
            r@ == self@.disassembly,
    {
        self.disassembly.as_str()
    }
}

/// What an exception handler holds.
pub ghost struct HandlerView {
    pub handler_type: Seq<char>,
    pub handler_start_addr: u64,
}

/// An exception handler.
#[derive(Debug, PartialEq)]
pub struct DvmHandlerData {
    handler_type: String,
    handler_start_addr: u64,
}

impl View for DvmHandlerData {
    type V = HandlerView;

    closed spec fn view(&self) -> HandlerView {
        HandlerView { handler_type: self.handler_type@, handler_start_addr: self.handler_start_addr }
    }
}

impl Lift for NativeHandler {
    type Out = DvmHandlerData;

    open spec fn has_fault(&self, e: LiftError) -> bool {
        e == LiftError::InvalidText && !text_ok(self.handler_type@)
    }

    open spec fn lifted(&self) -> HandlerView {
        HandlerView {
            handler_type: text(self.handler_type@),
            handler_start_addr: self.handler_start_addr,
        }
    }

    fn lift(&self) -> (r: Result<DvmHandlerData, LiftError>) {
        let handler_type = lift_text(&self.handler_type)?;
        Ok(DvmHandlerData { handler_type, handler_start_addr: self.handler_start_addr })
    }
}

impl DvmHandlerData {
    /// Return the handler type
    pub fn handler_type(&self) -> (r: &str)
        ensures
            r@ == self@.handler_type,
    {
        self.handler_type.as_str()
    }

    /// Return the handler start address
    pub fn handler_start_addr(&self) -> (r: u64)
        ensures
            r == self@.handler_start_addr,
    {
        self.handler_start_addr
    }
}

/// What a try region holds.
pub ghost struct ExceptionView {
    pub try_value_start_addr: u64,
    pub try_value_end_addr: u64,
    pub n_of_handlers: usize,
    pub handlers: Seq<HandlerView>,
}

impl ExceptionView {
    /// The declared count is the number of handlers.
    pub open spec fn wf(self) -> bool {
        self.n_of_handlers == self.handlers.len()
    }
}

/// A try region with its handlers, in the engine's order.
#[derive(Debug, PartialEq)]
pub struct DvmException {
    try_value_start_addr: u64,
    try_value_end_addr: u64,
    n_of_handlers: usize,
    handlers: Vec<DvmHandlerData>,
}

impl View for DvmException {
    type V = ExceptionView;

    closed spec fn view(&self) -> ExceptionView {
        ExceptionView {
            try_value_start_addr: self.try_value_start_addr,
            try_value_end_addr: self.try_value_end_addr,
            n_of_handlers: self.n_of_handlers,
            handlers: views(self.handlers@),
        }
    }
}

impl Lift for NativeException {
    type Out = DvmException;

    open spec fn has_fault(&self, e: LiftError) -> bool {
        counted_fault(self.n_of_handlers as nat, self.handler@, e)
    }

    open spec fn lifted(&self) -> ExceptionView {
        ExceptionView {
            try_value_start_addr: self.try_value_start_addr,
            try_value_end_addr: self.try_value_end_addr,
            n_of_handlers: self.n_of_handlers,
            handlers: lifted_all(self.handler@),
        }
    }

    fn lift(&self) -> (r: Result<DvmException, LiftError>) {
        let handlers = lift_counted(self.n_of_handlers, &self.handler)?;
        Ok(
            DvmException {
                try_value_start_addr: self.try_value_start_addr,
                try_value_end_addr: self.try_value_end_addr,
                n_of_handlers: self.n_of_handlers,
                handlers,
            },
        )
    }
}

impl DvmException {
    /// Return the try value start address
    pub fn try_value_start_addr(&self) -> (r: u64)
        ensures
            r == self@.try_value_start_addr,
    {
        self.try_value_start_addr
    }

    /// Return the try value end address
    pub fn try_value_end_addr(&self) -> (r: u64)
        ensures
            r == self@.try_value_end_addr,
    {
        self.try_value_end_addr
    }

    /// Return the number of handlers
    pub fn n_of_handlers(&self) -> (r: usize)
        ensures
            r == self@.n_of_handlers,
    {
        self.n_of_handlers
    }

    /// Return a reference to the handlers
    pub fn handlers(&self) -> (r: &[DvmHandlerData])
        ensures
            views(r@) == self@.handlers,
    {
        self.handlers.as_slice()
    }
}

/// What a disassembled method holds.
pub ghost struct DisassembledMethodView {
    pub method_id: MethodView,
    pub n_of_registers: usize,
    pub n_of_exceptions: usize,
    pub exception_information: Seq<ExceptionView>,
    pub n_of_instructions: usize,
    pub instructions: Seq<InstructionView>,
    pub method_string: Seq<char>,
}

impl DisassembledMethodView {
    /// Each declared count is the length of its list.
    pub open spec fn wf(self) -> bool {
        &&& self.method_id.wf()
        &&& self.n_of_exceptions == self.exception_information.len()
        &&& forall|i: int|
            0 <= i < self.exception_information.len() ==> (#[trigger] self.exception_information[i]).wf()
        &&& self.n_of_instructions == self.instructions.len()
    }
}

/// A disassembled method.
#[derive(Debug, PartialEq)]
pub struct DvmDisassembledMethod {
    method_id: DvmMethod,
    n_of_registers: usize,
    n_of_exceptions: usize,
    exception_information: Vec<DvmException>,
    n_of_instructions: usize,
    instructions: Vec<DvmInstruction>,
    method_string: String,
}

impl View for DvmDisassembledMethod {
    type V = DisassembledMethodView;

    closed spec fn view(&self) -> DisassembledMethodView {
        DisassembledMethodView {
            method_id: self.method_id@,
            n_of_registers: self.n_of_registers,
            n_of_exceptions: self.n_of_exceptions,
            exception_information: views(self.exception_information@),
            n_of_instructions: self.n_of_instructions,
            instructions: views(self.instructions@),
            method_string: self.method_string@,
        }
    }
}

/// A disassembly record, apart from its method, shows fault `e`.
pub open spec fn body_fault(d: NativeDisassembledMethod, e: LiftError) -> bool {
    ||| e == LiftError::InvalidText && !text_ok(d.method_string@)
    ||| counted_fault(d.n_of_exceptions as nat, d.exception_information@, e)
    ||| counted_fault(d.n_of_instructions as nat, d.instructions@, e)
}

/// A disassembly record, apart from its method, shows no fault.
pub open spec fn body_lifts(d: NativeDisassembledMethod) -> bool {
    &&& !body_fault(d, LiftError::InvalidText)
    &&& !body_fault(d, LiftError::SizeMismatch)
    &&& !body_fault(d, LiftError::NullPointer)
    &&& !body_fault(d, LiftError::InvalidValue)
}

/// What a disassembly record lifts to, given the method it belongs to.
pub open spec fn lifted_body(d: NativeDisassembledMethod, m: MethodView) -> DisassembledMethodView {
    DisassembledMethodView {
        method_id: m,
        n_of_registers: d.n_of_registers as usize,
        n_of_exceptions: d.n_of_exceptions,
        exception_information: lifted_all(d.exception_information@),
        n_of_instructions: d.n_of_instructions,
        instructions: lifted_all(d.instructions@),
        method_string: text(d.method_string@),
    }
}

impl Lift for NativeDisassembledMethod {
    type Out = DvmDisassembledMethod;

    open spec fn has_fault(&self, e: LiftError) -> bool {
        ||| e == LiftError::NullPointer && self.method_id is None
        ||| self.method_id is Some && self.method_id->Some_0.has_fault(e)
        ||| body_fault(*self, e)
    }

    open spec fn lifted(&self) -> DisassembledMethodView {
        lifted_body(*self, self.method_id->Some_0.lifted())
    }

    fn lift(&self) -> (r: Result<DvmDisassembledMethod, LiftError>) {
        let dvm_method = match &self.method_id {
            Some(m) => DvmMethod::from_ptr(m)?,
            None => return Err(LiftError::NullPointer),
        };
        DvmDisassembledMethod::from_dvmdisassembled_method_t(self, dvm_method)
    }
}

impl DvmDisassembledMethod {
    /// Lifts a disassembly record of the engine for a method already lifted.
    pub fn from_dvmdisassembled_method_t(
        dvm_disas: &NativeDisassembledMethod,
        dvm_method: DvmMethod,
    ) -> (r: Result<Self, LiftError>)
        ensures
            r is Ok <==> body_lifts(*dvm_disas),
            r is Ok ==> r->Ok_0@ == lifted_body(*dvm_disas, dvm_method@),
            r is Ok ==> r->Ok_0@.n_of_exceptions == r->Ok_0@.exception_information.len()
                && r->Ok_0@.n_of_instructions == r->Ok_0@.instructions.len(),
            r is Err ==> body_fault(*dvm_disas, r->Err_0),
    {
        let method_string = lift_text(&dvm_disas.method_string)?;
        let exception_information = lift_counted(
            dvm_disas.n_of_exceptions,
            &dvm_disas.exception_information,
        )?;
        let instructions = lift_counted(dvm_disas.n_of_instructions, &dvm_disas.instructions)?;
        Ok(
            DvmDisassembledMethod {
                method_id: dvm_method,
                n_of_registers: dvm_disas.n_of_registers as usize,
                n_of_exceptions: dvm_disas.n_of_exceptions,
                exception_information,
                n_of_instructions: dvm_disas.n_of_instructions,
                instructions,
                method_string,
            },
        )
    }

    /// Lifts a disassembly record of the engine together with its method; a
    /// null method pointer is a fault.
    pub fn from_ptr(ptr: &NativeDisassembledMethod) -> (r: Result<Self, LiftError>)
        ensures
            r is Ok <==> lifts(*ptr),
            r is Ok ==> r->Ok_0@ == ptr.lifted() && r->Ok_0@.wf(),
            r is Err ==> ptr.has_fault(r->Err_0),
    {
        let r = ptr.lift();
        proof {
            if r is Ok {
                let v = r->Ok_0@;
                assert forall|i: int| 0 <= i < v.exception_information.len() implies (
                #[trigger] v.exception_information[i]).wf() by {
                    let x = ptr.exception_information@[i];
                    if x.has_fault(LiftError::SizeMismatch) {
                        assert(some_fault(ptr.exception_information@, LiftError::SizeMismatch));
                    }
                    assert(v.exception_information[i] == x.lifted());
                }
            }
        }
        r
    }

    /// Return a reference to the method id
    pub fn method_id(&self) -> (r: &DvmMethod)
        ensures
            r@ == self@.method_id,
    {
        &self.method_id
    }

    /// Return the number of registers
    pub fn n_of_registers(&self) -> (r: usize)
        ensures
            r == self@.n_of_registers,
    {
        self.n_of_registers
    }

    /// Return the number of exceptions
    pub fn n_of_exceptions(&self) -> (r: usize)
        ensures
            r == self@.n_of_exceptions,
    {
        self.n_of_exceptions
    }

    /// Return a reference to the exception information
    pub fn exception_information(&self) -> (r: &[DvmException])
        ensures
            views(r@) == self@.exception_information,
    {
        self.exception_information.as_slice()
    }

    /// Return the number of instructions
    pub fn n_of_instructions(&self) -> (r: usize)
        ensures
            r == self@.n_of_instructions,
    {
        self.n_of_instructions
    }

    /// Return the method string
    pub fn method_string(&self) -> (r: &str)
        ensures
            r@ == self@.method_string,
    {
        self.method_string.as_str()
    }

    /// Return the instructions
    pub fn instructions(&self) -> (r: &[DvmInstruction])
        ensures
            views(r@) == self@.instructions,
    {
        self.instructions.as_slice()
    }
}

} // verus!
