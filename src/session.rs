//! The analysis session: which engine calls may be made in which order, what
//! each query answers, and the identity caches.
//!
//! The engine itself stays outside: its caller performs each engine call and
//! hands the engine's answer (`None` for a null pointer) to the session, which
//! decides what the query returns and lifts the records.
use vstd::prelude::*;
use crate::analysis::{DvmClassAnalysis, DvmMethodAnalysis, DvmStringAnalysis};
use crate::cache::IdentityCache;
use crate::disassembler::DvmDisassembledMethod;
use crate::native::{
    Lift, LiftError, NativeClass, NativeClassAnalysis, NativeDisassembledMethod, NativeMethod,
    NativeMethodAnalysis, NativeStringAnalysis, lifts, text_ok, text, lift_optional,
};
use crate::parser::{DvmClass, DvmMethod};
use crate::text::decode_text;
use vstd::string::*;

verus! {

/// Where a session stands. Transitions only go forward.
#[derive(Debug, Clone, Copy, PartialEq, Eq, Structural)]
pub enum SessionState {
    /// No unit parsed yet
    Created,
    /// A unit was parsed
    Parsed,
    /// Its methods were disassembled
    Disassembled,
    /// Its analysis was created, classes not yet analyzed
    AnalysisCreated,
    /// Its classes were analyzed
    Analyzed,
}

/// A transition asked for out of order.
#[derive(Debug, Clone, Copy, PartialEq, Eq, Structural)]
pub enum SessionError {
    /// Nothing was parsed yet
    NotParsed,
    /// A unit was parsed already
    AlreadyParsed,
    /// The engine could not parse the input
    ParseFailed,
    /// The unit was not disassembled yet
    NotDisassembled,
    /// No analysis was created yet
    NoAnalysis,
    /// An analysis was created already
    AlreadyAnalyzed,
}

/// How to ask the engine for an analysis.
#[derive(Debug, PartialEq, Eq)]
pub enum EngineLookup {
    /// By the engine object already fetched under this handle
    ByHandle(u64),
    /// By name
    ByName(String),
}

/// What an `EngineLookup` asks for.
pub ghost enum LookupView {
    ByHandle(u64),
    ByName(Seq<char>),
}

impl View for EngineLookup {
    type V = LookupView;

    open spec fn view(&self) -> LookupView {
        match self {
            EngineLookup::ByHandle(h) => LookupView::ByHandle(*h),
            EngineLookup::ByName(n) => LookupView::ByName(n@),
        }
    }
}

/// The lookup for `key`: by handle when the cache knows it, by name otherwise.
pub open spec fn lookup_for(cache: Map<Seq<char>, u64>, key: Seq<char>) -> LookupView {
    if cache.contains_key(key) {
        LookupView::ByHandle(cache[key])
    } else {
        LookupView::ByName(key)
    }
}

/// The state has disassembly available.
pub open spec fn disassembled(s: SessionState) -> bool {
    s == SessionState::Disassembled || s == SessionState::AnalysisCreated || s
        == SessionState::Analyzed
}

/// The lookup that the caches plan for `key`.
fn plan_lookup(cache: &IdentityCache, key: String) -> (r: EngineLookup)
    ensures
        r@ == lookup_for(cache@, key@),
{
    match cache.lookup(&key) {
        Some(h) => EngineLookup::ByHandle(h),
        None => EngineLookup::ByName(key),
    }
}

/// What lifting an optional engine record answers: absent stays absent.
pub open spec fn lifted_reply<T: Lift>(reply: Option<T>, r: Result<Option<T::Out>, LiftError>) -> bool {
    &&& r is Ok <==> (reply is None || lifts(reply->Some_0))
    &&& r matches Ok(Some(v)) ==> reply is Some && v@ == reply->Some_0.lifted()
    &&& r matches Ok(None) ==> reply is None
    &&& r is Err ==> reply is Some && reply->Some_0.has_fault(r->Err_0)
}

/// A fetched entity with the handle it came under, lifted; its name is then
/// remembered under that handle.
fn fetch_class(
    cache: &mut IdentityCache,
    reply: Option<(u64, NativeClass)>,
) -> (r: Result<Option<DvmClass>, LiftError>)
    ensures
        reply is None ==> r == Ok::<Option<DvmClass>, LiftError>(None) && final(cache)@ == old(cache)@,
        reply is Some ==> {
            let (h, raw) = reply->Some_0;
            &&& r is Ok <==> lifts(raw)
            &&& r is Ok ==> r->Ok_0 is Some && r->Ok_0->Some_0@ == raw.lifted() && final(cache)@ == old(cache)@.insert(raw.lifted().class_name, h)
            &&& r is Err ==> raw.has_fault(r->Err_0) && final(cache)@ == old(cache)@
        },
{
    match reply {
        None => Ok(None),
        Some((h, raw)) => {
            let class = DvmClass::from_ptr(&raw)?;
            cache.remember(String::from_str(class.class_name()), h);
            Ok(Some(class))
        },
    }
}

/// A fetched method with the handle it came under, lifted; its dalvik name is
/// then remembered under that handle.
fn fetch_method(
    cache: &mut IdentityCache,
    reply: Option<(u64, NativeMethod)>,
) -> (r: Result<Option<DvmMethod>, LiftError>)
    ensures
        reply is None ==> r == Ok::<Option<DvmMethod>, LiftError>(None) && final(cache)@ == old(cache)@,
        reply is Some ==> {
            let (h, raw) = reply->Some_0;
            &&& r is Ok <==> lifts(raw)
            &&& r is Ok ==> r->Ok_0 is Some && r->Ok_0->Some_0@ == raw.lifted() && final(cache)@ == old(cache)@.insert(raw.lifted().dalvik_name, h)
            &&& r is Err ==> raw.has_fault(r->Err_0) && final(cache)@ == old(cache)@
        },
{
    match reply {
        None => Ok(None),
        Some((h, raw)) => {
            let method = DvmMethod::from_ptr(&raw)?;
            cache.remember(String::from_str(method.dalvik_name()), h);
            Ok(Some(method))
        },
    }
}

/// The text of a string the engine answered with, `None` when it answered
/// null or the bytes are not valid text.
pub open spec fn string_reply(reply: Option<Vec<u8>>) -> Option<Seq<char>> {
    match reply {
        Some(b) => if text_ok(b@) { Some(text(b@)) } else { None },
        None => None,
    }
}

fn lift_string_reply(reply: Option<Vec<u8>>) -> (r: Option<String>)
    ensures
        r is Some <==> string_reply(reply) is Some,
        r is Some ==> r->Some_0@ == string_reply(reply)->Some_0,
{
    match reply {
        Some(b) => decode_text(&b),
        None => None,
    }
}

/// What a session holds.
pub ghost struct DexContextView {
    pub state: SessionState,
    pub xrefs: bool,
    pub classes: Map<Seq<char>, u64>,
    pub methods: Map<Seq<char>, u64>,
}

/// An analysis session over one DEX file.
pub struct DexContext {
    state: SessionState,
    xrefs: bool,
    classes: IdentityCache,
    methods: IdentityCache,
}

impl View for DexContext {
    type V = DexContextView;

    closed spec fn view(&self) -> DexContextView {
        DexContextView {
            state: self.state,
            xrefs: self.xrefs,
            classes: self.classes@,
            methods: self.methods@,
        }
    }
}

impl DexContext {
    /// A session before any parse.
    pub fn new() -> (r: Self)
        ensures
            r@.state == SessionState::Created,
            !r@.xrefs,
            r@.classes == Map::<Seq<char>, u64>::empty(),
            r@.methods == Map::<Seq<char>, u64>::empty(),
    {
        DexContext {
            state: SessionState::Created,
            xrefs: false,
            classes: IdentityCache::new(),
            methods: IdentityCache::new(),
        }
    }

    /// Where the session stands.
    pub fn state(&self) -> (r: SessionState)
        ensures
            r == self@.state,
    {
        self.state
    }

    /// Whether the analysis was created with cross-references.
    pub fn has_xrefs(&self) -> (r: bool)
        ensures
            r == self@.xrefs,
    {
        self.xrefs
    }

    /// Records the outcome of the engine's parse (`parsed` is false when the
    /// input could not be opened or is not a recognized container).
    pub fn parse_dex(&mut self, parsed: bool) -> (r: Result<(), SessionError>)
        ensures
            old(self)@.state != SessionState::Created ==> r == Err::<(), SessionError>(
                SessionError::AlreadyParsed,
            ) && final(self)@ == old(self)@,
            old(self)@.state == SessionState::Created && !parsed ==> r == Err::<(), SessionError>(
                SessionError::ParseFailed,
            ) && final(self)@ == old(self)@,
            old(self)@.state == SessionState::Created && parsed ==> r is Ok && final(self)@ == (
            DexContextView { state: SessionState::Parsed, ..old(self)@ }),
    {
        if self.state != SessionState::Created {
            return Err(SessionError::AlreadyParsed);
        }
        if !parsed {
            return Err(SessionError::ParseFailed);
        }
        self.state = SessionState::Parsed;
        Ok(())
    }

    /// Moves to `Disassembled`. `Ok(true)` asks the caller to run the engine's
    /// disassembler; `Ok(false)` means that it already ran.
    pub fn disassemble_dex(&mut self) -> (r: Result<bool, SessionError>)
        ensures
            old(self)@.state == SessionState::Created ==> r == Err::<bool, SessionError>(
                SessionError::NotParsed,
            ) && final(self)@ == old(self)@,
            old(self)@.state == SessionState::Parsed ==> r == Ok::<bool, SessionError>(true)
                && final(self)@ == (DexContextView { state: SessionState::Disassembled, ..old(self)@ }),
            disassembled(old(self)@.state) ==> r == Ok::<bool, SessionError>(false) && final(self)@
                == old(self)@,
    {
        match self.state {
            SessionState::Created => Err(SessionError::NotParsed),
            SessionState::Parsed => {
                self.state = SessionState::Disassembled;
                Ok(true)
            },
            _ => Ok(false),
        }
    }

    /// Moves from `Disassembled` to `AnalysisCreated`; cross-references are
    /// built only when `create_xrefs` holds. The caller then runs the engine's
    /// analysis.
    pub fn create_dex_analysis(&mut self, create_xrefs: bool) -> (r: Result<(), SessionError>)
        ensures
            old(self)@.state == SessionState::Created ==> r == Err::<(), SessionError>(
                SessionError::NotParsed,
            ) && final(self)@ == old(self)@,
            old(self)@.state == SessionState::Parsed ==> r == Err::<(), SessionError>(
                SessionError::NotDisassembled,
            ) && final(self)@ == old(self)@,
            old(self)@.state == SessionState::Disassembled ==> r is Ok && final(self)@ == (
            DexContextView { state: SessionState::AnalysisCreated, xrefs: create_xrefs, ..old(self)@ }),
            (old(self)@.state == SessionState::AnalysisCreated || old(self)@.state
                == SessionState::Analyzed) ==> r == Err::<(), SessionError>(
                SessionError::AlreadyAnalyzed,
            ) && final(self)@ == old(self)@,
    {
        match self.state {
            SessionState::Created => Err(SessionError::NotParsed),
            SessionState::Parsed => Err(SessionError::NotDisassembled),
            SessionState::Disassembled => {
                self.state = SessionState::AnalysisCreated;
                self.xrefs = create_xrefs;
                Ok(())
            },
            _ => Err(SessionError::AlreadyAnalyzed),
        }
    }

    /// Moves from `AnalysisCreated` to `Analyzed`. `Ok(true)` asks the caller
    /// to run the engine's class analysis; `Ok(false)` means that it already
    /// ran.
    pub fn analyze_classes(&mut self) -> (r: Result<bool, SessionError>)
        ensures
            old(self)@.state == SessionState::Created ==> r == Err::<bool, SessionError>(
                SessionError::NotParsed,
            ) && final(self)@ == old(self)@,
            (old(self)@.state == SessionState::Parsed || old(self)@.state
                == SessionState::Disassembled) ==> r == Err::<bool, SessionError>(
                SessionError::NoAnalysis,
            ) && final(self)@ == old(self)@,
            old(self)@.state == SessionState::AnalysisCreated ==> r == Ok::<bool, SessionError>(true)
                && final(self)@ == (DexContextView { state: SessionState::Analyzed, ..old(self)@ }),
            old(self)@.state == SessionState::Analyzed ==> r == Ok::<bool, SessionError>(false)
                && final(self)@ == old(self)@,
    {
        match self.state {
            SessionState::Created => Err(SessionError::NotParsed),
            SessionState::Parsed => Err(SessionError::NoAnalysis),
            SessionState::Disassembled => Err(SessionError::NoAnalysis),
            SessionState::AnalysisCreated => {
                self.state = SessionState::Analyzed;
                Ok(true)
            },
            SessionState::Analyzed => Ok(false),
        }
    }

    /// The string the engine answered for a string id.
    pub fn get_string_by_id(&self, reply: Option<Vec<u8>>) -> (r: Option<String>)
        requires
            self@.state != SessionState::Created,
        ensures
            r is Some <==> string_reply(reply) is Some,
            r is Some ==> r->Some_0@ == string_reply(reply)->Some_0,
    {
        lift_string_reply(reply)
    }

    /// The class the engine answered for a class id, with its handle; the
    /// class name is remembered under that handle.
    pub fn get_class_by_id(&mut self, reply: Option<(u64, NativeClass)>) -> (r: Result<
        Option<DvmClass>,
        LiftError,
    >)
        requires
            old(self)@.state != SessionState::Created,
        ensures
            final(self)@.state == old(self)@.state,
            final(self)@.xrefs == old(self)@.xrefs,
            final(self)@.methods == old(self)@.methods,
            reply is None ==> r == Ok::<Option<DvmClass>, LiftError>(None) && final(self)@.classes
                == old(self)@.classes,
            reply is Some ==> {
                let (h, raw) = reply->Some_0;
                &&& r is Ok <==> lifts(raw)
                &&& r is Ok ==> r->Ok_0 is Some && r->Ok_0->Some_0@ == raw.lifted() && final(self)@.classes == old(self)@.classes.insert(raw.lifted().class_name, h)
                &&& r is Err ==> raw.has_fault(r->Err_0) && final(self)@.classes == old(self)@.classes
            },
    {
        fetch_class(&mut self.classes, reply)
    }

    /// How to ask the engine for the class named `class_name`: through the
    /// handle it was last fetched under, or by name.
    pub fn class_lookup(&self, class_name: &str) -> (r: EngineLookup)
        requires
            self@.state != SessionState::Created,
        ensures
            r@ == lookup_for(self@.classes, class_name@),
    {
        plan_lookup(&self.classes, String::from_str(class_name))
    }

    /// The class the engine answered for a class name, with its handle; the
    /// class name is remembered under that handle.
    pub fn get_class_by_name(&mut self, reply: Option<(u64, NativeClass)>) -> (r: Result<
        Option<DvmClass>,
        LiftError,
    >)
        requires
            old(self)@.state != SessionState::Created,
        ensures
            final(self)@.state == old(self)@.state,
            final(self)@.xrefs == old(self)@.xrefs,
            final(self)@.methods == old(self)@.methods,
            reply is None ==> r == Ok::<Option<DvmClass>, LiftError>(None) && final(self)@.classes
                == old(self)@.classes,
            reply is Some ==> {
                let (h, raw) = reply->Some_0;
                &&& r is Ok <==> lifts(raw)
                &&& r is Ok ==> r->Ok_0 is Some && r->Ok_0->Some_0@ == raw.lifted() && final(self)@.classes == old(self)@.classes.insert(raw.lifted().class_name, h)
                &&& r is Err ==> raw.has_fault(r->Err_0) && final(self)@.classes == old(self)@.classes
            },
    {
        fetch_class(&mut self.classes, reply)
    }

    /// The method the engine answered for a dalvik name, with its handle; the
    /// dalvik name is remembered under that handle.
    pub fn get_method_by_name(&mut self, reply: Option<(u64, NativeMethod)>) -> (r: Result<
        Option<DvmMethod>,
        LiftError,
    >)
        requires
            old(self)@.state != SessionState::Created,
        ensures
            final(self)@.state == old(self)@.state,
            final(self)@.xrefs == old(self)@.xrefs,
            final(self)@.classes == old(self)@.classes,
            reply is None ==> r == Ok::<Option<DvmMethod>, LiftError>(None) && final(self)@.methods
                == old(self)@.methods,
            reply is Some ==> {
                let (h, raw) = reply->Some_0;
                &&& r is Ok <==> lifts(raw)
                &&& r is Ok ==> r->Ok_0 is Some && r->Ok_0->Some_0@ == raw.lifted() && final(self)@.methods == old(self)@.methods.insert(raw.lifted().dalvik_name, h)
                &&& r is Err ==> raw.has_fault(r->Err_0) && final(self)@.methods == old(self)@.methods
            },
    {
        fetch_method(&mut self.methods, reply)
    }

    /// The disassembled method the engine answered; absent, never an error,
    /// while the unit is not disassembled.
    pub fn get_disassembled_method(&self, reply: Option<NativeDisassembledMethod>) -> (r: Result<
        Option<DvmDisassembledMethod>,
        LiftError,
    >)
        requires
            self@.state != SessionState::Created,
        ensures
            !disassembled(self@.state) ==> r == Ok::<Option<DvmDisassembledMethod>, LiftError>(
                None,
            ),
            disassembled(self@.state) ==> lifted_reply(reply, r),
    {
        if !(self.state == SessionState::Disassembled || self.state
            == SessionState::AnalysisCreated || self.state == SessionState::Analyzed) {
            return Ok(None);
        }
        lift_optional(&reply)
    }

    /// How to ask the engine for the analysis of a class already held:
    /// through the handle it was fetched under, or by its name.
    pub fn get_analyzed_class_by_hdvmclass(&self, class: &DvmClass) -> (r: EngineLookup)
        requires
            self@.state != SessionState::Created,
        ensures
            r@ == lookup_for(self@.classes, class@.class_name),
    {
        plan_lookup(&self.classes, String::from_str(class.class_name()))
    }

    /// The class analysis the engine answered; absent while the classes are
    /// not analyzed.
    pub fn get_analyzed_class(&self, reply: Option<NativeClassAnalysis>) -> (r: Result<
        Option<DvmClassAnalysis>,
        LiftError,
    >)
        requires
            self@.state != SessionState::Created,
        ensures
            self@.state != SessionState::Analyzed ==> r == Ok::<
                Option<DvmClassAnalysis>,
                LiftError,
            >(None),
            self@.state == SessionState::Analyzed ==> lifted_reply(reply, r),
    {
        if self.state != SessionState::Analyzed {
            return Ok(None);
        }
        lift_optional(&reply)
    }

    /// How to ask the engine for the analysis of a method already held:
    /// through the handle it was fetched under, or by its dalvik name.
    pub fn get_analyzed_method_by_hdvmmethod(&self, method: &DvmMethod) -> (r: EngineLookup)
        requires
            self@.state != SessionState::Created,
        ensures
            r@ == lookup_for(self@.methods, method@.dalvik_name),
    {
        plan_lookup(&self.methods, String::from_str(method.dalvik_name()))
    }

    /// The method analysis the engine answered; absent while the classes are
    /// not analyzed.
    pub fn get_analyzed_method(&self, reply: Option<NativeMethodAnalysis>) -> (r: Result<
        Option<DvmMethodAnalysis>,
        LiftError,
    >)
        requires
            self@.state != SessionState::Created,
        ensures
            self@.state != SessionState::Analyzed ==> r == Ok::<
                Option<DvmMethodAnalysis>,
                LiftError,
            >(None),
            self@.state == SessionState::Analyzed ==> lifted_reply(reply, r),
    {
        if self.state != SessionState::Analyzed {
            return Ok(None);
        }
        lift_optional(&reply)
    }
}

/// A count the engine answered, where a negative value stands for an unknown
/// DEX file.
pub open spec fn count_reply(count: i32) -> Option<usize> {
    if count < 0 {
        None
    } else {
        Some(count as usize)
    }
}

fn lift_count(count: i32) -> (r: Option<usize>)
    ensures
        r == count_reply(count),
{
    if count < 0 {
        None
    } else {
        Some(count as usize)
    }
}

/// What an APK session holds.
pub ghost struct ApkContextView {
    pub xrefs: bool,
    pub classes: Map<Seq<char>, u64>,
}

/// An analysis session over an APK: the engine parses, disassembles and
/// analyzes all of its DEX files at once, so every query is ready.
pub struct ApkContext {
    xrefs: bool,
    classes: IdentityCache,
}

impl View for ApkContext {
    type V = ApkContextView;

    closed spec fn view(&self) -> ApkContextView {
        ApkContextView { xrefs: self.xrefs, classes: self.classes@ }
    }
}

impl ApkContext {
    /// A session over an APK that the engine parsed and analyzed, with
    /// cross-references when `create_xrefs` holds.
    pub fn new(create_xrefs: bool) -> (r: Self)
        ensures
            r@.xrefs == create_xrefs,
            r@.classes == Map::<Seq<char>, u64>::empty(),
    {
        ApkContext { xrefs: create_xrefs, classes: IdentityCache::new() }
    }

    /// Whether the analysis was created with cross-references.
    pub fn has_xrefs(&self) -> (r: bool)
        ensures
            r == self@.xrefs,
    {
        self.xrefs
    }

    /// The name of a DEX file the engine answered for an index.
    pub fn get_dex_file_by_index(&self, reply: Option<Vec<u8>>) -> (r: Option<String>)
        ensures
            r is Some <==> string_reply(reply) is Some,
            r is Some ==> r->Some_0@ == string_reply(reply)->Some_0,
    {
        lift_string_reply(reply)
    }

    /// The number of classes the engine answered for a DEX file.
    pub fn get_number_of_classes_from_dex(&self, count: i32) -> (r: Option<usize>)
        ensures
            r == count_reply(count),
    {
        lift_count(count)
    }

    /// A class the engine answered for a DEX file and an index, with its
    /// handle; the class name is remembered under that handle.
    pub fn get_hdvmclass_from_dex_by_index(&mut self, reply: Option<(u64, NativeClass)>) -> (r:
        Result<Option<DvmClass>, LiftError>)
        ensures
            final(self)@.xrefs == old(self)@.xrefs,
            reply is None ==> r == Ok::<Option<DvmClass>, LiftError>(None) && final(self)@.classes
                == old(self)@.classes,
            reply is Some ==> {
                let (h, raw) = reply->Some_0;
                &&& r is Ok <==> lifts(raw)
                &&& r is Ok ==> r->Ok_0 is Some && r->Ok_0->Some_0@ == raw.lifted() && final(self)@.classes == old(self)@.classes.insert(raw.lifted().class_name, h)
                &&& r is Err ==> raw.has_fault(r->Err_0) && final(self)@.classes == old(self)@.classes
            },
    {
        fetch_class(&mut self.classes, reply)
    }

    /// The number of strings the engine answered for a DEX file.
    pub fn get_number_of_strings_from_dex(&self, count: i32) -> (r: Option<usize>)
        ensures
            r == count_reply(count),
    {
        lift_count(count)
    }

    /// A string the engine answered for a DEX file and an index.
    pub fn get_string_by_id_from_dex(&self, reply: Option<Vec<u8>>) -> (r: Option<String>)
        ensures
            r is Some <==> string_reply(reply) is Some,
            r is Some ==> r->Some_0@ == string_reply(reply)->Some_0,
    {
        lift_string_reply(reply)
    }

    /// The disassembled method the engine answered.
    pub fn get_disassembled_method_from_apk(&self, reply: Option<NativeDisassembledMethod>) -> (r:
        Result<Option<DvmDisassembledMethod>, LiftError>)
        ensures
            lifted_reply(reply, r),
    {
        lift_optional(&reply)
    }

    /// How to ask the engine for the analysis of a class already held.
    pub fn get_analyzed_class_by_hdvmclass_from_apk(&self, class: &DvmClass) -> (r: EngineLookup)
        ensures
            r@ == lookup_for(self@.classes, class@.class_name),
    {
        plan_lookup(&self.classes, String::from_str(class.class_name()))
    }

    /// The class analysis the engine answered.
    pub fn get_analyzed_class_from_apk(&self, reply: Option<NativeClassAnalysis>) -> (r: Result<
        Option<DvmClassAnalysis>,
        LiftError,
    >)
        ensures
            lifted_reply(reply, r),
    {
        lift_optional(&reply)
    }

    /// The name under which to ask the engine for the analysis of a method
    /// already held: the APK engine finds method analyses by dalvik name.
    pub fn get_analyzed_method_by_hdvmmethod_from_apk(&self, method: &DvmMethod) -> (r: String)
        ensures
            r@ == method@.dalvik_name,
    {
        String::from_str(method.dalvik_name())
    }

    /// The method analysis the engine answered for a name.
    pub fn get_analyzed_method_from_apk(&self, reply: Option<NativeMethodAnalysis>) -> (r: Result<
        Option<DvmMethodAnalysis>,
        LiftError,
    >)
        ensures
            lifted_reply(reply, r),
    {
        lift_optional(&reply)
    }

    /// The method analysis the engine answered for an index.
    pub fn get_analyzed_method_by_idx(&self, reply: Option<NativeMethodAnalysis>) -> (r: Result<
        Option<DvmMethodAnalysis>,
        LiftError,
    >)
        ensures
            lifted_reply(reply, r),
    {
        lift_optional(&reply)
    }

    /// The string analysis the engine answered for a string.
    pub fn get_analyzed_string_from_apk(&self, reply: Option<NativeStringAnalysis>) -> (r: Result<
        Option<DvmStringAnalysis>,
        LiftError,
    >)
        ensures
            lifted_reply(reply, r),
    {
        lift_optional(&reply)
    }
}

/// A class fetched by id under handle `h` and then looked up again by its
/// name: the lookup goes back to the engine object under `h`, and lifting that
/// object again gives a snapshot equal to the first one.
pub proof fn lemma_class_round_trip(
    classes: Map<Seq<char>, u64>,
    h: u64,
    raw: NativeClass,
    again: NativeClass,
)
    requires
        lifts(raw),
        again == raw,
    ensures
        lookup_for(classes.insert(raw.lifted().class_name, h), raw.lifted().class_name)
            == LookupView::ByHandle(h),
        lifts(again),
        again.lifted() == raw.lifted(),
{
}

} // verus!
