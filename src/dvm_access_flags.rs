//! Access flags of classes, fields and methods.
//!
//! Access flags are stored as an unsigned 32 bits integer. Several bit
//! positions mean different things depending on what carries the flags, so the
//! decoder goes through an explicit (bit, owner kind) table.
use vstd::prelude::*;
use vstd::string::*;

verus! {

/// What carries a set of access flags: a class, a field, or a method.
#[derive(Debug, Clone, Copy, PartialEq, Eq, Structural)]
pub enum DvmAccessFlagType {
    /// Flag for a class
    Class,
    /// Flag for a class field
    Field,
    /// Flag for a method
    Method,
}

/// One access flag.
#[allow(non_camel_case_types)]
#[derive(Debug, Clone, Copy, PartialEq, Eq, Structural)]
pub enum DvmAccessFlag {
    /// Public: visible everywhere
    ACC_PUBLIC,
    /// Private: only visible to defining class
    ACC_PRIVATE,
    /// Protected: visible to package and subclasses
    ACC_PROTECTED,
    /// Static
    ACC_STATIC,
    /// Final
    ACC_FINAL,
    /// Synchronized (methods only)
    ACC_SYNCHRONIZED,
    /// Volatile (fields only)
    ACC_VOLATILE,
    /// Bridge (methods only)
    ACC_BRIDGE,
    /// Transient (fields only)
    ACC_TRANSIENT,
    /// Varargs (methods only)
    ACC_VARARGS,
    /// Native (methods only)
    ACC_NATIVE,
    /// Interface (classes only)
    ACC_INTERFACE,
    /// Abstract (classes and methods)
    ACC_ABSTRACT,
    /// Strict floating-point (methods only)
    ACC_STRICT,
    /// Synthetic: not directly defined in source code
    ACC_SYNTHETIC,
    /// Annotation (classes only)
    ACC_ANNOTATION,
    /// Enum (classes and fields)
    ACC_ENUM,
    /// Constructor (methods only)
    ACC_CONSTRUCTOR,
    /// Declared synchronized (methods only)
    ACC_DECLARED_SYNCHRONIZED,
}

/// Number of bit positions that the table covers (0x1 up to 0x20000).
pub const FLAG_BITS: u32 = 18;

/// The (bit position, owner kind) table: which flag, if any, bit `bit` means
/// for `kind`.
pub open spec fn flag_table(bit: u32, kind: DvmAccessFlagType) -> Option<DvmAccessFlag> {
    if bit == 0 {
        Some(DvmAccessFlag::ACC_PUBLIC)
    } else if bit == 1 {
        Some(DvmAccessFlag::ACC_PRIVATE)
    } else if bit == 2 {
        Some(DvmAccessFlag::ACC_PROTECTED)
    } else if bit == 3 {
        Some(DvmAccessFlag::ACC_STATIC)
    } else if bit == 4 {
        Some(DvmAccessFlag::ACC_FINAL)
    } else if bit == 5 {
        if kind == DvmAccessFlagType::Method { Some(DvmAccessFlag::ACC_SYNCHRONIZED) } else { None }
    } else if bit == 6 {
        match kind {
            DvmAccessFlagType::Class => None,
            DvmAccessFlagType::Field => Some(DvmAccessFlag::ACC_VOLATILE),
            DvmAccessFlagType::Method => Some(DvmAccessFlag::ACC_BRIDGE),
        }
    } else if bit == 7 {
        match kind {
            DvmAccessFlagType::Class => None,
            DvmAccessFlagType::Field => Some(DvmAccessFlag::ACC_TRANSIENT),
            DvmAccessFlagType::Method => Some(DvmAccessFlag::ACC_VARARGS),
        }
    } else if bit == 8 {
        if kind == DvmAccessFlagType::Method { Some(DvmAccessFlag::ACC_NATIVE) } else { None }
    } else if bit == 9 {
        if kind == DvmAccessFlagType::Class { Some(DvmAccessFlag::ACC_INTERFACE) } else { None }
    } else if bit == 10 {
        if kind == DvmAccessFlagType::Field { None } else { Some(DvmAccessFlag::ACC_ABSTRACT) }
    } else if bit == 11 {
        if kind == DvmAccessFlagType::Method { Some(DvmAccessFlag::ACC_STRICT) } else { None }
    } else if bit == 12 {
        Some(DvmAccessFlag::ACC_SYNTHETIC)
    } else if bit == 13 {
        if kind == DvmAccessFlagType::Class { Some(DvmAccessFlag::ACC_ANNOTATION) } else { None }
    } else if bit == 14 {
        if kind == DvmAccessFlagType::Method { None } else { Some(DvmAccessFlag::ACC_ENUM) }
    } else if bit == 16 {
        if kind == DvmAccessFlagType::Method { Some(DvmAccessFlag::ACC_CONSTRUCTOR) } else { None }
    } else if bit == 17 {
        if kind == DvmAccessFlagType::Method {
            Some(DvmAccessFlag::ACC_DECLARED_SYNCHRONIZED)
        } else {
            None
        }
    } else {
        None
    }
}

/// Whether bit `bit` of `mask` is set.
pub open spec fn bit_set(mask: u32, bit: u32) -> bool {
    (mask >> bit) & 1u32 == 1u32
}

/// The flags of `mask` for `kind` among the lowest `n` bit positions, in
/// ascending bit order.
pub open spec fn flags_below(mask: u32, kind: DvmAccessFlagType, n: u32) -> Seq<DvmAccessFlag>
    decreases n,
{
    if n == 0 {
        Seq::empty()
    } else {
        let prev = flags_below(mask, kind, (n - 1) as u32);
        match flag_table((n - 1) as u32, kind) {
            Some(f) => if bit_set(mask, (n - 1) as u32) { prev.push(f) } else { prev },
            None => prev,
        }
    }
}

/// The flags that `mask` holds for `kind`, in ascending bit order; bits that
/// mean nothing for `kind` are ignored.
pub open spec fn flags_of(mask: u32, kind: DvmAccessFlagType) -> Seq<DvmAccessFlag> {
    flags_below(mask, kind, FLAG_BITS)
}

/// The display name of a flag.
pub open spec fn flag_name(f: DvmAccessFlag) -> Seq<char> {
    match f {
        DvmAccessFlag::ACC_PUBLIC => "public"@,
        DvmAccessFlag::ACC_PRIVATE => "private"@,
        DvmAccessFlag::ACC_PROTECTED => "protected"@,
        DvmAccessFlag::ACC_STATIC => "static"@,
        DvmAccessFlag::ACC_FINAL => "final"@,
        DvmAccessFlag::ACC_SYNCHRONIZED => "synchronized"@,
        DvmAccessFlag::ACC_VOLATILE => "volatile"@,
        DvmAccessFlag::ACC_BRIDGE => "bridge"@,
        DvmAccessFlag::ACC_TRANSIENT => "transient"@,
        DvmAccessFlag::ACC_VARARGS => "varargs"@,
        DvmAccessFlag::ACC_NATIVE => "native"@,
        DvmAccessFlag::ACC_INTERFACE => "interface"@,
        DvmAccessFlag::ACC_ABSTRACT => "abstract"@,
        DvmAccessFlag::ACC_STRICT => "strict"@,
        DvmAccessFlag::ACC_SYNTHETIC => "synthetic"@,
        DvmAccessFlag::ACC_ANNOTATION => "annotation"@,
        DvmAccessFlag::ACC_ENUM => "enum"@,
        DvmAccessFlag::ACC_CONSTRUCTOR => "constructor"@,
        DvmAccessFlag::ACC_DECLARED_SYNCHRONIZED => "synchronized"@,
    }
}

/// The names of `flags` joined by `|`.
pub open spec fn joined_names(flags: Seq<DvmAccessFlag>) -> Seq<char>
    decreases flags.len(),
{
    if flags.len() == 0 {
        Seq::empty()
    } else if flags.len() == 1 {
        flag_name(flags[0])
    } else {
        joined_names(flags.drop_last()) + "|"@ + flag_name(flags.last())
    }
}

/// The display name of an owner kind.
pub open spec fn owner_kind_name(t: DvmAccessFlagType) -> Seq<char> {
    match t {
        DvmAccessFlagType::Class => "class"@,
        DvmAccessFlagType::Field => "field"@,
        DvmAccessFlagType::Method => "method"@,
    }
}

impl DvmAccessFlagType {
    /// The name of the owner kind: `class`, `field` or `method`.
    pub fn to_string(&self) -> (r: String)
        ensures
            r@ == owner_kind_name(*self),
    {
        match self {
            DvmAccessFlagType::Class => String::from_str("class"),
            DvmAccessFlagType::Field => String::from_str("field"),
            DvmAccessFlagType::Method => String::from_str("method"),
        }
    }
}

impl DvmAccessFlag {
    /// Looks up the (bit, owner kind) table.
    fn for_bit(bit: u32, kind: DvmAccessFlagType) -> (r: Option<DvmAccessFlag>)
        ensures
            r == flag_table(bit, kind),
    {
        match bit {
            0 => Some(DvmAccessFlag::ACC_PUBLIC),
            1 => Some(DvmAccessFlag::ACC_PRIVATE),
            2 => Some(DvmAccessFlag::ACC_PROTECTED),
            3 => Some(DvmAccessFlag::ACC_STATIC),
            4 => Some(DvmAccessFlag::ACC_FINAL),
            5 => match kind {
                DvmAccessFlagType::Method => Some(DvmAccessFlag::ACC_SYNCHRONIZED),
                _ => None,
            },
            6 => match kind {
                DvmAccessFlagType::Class => None,
                DvmAccessFlagType::Field => Some(DvmAccessFlag::ACC_VOLATILE),
                DvmAccessFlagType::Method => Some(DvmAccessFlag::ACC_BRIDGE),
            },
            7 => match kind {
                DvmAccessFlagType::Class => None,
                DvmAccessFlagType::Field => Some(DvmAccessFlag::ACC_TRANSIENT),
                DvmAccessFlagType::Method => Some(DvmAccessFlag::ACC_VARARGS),
            },
            8 => match kind {
                DvmAccessFlagType::Method => Some(DvmAccessFlag::ACC_NATIVE),
                _ => None,
            },
            9 => match kind {
                DvmAccessFlagType::Class => Some(DvmAccessFlag::ACC_INTERFACE),
                _ => None,
            },
            10 => match kind {
                DvmAccessFlagType::Field => None,
                _ => Some(DvmAccessFlag::ACC_ABSTRACT),
            },
            11 => match kind {
                DvmAccessFlagType::Method => Some(DvmAccessFlag::ACC_STRICT),
                _ => None,
            },
            12 => Some(DvmAccessFlag::ACC_SYNTHETIC),
            13 => match kind {
                DvmAccessFlagType::Class => Some(DvmAccessFlag::ACC_ANNOTATION),
                _ => None,
            },
            14 => match kind {
                DvmAccessFlagType::Method => None,
                _ => Some(DvmAccessFlag::ACC_ENUM),
            },
            16 => match kind {
                DvmAccessFlagType::Method => Some(DvmAccessFlag::ACC_CONSTRUCTOR),
                _ => None,
            },
            17 => match kind {
                DvmAccessFlagType::Method => Some(DvmAccessFlag::ACC_DECLARED_SYNCHRONIZED),
                _ => None,
            },
            _ => None,
        }
    }

    /// Decodes a raw flag word into the flags it holds for `for_type`, in
    /// ascending bit order. Unknown or reserved bits are ignored.
    pub fn parse(flag: u32, for_type: DvmAccessFlagType) -> (r: Vec<DvmAccessFlag>)
        ensures
            r@ == flags_of(flag, for_type),
    {
        let mut flags: Vec<DvmAccessFlag> = Vec::new();
        let mut bit: u32 = 0;
        while bit < FLAG_BITS
            invariant
                bit <= FLAG_BITS,
                flags@ == flags_below(flag, for_type, bit),
            decreases FLAG_BITS - bit,
        {
            if (flag >> bit) & 1u32 == 1u32 {
                match DvmAccessFlag::for_bit(bit, for_type) {
                    Some(f) => flags.push(f),
                    None => {},
                }
            }
            bit = bit + 1;
        }
        flags
    }

    /// The display name of this flag.
    pub fn to_string(&self) -> (r: String)
        ensures
            r@ == flag_name(*self),
    {
        match self {
            DvmAccessFlag::ACC_PUBLIC => String::from_str("public"),
            DvmAccessFlag::ACC_PRIVATE => String::from_str("private"),
            DvmAccessFlag::ACC_PROTECTED => String::from_str("protected"),
            DvmAccessFlag::ACC_STATIC => String::from_str("static"),
            DvmAccessFlag::ACC_FINAL => String::from_str("final"),
            DvmAccessFlag::ACC_SYNCHRONIZED => String::from_str("synchronized"),
            DvmAccessFlag::ACC_VOLATILE => String::from_str("volatile"),
            DvmAccessFlag::ACC_BRIDGE => String::from_str("bridge"),
            DvmAccessFlag::ACC_TRANSIENT => String::from_str("transient"),
            DvmAccessFlag::ACC_VARARGS => String::from_str("varargs"),
            DvmAccessFlag::ACC_NATIVE => String::from_str("native"),
            DvmAccessFlag::ACC_INTERFACE => String::from_str("interface"),
            DvmAccessFlag::ACC_ABSTRACT => String::from_str("abstract"),
            DvmAccessFlag::ACC_STRICT => String::from_str("strict"),
            DvmAccessFlag::ACC_SYNTHETIC => String::from_str("synthetic"),
            DvmAccessFlag::ACC_ANNOTATION => String::from_str("annotation"),
            DvmAccessFlag::ACC_ENUM => String::from_str("enum"),
            DvmAccessFlag::ACC_CONSTRUCTOR => String::from_str("constructor"),
            DvmAccessFlag::ACC_DECLARED_SYNCHRONIZED => String::from_str("synchronized"),
        }
    }

    /// Renders a list of flags as their names joined by `|`.
    pub fn vec_to_string(flags: &[DvmAccessFlag]) -> (r: String)
        ensures
            r@ == joined_names(flags@),
    {
        let mut output = String::new();
        let mut idx: usize = 0;
        while idx < flags.len()
            invariant
                idx <= flags@.len(),
                output@ == joined_names(flags@.subrange(0, idx as int)),
            decreases flags@.len() - idx,
        {
            let name = flags[idx].to_string();
            if idx > 0 {
                output.append("|");
            }
            output.append(name.as_str());
            proof {
                let pre = flags@.subrange(0, idx as int);
                let next = flags@.subrange(0, idx + 1);
                assert(next.drop_last() =~= pre);
                assert(next.last() == flags@[idx as int]);
                if idx == 0 {
                    assert(output@ =~= flag_name(flags@[0]));
                }
            }
            idx = idx + 1;
        }
        assert(flags@.subrange(0, flags@.len() as int) =~= flags@);
        output
    }
}

/// The flags that the full mask `0x3FFFF` holds for each owner kind.
pub open spec fn full_mask_flags(kind: DvmAccessFlagType) -> Seq<DvmAccessFlag> {
    match kind {
        DvmAccessFlagType::Class => seq![
            DvmAccessFlag::ACC_PUBLIC,
            DvmAccessFlag::ACC_PRIVATE,
            DvmAccessFlag::ACC_PROTECTED,
            DvmAccessFlag::ACC_STATIC,
            DvmAccessFlag::ACC_FINAL,
            DvmAccessFlag::ACC_INTERFACE,
            DvmAccessFlag::ACC_ABSTRACT,
            DvmAccessFlag::ACC_SYNTHETIC,
            DvmAccessFlag::ACC_ANNOTATION,
            DvmAccessFlag::ACC_ENUM,
        ],
        DvmAccessFlagType::Field => seq![
            DvmAccessFlag::ACC_PUBLIC,
            DvmAccessFlag::ACC_PRIVATE,
            DvmAccessFlag::ACC_PROTECTED,
            DvmAccessFlag::ACC_STATIC,
            DvmAccessFlag::ACC_FINAL,
            DvmAccessFlag::ACC_VOLATILE,
            DvmAccessFlag::ACC_TRANSIENT,
            DvmAccessFlag::ACC_SYNTHETIC,
            DvmAccessFlag::ACC_ENUM,
        ],
        DvmAccessFlagType::Method => seq![
            DvmAccessFlag::ACC_PUBLIC,
            DvmAccessFlag::ACC_PRIVATE,
            DvmAccessFlag::ACC_PROTECTED,
            DvmAccessFlag::ACC_STATIC,
            DvmAccessFlag::ACC_FINAL,
            DvmAccessFlag::ACC_SYNCHRONIZED,
            DvmAccessFlag::ACC_BRIDGE,
            DvmAccessFlag::ACC_VARARGS,
            DvmAccessFlag::ACC_NATIVE,
            DvmAccessFlag::ACC_ABSTRACT,
            DvmAccessFlag::ACC_STRICT,
            DvmAccessFlag::ACC_SYNTHETIC,
            DvmAccessFlag::ACC_CONSTRUCTOR,
            DvmAccessFlag::ACC_DECLARED_SYNCHRONIZED,
        ],
    }
}

/// Decoding the full mask `0x3FFFF` gives, for each owner kind, exactly the
/// flags of that kind: 10 for a class, 9 for a field, 14 for a method.
pub proof fn lemma_full_mask(kind: DvmAccessFlagType)
    ensures
        flags_of(0x3ffffu32, kind) == full_mask_flags(kind),
        full_mask_flags(kind).len() == match kind {
            DvmAccessFlagType::Class => 10nat,
            DvmAccessFlagType::Field => 9nat,
            DvmAccessFlagType::Method => 14nat,
        },
{
    assert(forall|i: u32| i < 18 ==> #[trigger] ((0x3ffffu32 >> i) & 1u32) == 1u32) by (bit_vector);
    reveal_with_fuel(flags_below, 19);
    assert(flags_of(0x3ffffu32, kind) =~= full_mask_flags(kind));
}

} // verus!
