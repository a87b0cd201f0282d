//! Trampoline planning: the ABI descriptors and the exact shape of the stub
//! the JIT must emit for a hooked slot.
//!
//! A trampoline has the ABI of the original virtual function (receiver first,
//! then the original arguments) and forwards to the generic dispatcher for
//! the closure's shape, passing the hook slot index in front of the original
//! argument list. Everything about that stub except the machine code itself
//! is decided here: the two baked-in immediates, both signatures, and the
//! unique symbol name per shape. The caller feeds the finished
//! [`TrampolinePlan`] to the JIT.

use vstd::prelude::*;

verus! {

/// The closed set of native types a hooked function's ABI may mention.
/// Anything else cannot be registered.
#[derive(Debug, Clone, Copy, PartialEq, Eq, Structural)]
pub enum NativeType {
    /// Raw address, either mutability.
    ConstPtr,
    MutPtr,
    /// Reference, either mutability: passed exactly like a raw address.
    Ref,
    MutRef,
    /// Pointer-width integers.
    Usize,
    Isize,
    U32,
    I32,
    U16,
    I16,
    U8,
    I8,
    /// 32-bit and 64-bit floats.
    F32,
    F64,
}

/// Code-generator parameter descriptor: the width class a value is passed as.
#[derive(Debug, Clone, Copy, PartialEq, Eq, Structural)]
pub enum AbiKind {
    Int8,
    Int16,
    Int32,
    Int64,
    Float32,
    Float64,
}

/// The descriptor table: every pointer and pointer-width integer is a 64-bit
/// integer, narrower integers keep their width, floats keep their width.
pub open spec fn spec_cranelift_abi(t: NativeType) -> AbiKind {
    match t {
        NativeType::ConstPtr => AbiKind::Int64,
        NativeType::MutPtr => AbiKind::Int64,
        NativeType::Ref => AbiKind::Int64,
        NativeType::MutRef => AbiKind::Int64,
        NativeType::Usize => AbiKind::Int64,
        NativeType::Isize => AbiKind::Int64,
        NativeType::U32 => AbiKind::Int32,
        NativeType::I32 => AbiKind::Int32,
        NativeType::U16 => AbiKind::Int16,
        NativeType::I16 => AbiKind::Int16,
        NativeType::U8 => AbiKind::Int8,
        NativeType::I8 => AbiKind::Int8,
        NativeType::F32 => AbiKind::Float32,
        NativeType::F64 => AbiKind::Float64,
    }
}

impl NativeType {
    /// The code-generator descriptor for this native type.
    pub fn as_cranelift_abi(&self) -> (r: AbiKind)
        ensures
            r == spec_cranelift_abi(*self),
    {
        match self {
            NativeType::ConstPtr => AbiKind::Int64,
            NativeType::MutPtr => AbiKind::Int64,
            NativeType::Ref => AbiKind::Int64,
            NativeType::MutRef => AbiKind::Int64,
            NativeType::Usize => AbiKind::Int64,
            NativeType::Isize => AbiKind::Int64,
            NativeType::U32 => AbiKind::Int32,
            NativeType::I32 => AbiKind::Int32,
            NativeType::U16 => AbiKind::Int16,
            NativeType::I16 => AbiKind::Int16,
            NativeType::U8 => AbiKind::Int8,
            NativeType::I8 => AbiKind::Int8,
            NativeType::F32 => AbiKind::Float32,
            NativeType::F64 => AbiKind::Float64,
        }
    }
}

/// A function signature as the code generator sees it.
#[derive(Debug, Clone, PartialEq, Eq)]
pub struct AbiSignature {
    pub params: Vec<AbiKind>,
    pub ret: AbiKind,
}

/// The signature of the original virtual function at a hooked slot: the
/// receiver (a pointer, so a 64-bit integer) first, then the descriptors of
/// the argument types, returning the descriptor of the return type.
pub fn original_signature(args: &Vec<NativeType>, ret: NativeType) -> (r: AbiSignature)
    ensures
        r.params@.len() == args@.len() + 1,
        r.params@[0] == AbiKind::Int64,
        forall|i: int| 0 <= i < args@.len() ==> r.params@[i + 1] == spec_cranelift_abi(args@[i]),
        r.ret == spec_cranelift_abi(ret),
{
    let mut params: Vec<AbiKind> = Vec::new();
    params.push(AbiKind::Int64);
    let mut i: usize = 0;
    while i < args.len()
        invariant
            i <= args@.len(),
            params@.len() == i + 1,
            params@[0] == AbiKind::Int64,
            forall|j: int| 0 <= j < i ==> params@[j + 1] == spec_cranelift_abi(args@[j]),
        decreases args@.len() - i,
    {
        params.push(args[i].as_cranelift_abi());
        i = i + 1;
    }
    AbiSignature { params, ret: ret.as_cranelift_abi() }
}

/// The signature of the generic dispatcher a trampoline forwards to: the
/// original signature prefixed with one pointer-width integer parameter (the
/// hook slot index), returning the same type.
pub fn thunk_signature(original: &AbiSignature) -> (r: AbiSignature)
    ensures
        r.params@ == seq![AbiKind::Int64] + original.params@,
        r.ret == original.ret,
{
    let mut params: Vec<AbiKind> = Vec::new();
    params.push(AbiKind::Int64);
    let mut i: usize = 0;
    while i < original.params.len()
        invariant
            i <= original.params@.len(),
            params@.len() == i + 1,
            params@[0] == AbiKind::Int64,
            forall|j: int| 0 <= j < i ==> params@[j + 1] == original.params@[j],
        decreases original.params@.len() - i,
    {
        params.push(original.params[i]);
        i = i + 1;
    }
    proof {
        assert(params@ =~= seq![AbiKind::Int64] + original.params@);
    }
    AbiSignature { params, ret: original.ret }
}

/// The decimal digits of `n`, most significant first.
pub open spec fn decimal_digits(n: nat) -> Seq<char>
    decreases n,
{
    if n < 10 {
        seq![digit_char(n)]
    } else {
        decimal_digits(n / 10).push(digit_char(n % 10))
    }
}

/// The character for one decimal digit.
pub open spec fn digit_char(d: nat) -> char {
    if d == 0 {
        '0'
    } else if d == 1 {
        '1'
    } else if d == 2 {
        '2'
    } else if d == 3 {
        '3'
    } else if d == 4 {
        '4'
    } else if d == 5 {
        '5'
    } else if d == 6 {
        '6'
    } else if d == 7 {
        '7'
    } else if d == 8 {
        '8'
    } else {
        '9'
    }
}

/// The unique symbol name a trampoline is declared under: the fixed prefix
/// and the decimal digits of the closure shape's identifier.
pub open spec fn spec_trampoline_name(shape_id: u64) -> Seq<char> {
    "trampoline_"@ + decimal_digits(shape_id as nat)
}

fn push_decimal(n: u64, s: &mut String)
    ensures
        final(s)@ == old(s)@ + decimal_digits(n as nat),
    decreases n,
{
    if n >= 10 {
        push_decimal(n / 10, s);
    }
    let d = n % 10;
    match d {
        0 => s.append("0"),
        1 => s.append("1"),
        2 => s.append("2"),
        3 => s.append("3"),
        4 => s.append("4"),
        5 => s.append("5"),
        6 => s.append("6"),
        7 => s.append("7"),
        8 => s.append("8"),
        _ => s.append("9"),
    }
    proof {
        reveal_strlit("0");
        reveal_strlit("1");
        reveal_strlit("2");
        reveal_strlit("3");
        reveal_strlit("4");
        reveal_strlit("5");
        reveal_strlit("6");
        reveal_strlit("7");
        reveal_strlit("8");
        reveal_strlit("9");
        if n < 10 {
            assert(old(s)@ + decimal_digits(n as nat) =~= final(s)@);
        } else {
            assert(old(s)@ + decimal_digits(n as nat) =~= final(s)@);
        }
    }
}

/// The symbol name for a closure shape, distinct per shape identifier, so
/// that the trampolines of distinct shapes coexist in one JIT module.
pub fn unique_name(shape_id: u64) -> (r: String)
    ensures
        r@ == spec_trampoline_name(shape_id),
{
    let mut s = String::new();
    s.append("trampoline_");
    push_decimal(shape_id, &mut s);
    s
}

/// Everything the JIT needs to emit one trampoline, fixed here so that the
/// emitted stub can only be the intended one: the two immediates
/// it bakes in (the hook slot index and the address of the shape's
/// dispatcher), the stub's own signature (the original function's), the
/// signature it calls the dispatcher with (the same, prefixed with one
/// pointer-width integer), and the unique symbol name for the shape.
#[derive(Debug, Clone, PartialEq, Eq)]
pub struct TrampolinePlan {
    pub name: String,
    pub slot_immediate: usize,
    pub dispatcher_immediate: usize,
    pub original_sig: AbiSignature,
    pub thunk_sig: AbiSignature,
}

/// Plan the trampoline for hook slot `slot` of a closure of the given shape,
/// whose generic dispatcher lives at `dispatcher`.
pub fn make_trampoline_plan(
    slot: usize,
    dispatcher: usize,
    shape_id: u64,
    args: &Vec<NativeType>,
    ret: NativeType,
) -> (r: TrampolinePlan)
    ensures
        r.name@ == spec_trampoline_name(shape_id),
        r.slot_immediate == slot,
        r.dispatcher_immediate == dispatcher,
        r.original_sig.params@.len() == args@.len() + 1,
        r.original_sig.params@[0] == AbiKind::Int64,
        forall|i: int|
            0 <= i < args@.len() ==> r.original_sig.params@[i + 1] == spec_cranelift_abi(args@[i]),
        r.original_sig.ret == spec_cranelift_abi(ret),
        r.thunk_sig.params@ == seq![AbiKind::Int64] + r.original_sig.params@,
        r.thunk_sig.ret == r.original_sig.ret,
{
    let original_sig = original_signature(args, ret);
    let thunk_sig = thunk_signature(&original_sig);
    TrampolinePlan {
        name: unique_name(shape_id),
        slot_immediate: slot,
        dispatcher_immediate: dispatcher,
        original_sig,
        thunk_sig,
    }
}

} // verus!
