//! ABI descriptors, signature construction over every arity, and the
//! trampoline plan.

use vmthook::vmthook::thunk::{
    make_trampoline_plan, original_signature, thunk_signature, unique_name, AbiKind, AbiSignature,
    NativeType,
};

#[test]
fn descriptor_table_is_exact() {
    // The descriptor table: pointers, references and pointer-width integers are
    // 64-bit integers; narrower integers and floats keep their width.
    let expect = [
        (NativeType::ConstPtr, AbiKind::Int64),
        (NativeType::MutPtr, AbiKind::Int64),
        (NativeType::Ref, AbiKind::Int64),
        (NativeType::MutRef, AbiKind::Int64),
        (NativeType::Usize, AbiKind::Int64),
        (NativeType::Isize, AbiKind::Int64),
        (NativeType::U32, AbiKind::Int32),
        (NativeType::I32, AbiKind::Int32),
        (NativeType::U16, AbiKind::Int16),
        (NativeType::I16, AbiKind::Int16),
        (NativeType::U8, AbiKind::Int8),
        (NativeType::I8, AbiKind::Int8),
        (NativeType::F32, AbiKind::Float32),
        (NativeType::F64, AbiKind::Float64),
    ];
    for (t, k) in expect {
        assert_eq!(t.as_cranelift_abi(), k);
    }
}

fn arg_matrix() -> Vec<NativeType> {
    vec![
        NativeType::Usize,
        NativeType::F32,
        NativeType::U8,
        NativeType::I16,
        NativeType::MutPtr,
    ]
}

#[test]
fn signatures_for_arities_zero_to_five() {
    // For every arity, the original signature is the receiver followed by
    // the argument descriptors, and the thunk signature is the same list
    // prefixed with one pointer-width integer for the slot index.
    let all = arg_matrix();
    for arity in 0..=all.len() {
        let args: Vec<NativeType> = all[..arity].to_vec();
        let original = original_signature(&args, NativeType::U32);
        assert_eq!(original.params.len(), arity + 1);
        assert_eq!(original.params[0], AbiKind::Int64, "receiver is a pointer");
        for (i, a) in args.iter().enumerate() {
            assert_eq!(original.params[i + 1], a.as_cranelift_abi());
        }
        assert_eq!(original.ret, AbiKind::Int32);

        let thunk = thunk_signature(&original);
        assert_eq!(thunk.params.len(), original.params.len() + 1);
        assert_eq!(thunk.params[0], AbiKind::Int64, "slot index parameter");
        assert_eq!(&thunk.params[1..], &original.params[..]);
        assert_eq!(thunk.ret, original.ret);
    }
}

#[test]
fn signature_for_each_abi_type() {
    for t in [
        NativeType::ConstPtr,
        NativeType::MutPtr,
        NativeType::Ref,
        NativeType::MutRef,
        NativeType::Usize,
        NativeType::Isize,
        NativeType::U32,
        NativeType::I32,
        NativeType::U16,
        NativeType::I16,
        NativeType::U8,
        NativeType::I8,
        NativeType::F32,
        NativeType::F64,
    ] {
        let sig: AbiSignature = original_signature(&vec![t], t);
        assert_eq!(sig.params[1], t.as_cranelift_abi());
        assert_eq!(sig.ret, t.as_cranelift_abi());
    }
}

#[test]
fn trampoline_plan_bakes_slot_and_dispatcher() {
    let args = vec![NativeType::Usize, NativeType::Usize];
    let plan = make_trampoline_plan(7, 0xd15b, 42, &args, NativeType::Usize);
    assert_eq!(plan.slot_immediate, 7);
    assert_eq!(plan.dispatcher_immediate, 0xd15b);
    assert_eq!(plan.name, "trampoline_42");
    assert_eq!(
        plan.original_sig.params,
        vec![AbiKind::Int64, AbiKind::Int64, AbiKind::Int64]
    );
    assert_eq!(
        plan.thunk_sig.params,
        vec![AbiKind::Int64, AbiKind::Int64, AbiKind::Int64, AbiKind::Int64]
    );
    assert_eq!(plan.thunk_sig.ret, AbiKind::Int64);
}

#[test]
fn trampoline_names_are_distinct_per_shape() {
    assert_eq!(unique_name(0), "trampoline_0");
    assert_eq!(unique_name(9), "trampoline_9");
    assert_eq!(unique_name(10), "trampoline_10");
    assert_eq!(unique_name(12345), "trampoline_12345");
    assert_eq!(unique_name(u64::MAX), "trampoline_18446744073709551615");
    let mut seen = Vec::new();
    for id in [0u64, 1, 9, 10, 11, 99, 100, 12345, u64::MAX] {
        let n = unique_name(id);
        assert!(!seen.contains(&n), "shape names must not collide");
        seen.push(n);
    }
}
