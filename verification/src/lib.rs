//! Virtual-method-table hooking, the verified core.
//!
//! A live object whose first machine word points at a null-terminated table of
//! function addresses can have selected entries diverted: the table is cloned,
//! the object's table pointer is swapped to the clone, and replacement entries
//! are written into the clone. Dropping the last hook restores everything.
//!
//! This crate holds the decision-making core as verified code over plain
//! values: table snapshots, slot arithmetic, the per-instance overlay state,
//! the process-wide overlay registry, the ABI descriptors and trampoline
//! plans for the JIT, and the address-plan evaluator. The thin unverified rim
//! that reads and writes raw process memory, emits machine code through the
//! JIT, and stores type-erased closures lives outside this crate and hands
//! plain values in and out.

pub mod method;
pub mod scan;
pub mod vmthook;
pub mod x86_64;
