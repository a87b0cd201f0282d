//! The address-plan evaluator: from a starting address and a sequence of
//! [`Action`]s to a final address.
//!
//! Some actions are pure arithmetic; others continue with a value that only
//! the running process can produce — a word of target memory, an instruction
//! word, or a caller-supplied custom function's result. The evaluator is
//! therefore split into two verified steps the caller alternates between:
//! [`step_request`] says what (if anything) must be fetched for the next
//! action at the current address, and [`step_apply`] turns the fetched value
//! into the next address. The caller's loop does nothing but fetch.

pub mod aarch64;
pub mod x86_64;

use vstd::prelude::*;

use crate::method::aarch64::spec_decoded_kind;
use crate::method::aarch64::spec_immediate;
use crate::method::aarch64::spec_immediate_error;
use crate::method::aarch64::spec_resolve_page_and_offset;

verus! {

/// One step of an address plan.
#[derive(Debug, Clone, PartialEq, Eq)]
pub enum Action {
    /// Displace the address by a constant.
    Add { offset: isize },
    /// Follow a 32-bit PC-relative reference whose field sits `offset` bytes
    /// ahead.
    ResolveRelative { offset: usize },
    /// Read the pointer-width word at the address.
    Dereference {},
    /// Combine the page displacement and the page offset of the two
    /// instruction words at the address.
    ResolvePageAndOffsetAddress { offset: usize },
    /// Continue with the immediate of the instruction word at the address.
    ImmediateFromInstructionAtAddress {},
    /// Displace the address by the immediate of the instruction word at the
    /// address.
    ResolveImmediateRelativeAddress {},
    /// Combine the page displacement and the page offset of the two
    /// instruction words at the address.
    ResolvePageOffsetRelativeAddress {},
    /// Run the caller-supplied function registered under `name`.
    Custom { name: String },
}

/// The architecture a plan runs on; each action is implemented on one of the
/// two.
#[derive(Debug, Clone, Copy, PartialEq, Eq, Structural)]
pub enum Arch {
    X86_64,
    Aarch64,
}

/// Everything a plan can fail with.
#[derive(Debug, Clone, PartialEq, Eq)]
pub enum PlanError {
    /// A checked address calculation left the address space; `address` and
    /// `offset` are the offending inputs.
    ArithmeticOverflow { address: usize, offset: i128 },
    /// The action is not implemented on the current architecture.
    UnsupportedAction,
    /// A custom action named a function the caller never supplied.
    UnknownCustomAction { name: String },
    /// The word is not a valid instruction.
    UndecodableInstruction { raw: u32 },
    /// The instruction carries no immediate the evaluator knows how to read.
    UnsupportedInstruction { raw: u32 },
}

/// What the caller must produce before the next action can be applied.
#[derive(Debug, Clone, Copy, PartialEq, Eq, Structural)]
pub enum Fetch {
    /// Nothing: the action is pure arithmetic.
    Nothing,
    /// The pointer-width word at `at`.
    ReadWord { at: usize },
    /// The 32-bit little-endian value at `at`, as a signed displacement.
    ReadI32 { at: usize },
    /// The instruction word at `at`.
    ReadInsn { at: usize },
    /// The instruction words at `first` and `second`.
    ReadInsnPair { first: usize, second: usize },
    /// The result of the action's custom function on the current address.
    RunCustom,
}

/// The caller's answer to a [`Fetch`].
#[derive(Debug, Clone, Copy, PartialEq, Eq, Structural)]
pub enum Fetched {
    Nothing,
    Word { value: usize },
    I32 { value: i32 },
    Insn { raw: u32 },
    InsnPair { first: u32, second: u32 },
    Custom { value: usize },
}

/// `name` appears among the registered custom action names.
pub open spec fn spec_contains_name(names: Seq<String>, name: Seq<char>) -> bool {
    exists|i: int| 0 <= i < names.len() && names[i]@ == name
}

/// What [`step_request`] answers: which fetch the action needs at `address`,
/// or why the plan stops here.
pub open spec fn spec_request(
    arch: Arch,
    address: usize,
    action: Action,
    names: Seq<String>,
) -> Result<Fetch, PlanError> {
    match action {
        Action::Add { .. } => Ok(Fetch::Nothing),
        Action::ResolveRelative { offset } => {
            if arch is X86_64 {
                if address + offset <= usize::MAX {
                    Ok(Fetch::ReadI32 { at: (address + offset) as usize })
                } else {
                    Err(PlanError::ArithmeticOverflow { address, offset: offset as i128 })
                }
            } else {
                Err(PlanError::UnsupportedAction)
            }
        },
        Action::Dereference { .. } => {
            if arch is X86_64 {
                Ok(Fetch::ReadWord { at: address })
            } else {
                Err(PlanError::UnsupportedAction)
            }
        },
        Action::ResolvePageAndOffsetAddress { .. } => spec_request_insn_pair(arch, address),
        Action::ImmediateFromInstructionAtAddress { .. } => spec_request_insn(arch, address),
        Action::ResolveImmediateRelativeAddress { .. } => spec_request_insn(arch, address),
        Action::ResolvePageOffsetRelativeAddress { .. } => spec_request_insn_pair(arch, address),
        Action::Custom { name } => {
            if spec_contains_name(names, name@) {
                Ok(Fetch::RunCustom)
            } else {
                Err(PlanError::UnknownCustomAction { name })
            }
        },
    }
}

/// One instruction word is read at the address (the AArch64 actions).
pub open spec fn spec_request_insn(arch: Arch, address: usize) -> Result<Fetch, PlanError> {
    if arch is Aarch64 {
        Ok(Fetch::ReadInsn { at: address })
    } else {
        Err(PlanError::UnsupportedAction)
    }
}

/// Two consecutive instruction words are read at the address.
pub open spec fn spec_request_insn_pair(arch: Arch, address: usize) -> Result<Fetch, PlanError> {
    if arch is Aarch64 {
        if address + 4 <= usize::MAX {
            Ok(Fetch::ReadInsnPair { first: address, second: (address + 4) as usize })
        } else {
            Err(PlanError::ArithmeticOverflow { address, offset: 4 as i128 })
        }
    } else {
        Err(PlanError::UnsupportedAction)
    }
}

/// Does `name` appear among the registered custom action names?
fn contains_name(names: &Vec<String>, name: &String) -> (r: bool)
    ensures
        r == spec_contains_name(names@, name@),
{
    let mut i: usize = 0;
    while i < names.len()
        invariant
            i <= names@.len(),
            forall|j: int| 0 <= j < i ==> names@[j]@ != name@,
        decreases names@.len() - i,
    {
        if names[i] == *name {
            return true;
        }
        i = i + 1;
    }
    false
}

/// Say what must be fetched before `action` can be applied at `address`:
/// nothing, a memory or instruction read, or a run of the custom function —
/// or reject the action (not implemented on `arch`; custom name never
/// registered; the read's address leaves the address space).
pub fn step_request(arch: Arch, address: usize, action: &Action, custom_names: &Vec<String>) -> (r:
    Result<Fetch, PlanError>)
    ensures
        r == spec_request(arch, address, *action, custom_names@),
{
    match action {
        Action::Add { .. } => Ok(Fetch::Nothing),
        Action::ResolveRelative { offset } => {
            if let Arch::X86_64 = arch {
                match address.checked_add(*offset) {
                    Some(at) => Ok(Fetch::ReadI32 { at }),
                    None => Err(
                        PlanError::ArithmeticOverflow { address, offset: (*offset) as i128 },
                    ),
                }
            } else {
                Err(PlanError::UnsupportedAction)
            }
        },
        Action::Dereference { .. } => {
            if let Arch::X86_64 = arch {
                Ok(Fetch::ReadWord { at: address })
            } else {
                Err(PlanError::UnsupportedAction)
            }
        },
        Action::ResolvePageAndOffsetAddress { .. } => step_request_insn_pair(arch, address),
        Action::ImmediateFromInstructionAtAddress { .. } => step_request_insn(arch, address),
        Action::ResolveImmediateRelativeAddress { .. } => step_request_insn(arch, address),
        Action::ResolvePageOffsetRelativeAddress { .. } => step_request_insn_pair(arch, address),
        Action::Custom { name } => {
            if contains_name(custom_names, name) {
                Ok(Fetch::RunCustom)
            } else {
                Err(PlanError::UnknownCustomAction { name: name.clone() })
            }
        },
    }
}

fn step_request_insn(arch: Arch, address: usize) -> (r: Result<Fetch, PlanError>)
    ensures
        r == spec_request_insn(arch, address),
{
    if let Arch::Aarch64 = arch {
        Ok(Fetch::ReadInsn { at: address })
    } else {
        Err(PlanError::UnsupportedAction)
    }
}

fn step_request_insn_pair(arch: Arch, address: usize) -> (r: Result<Fetch, PlanError>)
    ensures
        r == spec_request_insn_pair(arch, address),
{
    if let Arch::Aarch64 = arch {
        match address.checked_add(4) {
            Some(second) => Ok(Fetch::ReadInsnPair { first: address, second }),
            None => Err(PlanError::ArithmeticOverflow { address, offset: 4 }),
        }
    } else {
        Err(PlanError::UnsupportedAction)
    }
}

/// The fetched value has the shape the action at this architecture consumes.
pub open spec fn input_matches(arch: Arch, action: Action, input: Fetched) -> bool {
    match action {
        Action::Add { .. } => input is Nothing,
        Action::ResolveRelative { .. } => arch is X86_64 && input is I32,
        Action::Dereference { .. } => arch is X86_64 && input is Word,
        Action::ResolvePageAndOffsetAddress { .. } => arch is Aarch64 && input is InsnPair,
        Action::ImmediateFromInstructionAtAddress { .. } => arch is Aarch64 && input is Insn,
        Action::ResolveImmediateRelativeAddress { .. } => arch is Aarch64 && input is Insn,
        Action::ResolvePageOffsetRelativeAddress { .. } => arch is Aarch64 && input is InsnPair,
        Action::Custom { .. } => input is Custom,
    }
}

/// A signed immediate as the evaluator widens it to an address: negative
/// values wrap around the 64-bit address space, as the machine's own
/// truncating cast does.
pub open spec fn spec_widen_immediate(v: int) -> int {
    ((v as isize) as usize) as int
}

/// The next address `action` produces at `address` from the fetched `input`,
/// or why the plan stops. The result is exact: every address calculation is
/// checked, and an overflow reports the offending inputs.
pub open spec fn spec_apply(arch: Arch, address: usize, action: Action, input: Fetched) -> Result<
    int,
    PlanError,
> {
    match (action, input) {
        (Action::Add { offset }, Fetched::Nothing) => {
            if 0 <= address + offset <= usize::MAX {
                Ok(address + offset)
            } else {
                Err(PlanError::ArithmeticOverflow { address, offset: offset as i128 })
            }
        },
        (Action::ResolveRelative { offset }, Fetched::I32 { value }) => {
            let target = address + value + offset + 4;
            if 0 <= target <= usize::MAX {
                Ok(target)
            } else {
                Err(
                    PlanError::ArithmeticOverflow {
                        address,
                        offset: (value + offset + 4) as i128,
                    },
                )
            }
        },
        (Action::Dereference { .. }, Fetched::Word { value }) => Ok(value as int),
        (
            Action::ResolvePageAndOffsetAddress { .. },
            Fetched::InsnPair { first, second },
        ) => spec_resolve_page_and_offset(address, first, second),
        (Action::ImmediateFromInstructionAtAddress { .. }, Fetched::Insn { raw }) => {
            match spec_immediate(spec_decoded_kind(raw), raw) {
                Some(v) => Ok(spec_widen_immediate(v)),
                None => Err(spec_immediate_error(spec_decoded_kind(raw), raw)),
            }
        },
        (Action::ResolveImmediateRelativeAddress { .. }, Fetched::Insn { raw }) => {
            match spec_immediate(spec_decoded_kind(raw), raw) {
                Some(v) => {
                    if 0 <= address + v <= usize::MAX {
                        Ok(address + v)
                    } else {
                        Err(PlanError::ArithmeticOverflow { address, offset: v as i128 })
                    }
                },
                None => Err(spec_immediate_error(spec_decoded_kind(raw), raw)),
            }
        },
        (
            Action::ResolvePageOffsetRelativeAddress { .. },
            Fetched::InsnPair { first, second },
        ) => spec_resolve_page_and_offset(address, first, second),
        (Action::Custom { .. }, Fetched::Custom { value }) => Ok(value as int),
        _ => Err(PlanError::UnsupportedAction),
    }
}

/// Apply `action` at `address` to the fetched `input` and return the next
/// address.
pub fn step_apply(arch: Arch, address: usize, action: &Action, input: &Fetched) -> (r: Result<
    usize,
    PlanError,
>)
    requires
        input_matches(arch, *action, *input),
    ensures
        match spec_apply(arch, address, *action, *input) {
            Ok(v) => r is Ok && r->Ok_0 == v,
            Err(e) => r == Err::<usize, PlanError>(e),
        },
{
    match (action, input) {
        (Action::Add { offset }, Fetched::Nothing) => {
            match address.checked_add_signed(*offset) {
                Some(v) => Ok(v),
                None => Err(PlanError::ArithmeticOverflow { address, offset: (*offset) as i128 }),
            }
        },
        (Action::ResolveRelative { offset }, Fetched::I32 { value }) => {
            let target: i128 = address as i128 + *value as i128 + *offset as i128 + 4;
            if 0 <= target && target <= usize::MAX as i128 {
                Ok(target as usize)
            } else {
                Err(
                    PlanError::ArithmeticOverflow {
                        address,
                        offset: *value as i128 + *offset as i128 + 4,
                    },
                )
            }
        },
        (Action::Dereference { .. }, Fetched::Word { value }) => Ok(*value),
        (Action::ResolvePageAndOffsetAddress { .. }, Fetched::InsnPair { first, second }) => {
            aarch64::resolve_page_and_offset_load_at_address(address, *first, *second)
        },
        (Action::ImmediateFromInstructionAtAddress { .. }, Fetched::Insn { raw }) => {
            match aarch64::immediate_from_instruction_word(*raw) {
                Ok(v) => Ok(v as usize),
                Err(e) => Err(e),
            }
        },
        (Action::ResolveImmediateRelativeAddress { .. }, Fetched::Insn { raw }) => {
            proof {
                aarch64::lemma_immediate_bounds(spec_decoded_kind(*raw), *raw);
            }
            match aarch64::immediate_from_instruction_word(*raw) {
                Ok(v) => {
                    match address.checked_add_signed(v) {
                        Some(next) => Ok(next),
                        None => Err(PlanError::ArithmeticOverflow { address, offset: v as i128 }),
                    }
                },
                Err(e) => Err(e),
            }
        },
        (Action::ResolvePageOffsetRelativeAddress { .. }, Fetched::InsnPair { first, second }) => {
            aarch64::resolve_page_and_offset_load_at_address(address, *first, *second)
        },
        (Action::Custom { .. }, Fetched::Custom { value }) => Ok(*value),
        _ => Err(PlanError::UnsupportedAction),
    }
}

} // verus!
