//! AArch64 instruction immediates for the address-plan evaluator.
//!
//! A plan step may read an instruction word from the target and continue with
//! the immediate encoded in it. The decoder only classifies the word; every
//! bit of arithmetic — field extraction, sign extension, scaling, page
//! alignment — is done here, verified, on the raw word.

use vstd::prelude::*;

use crate::method::PlanError;

verus! {

/// The instruction classes the plan evaluator reads immediates from, plus the
/// two failure classes. Produced by [`decode_kind`] from a raw word.
#[derive(Debug, Clone, Copy, PartialEq, Eq, Structural)]
pub enum DecodedKind {
    /// `LDR <Rt>, [<Xn>, #uimm12]` — load with scaled unsigned offset.
    LdrUimm12,
    /// `BL <label>` — branch with link, 26-bit scaled PC-relative target.
    BlPcrel26,
    /// `ADRP <Rd>, <label>` — form PC-relative address to a 4KB page.
    AdrpPcrel,
    /// `ADD <Rd|SP>, <Rn|SP>, #imm12 {, LSL #12}` — add immediate.
    AddImm,
    /// A valid instruction of some other class.
    Other,
    /// Not a valid AArch64 instruction word.
    Undecodable,
}

/// What `disarm64::decoder::decode` classifies a 32-bit instruction word as:
/// a function of the word alone.
pub uninterp spec fn spec_decoded_kind(raw: u32) -> DecodedKind;

/// Relies on disarm64::decoder::decode (a pure table decoder): classifies one
/// AArch64 instruction word; the result depends on the word alone. Only the
/// four instructions the plan evaluator reads immediates from are told apart.
#[verifier::external_body]
pub fn decode_kind(raw: u32) -> (r: DecodedKind)
    ensures
        r == spec_decoded_kind(raw),
{
    match disarm64::decoder::decode(raw) {
        None => DecodedKind::Undecodable,
        Some(op) => match op.id() {
            disarm64::decoder::InsnId::LDR_Rt_ADDR_UIMM12 => DecodedKind::LdrUimm12,
            disarm64::decoder::InsnId::BL_ADDR_PCREL26 => DecodedKind::BlPcrel26,
            disarm64::decoder::InsnId::ADRP_Rd_ADDR_ADRP => DecodedKind::AdrpPcrel,
            disarm64::decoder::InsnId::ADD_Rd_SP_Rn_SP_AIMM => DecodedKind::AddImm,
            _ => DecodedKind::Other,
        },
    }
}

/// The immediate each recognized instruction class carries, as the evaluator
/// uses it; `None` for the classes that carry none.
///
/// * `LDR`: bits 21..10 are the scaled offset field; the evaluator keeps the
///   historical masking of that field with 12 before scaling by 8.
/// * `BL`: bits 25..0, sign-extended from 26 bits, times the 4-byte unit.
/// * `ADRP`: bits 23..5 (high) and 31..29 (low) joined, sign-extended from
///   21 bits: the page displacement.
/// * `ADD`: bits 21..10, shifted left 12 when bit 22 is set.
pub open spec fn spec_immediate(kind: DecodedKind, raw: u32) -> Option<int> {
    match kind {
        DecodedKind::LdrUimm12 => Some(((((raw >> 10) & 0xfff) & 12) << 3) as int),
        DecodedKind::BlPcrel26 => {
            let imm26 = (raw & 0x3ffffff) as int;
            if imm26 < 0x2000000 {
                Some(4 * imm26)
            } else {
                Some(4 * (imm26 - 0x4000000))
            }
        },
        DecodedKind::AdrpPcrel => {
            let combined = ((((raw >> 5) & 0x7ffff) << 2) | ((raw >> 29) & 3)) as int;
            if combined < 0x100000 {
                Some(combined)
            } else {
                Some(combined - 0x200000)
            }
        },
        DecodedKind::AddImm => Some((((raw >> 10) & 0xfff) << (((raw >> 22) & 1) * 12)) as int),
        DecodedKind::Other => None,
        DecodedKind::Undecodable => None,
    }
}

/// The error reported for a word that carries no immediate.
pub open spec fn spec_immediate_error(kind: DecodedKind, raw: u32) -> PlanError {
    if kind is Undecodable {
        PlanError::UndecodableInstruction { raw }
    } else {
        PlanError::UnsupportedInstruction { raw }
    }
}

/// Every immediate an instruction can carry is small: at most 2^28 in
/// magnitude (the BL displacement range; the other classes are narrower).
pub proof fn lemma_immediate_bounds(kind: DecodedKind, raw: u32)
    ensures
        spec_immediate(kind, raw) matches Some(v) ==> -0x10000000 <= v <= 0x10000000,
{
    assert((((raw >> 10) & 0xfff) & 12) << 3 <= 96) by (bit_vector);
    assert(raw & 0x3ffffff < 0x4000000) by (bit_vector);
    assert(((((raw >> 5) & 0x7ffff) << 2) | ((raw >> 29) & 3)) < 0x200000) by (bit_vector);
    assert(((raw >> 10) & 0xfff) << (((raw >> 22) & 1) * 12) <= 0xfff000) by (bit_vector);
}

/// The immediate of one recognized instruction class: the decoder hands the
/// class, the word itself carries the bits.
pub fn get_immediate(kind: DecodedKind, raw: u32) -> (r: Result<isize, PlanError>)
    ensures
        match spec_immediate(kind, raw) {
            Some(v) => r == Ok::<isize, PlanError>(v as isize),
            None => r == Err::<isize, PlanError>(spec_immediate_error(kind, raw)),
        },
{
    proof {
        lemma_immediate_bounds(kind, raw);
    }
    match kind {
        DecodedKind::LdrUimm12 => {
            let imm12 = (raw >> 10) & 0xfff;
            proof {
                assert((((raw >> 10) & 0xfff) & 12) << 3 <= 96) by (bit_vector);
            }
            Ok((((imm12 & 12) << 3) as isize))
        },
        DecodedKind::BlPcrel26 => {
            let imm26 = raw & 0x3ffffff;
            proof {
                assert(raw & 0x3ffffff < 0x4000000) by (bit_vector);
            }
            if imm26 < 0x2000000 {
                Ok((imm26 as isize) * 4)
            } else {
                Ok(((imm26 as isize) - 0x4000000) * 4)
            }
        },
        DecodedKind::AdrpPcrel => {
            let immhi = (raw >> 5) & 0x7ffff;
            let immlo = (raw >> 29) & 3;
            proof {
                assert(((((raw >> 5) & 0x7ffff) << 2) | ((raw >> 29) & 3)) < 0x200000)
                    by (bit_vector);
            }
            let combined = (immhi << 2u32) | immlo;
            if combined < 0x100000 {
                Ok(combined as isize)
            } else {
                Ok((combined as isize) - 0x200000)
            }
        },
        DecodedKind::AddImm => {
            let imm12 = (raw >> 10) & 0xfff;
            let shift = (raw >> 22) & 1;
            proof {
                assert(((raw >> 22) & 1) <= 1) by (bit_vector);
                assert(((raw >> 10) & 0xfff) << (((raw >> 22) & 1) * 12) <= 0xfff000)
                    by (bit_vector);
            }
            Ok((imm12 << (shift * 12)) as isize)
        },
        DecodedKind::Other => Err(PlanError::UnsupportedInstruction { raw }),
        DecodedKind::Undecodable => Err(PlanError::UndecodableInstruction { raw }),
    }
}

/// Decode one instruction word and return the immediate it carries.
pub fn immediate_from_instruction_word(raw: u32) -> (r: Result<isize, PlanError>)
    ensures
        match spec_immediate(spec_decoded_kind(raw), raw) {
            Some(v) => r == Ok::<isize, PlanError>(v as isize),
            None => r == Err::<isize, PlanError>(
                spec_immediate_error(spec_decoded_kind(raw), raw),
            ),
        },
{
    let kind = decode_kind(raw);
    get_immediate(kind, raw)
}

/// `address + offset`, the plain PC-relative step. The caller rules the
/// overflowing inputs out, as the evaluator does before calling.
pub fn resolve_relative_address(address: usize, offset: isize) -> (r: usize)
    requires
        0 <= address + offset <= usize::MAX,
    ensures
        r == address + offset,
{
    address.checked_add_signed(offset).unwrap()
}

/// The page an `ADRP` at `address` forms, displaced by `offset` pages: the
/// instruction's own 4KB page (of the following instruction address, as the
/// evaluator has always computed it), plus `offset * 4096`.
pub fn resolve_page_aligned_relative_address(address: usize, offset: isize) -> (r: usize)
    requires
        address + 4 <= usize::MAX,
        0 <= spec_page_base(address) + offset * 4096 <= usize::MAX,
    ensures
        r == spec_page_base(address) + offset * 4096,
{
    let page = (address + 4) & !0xfff;
    let target: i128 = page as i128 + (offset as i128) * 4096;
    target as usize
}

/// The 4KB page base an `ADRP` at `address` is taken to form.
pub open spec fn spec_page_base(address: usize) -> int {
    (((address + 4) as usize) & !0xfff) as int
}

/// The full page-and-offset load at `address`: the result of combining the
/// immediates of the two instruction words found at `address` and
/// `address + 4` — page base plus page displacement from the first word, plus
/// the second word's immediate. Errors: a word without an immediate reports
/// itself; an address computation that leaves the address space reports the
/// offending inputs.
pub open spec fn spec_resolve_page_and_offset(address: usize, first: u32, second: u32) -> Result<
    int,
    PlanError,
> {
    if address + 4 > usize::MAX {
        Err(PlanError::ArithmeticOverflow { address, offset: 4 as i128 })
    } else {
        match spec_immediate(spec_decoded_kind(first), first) {
            None => Err(spec_immediate_error(spec_decoded_kind(first), first)),
            Some(page_imm) => {
                let page = spec_page_base(address) + page_imm * 4096;
                if !(0 <= page <= usize::MAX) {
                    Err(
                        PlanError::ArithmeticOverflow {
                            address,
                            offset: (page_imm * 4096) as i128,
                        },
                    )
                } else {
                    match spec_immediate(spec_decoded_kind(second), second) {
                        None => Err(spec_immediate_error(spec_decoded_kind(second), second)),
                        Some(off_imm) => {
                            if !(0 <= page + off_imm <= usize::MAX) {
                                Err(
                                    PlanError::ArithmeticOverflow {
                                        address: page as usize,
                                        offset: off_imm as i128,
                                    },
                                )
                            } else {
                                Ok(page + off_imm)
                            }
                        },
                    }
                }
            },
        }
    }
}

/// Resolve a page-and-offset load: the `ADRP`-style word at `address` gives
/// the page, the word at `address + 4` gives the offset into it.
pub fn resolve_page_and_offset_load_at_address(address: usize, first: u32, second: u32) -> (r:
    Result<usize, PlanError>)
    ensures
        match spec_resolve_page_and_offset(address, first, second) {
            Ok(v) => r is Ok && r->Ok_0 == v,
            Err(e) => r == Err::<usize, PlanError>(e),
        },
{
    if address > usize::MAX - 4 {
        return Err(PlanError::ArithmeticOverflow { address, offset: 4 });
    }
    let page_imm = match immediate_from_instruction_word(first) {
        Ok(v) => v,
        Err(e) => {
            return Err(e);
        },
    };
    proof {
        lemma_immediate_bounds(spec_decoded_kind(first), first);
    }
    let base = (address + 4) & !0xfff;
    let page_t: i128 = base as i128 + (page_imm as i128) * 4096;
    if !(0 <= page_t && page_t <= usize::MAX as i128) {
        return Err(PlanError::ArithmeticOverflow { address, offset: (page_imm as i128) * 4096 });
    }
    let page = page_t as usize;
    let off_imm = match immediate_from_instruction_word(second) {
        Ok(v) => v,
        Err(e) => {
            return Err(e);
        },
    };
    proof {
        lemma_immediate_bounds(spec_decoded_kind(second), second);
    }
    let target: i128 = page as i128 + off_imm as i128;
    if !(0 <= target && target <= usize::MAX as i128) {
        return Err(PlanError::ArithmeticOverflow { address: page, offset: off_imm as i128 });
    }
    Ok(target as usize)
}

} // verus!
