//! Models of the MSVC run-time type information records that sit next to a
//! virtual table, and the address arithmetic that locates the type descriptor
//! from a complete-object locator.
//!
//! The records live in the target image's read-only memory; the caller reads
//! their fields and hands them over as plain values.

use vstd::prelude::*;

verus! {

/// The complete-object locator an x86-64 MSVC vtable points at (one slot
/// before its first entry). All fields are image-relative 32-bit offsets.
#[derive(Debug, Clone, Copy, PartialEq, Eq, Structural)]
pub struct RTTICompleteObjectLocator {
    pub signature: u32,
    pub offset: u32,
    pub constructor_displacement_offset: u32,
    pub descriptor_offset: u32,
    pub class_descriptor_offset: u32,
    pub self_offset: u32,
}

impl RTTICompleteObjectLocator {
    /// Address of the type descriptor this locator refers to, given the
    /// address the locator itself was read from: the image base is recovered
    /// by walking `self_offset` bytes back (clamped at zero), and the
    /// descriptor sits `descriptor_offset` bytes past the base.
    pub fn type_descriptor(&self, self_address: usize) -> (r: usize)
        requires
            spec_image_base(self_address, self.self_offset) + self.descriptor_offset <= usize::MAX,
        ensures
            r == spec_image_base(self_address, self.self_offset) + self.descriptor_offset,
    {
        let image_base = if self_address >= self.self_offset as usize {
            self_address - self.self_offset as usize
        } else {
            0
        };
        image_base + self.descriptor_offset as usize
    }
}

/// The image base recovered from a locator's address: `self_offset` bytes
/// back, saturating at zero.
pub open spec fn spec_image_base(self_address: usize, self_offset: u32) -> int {
    if self_address >= self_offset {
        self_address - self_offset
    } else {
        0
    }
}

/// The type descriptor a locator points at, as plain values: the two leading
/// pointer-width words and the decorated class name whose bytes trail the
/// record.
#[derive(Debug, Clone, PartialEq, Eq)]
pub struct TypeDescriptor {
    vtable: usize,
    spare: usize,
    name_bytes: Vec<u8>,
}

impl TypeDescriptor {
    /// The descriptor's leading vtable word.
    pub closed spec fn vtable_ptr(self) -> usize {
        self.vtable
    }

    /// The descriptor's spare word.
    pub closed spec fn spare_ptr(self) -> usize {
        self.spare
    }

    /// The decorated class name.
    pub closed spec fn name(self) -> Seq<u8> {
        self.name_bytes@
    }

    /// Package a descriptor read from the image; `name_bytes` are the bytes
    /// of the trailing name up to, not including, its null terminator.
    pub fn new(vtable: usize, spare: usize, name_bytes: Vec<u8>) -> (r: TypeDescriptor)
        ensures
            r.vtable_ptr() == vtable,
            r.spare_ptr() == spare,
            r.name() == name_bytes@,
    {
        TypeDescriptor { vtable, spare, name_bytes }
    }

    /// The decorated class name's bytes.
    pub fn name_ref(&self) -> (r: &Vec<u8>)
        ensures
            r@ == self.name(),
    {
        &self.name_bytes
    }
}

} // verus!
