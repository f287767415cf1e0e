//! Register bit fields and the field arithmetic of `tock_registers`.

use tock_registers::fields::{Field, FieldValue};
use vstd::prelude::*;

verus! {

/// A bit field of a 32-bit register: an unshifted mask and the offset of its
/// lowest bit.
#[derive(Clone, Copy, Debug, PartialEq, Eq)]
pub struct RegField {
    pub mask: u32,
    pub shift: u32,
}

/// A value for some bits of a register, already shifted into place, together
/// with the mask of the bits it covers.
#[derive(Clone, Copy, Debug, PartialEq, Eq)]
pub struct FieldVal {
    pub mask: u32,
    pub value: u32,
}

impl RegField {
    /// The field lies inside a 32-bit register: no bit of its mask is
    /// shifted out.
    pub open spec fn wf(self) -> bool {
        &&& self.shift < 32
        &&& (self.mask << self.shift) >> self.shift == self.mask
    }

    /// The field value that sets this field to `v` (truncated to the field).
    pub open spec fn spec_val(self, v: u32) -> FieldVal {
        FieldVal { mask: self.mask << self.shift, value: (v & self.mask) << self.shift }
    }

    /// The contents of this field in the register value `x`.
    pub open spec fn spec_read(self, x: u32) -> u32 {
        (x & (self.mask << self.shift)) >> self.shift
    }
}

impl FieldVal {
    /// The value sets no bit outside its mask.
    pub open spec fn wf(self) -> bool {
        self.value & !self.mask == 0
    }

    /// Two field values combined: both masks and both values.
    pub open spec fn spec_add(self, other: FieldVal) -> FieldVal {
        FieldVal { mask: self.mask | other.mask, value: self.value | other.value }
    }

    /// The register value `x` with the covered bits replaced by this value.
    pub open spec fn spec_modify(self, x: u32) -> u32 {
        (x & !self.mask) | self.value
    }

    /// Every covered bit of `x` equals the bit of this value.
    pub open spec fn spec_matches_all(self, x: u32) -> bool {
        x & self.mask == self.value
    }
}

/// `tock_registers::fields::Field::val`: the field value is the argument
/// masked to the field and shifted into place; its mask is the field mask
/// shifted into place.
#[verifier::external_body]
pub(crate) fn field_val(f: RegField, v: u32) -> (r: FieldVal)
    requires
        f.wf(),
    ensures
        r == f.spec_val(v),
{
    let fv = Field::<u32, ()>::new(f.mask, f.shift as usize).val(v);
    FieldVal { mask: fv.mask(), value: fv.value }
}

/// `tock_registers::fields::Field::read`: the bits of the field in `x`,
/// shifted down to bit 0.
#[verifier::external_body]
pub(crate) fn field_read(f: RegField, x: u32) -> (r: u32)
    requires
        f.wf(),
    ensures
        r == f.spec_read(x),
{
    Field::<u32, ()>::new(f.mask, f.shift as usize).read(x)
}

/// `FieldValue + FieldValue` of `tock_registers`: the union of the masks and
/// of the values.
#[verifier::external_body]
pub(crate) fn field_add(a: FieldVal, b: FieldVal) -> (r: FieldVal)
    requires
        a.wf(),
        b.wf(),
    ensures
        r == a.spec_add(b),
{
    let sum = FieldValue::<u32, ()>::new(a.mask, 0, a.value) + FieldValue::<u32, ()>::new(
        b.mask,
        0,
        b.value,
    );
    FieldVal { mask: sum.mask(), value: sum.value }
}

/// `tock_registers::fields::FieldValue::matches_all`: the covered bits of
/// `x` equal the value.
#[verifier::external_body]
pub(crate) fn field_matches_all(fv: FieldVal, x: u32) -> (r: bool)
    requires
        fv.wf(),
    ensures
        r == fv.spec_matches_all(x),
{
    FieldValue::<u32, ()>::new(fv.mask, 0, fv.value).matches_all(x)
}

/// A field value built by `val` covers only bits of its mask.
pub proof fn lemma_val_wf(f: RegField, v: u32)
    requires
        f.wf(),
    ensures
        f.spec_val(v).wf(),
{
    let m = f.mask;
    let s = f.shift;
    assert(((v & m) << s) & !(m << s) == 0) by (bit_vector)
        requires
            s < 32,
    ;
}

/// Combining two well-formed field values gives a well-formed field value.
pub proof fn lemma_add_wf(a: FieldVal, b: FieldVal)
    requires
        a.wf(),
        b.wf(),
    ensures
        a.spec_add(b).wf(),
{
    let (am, av, bm, bv) = (a.mask, a.value, b.mask, b.value);
    assert((av | bv) & !(am | bm) == 0) by (bit_vector)
        requires
            av & !am == 0,
            bv & !bm == 0,
    ;
}

/// Reading a field back from the value written to it gives the written value
/// truncated to the field.
pub proof fn lemma_read_val(f: RegField, v: u32)
    requires
        f.wf(),
    ensures
        f.spec_read(f.spec_val(v).value) == v & f.mask,
{
    let m = f.mask;
    let s = f.shift;
    assert((((v & m) << s) & (m << s)) >> s == v & m) by (bit_vector)
        requires
            s < 32,
            (m << s) >> s == m,
    ;
}

/// Modifying a register value with a field's value sets that field to the
/// value (truncated to the field) and leaves every other bit as it was.
pub proof fn lemma_modify_sets_field_only(f: RegField, v: u32, x: u32)
    requires
        f.wf(),
    ensures
        f.spec_read(f.spec_val(v).spec_modify(x)) == v & f.mask,
        f.spec_val(v).spec_modify(x) & !(f.mask << f.shift) == x & !(f.mask << f.shift),
{
    let m = f.mask;
    let s = f.shift;
    assert(((((x & !(m << s)) | ((v & m) << s)) & (m << s)) >> s == v & m) && (((x & !(m << s))
        | ((v & m) << s)) & !(m << s) == x & !(m << s))) by (bit_vector)
        requires
            s < 32,
            (m << s) >> s == m,
    ;
}

/// Modifying a field twice keeps only the second value: clearing after
/// setting is the same as clearing.
pub proof fn lemma_modify_twice(f: RegField, v1: u32, v2: u32, x: u32)
    requires
        f.wf(),
    ensures
        f.spec_val(v2).spec_modify(f.spec_val(v1).spec_modify(x)) == f.spec_val(v2).spec_modify(x),
{
    let m = f.mask;
    let s = f.shift;
    assert(((((x & !(m << s)) | ((v1 & m) << s)) & !(m << s)) | ((v2 & m) << s)) == ((x & !(m
        << s)) | ((v2 & m) << s))) by (bit_vector)
        requires
            s < 32,
    ;
}

} // verus!
