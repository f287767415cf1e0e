//! The register map of one PWM controller: register offsets and bit fields.

use crate::bits::{lemma_add_wf, lemma_val_wf, field_add, field_val, FieldVal, RegField};
use vstd::prelude::*;

verus! {

/// Number of PWM channels of one controller.
pub const CHANNELS_PER_CONTROLLER: usize = 2;

/// The registers of one channel, in the order of their offsets.
#[derive(Clone, Copy, Debug, PartialEq, Eq)]
pub enum ChannelReg {
    /// TIM_CNT: current counter value.
    TimCnt,
    /// TIM_CTRL: divider, counting mode, interrupt enables, timer enable.
    TimCtrl,
    /// STATE: interrupt flags, written back with ones to clear them.
    State,
    /// PWM_PERIOD: period compare value.
    PwmPeriod,
    /// PWM_CTRL: output mode and duty source.
    PwmCtrl,
    /// PWM_CCR: duty compare value (or the FIFO input in FIFO mode).
    PwmCcr,
}

/// A register of the controller's register block.
#[derive(Clone, Copy, Debug, PartialEq, Eq)]
pub enum Reg {
    /// DBCTRL: dead-band control, shared by both channels.
    DbCtrl,
    /// DBDLY: dead-band delays, shared by both channels.
    DbDly,
    /// A register of one channel.
    Channel { channel: usize, reg: ChannelReg },
}

impl ChannelReg {
    /// Position of the register inside a channel's register space.
    pub open spec fn spec_index(self) -> usize {
        match self {
            ChannelReg::TimCnt => 0,
            ChannelReg::TimCtrl => 1,
            ChannelReg::State => 2,
            ChannelReg::PwmPeriod => 3,
            ChannelReg::PwmCtrl => 4,
            ChannelReg::PwmCcr => 5,
        }
    }
}

impl Reg {
    /// The register names an existing channel (or is a shared register).
    pub open spec fn valid(self) -> bool {
        match self {
            Reg::Channel { channel, .. } => channel < CHANNELS_PER_CONTROLLER,
            _ => true,
        }
    }

    /// Byte offset of the register from the base of the register block:
    /// dead-band registers at 0x000, channel 0 at 0x400, channel 1 at 0x800.
    pub open spec fn spec_offset(self) -> usize {
        match self {
            Reg::DbCtrl => 0x0,
            Reg::DbDly => 0x4,
            Reg::Channel { channel, reg } => (0x400 * (channel + 1) + 4 * reg.spec_index()) as usize,
        }
    }

    /// Byte offset of the register from the base of the register block.
    pub fn offset(&self) -> (r: usize)
        requires
            self.valid(),
        ensures
            r == self.spec_offset(),
    {
        match *self {
            Reg::DbCtrl => 0x0,
            Reg::DbDly => 0x4,
            Reg::Channel { channel, reg } => {
                let index: usize = match reg {
                    ChannelReg::TimCnt => 0,
                    ChannelReg::TimCtrl => 1,
                    ChannelReg::State => 2,
                    ChannelReg::PwmPeriod => 3,
                    ChannelReg::PwmCtrl => 4,
                    ChannelReg::PwmCcr => 5,
                };
                0x400 * (channel + 1) + 4 * index
            },
        }
    }
}

/// The bit fields of the register block.
#[derive(Clone, Copy, Debug, PartialEq, Eq)]
pub enum FieldId {
    DbctrlOutMode,
    DbctrlPolsel,
    DbctrlInMode,
    DbctrlDbSwRst,
    DbdlyDbfed,
    DbdlyDbred,
    TimCntCnt,
    TimCtrlDiv,
    TimCtrlGie,
    TimCtrlOvfifEnable,
    TimCtrlMode,
    TimCtrlEnable,
    TimCtrlSwRst,
    StateFifoFull,
    StateFifoEmpty,
    StateOvfif,
    StateChif,
    PwmPeriodCcr,
    PwmCtrlFifoEmptyEnable,
    PwmCtrlDutySel,
    PwmCtrlIcov,
    PwmCtrlCmp,
    PwmCtrlIe,
    PwmCtrlMode,
    PwmCcrCcr,
}

/// Unshifted mask and offset of each field.
pub open spec fn spec_field(id: FieldId) -> RegField {
    match id {
        FieldId::DbctrlOutMode => RegField { mask: 0x3, shift: 4 },
        FieldId::DbctrlPolsel => RegField { mask: 0x3, shift: 2 },
        FieldId::DbctrlInMode => RegField { mask: 0x1, shift: 1 },
        FieldId::DbctrlDbSwRst => RegField { mask: 0x1, shift: 0 },
        FieldId::DbdlyDbfed => RegField { mask: 0x3ff, shift: 10 },
        FieldId::DbdlyDbred => RegField { mask: 0x3ff, shift: 0 },
        FieldId::TimCntCnt => RegField { mask: 0xffff, shift: 0 },
        FieldId::TimCtrlDiv => RegField { mask: 0xfff, shift: 16 },
        FieldId::TimCtrlGie => RegField { mask: 0x1, shift: 5 },
        FieldId::TimCtrlOvfifEnable => RegField { mask: 0x1, shift: 4 },
        FieldId::TimCtrlMode => RegField { mask: 0x1, shift: 2 },
        FieldId::TimCtrlEnable => RegField { mask: 0x1, shift: 1 },
        FieldId::TimCtrlSwRst => RegField { mask: 0x1, shift: 0 },
        FieldId::StateFifoFull => RegField { mask: 0x1, shift: 3 },
        FieldId::StateFifoEmpty => RegField { mask: 0x1, shift: 2 },
        FieldId::StateOvfif => RegField { mask: 0x1, shift: 1 },
        FieldId::StateChif => RegField { mask: 0x1, shift: 0 },
        FieldId::PwmPeriodCcr => RegField { mask: 0xffff, shift: 0 },
        FieldId::PwmCtrlFifoEmptyEnable => RegField { mask: 0x1, shift: 9 },
        FieldId::PwmCtrlDutySel => RegField { mask: 0x1, shift: 8 },
        FieldId::PwmCtrlIcov => RegField { mask: 0x1, shift: 7 },
        FieldId::PwmCtrlCmp => RegField { mask: 0x7, shift: 4 },
        FieldId::PwmCtrlIe => RegField { mask: 0x1, shift: 3 },
        FieldId::PwmCtrlMode => RegField { mask: 0x1, shift: 2 },
        FieldId::PwmCcrCcr => RegField { mask: 0xffff, shift: 0 },
    }
}

/// Every field of the register map lies inside its 32-bit register.
pub proof fn lemma_fields_wf(id: FieldId)
    ensures
        spec_field(id).wf(),
{
    assert({
        &&& (0x3u32 << 4u32) >> 4u32 == 0x3u32
        &&& (0x3u32 << 2u32) >> 2u32 == 0x3u32
        &&& (0x3ffu32 << 10u32) >> 10u32 == 0x3ffu32
        &&& (0x3ffu32 << 0u32) >> 0u32 == 0x3ffu32
        &&& (0xffffu32 << 0u32) >> 0u32 == 0xffffu32
        &&& (0xfffu32 << 16u32) >> 16u32 == 0xfffu32
        &&& (0x7u32 << 4u32) >> 4u32 == 0x7u32
        &&& forall|s: u32| s < 32 ==> #[trigger] ((1u32 << s) >> s) == 1u32
    }) by (bit_vector);
}

impl FieldId {
    /// The mask and offset of the field.
    pub fn field(&self) -> (r: RegField)
        ensures
            r == spec_field(*self),
            r.wf(),
    {
        proof {
            lemma_fields_wf(*self);
        }
        match *self {
            FieldId::DbctrlOutMode => RegField { mask: 0x3, shift: 4 },
            FieldId::DbctrlPolsel => RegField { mask: 0x3, shift: 2 },
            FieldId::DbctrlInMode => RegField { mask: 0x1, shift: 1 },
            FieldId::DbctrlDbSwRst => RegField { mask: 0x1, shift: 0 },
            FieldId::DbdlyDbfed => RegField { mask: 0x3ff, shift: 10 },
            FieldId::DbdlyDbred => RegField { mask: 0x3ff, shift: 0 },
            FieldId::TimCntCnt => RegField { mask: 0xffff, shift: 0 },
            FieldId::TimCtrlDiv => RegField { mask: 0xfff, shift: 16 },
            FieldId::TimCtrlGie => RegField { mask: 0x1, shift: 5 },
            FieldId::TimCtrlOvfifEnable => RegField { mask: 0x1, shift: 4 },
            FieldId::TimCtrlMode => RegField { mask: 0x1, shift: 2 },
            FieldId::TimCtrlEnable => RegField { mask: 0x1, shift: 1 },
            FieldId::TimCtrlSwRst => RegField { mask: 0x1, shift: 0 },
            FieldId::StateFifoFull => RegField { mask: 0x1, shift: 3 },
            FieldId::StateFifoEmpty => RegField { mask: 0x1, shift: 2 },
            FieldId::StateOvfif => RegField { mask: 0x1, shift: 1 },
            FieldId::StateChif => RegField { mask: 0x1, shift: 0 },
            FieldId::PwmPeriodCcr => RegField { mask: 0xffff, shift: 0 },
            FieldId::PwmCtrlFifoEmptyEnable => RegField { mask: 0x1, shift: 9 },
            FieldId::PwmCtrlDutySel => RegField { mask: 0x1, shift: 8 },
            FieldId::PwmCtrlIcov => RegField { mask: 0x1, shift: 7 },
            FieldId::PwmCtrlCmp => RegField { mask: 0x7, shift: 4 },
            FieldId::PwmCtrlIe => RegField { mask: 0x1, shift: 3 },
            FieldId::PwmCtrlMode => RegField { mask: 0x1, shift: 2 },
            FieldId::PwmCcrCcr => RegField { mask: 0xffff, shift: 0 },
        }
    }

    /// The field value that sets this field to `v`.
    pub fn val(&self, v: u32) -> (r: FieldVal)
        ensures
            r == spec_field(*self).spec_val(v),
            r.wf(),
    {
        let f = self.field();
        proof {
            lemma_val_wf(f, v);
        }
        field_val(f, v)
    }

    /// The field value that sets every bit of this field (`SET`).
    pub open spec fn spec_set(self) -> FieldVal {
        spec_field(self).spec_val(spec_field(self).mask)
    }

    /// The field value that clears every bit of this field (`CLEAR`).
    pub open spec fn spec_clear(self) -> FieldVal {
        spec_field(self).spec_val(0)
    }
}

/// The sum of two field values, keeping well-formedness.
pub fn combine(a: FieldVal, b: FieldVal) -> (r: FieldVal)
    requires
        a.wf(),
        b.wf(),
    ensures
        r == a.spec_add(b),
        r.wf(),
{
    proof {
        lemma_add_wf(a, b);
    }
    field_add(a, b)
}

/// Size in bytes of the register block.
pub const REGISTER_BLOCK_SIZE: usize = 0x818;

/// Every register lies word-aligned inside the register block, and distinct
/// registers have distinct offsets.
pub proof fn lemma_register_layout(r1: Reg, r2: Reg)
    requires
        r1.valid(),
        r2.valid(),
    ensures
        r1.spec_offset() % 4 == 0,
        r1.spec_offset() + 4 <= REGISTER_BLOCK_SIZE,
        r1 != r2 ==> r1.spec_offset() != r2.spec_offset(),
{
}

} // verus!
