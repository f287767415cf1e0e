use pwm_driver::bits::FieldVal;
use pwm_driver::registers::{combine, ChannelReg, FieldId, Reg};
use tock_registers::fields::{Field, FieldValue};
use tock_registers::interfaces::{ReadWriteable, Readable};
use tock_registers::registers::InMemoryRegister;

#[test]
fn register_offsets_follow_the_block_layout() {
    assert_eq!(Reg::DbCtrl.offset(), 0x000);
    assert_eq!(Reg::DbDly.offset(), 0x004);
    assert_eq!(Reg::Channel { channel: 0, reg: ChannelReg::TimCnt }.offset(), 0x400);
    assert_eq!(Reg::Channel { channel: 0, reg: ChannelReg::PwmCcr }.offset(), 0x414);
    assert_eq!(Reg::Channel { channel: 1, reg: ChannelReg::TimCtrl }.offset(), 0x804);
    assert_eq!(Reg::Channel { channel: 1, reg: ChannelReg::PwmCcr }.offset(), 0x814);
}

#[test]
fn field_value_is_masked_and_shifted() {
    let fv = FieldId::TimCtrlDiv.val(0x1234);
    assert_eq!(fv, FieldVal { mask: 0xfff << 16, value: 0x234 << 16 });
    let fv = FieldId::StateFifoFull.val(1);
    assert_eq!(fv, FieldVal { mask: 8, value: 8 });
}

#[test]
fn field_values_combine() {
    let a = FieldId::DbdlyDbred.val(5);
    let b = FieldId::DbdlyDbfed.val(5);
    assert_eq!(combine(a, b), FieldVal { mask: 0xfffff, value: 5 | (5 << 10) });
}

#[test]
fn field_layout_matches_register_definitions() {
    let f = FieldId::PwmCtrlCmp.field();
    assert_eq!((f.mask, f.shift), (7, 4));
    let f = FieldId::TimCntCnt.field();
    assert_eq!((f.mask, f.shift), (0xffff, 0));
}

#[test]
fn registers_have_distinct_aligned_offsets() {
    let mut regs = vec![Reg::DbCtrl, Reg::DbDly];
    for channel in 0..2 {
        for reg in [
            ChannelReg::TimCnt,
            ChannelReg::TimCtrl,
            ChannelReg::State,
            ChannelReg::PwmPeriod,
            ChannelReg::PwmCtrl,
            ChannelReg::PwmCcr,
        ] {
            regs.push(Reg::Channel { channel, reg });
        }
    }
    for (i, a) in regs.iter().enumerate() {
        assert_eq!(a.offset() % 4, 0);
        assert!(a.offset() + 4 <= pwm_driver::registers::REGISTER_BLOCK_SIZE);
        for b in regs.iter().skip(i + 1) {
            assert_ne!(a.offset(), b.offset());
        }
    }
}

fn apply(field: FieldVal, x: u32) -> u32 {
    let reg: InMemoryRegister<u32> = InMemoryRegister::new(x);
    reg.modify(FieldValue::<u32, ()>::new(field.mask, 0, field.value));
    reg.get()
}

#[test]
fn modify_sets_only_its_field() {
    let x = 0xdead_beef;
    let enable = FieldId::TimCtrlEnable.val(1);
    let disable = FieldId::TimCtrlEnable.val(0);
    assert_eq!(apply(enable, 0xdead_beed), 0xdead_beef);
    assert_eq!(apply(disable, x), x & !2);
    // clearing after setting is the same as clearing
    assert_eq!(apply(disable, apply(enable, x)), apply(disable, x));
    let div = FieldId::TimCtrlDiv.val(0x123);
    assert_eq!(apply(div, x), (x & !(0xfff << 16)) | (0x123 << 16));
}

#[test]
fn field_read_back_after_val() {
    for id in [FieldId::TimCtrlDiv, FieldId::PwmCtrlCmp, FieldId::DbdlyDbfed, FieldId::StateFifoFull] {
        let f = id.field();
        let v = 0xffff_ffffu32;
        let read = Field::<u32, ()>::new(f.mask, f.shift as usize).read(id.val(v).value);
        assert_eq!(read, v & f.mask);
    }
}
