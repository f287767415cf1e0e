//! The controller operations as transitions of the controller state, and
//! what every operation keeps.

use crate::bits::lemma_modify_sets_field_only;
use crate::config::{ChannelTiming, PwmConfig};
use crate::controller::{
    ccr_write, configure_error, configure_ops, configure_result, disable_op, disabled, drained,
    enable_op, enable_result, flag_ops, interrupt_start, irq_step, lemma_configured_timer_stopped,
    push_start, resume_step, safe_stop_start, spec_tim_ctrl_value, write_of, BusOp, ChannelId,
    ControllerState, IrqStage, PwmError, Task, ch_reg, config_divider, deadband_ops, duty_ops,
    period_reg, spec_pwm_ctrl_value,
};
use crate::registers::{spec_field, ChannelReg, FieldId, CHANNELS_PER_CONTROLLER};
use vstd::prelude::*;

verus! {

/// A call of a controller operation, with its arguments.
pub enum ControllerCall {
    Configure { channel: usize, config: PwmConfig, timing: ChannelTiming },
    Enable { channel: usize },
    Disable { channel: usize },
    SafeStop { channel: usize },
    Push { channel: usize, duty_value: u16 },
    Interrupt,
    Resume { value: u32 },
}

/// The call meets the operation's precondition.
pub open spec fn call_allowed(call: ControllerCall) -> bool {
    match call {
        ControllerCall::Configure { channel, config, timing } => channel >= CHANNELS_PER_CONTROLLER
            || !config.spec_duty_in_range() || config.frequency != 0,
        ControllerCall::Disable { channel } => channel < CHANNELS_PER_CONTROLLER,
        ControllerCall::SafeStop { channel } => channel < CHANNELS_PER_CONTROLLER,
        _ => true,
    }
}

/// The controller state after the call, as the operation's contract gives
/// it (`configure_channel`, `enable_channel`, `disable_channel`,
/// `safe_stop_channel`, `push_fifo_data`, `handle_interrupt`, `resume`).
pub open spec fn call_result(s: ControllerState, call: ControllerCall) -> ControllerState {
    match call {
        ControllerCall::Configure { channel, config, timing } => configure_result(
            s,
            channel,
            config,
            timing,
        ),
        ControllerCall::Enable { channel } => enable_result(s, channel),
        ControllerCall::Disable { channel } => disabled(s, channel),
        ControllerCall::SafeStop { channel } => safe_stop_start(s, channel),
        ControllerCall::Push { channel, duty_value } => push_start(s, channel, duty_value),
        ControllerCall::Interrupt => interrupt_start(s),
        ControllerCall::Resume { value } => resume_step(s, value).0,
    }
}

/// Every operation leaves two channels, keeps the queued writes as a
/// prefix, and never removes a channel's configuration.
pub proof fn lemma_calls_keep_configurations(s: ControllerState, call: ControllerCall)
    requires
        s.channels.len() == CHANNELS_PER_CONTROLLER,
        call_allowed(call),
    ensures
        ({
            let s2 = call_result(s, call);
            &&& s2.channels.len() == CHANNELS_PER_CONTROLLER
            &&& s2.bus.len() >= s.bus.len()
            &&& s2.bus.subrange(0, s.bus.len() as int) == s.bus
            &&& forall|c: int|
                0 <= c < CHANNELS_PER_CONTROLLER && (#[trigger] s.channels[c]).config is Some
                    ==> s2.channels[c].config is Some
        }),
{
    let s2 = call_result(s, call);
    assert(s2.bus.subrange(0, s.bus.len() as int) =~= s.bus);
}

// ---------------------------------------------------------------------------
// The ENABLE bit of TIM_CTRL as the queued writes leave it.

/// The write or modify is one of TIM_CTRL of the channel.
pub open spec fn touches_tim_ctrl(op: BusOp, channel: usize) -> bool {
    match op {
        BusOp::Write { reg, .. } => reg == ch_reg(channel, ChannelReg::TimCtrl),
        BusOp::Modify { reg, .. } => reg == ch_reg(channel, ChannelReg::TimCtrl),
    }
}

/// TIM_CTRL of the channel after one access, from its value `v` before.
pub open spec fn tim_ctrl_step(v: u32, channel: usize, op: BusOp) -> u32 {
    if touches_tim_ctrl(op, channel) {
        match op {
            BusOp::Write { value, .. } => value,
            BusOp::Modify { field, .. } => field.spec_modify(v),
        }
    } else {
        v
    }
}

/// TIM_CTRL of the channel after the accesses, in order, from `v`.
pub open spec fn tim_ctrl_after(v: u32, channel: usize, ops: Seq<BusOp>) -> u32
    decreases ops.len(),
{
    if ops.len() == 0 {
        v
    } else {
        tim_ctrl_step(tim_ctrl_after(v, channel, ops.drop_last()), channel, ops.last())
    }
}

/// The ENABLE bit of a TIM_CTRL value.
pub open spec fn enable_bit(v: u32) -> bool {
    spec_field(FieldId::TimCtrlEnable).spec_read(v) != 0
}

/// Each channel is marked enabled exactly when its TIM_CTRL, given by
/// `regs` before the queued writes, has ENABLE set once the queue is
/// performed.
pub open spec fn enable_tracks(s: ControllerState, regs: Seq<u32>) -> bool {
    forall|c: int|
        0 <= c < CHANNELS_PER_CONTROLLER ==> (#[trigger] s.channels[c]).enabled == enable_bit(
            tim_ctrl_after(regs[c], c as usize, s.bus),
        )
}

/// TIM_CTRL values after the queue is performed.
pub open spec fn performed(s: ControllerState, regs: Seq<u32>) -> Seq<u32> {
    Seq::new(regs.len(), |c: int| tim_ctrl_after(regs[c], c as usize, s.bus))
}

proof fn lemma_after_push(v: u32, channel: usize, ops: Seq<BusOp>, op: BusOp)
    ensures
        tim_ctrl_after(v, channel, ops.push(op)) == tim_ctrl_step(
            tim_ctrl_after(v, channel, ops),
            channel,
            op,
        ),
{
    assert(ops.push(op).drop_last() =~= ops);
}

proof fn lemma_after_concat(v: u32, channel: usize, a: Seq<BusOp>, b: Seq<BusOp>)
    ensures
        tim_ctrl_after(v, channel, a + b) == tim_ctrl_after(
            tim_ctrl_after(v, channel, a),
            channel,
            b,
        ),
    decreases b.len(),
{
    if b.len() == 0 {
        assert(a + b =~= a);
    } else {
        lemma_after_concat(v, channel, a, b.drop_last());
        assert((a + b).drop_last() =~= a + b.drop_last());
        assert((a + b).last() == b.last());
    }
}

proof fn lemma_after_untouched(v: u32, channel: usize, ops: Seq<BusOp>)
    requires
        forall|k: int| 0 <= k < ops.len() ==> !touches_tim_ctrl(#[trigger] ops[k], channel),
    ensures
        tim_ctrl_after(v, channel, ops) == v,
    decreases ops.len(),
{
    if ops.len() > 0 {
        assert forall|k: int| 0 <= k < ops.drop_last().len() implies !touches_tim_ctrl(
            #[trigger] ops.drop_last()[k],
            channel,
        ) by {
            assert(ops.drop_last()[k] == ops[k]);
        }
        lemma_after_untouched(v, channel, ops.drop_last());
        assert(!touches_tim_ctrl(ops[ops.len() - 1], channel));
    }
}

/// ENABLE after clearing or setting it with a modify.
proof fn lemma_enable_modify(v: u32)
    ensures
        !enable_bit(FieldId::TimCtrlEnable.spec_clear().spec_modify(v)),
        enable_bit(FieldId::TimCtrlEnable.spec_set().spec_modify(v)),
{
    crate::registers::lemma_fields_wf(FieldId::TimCtrlEnable);
    lemma_modify_sets_field_only(spec_field(FieldId::TimCtrlEnable), 0, v);
    lemma_modify_sets_field_only(spec_field(FieldId::TimCtrlEnable), 1, v);
    assert((0u32 & 1u32) == 0 && (1u32 & 1u32) == 1) by (bit_vector);
}

/// No access of the sequence is one of TIM_CTRL of any channel.
pub open spec fn untouched(ops: Seq<BusOp>) -> bool {
    forall|k: int, c: usize| 0 <= k < ops.len() ==> !#[trigger] touches_tim_ctrl(ops[k], c)
}

proof fn lemma_untouched_concat(a: Seq<BusOp>, b: Seq<BusOp>)
    requires
        untouched(a),
        untouched(b),
    ensures
        untouched(a + b),
{
    assert forall|k: int, c: usize| 0 <= k < (a + b).len() implies !#[trigger] touches_tim_ctrl(
        (a + b)[k],
        c,
    ) by {
        if k < a.len() {
            assert((a + b)[k] == a[k]);
        } else {
            assert((a + b)[k] == b[k - a.len()]);
        }
    }
}

proof fn lemma_flag_ops_untouched(channel: usize, state: u32, fifo_branch: bool)
    ensures
        untouched(flag_ops(channel, state, fifo_branch)),
        untouched(seq![ccr_write(channel, 0)]),
{
    let a: Seq<BusOp> = if fifo_branch {
        seq![crate::controller::flag_clear(channel, FieldId::StateFifoEmpty)]
    } else {
        seq![]
    };
    let b: Seq<BusOp> = if crate::controller::flag_set(state, FieldId::StateOvfif) {
        seq![crate::controller::flag_clear(channel, FieldId::StateOvfif)]
    } else {
        seq![]
    };
    let c: Seq<BusOp> = if crate::controller::flag_set(state, FieldId::StateChif) {
        seq![crate::controller::flag_clear(channel, FieldId::StateChif)]
    } else {
        seq![]
    };
    lemma_untouched_concat(a, b);
    lemma_untouched_concat(a + b, c);
}

/// An interrupt-handling step writes no TIM_CTRL and changes no channel.
proof fn lemma_irq_step_untouched(s: ControllerState, channel: ChannelId, stage: IrqStage, x: u32)
    ensures
        ({
            let s2 = irq_step(s, channel, stage, x).0;
            &&& s2.channels == s.channels
            &&& exists|new: Seq<BusOp>| untouched(new) && s2.bus == s.bus + new
        }),
{
    let s2 = irq_step(s, channel, stage, x).0;
    let c = channel.spec_index();
    assert(untouched(Seq::<BusOp>::empty()));
    match stage {
        IrqStage::State => {
            if crate::controller::flag_set(x, FieldId::StateFifoEmpty) {
                assert(s2.bus =~= s.bus + Seq::<BusOp>::empty());
            } else {
                lemma_flag_ops_untouched(c, x, false);
                assert(s2.bus == s.bus + flag_ops(c, x, false));
            }
        },
        IrqStage::Counter { state } => {
            if spec_field(FieldId::TimCntCnt).spec_read(x) == 0 && s.channels[c as int].config is Some {
                assert(s2.bus =~= s.bus + Seq::<BusOp>::empty());
            } else {
                lemma_flag_ops_untouched(c, state, true);
                assert(s2.bus == s.bus + flag_ops(c, state, true));
            }
        },
        IrqStage::Period { state } => {
            if s.channels[c as int].config is Some {
                assert(s2.bus =~= s.bus + Seq::<BusOp>::empty());
            } else {
                lemma_flag_ops_untouched(c, state, true);
                assert(s2.bus == s.bus + flag_ops(c, state, true));
            }
        },
        IrqStage::Scale { .. } => {
            assert(s2.bus =~= s.bus + Seq::<BusOp>::empty());
        },
        IrqStage::Failed => {
            assert(s2.bus =~= s.bus + Seq::<BusOp>::empty());
        },
        IrqStage::FifoState { state, duty } => {
            if crate::controller::fifo_full(x) {
                assert(s2.bus =~= s.bus + Seq::<BusOp>::empty());
            } else {
                lemma_flag_ops_untouched(c, state, true);
                let new = seq![ccr_write(c, duty)] + flag_ops(c, state, true);
                lemma_untouched_concat(seq![ccr_write(c, duty)], flag_ops(c, state, true));
                assert(s2.bus == s.bus + new);
            }
        },
    }
}

/// TIM_CTRL of a channel after the writes of a successful configuration:
/// the configured value for the configured channel (ENABLE clear), as it
/// was for the other channel.
proof fn lemma_configure_ops_tim_ctrl(
    v: u32,
    c: usize,
    channel: usize,
    config: PwmConfig,
    timing: ChannelTiming,
)
    ensures
        tim_ctrl_after(v, c, configure_ops(channel, config, timing)) == if c == channel {
            spec_tim_ctrl_value(config_divider(config), config.counting_mode).value
        } else {
            v
        },
{
    let dis = seq![disable_op(channel)];
    let db = deadband_ops(config.deadtime_ns, timing.deadband_cycles);
    let w_tim = write_of(
        ch_reg(channel, ChannelReg::TimCtrl),
        spec_tim_ctrl_value(config_divider(config), config.counting_mode),
    );
    let rest = seq![
        write_of(
            ch_reg(channel, ChannelReg::PwmPeriod),
            spec_field(FieldId::PwmPeriodCcr).spec_val(period_reg(timing) as u16 as u32),
        ),
        write_of(ch_reg(channel, ChannelReg::PwmCtrl), spec_pwm_ctrl_value(config)),
    ] + duty_ops(channel, config.use_fifo, timing.duty_cycles);
    assert(configure_ops(channel, config, timing) =~= (dis + db).push(w_tim) + rest);
    lemma_after_concat(v, c, (dis + db).push(w_tim), rest);
    lemma_after_push(v, c, dis + db, w_tim);
    assert(untouched(db));
    assert(untouched(rest)) by {
        let d = duty_ops(channel, config.use_fifo, timing.duty_cycles);
        assert(untouched(d));
        let head = seq![
            write_of(
                ch_reg(channel, ChannelReg::PwmPeriod),
                spec_field(FieldId::PwmPeriodCcr).spec_val(period_reg(timing) as u16 as u32),
            ),
            write_of(ch_reg(channel, ChannelReg::PwmCtrl), spec_pwm_ctrl_value(config)),
        ];
        lemma_untouched_concat(head, d);
    }
    lemma_after_untouched(tim_ctrl_after(v, c, (dis + db).push(w_tim)), c, rest);
    if c != channel {
        lemma_after_concat(v, c, dis, db);
        lemma_after_push(v, c, Seq::empty(), disable_op(channel));
        assert(seq![disable_op(channel)] =~= Seq::<BusOp>::empty().push(disable_op(channel)));
        lemma_after_untouched(v, c, Seq::empty());
        lemma_after_untouched(v, c, db);
    }
}

/// A single access, from `v`.
proof fn lemma_after_one(v: u32, c: usize, op: BusOp)
    ensures
        tim_ctrl_after(v, c, seq![op]) == tim_ctrl_step(v, c, op),
{
    assert(seq![op] =~= Seq::<BusOp>::empty().push(op));
    lemma_after_push(v, c, Seq::empty(), op);
}

/// Appending accesses that leave TIM_CTRL alone, with the channels as they
/// were, keeps the tracking.
proof fn lemma_untouched_keeps_tracking(
    s: ControllerState,
    s2: ControllerState,
    regs: Seq<u32>,
    new: Seq<BusOp>,
)
    requires
        enable_tracks(s, regs),
        untouched(new),
        s2.channels == s.channels,
        s2.bus == s.bus + new,
    ensures
        enable_tracks(s2, regs),
{
    assert forall|c: int| 0 <= c < CHANNELS_PER_CONTROLLER implies (#[trigger] s2.channels[c]).enabled
        == enable_bit(tim_ctrl_after(regs[c], c as usize, s2.bus)) by {
        lemma_after_concat(regs[c], c as usize, s.bus, new);
        lemma_after_untouched(tim_ctrl_after(regs[c], c as usize, s.bus), c as usize, new);
        assert(s.channels[c].enabled == enable_bit(tim_ctrl_after(regs[c], c as usize, s.bus)));
    }
}

/// Disabling a channel keeps the tracking.
proof fn lemma_disabled_keeps_tracking(s: ControllerState, regs: Seq<u32>, channel: usize)
    requires
        enable_tracks(s, regs),
        s.channels.len() == CHANNELS_PER_CONTROLLER,
        channel < CHANNELS_PER_CONTROLLER,
    ensures
        enable_tracks(disabled(s, channel), regs),
{
    let s2 = disabled(s, channel);
    assert forall|c: int| 0 <= c < CHANNELS_PER_CONTROLLER implies (#[trigger] s2.channels[c]).enabled
        == enable_bit(tim_ctrl_after(regs[c], c as usize, s2.bus)) by {
        let w = tim_ctrl_after(regs[c], c as usize, s.bus);
        lemma_after_concat(regs[c], c as usize, s.bus, seq![disable_op(channel)]);
        lemma_after_one(w, c as usize, disable_op(channel));
        lemma_enable_modify(w);
        assert(s.channels[c].enabled == enable_bit(w));
    }
}

/// Each controller operation keeps every channel's enabled flag equal to
/// the ENABLE bit its TIM_CTRL holds once the queued writes are performed
/// (`regs` being the TIM_CTRL values before the queue), given that TIM_CTRL
/// changes only through the queued writes.
pub proof fn lemma_calls_keep_enable_tracking(s: ControllerState, regs: Seq<u32>, call: ControllerCall)
    requires
        s.channels.len() == CHANNELS_PER_CONTROLLER,
        regs.len() == CHANNELS_PER_CONTROLLER,
        call_allowed(call),
        enable_tracks(s, regs),
    ensures
        enable_tracks(call_result(s, call), regs),
{
    assert(untouched(Seq::<BusOp>::empty()));
    assert(s.bus + Seq::<BusOp>::empty() =~= s.bus);
    match call {
        ControllerCall::Configure { channel, config, timing } => {
            match configure_error(channel, config, timing) {
                Some(PwmError::InvalidChannel) => {},
                Some(PwmError::InvalidDutyCycle) => {},
                Some(_) => {
                    lemma_disabled_keeps_tracking(s, regs, channel);
                },
                None => {
                    let s2 = call_result(s, call);
                    let tv = spec_tim_ctrl_value(config_divider(config), config.counting_mode).value;
                    lemma_configured_timer_stopped(config_divider(config), config.counting_mode);
                    assert forall|c: int| 0 <= c < CHANNELS_PER_CONTROLLER implies (
                    #[trigger] s2.channels[c]).enabled == enable_bit(
                        tim_ctrl_after(regs[c], c as usize, s2.bus),
                    ) by {
                        let w = tim_ctrl_after(regs[c], c as usize, s.bus);
                        lemma_after_concat(
                            regs[c],
                            c as usize,
                            s.bus,
                            configure_ops(channel, config, timing),
                        );
                        lemma_configure_ops_tim_ctrl(w, c as usize, channel, config, timing);
                        assert(s.channels[c].enabled == enable_bit(w));
                    }
                },
            }
        },
        ControllerCall::Enable { channel } => {
            if channel < CHANNELS_PER_CONTROLLER {
                let s2 = call_result(s, call);
                assert forall|c: int| 0 <= c < CHANNELS_PER_CONTROLLER implies (
                #[trigger] s2.channels[c]).enabled == enable_bit(
                    tim_ctrl_after(regs[c], c as usize, s2.bus),
                ) by {
                    let w = tim_ctrl_after(regs[c], c as usize, s.bus);
                    lemma_after_concat(regs[c], c as usize, s.bus, seq![enable_op(channel)]);
                    lemma_after_one(w, c as usize, enable_op(channel));
                    lemma_enable_modify(w);
                    assert(s.channels[c].enabled == enable_bit(w));
                }
            }
        },
        ControllerCall::Disable { channel } => {
            lemma_disabled_keeps_tracking(s, regs, channel);
        },
        ControllerCall::SafeStop { channel } => {
            lemma_flag_ops_untouched(channel, 0, false);
            lemma_untouched_keeps_tracking(s, call_result(s, call), regs, seq![ccr_write(channel, 0)]);
        },
        ControllerCall::Push { .. } => {
            lemma_untouched_keeps_tracking(s, call_result(s, call), regs, Seq::empty());
        },
        ControllerCall::Interrupt => {
            lemma_untouched_keeps_tracking(s, call_result(s, call), regs, Seq::empty());
        },
        ControllerCall::Resume { value } => {
            let s2 = call_result(s, call);
            match s.task {
                Task::Idle => {},
                Task::PushFifo { channel, duty_value } => {
                    if crate::controller::fifo_full(value) {
                        lemma_untouched_keeps_tracking(s, s2, regs, Seq::empty());
                    } else {
                        let new = seq![ccr_write(channel.spec_index(), duty_value)];
                        assert forall|k: int, c: usize| 0 <= k < new.len() implies !#[trigger] touches_tim_ctrl(
                            new[k],
                            c,
                        ) by {}
                        lemma_untouched_keeps_tracking(s, s2, regs, new);
                    }
                },
                Task::SafeStop { channel, paused } => {
                    if paused || spec_field(FieldId::TimCntCnt).spec_read(value) != 0 {
                        lemma_untouched_keeps_tracking(s, s2, regs, Seq::empty());
                    } else {
                        lemma_disabled_keeps_tracking(s, regs, channel.spec_index());
                    }
                },
                Task::Interrupt { channel, stage } => {
                    lemma_irq_step_untouched(s, channel, stage, value);
                    let new = choose|new: Seq<BusOp>| untouched(new) && s2.bus == s.bus + new;
                    lemma_untouched_keeps_tracking(s, s2, regs, new);
                },
            }
        },
    }
}

/// Performing the queued writes: with the TIM_CTRL values they leave and an
/// empty queue, the flags still track ENABLE.
pub proof fn lemma_performing_keeps_enable_tracking(s: ControllerState, regs: Seq<u32>)
    requires
        regs.len() == CHANNELS_PER_CONTROLLER,
        enable_tracks(s, regs),
    ensures
        enable_tracks(drained(s), performed(s, regs)),
{
    let s2 = drained(s);
    let p = performed(s, regs);
    assert forall|c: int| 0 <= c < CHANNELS_PER_CONTROLLER implies (#[trigger] s2.channels[c]).enabled
        == enable_bit(tim_ctrl_after(p[c], c as usize, s2.bus)) by {
        assert(s.channels[c].enabled == enable_bit(tim_ctrl_after(regs[c], c as usize, s.bus)));
    }
}

/// Enabling a channel and then disabling it, once or twice, leaves its
/// TIM_CTRL as it was with ENABLE cleared; the accesses touch nothing but
/// that register.
pub proof fn lemma_enable_then_disable(t: u32, channel: usize)
    ensures
        tim_ctrl_after(t, channel, seq![enable_op(channel), disable_op(channel)]) == t & !2u32,
        tim_ctrl_after(t, channel, seq![enable_op(channel), disable_op(channel), disable_op(channel)])
            == t & !2u32,
        forall|c: usize|
            c != channel ==> tim_ctrl_after(
                t,
                c,
                seq![enable_op(channel), disable_op(channel), disable_op(channel)],
            ) == t,
{
    let e = enable_op(channel);
    let d = disable_op(channel);
    assert(seq![e, d] =~= seq![e].push(d));
    assert(seq![e, d, d] =~= seq![e, d].push(d));
    lemma_after_one(t, channel, e);
    lemma_after_push(t, channel, seq![e], d);
    lemma_after_push(t, channel, seq![e, d], d);
    let v1 = (t & !(1u32 << 1u32)) | ((1u32 & 1u32) << 1u32);
    let v2 = (v1 & !(1u32 << 1u32)) | ((0u32 & 1u32) << 1u32);
    let v3 = (v2 & !(1u32 << 1u32)) | ((0u32 & 1u32) << 1u32);
    assert(v2 == t & !2u32 && v3 == t & !2u32) by (bit_vector)
        requires
            v1 == (t & !(1u32 << 1u32)) | ((1u32 & 1u32) << 1u32),
            v2 == (v1 & !(1u32 << 1u32)) | ((0u32 & 1u32) << 1u32),
            v3 == (v2 & !(1u32 << 1u32)) | ((0u32 & 1u32) << 1u32),
    ;
    assert forall|c: usize| c != channel implies tim_ctrl_after(t, c, seq![e, d, d]) == t by {
        lemma_after_one(t, c, e);
        lemma_after_push(t, c, seq![e], d);
        lemma_after_push(t, c, seq![e, d], d);
    }
}

} // verus!
