//! One PWM controller: its channel state, the register accesses its
//! operations make, and the steps of the operations that wait on register
//! reads.
//!
//! Register writes are not performed here. Each operation appends the writes
//! it makes, in order, to the controller's bus queue (`take_bus_ops`), and
//! an operation that needs the value of a register asks for it with a
//! `BusRequest`; the caller performs the queued writes, then the request,
//! and hands the value read back to `resume`.

use crate::bits::{field_matches_all, field_read, FieldVal};
use crate::config::{
    clock_divider, deadband_delay, spec_clock_divider, spec_deadband_delay, ChannelTiming,
    CountingMode, InitialValue, OutputBehavior, PwmConfig,
};
use crate::registers::{combine, spec_field, ChannelReg, FieldId, Reg, CHANNELS_PER_CONTROLLER};
use vstd::prelude::*;

verus! {

/// Errors of the controller operations.
#[derive(Clone, Copy, Debug, PartialEq, Eq)]
pub enum PwmError {
    InvalidChannel,
    InvalidDutyCycle,
    PeriodTooSmall,
    PeriodTooLarge,
    FifoFull,
}

impl PwmError {
    pub open spec fn spec_message(self) -> Seq<char> {
        match self {
            PwmError::InvalidChannel => "Invalid channel number"@,
            PwmError::InvalidDutyCycle => "Duty cycle must be between 0.0 and 1.0"@,
            PwmError::PeriodTooSmall => "Period too small"@,
            PwmError::PeriodTooLarge => "Period value too large"@,
            PwmError::FifoFull => "FIFO full"@,
        }
    }

    /// The error's message.
    pub fn message(&self) -> (r: &'static str)
        ensures
            r@ == self.spec_message(),
    {
        match *self {
            PwmError::InvalidChannel => "Invalid channel number",
            PwmError::InvalidDutyCycle => "Duty cycle must be between 0.0 and 1.0",
            PwmError::PeriodTooSmall => "Period too small",
            PwmError::PeriodTooLarge => "Period value too large",
            PwmError::FifoFull => "FIFO full",
        }
    }
}

/// A register write of the controller, to be performed in queue order.
#[derive(Clone, Copy, Debug, PartialEq, Eq)]
pub enum BusOp {
    /// Write `value` to the register.
    Write { reg: Reg, value: u32 },
    /// Read the register, replace the bits of `field.mask` by `field.value`,
    /// write the result back.
    Modify { reg: Reg, field: FieldVal },
}

/// What an operation in progress asks of the caller, after the queued
/// writes are performed.
#[derive(Clone, Copy, Debug, PartialEq, Eq)]
pub enum BusRequest {
    /// Read the register and pass its value to `resume`.
    Read(Reg),
    /// Wait one no-op instruction, then call `resume` (the value is ignored).
    Pause,
    /// Multiply `cycles` by the duty cycle whose single-precision bits are
    /// `duty_cycle_bits`, as `f32` values, convert the product to `u16`
    /// (truncating, saturating) and pass it to `resume`.
    ScaleDuty { cycles: u32, duty_cycle_bits: u32 },
    /// Interrupt handling of `channel` ended with `error`, its flags left
    /// as they are; call `resume` (the value is ignored) to go on with the
    /// next channel. The handling as a whole still ends in success.
    ChannelFailed { channel: usize, error: PwmError },
    /// The operation is over, with this outcome.
    Done(Result<(), PwmError>),
}

/// Where interrupt handling of a channel stands.
#[derive(Clone, Copy, Debug, PartialEq, Eq)]
pub enum IrqStage {
    /// Waiting for STATE.
    State,
    /// Waiting for TIM_CNT; `state` is the STATE value read.
    Counter { state: u32 },
    /// Waiting for PWM_PERIOD.
    Period { state: u32 },
    /// Waiting for the duty scaled to the period.
    Scale { state: u32 },
    /// Waiting for STATE again before pushing `duty` into the FIFO.
    FifoState { state: u32, duty: u16 },
    /// The push was refused (FIFO full); waiting for `resume` after the
    /// failure has been reported.
    Failed,
}

/// A channel of the controller, as held by an operation in progress.
#[derive(Clone, Copy, Debug, PartialEq, Eq)]
pub enum ChannelId {
    Ch0,
    Ch1,
}

/// The channel with number `channel` (channel 1 for any number above 0).
pub open spec fn channel_id(channel: usize) -> ChannelId {
    if channel == 0 {
        ChannelId::Ch0
    } else {
        ChannelId::Ch1
    }
}

impl ChannelId {
    pub open spec fn spec_index(self) -> usize {
        match self {
            ChannelId::Ch0 => 0,
            ChannelId::Ch1 => 1,
        }
    }

    /// The channel's number.
    pub fn index(&self) -> (r: usize)
        ensures
            r == self.spec_index(),
            r < CHANNELS_PER_CONTROLLER,
    {
        match *self {
            ChannelId::Ch0 => 0,
            ChannelId::Ch1 => 1,
        }
    }

    /// The channel with this number, if there is one.
    pub fn from_index(channel: usize) -> (r: Option<ChannelId>)
        ensures
            r is Some <==> channel < CHANNELS_PER_CONTROLLER,
            r matches Some(c) ==> c.spec_index() == channel && c == channel_id(channel),
    {
        if channel == 0 {
            Some(ChannelId::Ch0)
        } else if channel == 1 {
            Some(ChannelId::Ch1)
        } else {
            None
        }
    }
}

/// The operation in progress that waits on register reads.
#[derive(Clone, Copy, Debug, PartialEq, Eq)]
pub enum Task {
    Idle,
    /// `push_fifo_data`, waiting for STATE.
    PushFifo { channel: ChannelId, duty_value: u16 },
    /// `safe_stop_channel`, waiting for TIM_CNT (or for a pause when `paused`).
    SafeStop { channel: ChannelId, paused: bool },
    /// `handle_interrupt`, at `channel`.
    Interrupt { channel: ChannelId, stage: IrqStage },
}

/// Software state of one channel.
#[derive(Clone, Copy, Debug, PartialEq, Eq)]
pub struct PwmChannel {
    pub config: Option<PwmConfig>,
    pub enabled: bool,
}

/// The registers of one channel.
#[derive(Clone, Copy, Debug, PartialEq, Eq)]
pub struct ChannelRegisters {
    pub tim_cnt: Reg,
    pub tim_ctrl: Reg,
    pub state: Reg,
    pub pwm_period: Reg,
    pub pwm_ctrl: Reg,
    pub pwm_ccr: Reg,
}

/// One PWM controller with two channels.
pub struct PwmController {
    base: usize,
    channels: [PwmChannel; 2],
    bus: Vec<BusOp>,
    task: Task,
}

#[verifier::ext_equal]
/// The abstract state of a controller: base address of its register block,
/// its channels, the writes queued and not yet taken, and the operation in
/// progress.
pub struct ControllerState {
    pub base: usize,
    pub channels: Seq<PwmChannel>,
    pub bus: Seq<BusOp>,
    pub task: Task,
}

impl View for PwmController {
    type V = ControllerState;

    closed spec fn view(&self) -> ControllerState {
        ControllerState {
            base: self.base,
            channels: self.channels@,
            bus: self.bus@,
            task: self.task,
        }
    }
}

// ---------------------------------------------------------------------------
// Register values and queued writes, as specifications.

/// A register of one channel.
pub open spec fn ch_reg(channel: usize, reg: ChannelReg) -> Reg {
    Reg::Channel { channel, reg }
}

/// Writing a field value to a register.
pub open spec fn write_of(reg: Reg, fv: FieldVal) -> BusOp {
    BusOp::Write { reg, value: fv.value }
}

/// Setting TIM_CTRL.ENABLE of a channel, leaving the other bits.
pub open spec fn enable_op(channel: usize) -> BusOp {
    BusOp::Modify { reg: ch_reg(channel, ChannelReg::TimCtrl), field: FieldId::TimCtrlEnable.spec_set() }
}

/// Clearing TIM_CTRL.ENABLE of a channel, leaving the other bits.
pub open spec fn disable_op(channel: usize) -> BusOp {
    BusOp::Modify {
        reg: ch_reg(channel, ChannelReg::TimCtrl),
        field: FieldId::TimCtrlEnable.spec_clear(),
    }
}

/// Writing a duty value to PWM_CCR of a channel.
pub open spec fn ccr_write(channel: usize, duty: u16) -> BusOp {
    write_of(ch_reg(channel, ChannelReg::PwmCcr), spec_field(FieldId::PwmCcrCcr).spec_val(duty as u32))
}

/// TIM_CTRL as configured: divider, counting mode, timer disabled.
pub open spec fn spec_tim_ctrl_value(divider: u16, mode: CountingMode) -> FieldVal {
    spec_field(FieldId::TimCtrlDiv).spec_val(divider as u32).spec_add(
        spec_field(FieldId::TimCtrlMode).spec_val(mode.spec_bits()),
    ).spec_add(FieldId::TimCtrlEnable.spec_clear())
}

/// PWM_CTRL as configured: compare mode, duty source, initial level, output
/// behaviour, compare interrupt enabled.
pub open spec fn spec_pwm_ctrl_value(config: PwmConfig) -> FieldVal {
    spec_field(FieldId::PwmCtrlMode).spec_val(1).spec_add(
        spec_field(FieldId::PwmCtrlDutySel).spec_val(
            if config.use_fifo {
                1
            } else {
                0
            },
        ),
    ).spec_add(spec_field(FieldId::PwmCtrlIcov).spec_val(config.initial_value.spec_bits())).spec_add(
        spec_field(FieldId::PwmCtrlCmp).spec_val(config.output_behavior.spec_bits()),
    ).spec_add(FieldId::PwmCtrlIe.spec_set())
}

/// DBDLY: the same delay for rising and falling edges.
pub open spec fn spec_dbdly_value(delay: u16) -> FieldVal {
    spec_field(FieldId::DbdlyDbred).spec_val(delay as u32).spec_add(
        spec_field(FieldId::DbdlyDbfed).spec_val(delay as u32),
    )
}

/// DBCTRL: dead band on both edges, PWM0 as input, no inversion.
pub open spec fn spec_dbctrl_value() -> FieldVal {
    spec_field(FieldId::DbctrlOutMode).spec_val(0b11).spec_add(
        spec_field(FieldId::DbctrlInMode).spec_val(0),
    ).spec_add(spec_field(FieldId::DbctrlPolsel).spec_val(0))
}

/// Writes that set up dead-band generation, if a dead time is given.
pub open spec fn deadband_ops(deadtime_ns: Option<u32>, deadband_cycles: u16) -> Seq<BusOp> {
    match deadtime_ns {
        Some(_) => seq![
            write_of(Reg::DbDly, spec_dbdly_value(spec_deadband_delay(deadband_cycles))),
            write_of(Reg::DbCtrl, spec_dbctrl_value()),
        ],
        None => seq![],
    }
}

/// Writes that set the duty: four values into the FIFO and the FIFO-empty
/// interrupt enabled, or one value into the register.
pub open spec fn duty_ops(channel: usize, use_fifo: bool, duty: u16) -> Seq<BusOp> {
    if use_fifo {
        seq![
            ccr_write(channel, duty),
            ccr_write(channel, duty),
            ccr_write(channel, duty),
            ccr_write(channel, duty),
            BusOp::Modify {
                reg: ch_reg(channel, ChannelReg::PwmCtrl),
                field: FieldId::PwmCtrlFifoEmptyEnable.spec_set(),
            },
        ]
    } else {
        seq![ccr_write(channel, duty)]
    }
}

/// Clock divider of a configuration.
pub open spec fn config_divider(config: PwmConfig) -> u16 {
    spec_clock_divider(config.frequency)
}

/// Value for PWM_PERIOD: one less than the period cycles.
pub open spec fn period_reg(timing: ChannelTiming) -> u32 {
    (timing.period_cycles - 1) as u32
}

/// The error `configure_channel` returns, if any.
pub open spec fn configure_error(channel: usize, config: PwmConfig, timing: ChannelTiming) -> Option<
    PwmError,
> {
    if channel >= CHANNELS_PER_CONTROLLER {
        Some(PwmError::InvalidChannel)
    } else if !config.spec_duty_in_range() {
        Some(PwmError::InvalidDutyCycle)
    } else if timing.period_cycles == 0 {
        Some(PwmError::PeriodTooSmall)
    } else if period_reg(timing) > 0xffff {
        Some(PwmError::PeriodTooLarge)
    } else {
        None
    }
}

/// The writes of a successful `configure_channel`, in order.
pub open spec fn configure_ops(channel: usize, config: PwmConfig, timing: ChannelTiming) -> Seq<
    BusOp,
> {
    seq![disable_op(channel)] + deadband_ops(config.deadtime_ns, timing.deadband_cycles) + seq![
        write_of(
            ch_reg(channel, ChannelReg::TimCtrl),
            spec_tim_ctrl_value(config_divider(config), config.counting_mode),
        ),
        write_of(
            ch_reg(channel, ChannelReg::PwmPeriod),
            spec_field(FieldId::PwmPeriodCcr).spec_val(period_reg(timing) as u16 as u32),
        ),
        write_of(ch_reg(channel, ChannelReg::PwmCtrl), spec_pwm_ctrl_value(config)),
    ] + duty_ops(channel, config.use_fifo, timing.duty_cycles)
}

/// Some channel of the controller has a configuration.
pub open spec fn has_configured_channel(s: ControllerState) -> bool {
    exists|j: int| 0 <= j < s.channels.len() && (#[trigger] s.channels[j]).config is Some
}

/// What `configure_channel` returns.
pub open spec fn configure_outcome(channel: usize, config: PwmConfig, timing: ChannelTiming) -> Result<
    (),
    PwmError,
> {
    match configure_error(channel, config, timing) {
        Some(e) => Err(e),
        None => Ok(()),
    }
}

/// The state after `configure_channel`: unchanged when the channel or the
/// duty cycle is refused; the channel disabled when the period is refused;
/// otherwise the configuration recorded, the channel disabled and the
/// writes of `configure_ops` queued.
pub open spec fn configure_result(
    s: ControllerState,
    channel: usize,
    config: PwmConfig,
    timing: ChannelTiming,
) -> ControllerState {
    match configure_error(channel, config, timing) {
        Some(PwmError::InvalidChannel) => s,
        Some(PwmError::InvalidDutyCycle) => s,
        Some(_) => disabled(s, channel),
        None => with_ops(
            with_channel(s, channel, PwmChannel { config: Some(config), enabled: false }),
            configure_ops(channel, config, timing),
        ),
    }
}

/// The state with one channel replaced.
pub open spec fn with_channel(s: ControllerState, channel: usize, c: PwmChannel) -> ControllerState {
    ControllerState { channels: s.channels.update(channel as int, c), ..s }
}

/// The state with writes appended to the queue.
pub open spec fn with_ops(s: ControllerState, ops: Seq<BusOp>) -> ControllerState {
    ControllerState { bus: s.bus + ops, ..s }
}

/// The state with another task.
pub open spec fn with_task(s: ControllerState, task: Task) -> ControllerState {
    ControllerState { task, ..s }
}

/// The state after disabling a channel: flag cleared, ENABLE cleared.
pub open spec fn disabled(s: ControllerState, channel: usize) -> ControllerState {
    with_ops(
        with_channel(s, channel, PwmChannel { enabled: false, ..s.channels[channel as int] }),
        seq![disable_op(channel)],
    )
}

/// The state after `enable_channel`: unchanged for an invalid channel;
/// otherwise the channel marked enabled and ENABLE set.
pub open spec fn enable_result(s: ControllerState, channel: usize) -> ControllerState {
    if channel >= CHANNELS_PER_CONTROLLER {
        s
    } else {
        with_ops(
            with_channel(s, channel, PwmChannel { enabled: true, ..s.channels[channel as int] }),
            seq![enable_op(channel)],
        )
    }
}

/// The state after `safe_stop_channel` has started: a zero duty queued,
/// waiting for TIM_CNT.
pub open spec fn safe_stop_start(s: ControllerState, channel: usize) -> ControllerState {
    with_task(
        with_ops(s, seq![ccr_write(channel, 0)]),
        Task::SafeStop { channel: channel_id(channel), paused: false },
    )
}

/// The state after `push_fifo_data` has started: waiting for STATE, or no
/// task for an invalid channel.
pub open spec fn push_start(s: ControllerState, channel: usize, duty_value: u16) -> ControllerState {
    if channel >= CHANNELS_PER_CONTROLLER {
        with_task(s, Task::Idle)
    } else {
        with_task(s, Task::PushFifo { channel: channel_id(channel), duty_value })
    }
}

/// The state after `handle_interrupt` has started: waiting for STATE of
/// channel 0.
pub open spec fn interrupt_start(s: ControllerState) -> ControllerState {
    with_task(s, Task::Interrupt { channel: ChannelId::Ch0, stage: IrqStage::State })
}

/// The state after `take_bus_ops`: the queue empty.
pub open spec fn drained(s: ControllerState) -> ControllerState {
    ControllerState { bus: Seq::empty(), ..s }
}

// ---------------------------------------------------------------------------
// The steps of the operations that wait on register reads.

/// Writing a flag field of STATE with ones, which clears the flag.
pub open spec fn flag_clear(channel: usize, flag: FieldId) -> BusOp {
    write_of(ch_reg(channel, ChannelReg::State), flag.spec_set())
}

/// The flag is set in the STATE value.
pub open spec fn flag_set(state: u32, flag: FieldId) -> bool {
    spec_field(flag).spec_read(state) != 0
}

/// The flag clears at the end of a channel's interrupt handling: FIFO-empty
/// when the FIFO branch ran, then overflow and compare-match, each when it
/// is set in the STATE value read.
pub open spec fn flag_ops(channel: usize, state: u32, fifo_branch: bool) -> Seq<BusOp> {
    (if fifo_branch {
        seq![flag_clear(channel, FieldId::StateFifoEmpty)]
    } else {
        seq![]
    }) + (if flag_set(state, FieldId::StateOvfif) {
        seq![flag_clear(channel, FieldId::StateOvfif)]
    } else {
        seq![]
    }) + (if flag_set(state, FieldId::StateChif) {
        seq![flag_clear(channel, FieldId::StateChif)]
    } else {
        seq![]
    })
}

/// Interrupt handling moves on from `channel`: to the next channel's STATE,
/// or done after the last channel.
pub open spec fn irq_next(s: ControllerState, channel: ChannelId) -> (ControllerState, BusRequest) {
    match channel {
        ChannelId::Ch0 => (
            with_task(s, Task::Interrupt { channel: ChannelId::Ch1, stage: IrqStage::State }),
            BusRequest::Read(ch_reg(1, ChannelReg::State)),
        ),
        ChannelId::Ch1 => (with_task(s, Task::Idle), BusRequest::Done(Ok(()))),
    }
}

/// The FIFO is full in this STATE value.
pub open spec fn fifo_full(state: u32) -> bool {
    FieldId::StateFifoFull.spec_set().spec_matches_all(state)
}

/// One step of interrupt handling of `channel` given the value read.
pub open spec fn irq_step(s: ControllerState, channel: ChannelId, stage: IrqStage, x: u32) -> (
    ControllerState,
    BusRequest,
) {
    let c = channel.spec_index();
    match stage {
        IrqStage::State => if flag_set(x, FieldId::StateFifoEmpty) {
            (
                with_task(s, Task::Interrupt { channel, stage: IrqStage::Counter { state: x } }),
                BusRequest::Read(ch_reg(c, ChannelReg::TimCnt)),
            )
        } else {
            irq_next(with_ops(s, flag_ops(c, x, false)), channel)
        },
        IrqStage::Counter { state } => if spec_field(FieldId::TimCntCnt).spec_read(x) == 0
            && s.channels[c as int].config is Some {
            (
                with_task(s, Task::Interrupt { channel, stage: IrqStage::Period { state } }),
                BusRequest::Read(ch_reg(c, ChannelReg::PwmPeriod)),
            )
        } else {
            irq_next(with_ops(s, flag_ops(c, state, true)), channel)
        },
        IrqStage::Period { state } => match s.channels[c as int].config {
            Some(config) => (
                with_task(s, Task::Interrupt { channel, stage: IrqStage::Scale { state } }),
                BusRequest::ScaleDuty {
                    cycles: (spec_field(FieldId::PwmPeriodCcr).spec_read(x) + 1) as u32,
                    duty_cycle_bits: config.duty_cycle_bits,
                },
            ),
            None => irq_next(with_ops(s, flag_ops(c, state, true)), channel),
        },
        IrqStage::Scale { state } => (
            with_task(
                s,
                Task::Interrupt { channel, stage: IrqStage::FifoState { state, duty: x as u16 } },
            ),
            BusRequest::Read(ch_reg(c, ChannelReg::State)),
        ),
        IrqStage::FifoState { state, duty } => if fifo_full(x) {
            (
                with_task(s, Task::Interrupt { channel, stage: IrqStage::Failed }),
                BusRequest::ChannelFailed { channel: c, error: PwmError::FifoFull },
            )
        } else {
            irq_next(with_ops(s, seq![ccr_write(c, duty)] + flag_ops(c, state, true)), channel)
        },
        IrqStage::Failed => irq_next(s, channel),
    }
}

/// The step `resume` takes from state `s` given the value `x`.
pub open spec fn resume_step(s: ControllerState, x: u32) -> (ControllerState, BusRequest) {
    match s.task {
        Task::Idle => (s, BusRequest::Done(Ok(()))),
        Task::PushFifo { channel, duty_value } => if fifo_full(x) {
            (with_task(s, Task::Idle), BusRequest::Done(Err(PwmError::FifoFull)))
        } else {
            (
                with_task(with_ops(s, seq![ccr_write(channel.spec_index(), duty_value)]), Task::Idle),
                BusRequest::Done(Ok(())),
            )
        },
        Task::SafeStop { channel, paused } => if paused {
            (
                with_task(s, Task::SafeStop { channel, paused: false }),
                BusRequest::Read(ch_reg(channel.spec_index(), ChannelReg::TimCnt)),
            )
        } else if spec_field(FieldId::TimCntCnt).spec_read(x) != 0 {
            (with_task(s, Task::SafeStop { channel, paused: true }), BusRequest::Pause)
        } else {
            (with_task(disabled(s, channel.spec_index()), Task::Idle), BusRequest::Done(Ok(())))
        },
        Task::Interrupt { channel, stage } => irq_step(s, channel, stage, x),
    }
}

/// A controller has two channels.
pub broadcast proof fn lemma_controller_has_two_channels(c: &PwmController)
    ensures
        #![trigger c@]
        c@.channels.len() == CHANNELS_PER_CONTROLLER,
{
}

// ---------------------------------------------------------------------------
// Register values, computed.

fn tim_ctrl_value(divider: u16, mode: CountingMode) -> (r: FieldVal)
    ensures
        r == spec_tim_ctrl_value(divider, mode),
        r.wf(),
{
    combine(
        combine(FieldId::TimCtrlDiv.val(divider as u32), FieldId::TimCtrlMode.val(mode.bits())),
        FieldId::TimCtrlEnable.val(0),
    )
}

fn pwm_ctrl_value(config: &PwmConfig) -> (r: FieldVal)
    ensures
        r == spec_pwm_ctrl_value(*config),
        r.wf(),
{
    let duty_sel: u32 = if config.use_fifo {
        1
    } else {
        0
    };
    combine(
        combine(
            combine(
                combine(FieldId::PwmCtrlMode.val(1), FieldId::PwmCtrlDutySel.val(duty_sel)),
                FieldId::PwmCtrlIcov.val(config.initial_value.bits()),
            ),
            FieldId::PwmCtrlCmp.val(config.output_behavior.bits()),
        ),
        FieldId::PwmCtrlIe.val(1),
    )
}

fn dbdly_value(delay: u16) -> (r: FieldVal)
    ensures
        r == spec_dbdly_value(delay),
        r.wf(),
{
    combine(FieldId::DbdlyDbred.val(delay as u32), FieldId::DbdlyDbfed.val(delay as u32))
}

fn dbctrl_value() -> (r: FieldVal)
    ensures
        r == spec_dbctrl_value(),
        r.wf(),
{
    combine(
        combine(FieldId::DbctrlOutMode.val(0b11), FieldId::DbctrlInMode.val(0)),
        FieldId::DbctrlPolsel.val(0),
    )
}

fn ccr_write_op(channel: usize, duty: u16) -> (r: BusOp)
    ensures
        r == ccr_write(channel, duty),
{
    BusOp::Write {
        reg: Reg::Channel { channel, reg: ChannelReg::PwmCcr },
        value: FieldId::PwmCcrCcr.val(duty as u32).value,
    }
}

impl PwmController {
    /// A controller whose register block starts at `base_addr`, with both
    /// channels unconfigured and disabled.
    pub fn new(base_addr: usize) -> (r: Self)
        ensures
            r@.base == base_addr,
            r@.channels == seq![
                PwmChannel { config: None, enabled: false },
                PwmChannel { config: None, enabled: false },
            ],
            r@.bus == Seq::<BusOp>::empty(),
            r@.task == Task::Idle,
    {
        let r = PwmController {
            base: base_addr,
            channels: [
                PwmChannel { config: None, enabled: false },
                PwmChannel { config: None, enabled: false },
            ],
            bus: Vec::new(),
            task: Task::Idle,
        };
        assert(r@.channels =~= seq![
            PwmChannel { config: None, enabled: false },
            PwmChannel { config: None, enabled: false },
        ]);
        r
    }

    /// Some channel has a configuration.
    pub fn is_configured(&self) -> (r: bool)
        ensures
            r == has_configured_channel(self@),
    {
        let mut i: usize = 0;
        while i < CHANNELS_PER_CONTROLLER
            invariant
                i <= CHANNELS_PER_CONTROLLER,
                self@.channels.len() == CHANNELS_PER_CONTROLLER,
                forall|j: int| 0 <= j < i ==> (#[trigger] self@.channels[j]).config is None,
            decreases CHANNELS_PER_CONTROLLER - i,
        {
            if self.channels[i].config.is_some() {
                return true;
            }
            i = i + 1;
        }
        false
    }

    /// Base address of the register block.
    pub fn registers(&self) -> (r: usize)
        ensures
            r == self@.base,
    {
        self.base
    }

    /// The registers of a channel.
    fn get_channel_reg(&self, channel: usize) -> (r: ChannelRegisters)
        requires
            channel < CHANNELS_PER_CONTROLLER,
        ensures
            r == (ChannelRegisters {
                tim_cnt: ch_reg(channel, ChannelReg::TimCnt),
                tim_ctrl: ch_reg(channel, ChannelReg::TimCtrl),
                state: ch_reg(channel, ChannelReg::State),
                pwm_period: ch_reg(channel, ChannelReg::PwmPeriod),
                pwm_ctrl: ch_reg(channel, ChannelReg::PwmCtrl),
                pwm_ccr: ch_reg(channel, ChannelReg::PwmCcr),
            }),
    {
        ChannelRegisters {
            tim_cnt: Reg::Channel { channel, reg: ChannelReg::TimCnt },
            tim_ctrl: Reg::Channel { channel, reg: ChannelReg::TimCtrl },
            state: Reg::Channel { channel, reg: ChannelReg::State },
            pwm_period: Reg::Channel { channel, reg: ChannelReg::PwmPeriod },
            pwm_ctrl: Reg::Channel { channel, reg: ChannelReg::PwmCtrl },
            pwm_ccr: Reg::Channel { channel, reg: ChannelReg::PwmCcr },
        }
    }

    /// Disables a channel: clears TIM_CTRL.ENABLE and marks it disabled.
    pub fn disable_channel(&mut self, channel: usize)
        requires
            channel < CHANNELS_PER_CONTROLLER,
        ensures
            final(self)@ == disabled(old(self)@, channel),
    {
        let regs = self.get_channel_reg(channel);
        self.bus.push(BusOp::Modify { reg: regs.tim_ctrl, field: FieldId::TimCtrlEnable.val(0) });
        self.channels[channel].enabled = false;
    }

    /// Configures a channel. The channel is disabled first and stays
    /// disabled; its registers are set from the configuration and the timing
    /// computed for it (see `configure_ops`) and the configuration is
    /// recorded.
    ///
    /// An invalid channel or a duty cycle outside 0.0..=1.0 (a NaN included) is refused
    /// before anything changes. A period that does not fit PWM_PERIOD is
    /// refused after the channel has been disabled.
    pub fn configure_channel(&mut self, channel: usize, config: PwmConfig, timing: ChannelTiming) -> (r:
        Result<(), PwmError>)
        requires
            channel >= CHANNELS_PER_CONTROLLER || !config.spec_duty_in_range() || config.frequency
                != 0,
        ensures
            r == configure_outcome(channel, config, timing),
            final(self)@ == configure_result(old(self)@, channel, config, timing),
    {
        if channel >= CHANNELS_PER_CONTROLLER {
            return Err(PwmError::InvalidChannel);
        }
        if !config.duty_in_range() {
            return Err(PwmError::InvalidDutyCycle);
        }
        self.disable_channel(channel);
        let div = clock_divider(config.frequency);
        let period_reg = match timing.period_cycles.checked_sub(1) {
            Some(p) => p,
            None => return Err(PwmError::PeriodTooSmall),
        };
        if period_reg > 0xffff {
            return Err(PwmError::PeriodTooLarge);
        }
        let duty = timing.duty_cycles;
        let regs = self.get_channel_reg(channel);
        if let Some(_) = config.deadtime_ns {
            let delay = deadband_delay(timing.deadband_cycles);
            self.bus.push(BusOp::Write { reg: Reg::DbDly, value: dbdly_value(delay).value });
            self.bus.push(BusOp::Write { reg: Reg::DbCtrl, value: dbctrl_value().value });
        }
        self.bus.push(
            BusOp::Write { reg: regs.tim_ctrl, value: tim_ctrl_value(div, config.counting_mode).value },
        );
        self.bus.push(
            BusOp::Write {
                reg: regs.pwm_period,
                value: FieldId::PwmPeriodCcr.val(period_reg as u16 as u32).value,
            },
        );
        self.bus.push(BusOp::Write { reg: regs.pwm_ctrl, value: pwm_ctrl_value(&config).value });
        let ghost after_ctrl = self@;
        if config.use_fifo {
            let mut i: usize = 0;
            while i < 4
                invariant
                    i <= 4,
                    self@ == with_ops(
                        after_ctrl,
                        Seq::new(i as nat, |k: int| ccr_write(channel, duty)),
                    ),
                decreases 4 - i,
            {
                let op = ccr_write_op(channel, duty);
                self.bus.push(op);
                proof {
                    assert(Seq::new((i + 1) as nat, |k: int| ccr_write(channel, duty)) =~= Seq::new(
                        i as nat,
                        |k: int| ccr_write(channel, duty),
                    ).push(ccr_write(channel, duty)));
                }
                i = i + 1;
            }
            self.bus.push(
                BusOp::Modify { reg: regs.pwm_ctrl, field: FieldId::PwmCtrlFifoEmptyEnable.val(1) },
            );
        } else {
            let op = ccr_write_op(channel, duty);
            self.bus.push(op);
        }
        self.channels[channel].config = Some(config);
        proof {
            assert(self@.bus =~= old(self)@.bus + configure_ops(channel, config, timing));
            assert(self@.channels =~= old(self)@.channels.update(
                channel as int,
                PwmChannel { config: Some(config), enabled: false },
            ));
        }
        Ok(())
    }

    /// Enables a channel's timer: sets TIM_CTRL.ENABLE and marks the channel
    /// enabled.
    pub fn enable_channel(&mut self, channel: usize) -> (r: Result<(), PwmError>)
        ensures
            channel >= CHANNELS_PER_CONTROLLER ==> r == Err::<(), PwmError>(PwmError::InvalidChannel),
            channel < CHANNELS_PER_CONTROLLER ==> r == Ok::<(), PwmError>(()),
            final(self)@ == enable_result(old(self)@, channel),
    {
        if channel >= CHANNELS_PER_CONTROLLER {
            return Err(PwmError::InvalidChannel);
        }
        let regs = self.get_channel_reg(channel);
        self.bus.push(BusOp::Modify { reg: regs.tim_ctrl, field: FieldId::TimCtrlEnable.val(1) });
        self.channels[channel].enabled = true;
        Ok(())
    }

    /// The software state of a channel.
    pub fn channel(&self, channel: usize) -> (r: PwmChannel)
        requires
            channel < CHANNELS_PER_CONTROLLER,
        ensures
            r == self@.channels[channel as int],
    {
        self.channels[channel]
    }

    /// The operation in progress.
    pub fn task(&self) -> (r: Task)
        ensures
            r == self@.task,
    {
        self.task
    }

    /// Hands over the queued register writes, oldest first, and empties the
    /// queue.
    pub fn take_bus_ops(&mut self) -> (r: Vec<BusOp>)
        ensures
            r@ == old(self)@.bus,
            final(self)@ == drained(old(self)@),
    {
        let mut ops: Vec<BusOp> = Vec::new();
        std::mem::swap(&mut ops, &mut self.bus);
        ops
    }

    /// Stops a channel at the end of its current period: writes a zero duty,
    /// then waits until TIM_CNT reads zero (pausing between reads), then
    /// disables the channel. Starts the operation and returns its first
    /// request; `resume` carries it on.
    pub fn safe_stop_channel(&mut self, channel: usize) -> (r: BusRequest)
        requires
            channel < CHANNELS_PER_CONTROLLER,
        ensures
            final(self)@ == safe_stop_start(old(self)@, channel),
            r == BusRequest::Read(ch_reg(channel, ChannelReg::TimCnt)),
    {
        let c = if channel == 0 {
            ChannelId::Ch0
        } else {
            ChannelId::Ch1
        };
        let regs = self.get_channel_reg(channel);
        let op = ccr_write_op(channel, 0);
        self.bus.push(op);
        self.task = Task::SafeStop { channel: c, paused: false };
        BusRequest::Read(regs.tim_cnt)
    }

    /// Pushes a duty value into a channel's FIFO unless STATE reports the
    /// FIFO full. Starts the operation: an invalid channel is refused at
    /// once; otherwise STATE is requested and `resume` decides.
    pub fn push_fifo_data(&mut self, channel: usize, duty_value: u16) -> (r: BusRequest)
        ensures
            channel >= CHANNELS_PER_CONTROLLER ==> r == BusRequest::Done(
                Err::<(), PwmError>(PwmError::InvalidChannel),
            ),
            channel < CHANNELS_PER_CONTROLLER ==> r == BusRequest::Read(
                ch_reg(channel, ChannelReg::State),
            ),
            final(self)@ == push_start(old(self)@, channel, duty_value),
    {
        match ChannelId::from_index(channel) {
            None => {
                self.task = Task::Idle;
                BusRequest::Done(Err(PwmError::InvalidChannel))
            },
            Some(c) => {
                let regs = self.get_channel_reg(channel);
                self.task = Task::PushFifo { channel: c, duty_value };
                BusRequest::Read(regs.state)
            },
        }
    }

    /// Services the controller's interrupt: handles channel 0, then channel
    /// 1 (see `irq_step`). Starts the operation and returns its first
    /// request.
    pub fn handle_interrupt(&mut self) -> (r: BusRequest)
        ensures
            final(self)@ == interrupt_start(old(self)@),
            r == BusRequest::Read(ch_reg(0, ChannelReg::State)),
    {
        self.task = Task::Interrupt { channel: ChannelId::Ch0, stage: IrqStage::State };
        BusRequest::Read(Reg::Channel { channel: 0, reg: ChannelReg::State })
    }

    /// Carries on the operation in progress with the value of the register
    /// it asked for (ignored after a pause). With no operation in progress,
    /// reports success and changes nothing.
    pub fn resume(&mut self, value: u32) -> (r: BusRequest)
        ensures
            final(self)@ == resume_step(old(self)@, value).0,
            r == resume_step(old(self)@, value).1,
    {
        match self.task {
            Task::Idle => BusRequest::Done(Ok(())),
            Task::PushFifo { channel, duty_value } => {
                if field_matches_all(FieldId::StateFifoFull.val(1), value) {
                    self.task = Task::Idle;
                    BusRequest::Done(Err(PwmError::FifoFull))
                } else {
                    let op = ccr_write_op(channel.index(), duty_value);
                    self.bus.push(op);
                    self.task = Task::Idle;
                    BusRequest::Done(Ok(()))
                }
            },
            Task::SafeStop { channel, paused } => {
                let ch = channel.index();
                if paused {
                    self.task = Task::SafeStop { channel, paused: false };
                    BusRequest::Read(Reg::Channel { channel: ch, reg: ChannelReg::TimCnt })
                } else if field_read(FieldId::TimCntCnt.field(), value) != 0 {
                    self.task = Task::SafeStop { channel, paused: true };
                    BusRequest::Pause
                } else {
                    self.disable_channel(ch);
                    self.task = Task::Idle;
                    BusRequest::Done(Ok(()))
                }
            },
            Task::Interrupt { channel, stage } => self.handle_channel_interrupt(channel, stage, value),
        }
    }

    /// Queues the flag clears that end a channel's interrupt handling.
    fn clear_flags(&mut self, channel: usize, state: u32, fifo_branch: bool)
        requires
            channel < CHANNELS_PER_CONTROLLER,
        ensures
            final(self)@ == with_ops(old(self)@, flag_ops(channel, state, fifo_branch)),
    {
        let regs = self.get_channel_reg(channel);
        if fifo_branch {
            self.bus.push(BusOp::Write { reg: regs.state, value: FieldId::StateFifoEmpty.val(1).value });
        }
        if field_read(FieldId::StateOvfif.field(), state) != 0 {
            self.bus.push(BusOp::Write { reg: regs.state, value: FieldId::StateOvfif.val(1).value });
        }
        if field_read(FieldId::StateChif.field(), state) != 0 {
            self.bus.push(BusOp::Write { reg: regs.state, value: FieldId::StateChif.val(1).value });
        }
        proof {
            assert(self@.bus =~= old(self)@.bus + flag_ops(channel, state, fifo_branch));
        }
    }

    /// Moves interrupt handling on to the next channel, or ends it.
    fn next_channel_interrupt(&mut self, channel: ChannelId) -> (r: BusRequest)
        ensures
            final(self)@ == irq_next(old(self)@, channel).0,
            r == irq_next(old(self)@, channel).1,
    {
        match channel {
            ChannelId::Ch0 => {
                self.task = Task::Interrupt { channel: ChannelId::Ch1, stage: IrqStage::State };
                BusRequest::Read(Reg::Channel { channel: 1, reg: ChannelReg::State })
            },
            ChannelId::Ch1 => {
                self.task = Task::Idle;
                BusRequest::Done(Ok(()))
            },
        }
    }

    /// One step of a channel's interrupt handling (see `irq_step`).
    fn handle_channel_interrupt(&mut self, channel: ChannelId, stage: IrqStage, value: u32) -> (r:
        BusRequest)
        ensures
            final(self)@ == irq_step(old(self)@, channel, stage, value).0,
            r == irq_step(old(self)@, channel, stage, value).1,
    {
        let ch = channel.index();
        let regs = self.get_channel_reg(ch);
        match stage {
            IrqStage::State => {
                if field_read(FieldId::StateFifoEmpty.field(), value) != 0 {
                    self.task = Task::Interrupt { channel, stage: IrqStage::Counter { state: value } };
                    BusRequest::Read(regs.tim_cnt)
                } else {
                    self.clear_flags(ch, value, false);
                    self.next_channel_interrupt(channel)
                }
            },
            IrqStage::Counter { state } => {
                if field_read(FieldId::TimCntCnt.field(), value) == 0 && self.channels[ch].config.is_some() {
                    self.task = Task::Interrupt { channel, stage: IrqStage::Period { state } };
                    BusRequest::Read(regs.pwm_period)
                } else {
                    self.clear_flags(ch, state, true);
                    self.next_channel_interrupt(channel)
                }
            },
            IrqStage::Period { state } => {
                match self.channels[ch].config {
                    Some(config) => {
                        let ccr = field_read(FieldId::PwmPeriodCcr.field(), value);
                        proof {
                            lemma_field_read_bound(value);
                        }
                        self.task = Task::Interrupt { channel, stage: IrqStage::Scale { state } };
                        BusRequest::ScaleDuty { cycles: ccr + 1, duty_cycle_bits: config.duty_cycle_bits }
                    },
                    None => {
                        self.clear_flags(ch, state, true);
                        self.next_channel_interrupt(channel)
                    },
                }
            },
            IrqStage::Scale { state } => {
                self.task = Task::Interrupt {
                    channel,
                    stage: IrqStage::FifoState { state, duty: value as u16 },
                };
                BusRequest::Read(regs.state)
            },
            IrqStage::FifoState { state, duty } => {
                if field_matches_all(FieldId::StateFifoFull.val(1), value) {
                    self.task = Task::Interrupt { channel, stage: IrqStage::Failed };
                    BusRequest::ChannelFailed { channel: ch, error: PwmError::FifoFull }
                } else {
                    let op = ccr_write_op(ch, duty);
                    self.bus.push(op);
                    self.clear_flags(ch, state, true);
                    self.next_channel_interrupt(channel)
                }
            },
            IrqStage::Failed => self.next_channel_interrupt(channel),
        }
    }
}

/// PWM_PERIOD.CCR read from any value fits 16 bits.
proof fn lemma_field_read_bound(x: u32)
    ensures
        spec_field(FieldId::PwmPeriodCcr).spec_read(x) <= 0xffff,
{
    assert((x & (0xffffu32 << 0u32)) >> 0u32 <= 0xffff) by (bit_vector);
}

// ---------------------------------------------------------------------------
// Properties.

/// The TIM_CTRL value that `configure_channel` writes holds the divider in
/// the 12 bits of DIV and the counting mode, and leaves ENABLE clear: a
/// configured timer does not run until it is enabled.
pub proof fn lemma_configured_timer_stopped(divider: u16, mode: CountingMode)
    ensures
        spec_field(FieldId::TimCtrlEnable).spec_read(spec_tim_ctrl_value(divider, mode).value) == 0,
        spec_field(FieldId::TimCtrlDiv).spec_read(spec_tim_ctrl_value(divider, mode).value) == (
        divider as u32) & 0xfff,
        spec_field(FieldId::TimCtrlMode).spec_read(spec_tim_ctrl_value(divider, mode).value)
            == mode.spec_bits(),
{
    let d = divider as u32;
    let m = mode.spec_bits();
    let v = spec_tim_ctrl_value(divider, mode).value;
    assert(v == ((((d & 0xfff) << 16u32) | ((m & 1) << 2u32)) | ((0u32 & 1) << 1u32)));
    assert(((v & (1u32 << 1u32)) >> 1u32) == 0 && ((v & (0xfffu32 << 16u32)) >> 16u32) == d
        & 0xfff && ((v & (1u32 << 2u32)) >> 2u32) == m) by (bit_vector)
        requires
            v == ((((d & 0xfff) << 16u32) | ((m & 1) << 2u32)) | ((0u32 & 1) << 1u32)),
            m <= 1,
    ;
}

/// The PWM_CTRL value that `configure_channel` writes selects compare mode,
/// the duty source of the configuration, its initial level and output
/// behaviour, enables the compare interrupt and leaves the FIFO-empty
/// interrupt disabled.
pub proof fn lemma_configured_output_control(config: PwmConfig)
    ensures
        ({
            let v = spec_pwm_ctrl_value(config).value;
            &&& spec_field(FieldId::PwmCtrlMode).spec_read(v) == 1
            &&& spec_field(FieldId::PwmCtrlDutySel).spec_read(v) == (if config.use_fifo {
                1u32
            } else {
                0u32
            })
            &&& spec_field(FieldId::PwmCtrlIcov).spec_read(v) == config.initial_value.spec_bits()
            &&& spec_field(FieldId::PwmCtrlCmp).spec_read(v) == config.output_behavior.spec_bits()
            &&& spec_field(FieldId::PwmCtrlIe).spec_read(v) == 1
            &&& spec_field(FieldId::PwmCtrlFifoEmptyEnable).spec_read(v) == 0
        }),
{
    let f: u32 = if config.use_fifo {
        1
    } else {
        0
    };
    let i = config.initial_value.spec_bits();
    let c = config.output_behavior.spec_bits();
    let v = spec_pwm_ctrl_value(config).value;
    assert(v == ((((((1u32 & 1) << 2u32) | ((f & 1) << 8u32)) | ((i & 1) << 7u32)) | ((c & 7)
        << 4u32)) | ((1u32 & 1) << 3u32)));
    assert(((v & (1u32 << 2u32)) >> 2u32) == 1 && ((v & (1u32 << 8u32)) >> 8u32) == f && ((v & (1u32
        << 7u32)) >> 7u32) == i && ((v & (7u32 << 4u32)) >> 4u32) == c && ((v & (1u32 << 3u32))
        >> 3u32) == 1 && ((v & (1u32 << 9u32)) >> 9u32) == 0) by (bit_vector)
        requires
            v == ((((((1u32 & 1) << 2u32) | ((f & 1) << 8u32)) | ((i & 1) << 7u32)) | ((c & 7)
                << 4u32)) | ((1u32 & 1) << 3u32)),
            f <= 1,
            i <= 1,
            c <= 7,
    ;
}

/// The dead-band registers that `configure_channel` writes hold the delay
/// for both edges, and select dead band on both edges with PWM0 as input and
/// no inversion.
pub proof fn lemma_configured_deadband(deadband_cycles: u16)
    ensures
        ({
            let d = spec_deadband_delay(deadband_cycles);
            let v = spec_dbdly_value(d).value;
            let c = spec_dbctrl_value().value;
            &&& spec_field(FieldId::DbdlyDbred).spec_read(v) == d
            &&& spec_field(FieldId::DbdlyDbfed).spec_read(v) == d
            &&& spec_field(FieldId::DbctrlOutMode).spec_read(c) == 0b11
            &&& spec_field(FieldId::DbctrlInMode).spec_read(c) == 0
            &&& spec_field(FieldId::DbctrlPolsel).spec_read(c) == 0
        }),
{
    let d = spec_deadband_delay(deadband_cycles) as u32;
    let v = spec_dbdly_value(spec_deadband_delay(deadband_cycles)).value;
    let c = spec_dbctrl_value().value;
    assert(v == (((d & 0x3ff) << 0u32) | ((d & 0x3ff) << 10u32)));
    assert(c == ((((3u32 & 3) << 4u32) | ((0u32 & 1) << 1u32)) | ((0u32 & 3) << 2u32)));
    assert(((v & (0x3ffu32 << 0u32)) >> 0u32) == d && ((v & (0x3ffu32 << 10u32)) >> 10u32) == d
        && ((c & (3u32 << 4u32)) >> 4u32) == 3 && ((c & (1u32 << 1u32)) >> 1u32) == 0 && ((c & (3u32
        << 2u32)) >> 2u32) == 0) by (bit_vector)
        requires
            v == (((d & 0x3ff) << 0u32) | ((d & 0x3ff) << 10u32)),
            c == ((((3u32 & 3) << 4u32) | ((0u32 & 1) << 1u32)) | ((0u32 & 3) << 2u32)),
            d <= 1023,
    ;
}

/// The values of the STATE flag clears, and what the flag tests read.
proof fn lemma_flag_values()
    ensures
        FieldId::StateFifoEmpty.spec_set().value == 4,
        FieldId::StateOvfif.spec_set().value == 2,
        FieldId::StateChif.spec_set().value == 1,
        forall|x: u32| #[trigger] flag_set(x, FieldId::StateFifoEmpty) <==> x & 4 != 0,
        forall|x: u32| #[trigger] flag_set(x, FieldId::StateOvfif) <==> x & 2 != 0,
        forall|x: u32| #[trigger] flag_set(x, FieldId::StateChif) <==> x & 1 != 0,
{
    assert((1u32 & 1u32) << 2u32 == 4 && (1u32 & 1u32) << 1u32 == 2 && (1u32 & 1u32) << 0u32 == 1)
        by (bit_vector);
    assert(forall|x: u32|
        (((x & (1u32 << 2u32)) >> 2u32 != 0) <==> x & 4 != 0) && (((x & (1u32 << 1u32)) >> 1u32
            != 0) <==> x & 2 != 0) && (((x & (1u32 << 0u32)) >> 0u32 != 0) <==> x & 1 != 0))
        by (bit_vector);
}

/// The STATE value an interrupt-handling step works on: the value read in
/// the first step, the remembered one afterwards.
pub open spec fn handled_state(stage: IrqStage, x: u32) -> u32 {
    match stage {
        IrqStage::State => x,
        IrqStage::Counter { state } => state,
        IrqStage::Period { state } => state,
        IrqStage::Scale { state } => state,
        IrqStage::FifoState { state, .. } => state,
        IrqStage::Failed => 0,
    }
}

/// An interrupt-handling task past its first step remembers a STATE value
/// with the FIFO-empty flag set.
pub open spec fn task_consistent(t: Task) -> bool {
    match t {
        Task::Interrupt { stage, .. } => match stage {
            IrqStage::State => true,
            IrqStage::Failed => true,
            _ => flag_set(handled_state(stage, 0), FieldId::StateFifoEmpty),
        },
        _ => true,
    }
}

/// The writes a step appended to the queue.
pub open spec fn appended(before: ControllerState, after: ControllerState) -> Seq<BusOp> {
    after.bus.subrange(before.bus.len() as int, after.bus.len() as int)
}

/// Interrupt handling only appends to the queue, and what it appends are
/// plain writes to the channel's STATE or PWM_CCR. A STATE write writes a
/// one to exactly one flag (FIFO-empty, overflow or compare-match), which
/// clears that flag alone, and only a flag that is set in the STATE value
/// handled. A PWM_CCR write (a FIFO push) happens only in the step that has
/// just read STATE with the FIFO not full. Every step keeps the task
/// consistent and leaves the channels as they are.
pub proof fn lemma_irq_step_writes(s: ControllerState, channel: ChannelId, stage: IrqStage, x: u32)
    requires
        task_consistent(Task::Interrupt { channel, stage }),
    ensures
        ({
            let s2 = irq_step(s, channel, stage, x).0;
            let new_ops = appended(s, s2);
            let c = channel.spec_index();
            &&& task_consistent(s2.task)
            &&& s2.bus.len() >= s.bus.len()
            &&& s2.bus.subrange(0, s.bus.len() as int) == s.bus
            &&& s2.channels == s.channels
            &&& forall|k: int| 0 <= k < new_ops.len() ==> match #[trigger] new_ops[k] {
                BusOp::Write { reg, value } => (reg == ch_reg(c, ChannelReg::State) && (value == 1
                    || value == 2 || value == 4) && handled_state(stage, x) & value != 0) || (reg
                    == ch_reg(c, ChannelReg::PwmCcr) && (stage is FifoState && !fifo_full(x))),
                BusOp::Modify { .. } => false,
            }
        }),
{
    lemma_flag_values();
    let s2 = irq_step(s, channel, stage, x).0;
    let c = channel.spec_index();
    let new_ops = appended(s, s2);
    match stage {
        IrqStage::State => {
            if flag_set(x, FieldId::StateFifoEmpty) {
                assert(new_ops =~= seq![]);
            } else {
                assert(new_ops =~= flag_ops(c, x, false));
            }
        },
        IrqStage::Counter { state } => {
            if spec_field(FieldId::TimCntCnt).spec_read(x) == 0 && s.channels[c as int].config is Some {
                assert(new_ops =~= seq![]);
            } else {
                assert(new_ops =~= flag_ops(c, state, true));
            }
        },
        IrqStage::Period { state } => {
            if s.channels[c as int].config is Some {
                assert(new_ops =~= seq![]);
            } else {
                assert(new_ops =~= flag_ops(c, state, true));
            }
        },
        IrqStage::Scale { state } => {
            assert(new_ops =~= seq![]);
        },
        IrqStage::FifoState { state, duty } => {
            if fifo_full(x) {
                assert(new_ops =~= seq![]);
            } else {
                assert(new_ops =~= seq![ccr_write(c, duty)] + flag_ops(c, state, true));
            }
        },
        IrqStage::Failed => {
            assert(new_ops =~= seq![]);
        },
    }
}

/// A refill refused because STATE reports the FIFO full is reported: the
/// step answers `ChannelFailed` with `FifoFull` for the channel, writes
/// nothing, and the next step goes on with the next channel (or ends the
/// handling in success). No other step reports a failure.
pub proof fn lemma_irq_refusal_reported(s: ControllerState, channel: ChannelId, stage: IrqStage, x: u32)
    ensures
        ({
            let (s2, r) = irq_step(s, channel, stage, x);
            &&& (r is ChannelFailed) <==> (stage is FifoState && fifo_full(x))
            &&& r is ChannelFailed ==> {
                &&& r == BusRequest::ChannelFailed {
                    channel: channel.spec_index(),
                    error: PwmError::FifoFull,
                }
                &&& s2.bus == s.bus
                &&& s2.channels == s.channels
                &&& irq_step(s2, channel, IrqStage::Failed, 0) == irq_next(s2, channel)
            }
        }),
{
}

/// How many steps interrupt handling has left at most.
pub open spec fn irq_steps_left(t: Task) -> nat {
    match t {
        Task::Interrupt { channel, stage } => {
            let in_channel: nat = match stage {
                IrqStage::State => 6,
                IrqStage::Counter { .. } => 5,
                IrqStage::Period { .. } => 4,
                IrqStage::Scale { .. } => 3,
                IrqStage::FifoState { .. } => 2,
                IrqStage::Failed => 1,
            };
            match channel {
                ChannelId::Ch0 => in_channel + 6,
                ChannelId::Ch1 => in_channel,
            }
        },
        _ => 0,
    }
}

/// Interrupt handling ends: each step leaves either an interrupt-handling
/// task with fewer steps left, or no task, and it reports its end (always
/// a success) exactly when no task is left.
pub proof fn lemma_irq_handling_ends(s: ControllerState, x: u32)
    requires
        s.task is Interrupt,
    ensures
        ({
            let (s2, r) = resume_step(s, x);
            &&& s2.task is Interrupt || s2.task is Idle
            &&& irq_steps_left(s2.task) < irq_steps_left(s.task)
            &&& (r is Done <==> s2.task is Idle)
            &&& r is Done ==> r == BusRequest::Done(Ok(()))
        }),
{
}

/// Stopping a channel safely waits for a zero counter: the operation
/// reports its end only in a step that read TIM_CNT as zero, and it ends
/// with the channel disabled (its flag cleared and an ENABLE clear queued
/// last). Until then it stays a stop of the same channel.
pub proof fn lemma_safe_stop_waits_for_zero(s: ControllerState, x: u32)
    requires
        s.task is SafeStop,
        s.channels.len() == CHANNELS_PER_CONTROLLER,
    ensures
        ({
            let (s2, r) = resume_step(s, x);
            let c = s.task->SafeStop_channel;
            &&& r is Done ==> {
                &&& !s.task->SafeStop_paused
                &&& spec_field(FieldId::TimCntCnt).spec_read(x) == 0
                &&& r == BusRequest::Done(Ok(()))
                &&& s2.task is Idle
                &&& !s2.channels[c.spec_index() as int].enabled
                &&& s2.bus.last() == disable_op(c.spec_index())
            }
            &&& !(r is Done) ==> s2.task is SafeStop && s2.task->SafeStop_channel == c
        }),
{
}

/// Pushing into the FIFO writes the duty value exactly when STATE did not
/// report the FIFO full, and reports which happened.
pub proof fn lemma_push_writes_unless_full(s: ControllerState, x: u32)
    requires
        s.task is PushFifo,
    ensures
        ({
            let (s2, r) = resume_step(s, x);
            let c = s.task->PushFifo_channel.spec_index();
            let d = s.task->PushFifo_duty_value;
            &&& fifo_full(x) ==> r == BusRequest::Done(Err::<(), PwmError>(PwmError::FifoFull))
                && s2.bus == s.bus
            &&& !fifo_full(x) ==> r == BusRequest::Done(Ok::<(), PwmError>(())) && s2.bus == s.bus.push(
                BusOp::Write { reg: Reg::Channel { channel: c, reg: ChannelReg::PwmCcr }, value: d as u32 },
            )
            &&& s2.task is Idle
            &&& s2.channels == s.channels
        }),
{
    lemma_ccr_write_value(s.task->PushFifo_channel.spec_index(), s.task->PushFifo_duty_value);
    assert(s.bus + seq![ccr_write(s.task->PushFifo_channel.spec_index(), s.task->PushFifo_duty_value)]
        =~= s.bus.push(ccr_write(s.task->PushFifo_channel.spec_index(), s.task->PushFifo_duty_value)));
}

/// A duty write puts the duty value itself into PWM_CCR (all 16 bits).
pub proof fn lemma_ccr_write_value(channel: usize, duty: u16)
    ensures
        ccr_write(channel, duty) == (BusOp::Write {
            reg: Reg::Channel { channel, reg: ChannelReg::PwmCcr },
            value: duty as u32,
        }),
{
    let d = duty as u32;
    assert((d & 0xffff) << 0u32 == d) by (bit_vector)
        requires
            d <= 0xffff,
    ;
}

/// What a successful configuration writes, value by value: the ENABLE
/// clear (mask 2, value 0); with a dead time, DBDLY with the delay (at most
/// 1023) in both 10-bit fields and DBCTRL 0x30 (dead band on both edges,
/// PWM0 in, no inversion), for either channel; TIM_CTRL with the low 12
/// bits of 50 MHz over the frequency at bit 16 and the counting mode code
/// at bit 2, ENABLE clear; PWM_PERIOD with the period cycles minus one;
/// PWM_CTRL with compare mode (bit 2), the compare interrupt (bit 3), the
/// output behaviour code at bit 4, the initial level at bit 7 and the FIFO
/// selection at bit 8; then the duty cycles themselves, once into PWM_CCR,
/// or four times followed by setting PWM_CTRL bit 9 (FIFO-empty interrupt)
/// in FIFO mode.
pub proof fn lemma_configure_writes(channel: usize, config: PwmConfig, timing: ChannelTiming)
    requires
        configure_error(channel, config, timing) is None,
        config.frequency != 0,
    ensures
        ({
            let ops = configure_ops(channel, config, timing);
            let d: int = if config.deadtime_ns is Some {
                2
            } else {
                0
            };
            let delay: u32 = if timing.deadband_cycles > 1023 {
                1023
            } else {
                timing.deadband_cycles as u32
            };
            let q: u32 = (50_000_000u32 / config.frequency) as u32;
            let mode: u32 = match config.counting_mode {
                CountingMode::Modulo => 0,
                CountingMode::UpAndDown => 1,
            };
            let code: u32 = match config.output_behavior {
                OutputBehavior::SetOnMatch => 0,
                OutputBehavior::ClearOnMatch => 1,
                OutputBehavior::ToggleOnMatch => 2,
                OutputBehavior::SetOnUpClearOnDown => 3,
                OutputBehavior::ClearOnUpSetOnDown => 4,
                OutputBehavior::ClearOnCcrSetOnPeriod => 5,
                OutputBehavior::SetOnCcrClearOnPeriod => 6,
                OutputBehavior::Initialize => 7,
            };
            let icov: u32 = match config.initial_value {
                InitialValue::Low => 0,
                InitialValue::High => 1,
            };
            let fifo: u32 = if config.use_fifo {
                1
            } else {
                0
            };
            let reg = |r: ChannelReg| Reg::Channel { channel, reg: r };
            let duty = BusOp::Write { reg: reg(ChannelReg::PwmCcr), value: timing.duty_cycles as u32 };
            &&& ops[0] == BusOp::Modify {
                reg: reg(ChannelReg::TimCtrl),
                field: FieldVal { mask: 2, value: 0 },
            }
            &&& config.deadtime_ns is Some ==> {
                &&& ops[1] == BusOp::Write { reg: Reg::DbDly, value: delay | (delay << 10u32) }
                &&& ops[2] == BusOp::Write { reg: Reg::DbCtrl, value: 0x30 }
            }
            &&& ops[1 + d] == BusOp::Write {
                reg: reg(ChannelReg::TimCtrl),
                value: ((q & 0xfff) << 16u32) | (mode << 2u32),
            }
            &&& ops[2 + d] == BusOp::Write {
                reg: reg(ChannelReg::PwmPeriod),
                value: (timing.period_cycles - 1) as u32,
            }
            &&& ops[3 + d] == BusOp::Write {
                reg: reg(ChannelReg::PwmCtrl),
                value: 0x4u32 | 0x8u32 | (code << 4u32) | (icov << 7u32) | (fifo << 8u32),
            }
            &&& !config.use_fifo ==> ops.len() == 5 + d && ops[4 + d] == duty
            &&& config.use_fifo ==> {
                &&& ops.len() == 9 + d
                &&& ops[4 + d] == duty
                &&& ops[5 + d] == duty
                &&& ops[6 + d] == duty
                &&& ops[7 + d] == duty
                &&& ops[8 + d] == BusOp::Modify {
                    reg: reg(ChannelReg::PwmCtrl),
                    field: FieldVal { mask: 0x200, value: 0x200 },
                }
            }
        }),
{
    let q: u32 = (50_000_000u32 / config.frequency) as u32;
    let dv: u16 = spec_clock_divider(config.frequency);
    assert(dv == q as u16);
    let m = config.counting_mode.spec_bits();
    let c = config.output_behavior.spec_bits();
    let i = config.initial_value.spec_bits();
    let f: u32 = if config.use_fifo {
        1
    } else {
        0
    };
    let p: u32 = period_reg(timing);
    let dl: u32 = spec_deadband_delay(timing.deadband_cycles) as u32;
    let tv = spec_tim_ctrl_value(dv, config.counting_mode).value;
    let cv = spec_pwm_ctrl_value(config).value;
    let yv = spec_dbdly_value(spec_deadband_delay(timing.deadband_cycles)).value;
    let bv = spec_dbctrl_value().value;
    assert(tv == (((((q as u16) as u32) & 0xfff) << 16u32) | ((m & 1) << 2u32)) | ((0u32 & 1) << 1u32));
    assert(cv == ((((((1u32 & 1) << 2u32) | ((f & 1) << 8u32)) | ((i & 1) << 7u32)) | ((c & 7)
        << 4u32)) | ((1u32 & 1) << 3u32)));
    assert(yv == (((dl & 0x3ff) << 0u32) | ((dl & 0x3ff) << 10u32)));
    assert(bv == ((((3u32 & 3) << 4u32) | ((0u32 & 1) << 1u32)) | ((0u32 & 3) << 2u32)));
    assert({
        &&& tv == ((q & 0xfff) << 16u32) | (m << 2u32)
        &&& cv == 0x4u32 | 0x8u32 | (c << 4u32) | (i << 7u32) | (f << 8u32)
        &&& yv == dl | (dl << 10u32)
        &&& bv == 0x30
        &&& ((p as u16) as u32 & 0xffff) << 0u32 == p
        &&& 1u32 << 1u32 == 2 && (0u32 & 1) << 1u32 == 0
        &&& 1u32 << 9u32 == 0x200 && (1u32 & 1) << 9u32 == 0x200
    }) by (bit_vector)
        requires
            tv == (((((q as u16) as u32) & 0xfff) << 16u32) | ((m & 1) << 2u32)) | ((0u32 & 1)
                << 1u32),
            cv == ((((((1u32 & 1) << 2u32) | ((f & 1) << 8u32)) | ((i & 1) << 7u32)) | ((c & 7)
                << 4u32)) | ((1u32 & 1) << 3u32)),
            yv == (((dl & 0x3ff) << 0u32) | ((dl & 0x3ff) << 10u32)),
            bv == ((((3u32 & 3) << 4u32) | ((0u32 & 1) << 1u32)) | ((0u32 & 3) << 2u32)),
            m <= 1,
            c <= 7,
            i <= 1,
            f <= 1,
            dl <= 1023,
            p <= 0xffff,
    ;
    lemma_ccr_write_value(channel, timing.duty_cycles);
}

/// Disabling a disabled channel changes no channel state (it only queues
/// another ENABLE clear).
pub proof fn lemma_disable_idempotent(s: ControllerState, channel: usize)
    requires
        channel < CHANNELS_PER_CONTROLLER,
        s.channels.len() == CHANNELS_PER_CONTROLLER,
    ensures
        disabled(disabled(s, channel), channel).channels == disabled(s, channel).channels,
{
    assert(disabled(disabled(s, channel), channel).channels =~= disabled(s, channel).channels);
}

/// A write of ones to the STATE flags `bits` of a channel.
pub open spec fn state_write(channel: usize, bits: u32) -> BusOp {
    BusOp::Write { reg: Reg::Channel { channel, reg: ChannelReg::State }, value: bits }
}

proof fn lemma_flag_ops_contains(channel: usize, state: u32, fifo_branch: bool)
    ensures
        fifo_branch ==> flag_ops(channel, state, fifo_branch).contains(state_write(channel, 4)),
        state & 2 != 0 ==> flag_ops(channel, state, fifo_branch).contains(state_write(channel, 2)),
        state & 1 != 0 ==> flag_ops(channel, state, fifo_branch).contains(state_write(channel, 1)),
{
    lemma_flag_values();
    let a: Seq<BusOp> = if fifo_branch {
        seq![flag_clear(channel, FieldId::StateFifoEmpty)]
    } else {
        seq![]
    };
    let b: Seq<BusOp> = if flag_set(state, FieldId::StateOvfif) {
        seq![flag_clear(channel, FieldId::StateOvfif)]
    } else {
        seq![]
    };
    let c: Seq<BusOp> = if flag_set(state, FieldId::StateChif) {
        seq![flag_clear(channel, FieldId::StateChif)]
    } else {
        seq![]
    };
    let ops = flag_ops(channel, state, fifo_branch);
    assert(ops == a + b + c);
    if fifo_branch {
        assert(ops[0] == state_write(channel, 4));
    }
    if state & 2 != 0 {
        assert(ops[a.len() as int] == state_write(channel, 2));
    }
    if state & 1 != 0 {
        assert(ops[(a.len() + b.len()) as int] == state_write(channel, 1));
    }
}

proof fn lemma_contains_after_prefix(p: Seq<BusOp>, q: Seq<BusOp>, w: BusOp)
    requires
        q.contains(w),
    ensures
        (p + q).contains(w),
{
    let k = choose|k: int| 0 <= k < q.len() && q[k] == w;
    assert((p + q)[p.len() + k] == w);
}

/// Interrupt handling clears every flag it finds set: in the step that
/// finishes a channel, a write of one to each of FIFO-empty (4), overflow
/// (2) and compare-match (1) that is set in the STATE value handled is
/// queued for that channel's STATE (a refill refused because the FIFO is
/// full leaves the flags, see `lemma_irq_refusal_reported`).
pub proof fn lemma_irq_clears_set_flags(s: ControllerState, channel: ChannelId, stage: IrqStage, x: u32)
    requires
        task_consistent(Task::Interrupt { channel, stage }),
    ensures
        ({
            let s2 = irq_step(s, channel, stage, x).0;
            let new_ops = appended(s, s2);
            let st = handled_state(stage, x);
            let c = channel.spec_index();
            !(s2.task is Interrupt && s2.task->Interrupt_channel == channel) ==> {
                &&& st & 4 != 0 ==> new_ops.contains(state_write(c, 4))
                &&& st & 2 != 0 ==> new_ops.contains(state_write(c, 2))
                &&& st & 1 != 0 ==> new_ops.contains(state_write(c, 1))
            }
        }),
{
    lemma_flag_values();
    let s2 = irq_step(s, channel, stage, x).0;
    let c = channel.spec_index();
    let new_ops = appended(s, s2);
    match stage {
        IrqStage::State => {
            if !flag_set(x, FieldId::StateFifoEmpty) {
                assert(x & 4 == 0);
                assert(new_ops =~= flag_ops(c, x, false));
                lemma_flag_ops_contains(c, x, false);
                assert(x & 2 != 0 ==> new_ops.contains(state_write(c, 2)));
                assert(x & 1 != 0 ==> new_ops.contains(state_write(c, 1)));
            } else {
                assert(s2.task == (Task::Interrupt { channel, stage: IrqStage::Counter { state: x } }));
            }
        },
        IrqStage::Counter { state } => {
            if !(spec_field(FieldId::TimCntCnt).spec_read(x) == 0 && s.channels[c as int].config is Some) {
                assert(new_ops =~= flag_ops(c, state, true));
                lemma_flag_ops_contains(c, state, true);
            }
        },
        IrqStage::Period { state } => {
            if s.channels[c as int].config is None {
                assert(new_ops =~= flag_ops(c, state, true));
                lemma_flag_ops_contains(c, state, true);
            }
        },
        IrqStage::Scale { .. } => {},
        IrqStage::FifoState { state, duty } => {
            if !fifo_full(x) {
                assert(new_ops =~= seq![ccr_write(c, duty)] + flag_ops(c, state, true));
                lemma_flag_ops_contains(c, state, true);
                let pre = seq![ccr_write(c, duty)];
                lemma_contains_after_prefix(pre, flag_ops(c, state, true), state_write(c, 4));
                if state & 2 != 0 {
                    lemma_contains_after_prefix(pre, flag_ops(c, state, true), state_write(c, 2));
                }
                if state & 1 != 0 {
                    lemma_contains_after_prefix(pre, flag_ops(c, state, true), state_write(c, 1));
                }
            }
        },
        IrqStage::Failed => {
            assert(0u32 & 4u32 == 0 && 0u32 & 2u32 == 0 && 0u32 & 1u32 == 0) by (bit_vector);
        },
    }
}

/// The FIFO refill of interrupt handling pushes the scaled duty handed to
/// `resume` itself (its low 16 bits, all that PWM_CCR holds): the step that
/// receives the scaled duty `x` remembers `x & 0xffff`, and the next step,
/// when STATE `y` has the FIFO-full bit (8) clear, queues first a PWM_CCR
/// write of exactly `x & 0xffff`; with that bit set it queues nothing.
pub proof fn lemma_irq_refill_writes_scaled_duty(
    s: ControllerState,
    channel: ChannelId,
    state: u32,
    x: u32,
    y: u32,
)
    ensures
        ({
            let s1 = irq_step(s, channel, IrqStage::Scale { state }, x).0;
            let stage1 = IrqStage::FifoState { state, duty: x as u16 };
            let s2 = irq_step(s1, channel, stage1, y).0;
            &&& s1.task == (Task::Interrupt { channel, stage: stage1 })
            &&& (x as u16) as u32 == x & 0xffff
            &&& s1.bus == s.bus
            &&& (fifo_full(y) <==> y & 8 != 0)
            &&& y & 8 == 0 ==> s2.bus.len() > s.bus.len() && s2.bus[s.bus.len() as int] == (BusOp::Write {
                reg: Reg::Channel { channel: channel.spec_index(), reg: ChannelReg::PwmCcr },
                value: x & 0xffff,
            })
            &&& y & 8 != 0 ==> s2.bus == s.bus
        }),
{
    let c = channel.spec_index();
    let d = x as u16;
    lemma_ccr_write_value(c, d);
    assert((x as u16) as u32 == x & 0xffff) by (bit_vector);
    assert(((1u32 << 3u32) == 8u32) && ((1u32 & 1u32) << 3u32 == 8u32) && ((y & 8 == 8) <==> (y & 8
        != 0))) by (bit_vector);
    let s1 = irq_step(s, channel, IrqStage::Scale { state }, x).0;
    if y & 8 == 0 {
        let new = seq![ccr_write(c, d)] + flag_ops(c, state, true);
        assert(irq_step(s1, channel, IrqStage::FifoState { state, duty: d }, y).0.bus == s.bus + new);
        assert((s.bus + new)[s.bus.len() as int] == new[0]);
    }
}

/// ENABLE is bit 1 of TIM_CTRL: enabling sets just that bit (mask 2,
/// value 2), disabling clears just that bit (mask 2, value 0).
pub proof fn lemma_enable_disable_ops(channel: usize)
    ensures
        enable_op(channel) == (BusOp::Modify {
            reg: Reg::Channel { channel, reg: ChannelReg::TimCtrl },
            field: FieldVal { mask: 2, value: 2 },
        }),
        disable_op(channel) == (BusOp::Modify {
            reg: Reg::Channel { channel, reg: ChannelReg::TimCtrl },
            field: FieldVal { mask: 2, value: 0 },
        }),
{
    assert(1u32 << 1u32 == 2 && (1u32 & 1u32) << 1u32 == 2 && (0u32 & 1u32) << 1u32 == 0)
        by (bit_vector);
}

/// How interrupt handling reads the registers: STATE bit 2 (FIFO-empty)
/// leads to reading TIM_CNT; a counter (low 16 bits) of zero on a
/// configured channel leads to reading PWM_PERIOD; the period read gives
/// the low 16 bits plus one as the cycles to scale the configured duty by.
pub proof fn lemma_irq_reads(s: ControllerState, channel: ChannelId, stage: IrqStage, x: u32)
    ensures
        ({
            let (s2, r) = irq_step(s, channel, stage, x);
            let c = channel.spec_index();
            &&& stage is State ==> (r == BusRequest::Read(
                Reg::Channel { channel: c, reg: ChannelReg::TimCnt },
            ) <==> x & 4 != 0)
            &&& stage is Counter ==> (r == BusRequest::Read(
                Reg::Channel { channel: c, reg: ChannelReg::PwmPeriod },
            ) <==> (x & 0xffff == 0 && s.channels[c as int].config is Some))
            &&& stage is Period && s.channels[c as int].config is Some ==> r == BusRequest::ScaleDuty {
                cycles: ((x & 0xffff) + 1) as u32,
                duty_cycle_bits: s.channels[c as int].config->Some_0.duty_cycle_bits,
            }
        }),
{
    lemma_flag_values();
    assert(((x & (0xffffu32 << 0u32)) >> 0u32) == x & 0xffff) by (bit_vector);
    assert(x & 0xffff <= 0xffff) by (bit_vector);
}

/// Stopping a channel safely waits while the counter (low 16 bits of
/// TIM_CNT) is nonzero and finishes when it reads zero.
pub proof fn lemma_safe_stop_counter(s: ControllerState, x: u32)
    requires
        s.task is SafeStop,
        !s.task->SafeStop_paused,
    ensures
        (resume_step(s, x).1 is Done) <==> x & 0xffff == 0,
        (resume_step(s, x).1 == BusRequest::Pause) <==> x & 0xffff != 0,
{
    assert(((x & (0xffffu32 << 0u32)) >> 0u32) == x & 0xffff) by (bit_vector);
}

} // verus!
