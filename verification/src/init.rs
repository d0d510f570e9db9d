//! The order in which the platform is brought up: which collaborator is
//! initialised when, on the primary core and on the secondary cores, at the
//! early and at the later stage. The caller performs the actions in the order
//! given.

use vstd::prelude::*;

verus! {

/// The capabilities that a build is configured with.
#[derive(Clone, Copy, Debug, PartialEq, Eq, Structural)]
pub struct Features {
    /// Interrupts are handled.
    pub irq: bool,
    /// More than one core is started.
    pub smp: bool,
    /// A real-time clock is present.
    pub rtc: bool,
}

/// The fixed addresses and numbers of the machine.
#[derive(Clone, Copy, Debug, PartialEq, Eq, Structural)]
pub struct PlatformConfig {
    /// Physical address of the console's UART.
    pub uart_paddr: usize,
    /// Physical address of the real-time clock.
    pub rtc_paddr: usize,
    /// Physical address of the interrupt controller's distributor.
    pub gicd_paddr: usize,
    /// Physical address of the interrupt controller's CPU interface.
    pub gicc_paddr: usize,
    /// Interrupt number of the timer.
    pub timer_irq: usize,
}

/// One call into a collaborator.
#[derive(Clone, Copy, Debug, PartialEq, Eq, Structural)]
pub enum InitAction {
    /// Install the trap and exception handling of the calling core.
    InitTrap,
    /// Bring up the console on the UART at this physical address.
    InitConsole { uart_paddr: usize },
    /// Bring up power management with the configured invocation method.
    InitPowerManagement,
    /// Bring up the real-time clock at this physical address.
    InitRtc { rtc_paddr: usize },
    /// Bring up the interrupt controller: the distributor, then the CPU
    /// interface, at these physical addresses.
    InitGic { gicd_paddr: usize, gicc_paddr: usize },
    /// Bring up the calling core's CPU interface of the interrupt controller.
    InitGicCpuInterface,
    /// Bring up the calling core's view of the interrupt controller on a
    /// secondary core.
    InitCurrentCpuIrq,
    /// Turn on the timer interrupt with this interrupt number.
    EnableTimerIrq { irq_num: usize },
}

/// The early stage on the primary core: trap handling first, then the console
/// and power management, then the real-time clock where there is one.
pub open spec fn early_plan(features: Features, config: PlatformConfig) -> Seq<InitAction> {
    let base = seq![
        InitAction::InitTrap,
        InitAction::InitConsole { uart_paddr: config.uart_paddr },
        InitAction::InitPowerManagement,
    ];
    if features.rtc {
        base.push(InitAction::InitRtc { rtc_paddr: config.rtc_paddr })
    } else {
        base
    }
}

/// The early stage on a secondary core: trap handling of that core, and only
/// where more than one core is started.
pub open spec fn early_secondary_plan(features: Features) -> Seq<InitAction> {
    if features.smp {
        seq![InitAction::InitTrap]
    } else {
        Seq::empty()
    }
}

/// The later stage on the primary core: with interrupts, the interrupt
/// controller, its CPU interface and the timer interrupt, in that order;
/// without them, nothing.
pub open spec fn later_plan(features: Features, config: PlatformConfig) -> Seq<InitAction> {
    if features.irq {
        seq![
            InitAction::InitGic { gicd_paddr: config.gicd_paddr, gicc_paddr: config.gicc_paddr },
            InitAction::InitGicCpuInterface,
            InitAction::EnableTimerIrq { irq_num: config.timer_irq },
        ]
    } else {
        Seq::empty()
    }
}

/// The later stage on a secondary core: with several cores and interrupts,
/// that core's view of the interrupt controller and then the timer interrupt;
/// otherwise nothing.
pub open spec fn later_secondary_plan(features: Features, config: PlatformConfig) -> Seq<
    InitAction,
> {
    if features.smp && features.irq {
        seq![
            InitAction::InitCurrentCpuIrq,
            InitAction::EnableTimerIrq { irq_num: config.timer_irq },
        ]
    } else {
        Seq::empty()
    }
}

/// What the primary core does at the early stage. The core's number and the
/// device tree pointer play no part.
pub fn init_early(features: Features, config: PlatformConfig, _cpu_id: usize, _dtb: usize) -> (plan:
    Vec<InitAction>)
    ensures
        plan@ == early_plan(features, config),
{
    let mut plan: Vec<InitAction> = Vec::new();
    plan.push(InitAction::InitTrap);
    plan.push(InitAction::InitConsole { uart_paddr: config.uart_paddr });
    plan.push(InitAction::InitPowerManagement);
    if features.rtc {
        plan.push(InitAction::InitRtc { rtc_paddr: config.rtc_paddr });
    }
    assert(plan@ =~= early_plan(features, config));
    plan
}

/// What a secondary core does at the early stage.
pub fn init_early_secondary(features: Features, _cpu_id: usize) -> (plan: Vec<InitAction>)
    ensures
        plan@ == early_secondary_plan(features),
{
    let mut plan: Vec<InitAction> = Vec::new();
    if features.smp {
        plan.push(InitAction::InitTrap);
    }
    assert(plan@ =~= early_secondary_plan(features));
    plan
}

/// What the primary core does at the later stage.
pub fn init_later(features: Features, config: PlatformConfig, _cpu_id: usize, _dtb: usize) -> (plan:
    Vec<InitAction>)
    ensures
        plan@ == later_plan(features, config),
{
    let mut plan: Vec<InitAction> = Vec::new();
    if features.irq {
        plan.push(
            InitAction::InitGic { gicd_paddr: config.gicd_paddr, gicc_paddr: config.gicc_paddr },
        );
        plan.push(InitAction::InitGicCpuInterface);
        plan.push(InitAction::EnableTimerIrq { irq_num: config.timer_irq });
    }
    assert(plan@ =~= later_plan(features, config));
    plan
}

/// What a secondary core does at the later stage.
pub fn init_later_secondary(features: Features, config: PlatformConfig, _cpu_id: usize) -> (plan:
    Vec<InitAction>)
    ensures
        plan@ == later_secondary_plan(features, config),
{
    let mut plan: Vec<InitAction> = Vec::new();
    if features.smp && features.irq {
        plan.push(InitAction::InitCurrentCpuIrq);
        plan.push(InitAction::EnableTimerIrq { irq_num: config.timer_irq });
    }
    assert(plan@ =~= later_secondary_plan(features, config));
    plan
}

/// Trap handling comes before anything that could fault: every early plan
/// that does anything starts with it, and the primary core's always does.
pub proof fn lemma_trap_first(features: Features, config: PlatformConfig)
    ensures
        early_plan(features, config).len() >= 3,
        early_plan(features, config)[0] == InitAction::InitTrap,
        early_secondary_plan(features).len() > 0 ==> early_secondary_plan(features)[0]
            == InitAction::InitTrap,
        forall|i: int|
            1 <= i < early_plan(features, config).len() ==> early_plan(features, config)[i]
                != InitAction::InitTrap,
{
}

/// With interrupts, the primary core's later stage is exactly: the interrupt
/// controller with its distributor, the CPU interface, the timer interrupt.
/// The timer interrupt is turned on last, after the controller that delivers
/// it, on the primary core and on a secondary one.
pub proof fn lemma_later_order(features: Features, config: PlatformConfig)
    ensures
        features.irq ==> later_plan(features, config) == seq![
            (InitAction::InitGic { gicd_paddr: config.gicd_paddr, gicc_paddr: config.gicc_paddr }),
            InitAction::InitGicCpuInterface,
            (InitAction::EnableTimerIrq { irq_num: config.timer_irq }),
        ],
        !features.irq ==> later_plan(features, config).len() == 0,
        !features.irq ==> later_secondary_plan(features, config).len() == 0,
        later_plan(features, config).len() > 0 ==> later_plan(features, config).last() == (
            InitAction::EnableTimerIrq { irq_num: config.timer_irq }),
        later_secondary_plan(features, config).len() > 0 ==> later_secondary_plan(
            features,
            config,
        ).last() == (InitAction::EnableTimerIrq { irq_num: config.timer_irq }),
{
}

} // verus!
