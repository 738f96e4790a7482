//! The target lifecycle manager and emission planner.
//!
//! The emission task owns one [`OutputTargets`] value and, outside the
//! library, the backend handles it stands for: one sub-target per device
//! output, each bundling four emitters, appended in increasing output-index
//! order. Order is load-bearing: lookups are positional, so the bundle at
//! index `i` belongs to output `i`.
//!
//! For each incoming event, [`OutputTargets::handle_event`] returns the exact
//! list of instructions to perform, in order. Sub-target creation happens at
//! most once per process: the first status event that reports a connected
//! device with a known output count yields one creation instruction per
//! output, and every later status event yields none.

use vstd::prelude::*;

use crate::device::opt_string_copy;
use crate::emitters::{DeviceStatusEmitter, DeviceStatusEmitterView, InputChangedEmitter,
    InputChangedEmitterView, LabelChangedEmitter, LabelChangedEmitterView, LockChangedEmitter,
    NetworkInterfaceEmitter, NetworkInterfaceEmitterView, TakeModeOnThisOutputEmitter,
    port_type_name, spec_port_type_name};
use crate::events::{EventView, PortType, VideohubEvent};
use crate::ports::{spec_to_one_based, to_one_based};

verus! {

/// One step the emission task must perform against the backend.
#[derive(Debug, PartialEq)]
#[allow(inconsistent_fields)]
pub enum EmitInstruction {
    /// Create the sub-target for this zero-based output index and append its
    /// emitter bundle. Instructions of this kind always arrive in increasing
    /// index order, starting at zero.
    CreateOutput { index: u32 },
    /// Pulse the device-level status emitter.
    PulseDeviceStatus { payload: DeviceStatusEmitter },
    /// Pulse the input-changed emitter of the bundle at `index`.
    PulseInputChanged { index: u32, payload: InputChangedEmitter },
    /// Pulse the label-changed emitter of the bundle at `index`.
    PulseLabelChanged { index: u32, payload: LabelChangedEmitter },
    /// Pulse the lock-changed emitter of the bundle at `index`.
    PulseLockChanged { index: u32, payload: LockChangedEmitter },
    /// Pulse the take-mode emitter of the bundle at `index`.
    PulseTakeMode { index: u32, payload: TakeModeOnThisOutputEmitter },
    /// Pulse the device-level network-interface emitter.
    PulseNetworkInterface { payload: NetworkInterfaceEmitter },
}

/// The mathematical shape of an [`EmitInstruction`].
#[allow(inconsistent_fields)]
pub enum InstructionView {
    CreateOutput { index: u32 },
    PulseDeviceStatus { payload: DeviceStatusEmitterView },
    PulseInputChanged { index: u32, payload: InputChangedEmitterView },
    PulseLabelChanged { index: u32, payload: LabelChangedEmitterView },
    PulseLockChanged { index: u32, locked: bool },
    PulseTakeMode { index: u32, enabled: bool },
    PulseNetworkInterface { payload: NetworkInterfaceEmitterView },
}

impl View for EmitInstruction {
    type V = InstructionView;

    open spec fn view(&self) -> InstructionView {
        match self {
            EmitInstruction::CreateOutput { index } => (InstructionView::CreateOutput {
                index: *index,
            }),
            EmitInstruction::PulseDeviceStatus { payload } => (InstructionView::PulseDeviceStatus {
                payload: payload@,
            }),
            EmitInstruction::PulseInputChanged { index, payload } => (
            InstructionView::PulseInputChanged { index: *index, payload: payload@ }),
            EmitInstruction::PulseLabelChanged { index, payload } => (
            InstructionView::PulseLabelChanged { index: *index, payload: payload@ }),
            EmitInstruction::PulseLockChanged { index, payload } => (
            InstructionView::PulseLockChanged { index: *index, locked: payload.locked }),
            EmitInstruction::PulseTakeMode { index, payload } => (InstructionView::PulseTakeMode {
                index: *index,
                enabled: payload.enabled,
            }),
            EmitInstruction::PulseNetworkInterface { payload } => (
            InstructionView::PulseNetworkInterface { payload: payload@ }),
        }
    }
}

/// The views of a plan, in order.
pub open spec fn plan_view(s: Seq<EmitInstruction>) -> Seq<InstructionView> {
    s.map_values(|ins: EmitInstruction| ins@)
}

/// The creation prefix for `n` outputs: one instruction per index, in
/// increasing order starting at zero.
pub open spec fn creation_seq(n: u32) -> Seq<InstructionView> {
    Seq::new(n as nat, |i: int| InstructionView::CreateOutput { index: i as u32 })
}

/// How many sub-targets exist, and whether creation has already run.
#[derive(Clone, Copy, Debug, PartialEq, Eq, Structural)]
pub struct OutputTargets {
    /// Whether sub-target creation has run. It runs at most once per
    /// process, even if later status events repeat the output count.
    pub created: bool,
    /// How many emitter bundles exist; bundle `i` belongs to output `i`.
    /// Zero until creation has run.
    pub count: u32,
}

/// The registry after one event: only the first connected status with a
/// known output count changes it.
pub open spec fn spec_after_event(s: OutputTargets, e: EventView) -> OutputTargets {
    match e {
        EventView::DeviceStatus { connected, video_outputs, .. } => match video_outputs {
            Option::Some(n) => if connected && !s.created {
                OutputTargets { created: true, count: n }
            } else {
                s
            },
            Option::None => s,
        },
        _ => s,
    }
}

/// The exact instruction list one event yields against registry state `s`.
///
/// An event scoped to an output index with no bundle — an index at or past
/// `s.count` — yields nothing: absence of a bundle is a valid, silently
/// ignored state, not an error. An input-label event has no sub-target of
/// its own and is forwarded to the first bundle as a representative channel,
/// a deliberate simplification rather than a dedicated inputs scope.
pub open spec fn spec_plan(s: OutputTargets, e: EventView) -> Seq<InstructionView> {
    match e {
        EventView::DeviceStatus { connected, model_name, video_inputs, video_outputs } => {
            let pulse = InstructionView::PulseDeviceStatus {
                payload: DeviceStatusEmitterView {
                    connected,
                    model_name,
                    video_inputs,
                    video_outputs,
                },
            };
            match video_outputs {
                Option::Some(n) => if connected && !s.created {
                    creation_seq(n).push(pulse)
                } else {
                    seq![pulse]
                },
                Option::None => seq![pulse],
            }
        },
        EventView::Route { output, input, input_label } => {
            if output < s.count {
                seq![
                    (InstructionView::PulseInputChanged {
                        index: output,
                        payload: InputChangedEmitterView {
                            input: spec_to_one_based(input),
                            input_label,
                        },
                    }),
                ]
            } else {
                Seq::empty()
            }
        },
        EventView::Label { port_type, port, label } => {
            let payload = LabelChangedEmitterView {
                port_type: spec_port_type_name(port_type),
                port,
                label,
            };
            match port_type {
                PortType::Output => if port < s.count {
                    seq![(InstructionView::PulseLabelChanged { index: port, payload })]
                } else {
                    Seq::empty()
                },
                PortType::Input => if s.count > 0 {
                    seq![(InstructionView::PulseLabelChanged { index: 0, payload })]
                } else {
                    Seq::empty()
                },
            }
        },
        EventView::OutputLock { output, locked } => {
            if output < s.count {
                seq![(InstructionView::PulseLockChanged { index: output, locked })]
            } else {
                Seq::empty()
            }
        },
        EventView::TakeMode { output, enabled } => {
            if output < s.count {
                seq![(InstructionView::PulseTakeMode { index: output, enabled })]
            } else {
                Seq::empty()
            }
        },
        EventView::NetworkInterface { interface } => {
            seq![
                (InstructionView::PulseNetworkInterface {
                    payload: NetworkInterfaceEmitterView {
                        interface_id: interface.id,
                        name: interface.name,
                        mac_address: interface.mac_address,
                        current_addresses: interface.current_addresses,
                        current_gateway: interface.current_gateway,
                        dynamic_ip: interface.dynamic_ip,
                    },
                }),
            ]
        },
    }
}

impl OutputTargets {
    /// The registry at startup: nothing created yet.
    pub fn new() -> (s: OutputTargets)
        ensures
            s == (OutputTargets { created: false, count: 0 }),
    {
        OutputTargets { created: false, count: 0 }
    }

    /// Turns one event into the instructions the emission task must perform,
    /// in order, updating the registry bookkeeping.
    pub fn handle_event(&mut self, event: &VideohubEvent) -> (plan: Vec<EmitInstruction>)
        ensures
            *final(self) == spec_after_event(*old(self), event@),
            plan_view(plan@) == spec_plan(*old(self), event@),
    {
        let mut plan: Vec<EmitInstruction> = Vec::new();
        match event {
            VideohubEvent::DeviceStatus { connected, model_name, video_inputs, video_outputs } => {
                if *connected && !self.created {
                    if let Option::Some(n_ref) = video_outputs {
                        let n = *n_ref;
                        for i in 0..n
                            invariant
                                plan@.len() == i,
                                forall|j: int|
                                    0 <= j < i ==> (#[trigger] plan@[j])@
                                        == (InstructionView::CreateOutput { index: j as u32 }),
                                self == old(self),
                        {
                            plan.push(EmitInstruction::CreateOutput { index: i });
                        }
                        self.created = true;
                        self.count = n;
                        proof {
                            assert(plan_view(plan@) =~= creation_seq(n));
                        }
                    }
                }
                let payload = DeviceStatusEmitter {
                    connected: *connected,
                    model_name: opt_string_copy(model_name),
                    video_inputs: match video_inputs {
                        Option::Some(v) => Option::Some(*v),
                        Option::None => Option::None,
                    },
                    video_outputs: match video_outputs {
                        Option::Some(v) => Option::Some(*v),
                        Option::None => Option::None,
                    },
                };
                plan.push(EmitInstruction::PulseDeviceStatus { payload });
                proof {
                    assert(plan_view(plan@) =~= spec_plan(*old(self), event@));
                }
            },
            VideohubEvent::Route { output, input, input_label } => {
                if *output < self.count {
                    let payload = InputChangedEmitter {
                        input: to_one_based(*input),
                        input_label: opt_string_copy(input_label),
                    };
                    plan.push(EmitInstruction::PulseInputChanged { index: *output, payload });
                }
                proof {
                    assert(plan_view(plan@) =~= spec_plan(*old(self), event@));
                }
            },
            VideohubEvent::Label { port_type, port, label } => {
                let scoped_index: Option<u32> = match port_type {
                    PortType::Output => {
                        if *port < self.count {
                            Option::Some(*port)
                        } else {
                            Option::None
                        }
                    },
                    PortType::Input => {
                        if self.count > 0 {
                            Option::Some(0)
                        } else {
                            Option::None
                        }
                    },
                };
                if let Option::Some(index) = scoped_index {
                    let payload = LabelChangedEmitter {
                        port_type: port_type_name(*port_type),
                        port: *port,
                        label: label.clone(),
                    };
                    plan.push(EmitInstruction::PulseLabelChanged { index, payload });
                }
                proof {
                    assert(plan_view(plan@) =~= spec_plan(*old(self), event@));
                }
            },
            VideohubEvent::OutputLock { output, locked } => {
                if *output < self.count {
                    let payload = LockChangedEmitter { locked: *locked };
                    plan.push(EmitInstruction::PulseLockChanged { index: *output, payload });
                }
                proof {
                    assert(plan_view(plan@) =~= spec_plan(*old(self), event@));
                }
            },
            VideohubEvent::TakeMode { output, enabled } => {
                if *output < self.count {
                    let payload = TakeModeOnThisOutputEmitter { enabled: *enabled };
                    plan.push(EmitInstruction::PulseTakeMode { index: *output, payload });
                }
                proof {
                    assert(plan_view(plan@) =~= spec_plan(*old(self), event@));
                }
            },
            VideohubEvent::NetworkInterface { interface } => {
                let payload = NetworkInterfaceEmitter {
                    interface_id: interface.id,
                    name: interface.name.clone(),
                    mac_address: opt_string_copy(&interface.mac_address),
                    current_addresses: opt_string_copy(&interface.current_addresses),
                    current_gateway: opt_string_copy(&interface.current_gateway),
                    dynamic_ip: match interface.dynamic_ip {
                        Option::Some(b) => Option::Some(b),
                        Option::None => Option::None,
                    },
                };
                plan.push(EmitInstruction::PulseNetworkInterface { payload });
                proof {
                    assert(plan_view(plan@) =~= spec_plan(*old(self), event@));
                }
            },
        }
        plan
    }
}

/// Idempotent sub-target creation: the first connected status event with a
/// known output count yields exactly one creation instruction per output, in
/// increasing index order, followed by the status pulse; delivering the same
/// event again changes nothing and creates nothing.
pub proof fn lemma_idempotent_creation(
    s: OutputTargets,
    model_name: Option<Seq<char>>,
    video_inputs: Option<u32>,
    n: u32,
)
    requires
        !s.created,
    ensures
        ({
            let e = EventView::DeviceStatus {
                connected: true,
                model_name,
                video_inputs,
                video_outputs: Option::Some(n),
            };
            let pulse = InstructionView::PulseDeviceStatus {
                payload: DeviceStatusEmitterView {
                    connected: true,
                    model_name,
                    video_inputs,
                    video_outputs: Option::Some(n),
                },
            };
            let s1 = spec_after_event(s, e);
            &&& spec_plan(s, e) == creation_seq(n).push(pulse)
            &&& spec_plan(s, e).len() == n + 1
            &&& s1 == (OutputTargets { created: true, count: n })
            &&& spec_after_event(s1, e) == s1
            &&& spec_plan(s1, e) == seq![pulse]
            &&& forall|k: int|
                0 <= k < spec_plan(s1, e).len() ==> !(#[trigger] spec_plan(s1, e)[k] is
                CreateOutput)
        }),
{
}

} // verus!
