//! Opening a device, and what the capturing thread does with each read.

use crate::error::{FaultModel, PcapFault, SnifferError};
use vstd::prelude::*;
use vstd::string::*;

verus! {

/// The capture of packets from a device.
pub struct CaptureEngine;

/// How a device is opened.
#[derive(Debug)]
pub struct CaptureSettings {
    /// Which of the devices is opened.
    pub device: usize,
    /// Whether packets for other machines are taken too.
    pub promiscuous: bool,
    /// How many bytes of a packet are taken at most.
    pub snapshot_length: i32,
    /// How long a read waits, in milliseconds.
    pub timeout: i32,
    /// The filter that the kernel applies, where there is one.
    pub filter: Option<String>,
    /// Whether the filter is optimized when it is compiled.
    pub optimized: bool,
}

/// What the capturing thread has just seen.
#[derive(Debug)]
pub enum CaptureEvent {
    /// A packet was read.
    Received(Vec<u8>),
    /// A read failed.
    Failed(PcapFault),
    /// The packet was handed on.
    Delivered,
    /// The packet could not be handed on, since nobody listens any more.
    ChannelClosed,
}

/// What the capturing thread does next.
#[derive(Debug)]
pub enum CaptureStep {
    /// Hand a packet on.
    Deliver(Vec<u8>),
    /// Read again.
    Read,
    /// Say something and end.
    Fail(String),
    /// End.
    Stop,
}

/// What the capturing thread has just seen, as a mathematical value.
pub enum EventModel {
    Received(Seq<u8>),
    Failed(FaultModel),
    Delivered,
    ChannelClosed,
}

impl View for CaptureEvent {
    type V = EventModel;

    open spec fn view(&self) -> EventModel {
        match self {
            CaptureEvent::Received(packet) => EventModel::Received(packet@),
            CaptureEvent::Failed(fault) => EventModel::Failed(fault@),
            CaptureEvent::Delivered => EventModel::Delivered,
            CaptureEvent::ChannelClosed => EventModel::ChannelClosed,
        }
    }
}

/// What the capturing thread does next, as a mathematical value.
pub enum StepModel {
    Deliver(Seq<u8>),
    Read,
    Fail(Seq<char>),
    Stop,
}

impl View for CaptureStep {
    type V = StepModel;

    open spec fn view(&self) -> StepModel {
        match self {
            CaptureStep::Deliver(packet) => StepModel::Deliver(packet@),
            CaptureStep::Read => StepModel::Read,
            CaptureStep::Fail(text) => StepModel::Fail(text@),
            CaptureStep::Stop => StepModel::Stop,
        }
    }
}

/// What the thread says before it ends on a failure.
pub open spec fn failure_text(fault: FaultModel) -> Seq<char> {
    "[Capture] 后台抓包遭遇致命错误: "@ + fault.debug
}

/// The step that follows what the thread has seen.
pub open spec fn step_after(event: EventModel) -> StepModel {
    match event {
        EventModel::Received(packet) => StepModel::Deliver(packet),
        EventModel::Failed(fault) => if fault.timeout_expired {
            StepModel::Read
        } else {
            StepModel::Fail(failure_text(fault))
        },
        EventModel::Delivered => StepModel::Read,
        EventModel::ChannelClosed => StepModel::Stop,
    }
}

/// What the thread sees of a read that gave a packet or failed.
pub open spec fn seen(read: Result<Seq<u8>, FaultModel>) -> EventModel {
    match read {
        Ok(packet) => EventModel::Received(packet),
        Err(fault) => EventModel::Failed(fault),
    }
}

/// Whether a read failed otherwise than by a timeout.
pub open spec fn is_fatal(read: Result<Seq<u8>, FaultModel>) -> bool {
    read matches Err(fault) && !fault.timeout_expired
}

/// The packets among what the reads gave, in their order.
pub open spec fn packets_of(reads: Seq<Result<Seq<u8>, FaultModel>>) -> Seq<Seq<u8>>
    decreases reads.len(),
{
    if reads.len() == 0 {
        Seq::empty()
    } else {
        let rest = packets_of(reads.drop_first());
        match reads[0] {
            Ok(packet) => seq![packet] + rest,
            Err(_) => rest,
        }
    }
}

/// What the capturing thread has done.
pub struct RunModel {
    /// How many reads it has made.
    pub reads: nat,
    /// The packets that it has tried to hand on, one after the other.
    pub sent: Seq<Seq<u8>>,
    /// The step that it has come to.
    pub last: StepModel,
}

/// What the thread does from `step` on, where the reads give `reads` one after the other, and
/// where `taken` packets are taken from the channel before nobody listens any more. The thread
/// performs a step, and what it then sees decides on the next one.
pub open spec fn run(
    step: StepModel,
    reads: Seq<Result<Seq<u8>, FaultModel>>,
    taken: nat,
) -> RunModel
    decreases reads.len(), if step is Deliver { 1int } else { 0int },
{
    match step {
        StepModel::Read => if reads.len() == 0 {
            RunModel { reads: 0, sent: Seq::empty(), last: step }
        } else {
            let rest = run(step_after(seen(reads[0])), reads.drop_first(), taken);
            RunModel { reads: rest.reads + 1, ..rest }
        },
        StepModel::Deliver(packet) => {
            let rest = if taken > 0 {
                run(step_after(EventModel::Delivered), reads, (taken - 1) as nat)
            } else {
                run(step_after(EventModel::ChannelClosed), reads, 0)
            };
            RunModel { sent: seq![packet] + rest.sent, ..rest }
        },
        StepModel::Fail(_) | StepModel::Stop => RunModel {
            reads: 0,
            sent: Seq::empty(),
            last: step,
        },
    }
}

/// Whether a device of that name is among `devices`.
pub open spec fn has_device(devices: Seq<String>, name: Seq<char>) -> bool {
    exists|i: int| 0 <= i < devices.len() && (#[trigger] devices[i])@ == name
}

impl CaptureEngine {
    /// Decides how a capture is opened: on the first device of that name, with the filter
    /// where it is not empty.
    pub fn start_capture(devices: &[String], device_name: &str, filter_str: &str) -> (settings:
        Result<CaptureSettings, SnifferError>)
        ensures
            match settings {
                Ok(settings) => {
                    &&& settings.device < devices@.len()
                    &&& devices@[settings.device as int]@ == device_name@
                    &&& forall|i: int|
                        0 <= i < settings.device ==> (#[trigger] devices@[i])@ != device_name@
                    &&& settings.promiscuous
                    &&& settings.snapshot_length == 65535
                    &&& settings.timeout == 1000
                    &&& match settings.filter {
                        Some(filter) => filter_str@.len() > 0 && filter@ == filter_str@,
                        None => filter_str@.len() == 0,
                    }
                    &&& settings.optimized
                },
                Err(e) => !has_device(devices@, device_name@) && e is DeviceNotFound,
            },
    {
        let wanted: String = device_name.to_owned();
        let mut i: usize = 0;
        while i < devices.len()
            invariant
                0 <= i <= devices@.len(),
                wanted@ == device_name@,
                forall|j: int| 0 <= j < i ==> (#[trigger] devices@[j])@ != device_name@,
            decreases devices@.len() - i,
        {
            if devices[i] == wanted {
                let filter: Option<String> = if filter_str.is_empty() {
                    None
                } else {
                    Some(filter_str.to_owned())
                };
                return Ok(
                    CaptureSettings {
                        device: i,
                        promiscuous: true,
                        snapshot_length: 65535,
                        timeout: 1000,
                        filter,
                        optimized: true,
                    },
                );
            }
            i = i + 1;
        }
        Err(SnifferError::DeviceNotFound)
    }

    /// What the capturing thread does after what it has seen: every packet is handed on, a
    /// timeout is no failure, and any other failure ends the thread, as does a channel that
    /// nobody listens to.
    pub fn next_step(event: CaptureEvent) -> (step: CaptureStep)
        ensures
            step@ == step_after(event@),
    {
        match event {
            CaptureEvent::Received(packet) => CaptureStep::Deliver(packet),
            CaptureEvent::Failed(fault) => if fault.timeout_expired {
                CaptureStep::Read
            } else {
                let mut text = String::from_str("[Capture] 后台抓包遭遇致命错误: ");
                text.append(fault.debug.as_str());
                CaptureStep::Fail(text)
            },
            CaptureEvent::Delivered => CaptureStep::Read,
            CaptureEvent::ChannelClosed => CaptureStep::Stop,
        }
    }
}

} // verus!
