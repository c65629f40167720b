//! What can go wrong between opening a device and reading a packet.

use crate::text;
use vstd::prelude::*;
use vstd::string::*;

verus! {

/// A failure that the packet capture library reported, as far as the sniffer reads it.
#[derive(Debug)]
pub struct PcapFault {
    /// Whether a read from a live capture only ran into its timeout.
    pub timeout_expired: bool,
    /// The failure in the capture library's own words.
    pub text: String,
    /// The failure as a programmer reads it.
    pub debug: String,
}

/// A failure of the packet capture library as a mathematical value.
pub struct FaultModel {
    pub timeout_expired: bool,
    pub text: Seq<char>,
    pub debug: Seq<char>,
}

impl View for PcapFault {
    type V = FaultModel;

    open spec fn view(&self) -> FaultModel {
        FaultModel {
            timeout_expired: self.timeout_expired,
            text: self.text@,
            debug: self.debug@,
        }
    }
}

/// The errors of the sniffer.
#[derive(Debug)]
pub enum SnifferError {
    /// The packet capture library failed.
    PcapError(PcapFault),
    /// No device has the name that was asked for.
    DeviceNotFound,
    /// There are fewer bytes than the header needs.
    InvalidLength,
    /// The frame carries a protocol that is not known.
    UnknownEtherType(u16),
}

impl SnifferError {
    /// The text of an error.
    pub open spec fn text_of(&self) -> Seq<char> {
        match self {
            SnifferError::PcapError(fault) => "Pcap 底层错误: "@ + fault.text@,
            SnifferError::DeviceNotFound => "找不到指定的网卡设备"@,
            SnifferError::InvalidLength => "数据包长度不足以解析首部"@,
            SnifferError::UnknownEtherType(ether_type) => "未知的以太网协议类型: 0x"@ + text::hex(
                *ether_type as nat,
            ),
        }
    }

    /// The error as a message to a person.
    pub fn message(&self) -> (message: String)
        ensures
            message@ == self.text_of(),
    {
        match self {
            SnifferError::PcapError(fault) => {
                let mut message = String::from_str("Pcap 底层错误: ");
                message.append(fault.text.as_str());
                message
            },
            SnifferError::DeviceNotFound => String::from_str("找不到指定的网卡设备"),
            SnifferError::InvalidLength => String::from_str("数据包长度不足以解析首部"),
            SnifferError::UnknownEtherType(ether_type) => {
                let mut message = String::from_str("未知的以太网协议类型: 0x");
                text::push_hex(&mut message, *ether_type as u64);
                message
            },
        }
    }
}

} // verus!
