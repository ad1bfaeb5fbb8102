//! Framing of HCI packets: commands are encoded with their packet indicator,
//! packets from the controller are decoded from the bytes of one read.

use bt_hci::ControllerToHostPacket;
use bt_hci::FromHciBytes;
use vstd::prelude::*;

verus! {

/// Largest packet, indicator included, that a controller hands over in one
/// read.
pub const MAX_HCI_PACKET_LEN: usize = 259;

/// Packet indicator of a command.
pub const INDICATOR_COMMAND: u8 = 0x01;

/// Packet indicator of ACL data.
pub const INDICATOR_ACL: u8 = 0x02;

/// Packet indicator of synchronous data.
pub const INDICATOR_SYNC: u8 = 0x03;

/// Packet indicator of an event.
pub const INDICATOR_EVENT: u8 = 0x04;

/// Packet indicator of isochronous data.
pub const INDICATOR_ISO: u8 = 0x05;

/// Opcode group of the controller and baseband commands.
pub const GROUP_CONTROL_BASEBAND: u16 = 0x03;

/// A controller and baseband command that the library frames itself. Each
/// has fixed-width parameters and returns nothing but a status.
#[derive(Clone, Copy, Debug)]
pub enum Command {
    WriteScanEnable { scan_enable: u8 },
    WriteInquiryMode { inquiry_mode: u8 },
    WriteClassOfDevice { class_of_device: [u8; 3] },
    WriteInquiryScanActivity { interval: u16, window: u16 },
    WritePageScanActivity { interval: u16, window: u16 },
    WriteInquiryScanType { scan_type: u8 },
}

/// The two bytes of a 16-bit value, low byte first.
pub open spec fn le16(v: u16) -> Seq<u8> {
    seq![(v % 0x100) as u8, (v / 0x100) as u8]
}

impl Command {
    /// The number of the command within its opcode group.
    pub open spec fn command_field(self) -> u16 {
        match self {
            Command::WriteScanEnable { .. } => 0x001A,
            Command::WriteInquiryMode { .. } => 0x0045,
            Command::WriteClassOfDevice { .. } => 0x0024,
            Command::WriteInquiryScanActivity { .. } => 0x001E,
            Command::WritePageScanActivity { .. } => 0x001C,
            Command::WriteInquiryScanType { .. } => 0x0043,
        }
    }

    /// The opcode: the group in the upper six bits, the command in the lower
    /// ten.
    pub open spec fn opcode(self) -> u16 {
        (GROUP_CONTROL_BASEBAND * 0x400 + self.command_field()) as u16
    }

    /// The parameters in the order of their fields, each low byte first.
    pub open spec fn params(self) -> Seq<u8> {
        match self {
            Command::WriteScanEnable { scan_enable } => seq![scan_enable],
            Command::WriteInquiryMode { inquiry_mode } => seq![inquiry_mode],
            Command::WriteClassOfDevice { class_of_device } => class_of_device@,
            Command::WriteInquiryScanActivity { interval, window } => le16(interval) + le16(window),
            Command::WritePageScanActivity { interval, window } => le16(interval) + le16(window),
            Command::WriteInquiryScanType { scan_type } => seq![scan_type],
        }
    }

    /// The framed command: indicator, opcode low byte first, length of the
    /// parameters, parameters.
    pub open spec fn frame(self) -> Seq<u8> {
        seq![INDICATOR_COMMAND] + le16(self.opcode()) + seq![self.params().len() as u8]
            + self.params()
    }

    /// Computes the opcode.
    pub fn opcode_value(&self) -> (r: u16)
        ensures
            r == self.opcode(),
    {
        let command: u16 = match self {
            Command::WriteScanEnable { .. } => 0x001A,
            Command::WriteInquiryMode { .. } => 0x0045,
            Command::WriteClassOfDevice { .. } => 0x0024,
            Command::WriteInquiryScanActivity { .. } => 0x001E,
            Command::WritePageScanActivity { .. } => 0x001C,
            Command::WriteInquiryScanType { .. } => 0x0043,
        };
        GROUP_CONTROL_BASEBAND * 0x400 + command
    }
}

/// Appends the two bytes of `v`, low byte first.
fn push_le16(out: &mut Vec<u8>, v: u16)
    ensures
        final(out)@ == old(out)@ + le16(v),
{
    out.push((v % 0x100) as u8);
    out.push((v / 0x100) as u8);
    assert(final(out)@ =~= old(out)@ + le16(v));
}

/// Frames a command for the transport.
pub fn encode(command: &Command) -> (r: Vec<u8>)
    ensures
        r@ == command.frame(),
{
    let mut out: Vec<u8> = Vec::new();
    out.push(INDICATOR_COMMAND);
    push_le16(&mut out, command.opcode_value());
    match command {
        Command::WriteScanEnable { scan_enable } => {
            out.push(1);
            out.push(*scan_enable);
        },
        Command::WriteInquiryMode { inquiry_mode } => {
            out.push(1);
            out.push(*inquiry_mode);
        },
        Command::WriteClassOfDevice { class_of_device } => {
            out.push(3);
            out.push(class_of_device[0]);
            out.push(class_of_device[1]);
            out.push(class_of_device[2]);
        },
        Command::WriteInquiryScanActivity { interval, window } => {
            out.push(4);
            push_le16(&mut out, *interval);
            push_le16(&mut out, *window);
        },
        Command::WritePageScanActivity { interval, window } => {
            out.push(4);
            push_le16(&mut out, *interval);
            push_le16(&mut out, *window);
        },
        Command::WriteInquiryScanType { scan_type } => {
            out.push(1);
            out.push(*scan_type);
        },
    }
    assert(out@ =~= command.frame());
    out
}

/// A packet from the controller.
#[derive(Debug)]
pub enum ControllerPacket {
    /// ACL data, with its payload.
    Acl { payload: Vec<u8> },
    /// Synchronous data, with its payload.
    Sync { payload: Vec<u8> },
    /// An event, with its code and its parameters.
    Event { code: u8, params: Vec<u8> },
    /// Isochronous data, with what follows its data load header.
    Iso { payload: Vec<u8> },
}

/// What a packet holds, as plain values.
pub enum PacketModel {
    Acl { payload: Seq<u8> },
    Sync { payload: Seq<u8> },
    Event { code: u8, params: Seq<u8> },
    Iso { payload: Seq<u8> },
}

impl View for ControllerPacket {
    type V = PacketModel;

    open spec fn view(&self) -> PacketModel {
        match self {
            ControllerPacket::Acl { payload } => PacketModel::Acl { payload: payload@ },
            ControllerPacket::Sync { payload } => PacketModel::Sync { payload: payload@ },
            ControllerPacket::Event { code, params } => PacketModel::Event {
                code: *code,
                params: params@,
            },
            ControllerPacket::Iso { payload } => PacketModel::Iso { payload: payload@ },
        }
    }
}

/// Why bytes were not accepted as a packet.
#[derive(Clone, Copy, Debug, PartialEq, Eq, Structural)]
pub enum DecodeError {
    /// The bytes are shorter or longer than the lengths they declare, or
    /// they start with an indicator that no packet from a controller has.
    MalformedFrame,
}

/// The value of two bytes, low byte first.
pub open spec fn le16_value(lo: u8, hi: u8) -> int {
    lo + 0x100 * hi
}

/// An event frame: indicator, event code, length of the parameters, and at
/// least that many bytes. What follows the parameters is dropped.
pub open spec fn decode_event(frame: Seq<u8>) -> Option<PacketModel> {
    if frame.len() >= 3 && frame.len() - 3 >= frame[2] {
        Some(PacketModel::Event { code: frame[1], params: frame.subrange(3, 3 + frame[2]) })
    } else {
        None
    }
}

/// An ACL data frame: indicator, two bytes of handle and flags, two bytes of
/// length, and exactly that many bytes.
pub open spec fn decode_acl(frame: Seq<u8>) -> Option<PacketModel> {
    if frame.len() >= 5 && frame.len() - 5 == le16_value(frame[3], frame[4]) {
        Some(PacketModel::Acl { payload: frame.subrange(5, frame.len() as int) })
    } else {
        None
    }
}

/// A synchronous data frame: indicator, two bytes of handle and flags, one
/// byte of length, and exactly that many bytes.
pub open spec fn decode_sync(frame: Seq<u8>) -> Option<PacketModel> {
    if frame.len() >= 4 && frame.len() - 4 == frame[3] {
        Some(PacketModel::Sync { payload: frame.subrange(4, frame.len() as int) })
    } else {
        None
    }
}

/// Length of the data load header of an isochronous frame whose handle has
/// `flags` as its upper byte: a first fragment or a complete unit starts with
/// sequence number and length, after a time stamp where the flags announce
/// one; the other fragments have no such header.
pub open spec fn iso_load_header_len(flags: u8) -> int {
    let boundary = (flags / 0x10) % 4;
    let time_stamp = (flags / 0x40) % 2 == 1;
    if boundary == 0 || boundary == 2 {
        if time_stamp {
            8
        } else {
            4
        }
    } else {
        0
    }
}

/// An isochronous data frame: indicator, two bytes of handle and flags, two
/// bytes of length, and exactly that many bytes, which begin with the data
/// load header.
pub open spec fn decode_iso(frame: Seq<u8>) -> Option<PacketModel> {
    if frame.len() >= 5 && frame.len() - 5 == le16_value(frame[3], frame[4]) && frame.len() - 5
        >= iso_load_header_len(frame[2]) {
        Some(
            PacketModel::Iso {
                payload: frame.subrange(5 + iso_load_header_len(frame[2]), frame.len() as int),
            },
        )
    } else {
        None
    }
}

/// The packet that the bytes of one read hold, or `None` where they are
/// malformed.
pub open spec fn spec_decode(frame: Seq<u8>) -> Option<PacketModel> {
    if frame.len() == 0 {
        None
    } else if frame[0] == INDICATOR_ACL {
        decode_acl(frame)
    } else if frame[0] == INDICATOR_SYNC {
        decode_sync(frame)
    } else if frame[0] == INDICATOR_EVENT {
        decode_event(frame)
    } else if frame[0] == INDICATOR_ISO {
        decode_iso(frame)
    } else {
        None
    }
}

/// A framed command is the indicator of a command, the opcode, the length
/// of the parameters and the parameters; it fits in one packet, and it is
/// never taken for a packet from a controller.
pub proof fn lemma_command_frame(command: Command)
    ensures
        command.frame().len() == 4 + command.params().len(),
        command.frame().len() <= MAX_HCI_PACKET_LEN,
        command.frame()[0] == INDICATOR_COMMAND,
        le16_value(command.frame()[1], command.frame()[2]) == command.opcode(),
        command.frame()[3] == command.params().len(),
        command.frame().subrange(4, command.frame().len() as int) == command.params(),
        spec_decode(command.frame()) is None,
{
    assert(command.frame().subrange(4, command.frame().len() as int) =~= command.params());
}

/// The error of `bt_hci` for bytes that are no value of the type asked for.
#[verifier::external_type_specification]
#[verifier::external_body]
pub struct ExFromHciBytesError(bt_hci::FromHciBytesError);

/// `bt_hci::ControllerToHostPacket::from_hci_bytes_complete`: reads the
/// indicator and the header it announces, and accepts the bytes where the
/// lengths in the header match what follows. The packet comes back with its
/// fields copied out.
#[verifier::external_body]
fn hci_decode(bytes: &[u8]) -> (r: Result<ControllerPacket, bt_hci::FromHciBytesError>)
    ensures
        r matches Ok(packet) ==> spec_decode(bytes@) == Some(packet@),
        r is Err ==> spec_decode(bytes@) is None,
{
    Ok(
        match ControllerToHostPacket::from_hci_bytes_complete(bytes)? {
            ControllerToHostPacket::Acl(p) => ControllerPacket::Acl { payload: p.data().to_vec() },
            ControllerToHostPacket::Sync(p) => ControllerPacket::Sync {
                payload: p.data().to_vec(),
            },
            ControllerToHostPacket::Event(p) => ControllerPacket::Event {
                code: p.kind.0,
                params: p.data.to_vec(),
            },
            ControllerToHostPacket::Iso(p) => ControllerPacket::Iso { payload: p.data().to_vec() },
        },
    )
}

/// Decodes the bytes of one read into a packet. Nothing beyond the bytes is
/// read, and malformed bytes are an error, never a panic.
pub fn decode(bytes: &[u8]) -> (r: Result<ControllerPacket, DecodeError>)
    ensures
        r matches Ok(packet) ==> spec_decode(bytes@) == Some(packet@),
        r is Err ==> spec_decode(bytes@) is None,
{
    match hci_decode(bytes) {
        Ok(packet) => Ok(packet),
        Err(_) => Err(DecodeError::MalformedFrame),
    }
}

} // verus!
