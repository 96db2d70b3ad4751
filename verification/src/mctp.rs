//! MCTP/NVDM protocol support for inter-processor communication.
//!
//! MCTP (Management Component Transport Protocol, DMTF DSP0236) provides a transport-agnostic
//! message exchange format. NVDM (NVIDIA Data Model) is a vendor-defined message layer on top of
//! MCTP.
//!
//! Multiple GPU subsystems (FSP, GSP, SEC2) use MCTP/NVDM framing. This module provides the shared
//! header types and helpers for all of them.

use vstd::prelude::*;

use crate::bits::{
    bit32, field32, get_bit32, get_field32, lemma_mask64_values, set_bit32, set_field32,
    with_field32,
};

verus! {

/// MCTP transport header (DMTF DSP0236): start of message in bit 31, end of message in bit 30, the
/// sequence number in bits 29:28, the source endpoint in bits 23:16, the destination endpoint in
/// bits 15:8 and the version in bits 3:0. The other bits are always zero in current usage.
#[derive(Clone, Copy, Debug, PartialEq, Eq, Structural)]
pub struct TransportHeader {
    pub raw: u32,
}

/// One for a set flag, zero otherwise.
pub open spec fn flag(set: bool) -> u32 {
    if set {
        1
    } else {
        0
    }
}

/// The transport header with the given fields and version 1.
pub open spec fn transport_word(som: bool, eom: bool, seid: u8, deid: u8, seq: u8) -> u32 {
    with_field32(
        with_field32(
            with_field32(
                with_field32(
                    with_field32(with_field32(0, 0, 4, 1), 31, 1, flag(som)),
                    30,
                    1,
                    flag(eom),
                ),
                16,
                8,
                seid as u32,
            ),
            8,
            8,
            deid as u32,
        ),
        28,
        2,
        seq as u32,
    )
}

impl TransportHeader {
    /// Create a new MCTP transport header. A sequence number of more than two bits gives a header of
    /// zeros.
    pub fn new(som: bool, eom: bool, seid: u8, deid: u8, seq: u8) -> (header: Self)
        ensures
            header.raw == if seq < 4 {
                transport_word(som, eom, seid, deid, seq)
            } else {
                0
            },
    {
        if seq >= 4 {
            return TransportHeader { raw: 0 };
        }
        let raw: u32 = set_bit32(set_bit32(set_field32(0, 0, 4, 1), 31, som), 30, eom);
        let raw: u32 = set_field32(set_field32(raw, 16, 8, seid as u32), 8, 8, deid as u32);
        TransportHeader { raw: set_field32(raw, 28, 2, seq as u32) }
    }

    /// Returns the header of the given value.
    pub fn from_raw(raw: u32) -> (header: Self)
        ensures
            header.raw == raw,
    {
        TransportHeader { raw }
    }

    /// Returns whether this is the start of a message.
    pub fn som(self) -> (set: bool)
        ensures
            set == bit32(self.raw, 31),
    {
        get_bit32(self.raw, 31)
    }

    /// Returns whether this is the end of a message.
    pub fn eom(self) -> (set: bool)
        ensures
            set == bit32(self.raw, 30),
    {
        get_bit32(self.raw, 30)
    }

    /// Returns the sequence number.
    pub fn seq(self) -> (seq: u8)
        ensures
            seq == field32(self.raw, 28, 2),
            seq < 4,
    {
        proof {
            lemma_mask64_values();
        }
        get_field32(self.raw, 28, 2) as u8
    }

    /// Returns the source endpoint.
    pub fn seid(self) -> (seid: u8)
        ensures
            seid == field32(self.raw, 16, 8),
    {
        proof {
            lemma_mask64_values();
        }
        get_field32(self.raw, 16, 8) as u8
    }

    /// Returns the destination endpoint.
    pub fn deid(self) -> (deid: u8)
        ensures
            deid == field32(self.raw, 8, 8),
    {
        proof {
            lemma_mask64_values();
        }
        get_field32(self.raw, 8, 8) as u8
    }

    /// Returns the version.
    pub fn version(self) -> (version: u8)
        ensures
            version == field32(self.raw, 0, 4),
            version < 16,
    {
        proof {
            lemma_mask64_values();
        }
        get_field32(self.raw, 0, 4) as u8
    }
}

/// The fields of a transport header.
proof fn lemma_transport_word(som: bool, eom: bool, seid: u8, deid: u8, seq: u8)
    by (bit_vector)
    requires
        seq < 4,
    ensures
        bit32(transport_word(som, eom, seid, deid, seq), 31) == som,
        bit32(transport_word(som, eom, seid, deid, seq), 30) == eom,
        field32(transport_word(som, eom, seid, deid, seq), 28, 2) == seq,
        field32(transport_word(som, eom, seid, deid, seq), 16, 8) == seid,
        field32(transport_word(som, eom, seid, deid, seq), 8, 8) == deid,
        field32(transport_word(som, eom, seid, deid, seq), 0, 4) == 1,
        field32(transport_word(som, eom, seid, deid, seq), 24, 4) == 0,
        field32(transport_word(som, eom, seid, deid, seq), 4, 4) == 0,
{
}

/// A transport header gives back the fields it was made of, its version is 1, and what is not in use
/// is zero.
pub proof fn law_transport_header_fields(som: bool, eom: bool, seid: u8, deid: u8, seq: u8)
    requires
        seq < 4,
    ensures
        ({
            let raw = transport_word(som, eom, seid, deid, seq);
            &&& bit32(raw, 31) == som
            &&& bit32(raw, 30) == eom
            &&& field32(raw, 28, 2) == seq
            &&& field32(raw, 16, 8) == seid
            &&& field32(raw, 8, 8) == deid
            &&& field32(raw, 0, 4) == 1
            &&& field32(raw, 24, 4) == 0
            &&& field32(raw, 4, 4) == 0
        }),
{
    lemma_transport_word(som, eom, seid, deid, seq);
}

/// NVDM over MCTP message header: the NVDM type in bits 31:24, the vendor in bits 23:8 and the
/// message type in bits 6:0. Bit 7 is always zero in current usage.
#[derive(Clone, Copy, Debug, PartialEq, Eq, Structural)]
pub struct NvdmHeader {
    pub raw: u32,
}

/// MCTP message type for vendor-defined PCI messages (DMTF DSP0236).
pub const MSG_TYPE_VENDOR_PCI: u8 = 0x7e;

/// NVIDIA PCI Vendor ID.
pub const VENDOR_ID_NV: u16 = 0x10de;

/// Chain of Trust (FSP boot).
pub const NVDM_TYPE_COT: u8 = 0x14;

/// FSP/SEC2 command response.
pub const NVDM_TYPE_FSP_RESPONSE: u8 = 0x15;

/// RM RPC message (GSP command queue).
pub const NVDM_TYPE_RM_RPC: u8 = 0x25;

/// GMC API message (GSP command queue).
pub const NVDM_TYPE_GMCAPI: u8 = 0x26;

/// The NVDM header of a type.
pub open spec fn nvdm_word(nvdm_type: u8) -> u32 {
    with_field32(
        with_field32(with_field32(0, 0, 7, 0x7e), 8, 16, 0x10de),
        24,
        8,
        nvdm_type as u32,
    )
}

impl NvdmHeader {
    /// Create a new NVDM header for NVIDIA vendor-defined PCI messages.
    pub fn new(nvdm_type: u8) -> (header: Self)
        ensures
            header.raw == nvdm_word(nvdm_type),
    {
        let raw: u32 = set_field32(set_field32(0, 0, 7, 0x7e), 8, 16, VENDOR_ID_NV as u32);
        NvdmHeader { raw: set_field32(raw, 24, 8, nvdm_type as u32) }
    }

    /// Returns the header of the given value.
    pub fn from_raw(raw: u32) -> (header: Self)
        ensures
            header.raw == raw,
    {
        NvdmHeader { raw }
    }

    /// Returns the message type.
    pub fn msg_type(self) -> (msg_type: u8)
        ensures
            msg_type == field32(self.raw, 0, 7),
    {
        proof {
            lemma_mask64_values();
        }
        get_field32(self.raw, 0, 7) as u8
    }

    /// Returns the vendor.
    pub fn vendor_id(self) -> (vendor_id: u16)
        ensures
            vendor_id == field32(self.raw, 8, 16),
    {
        proof {
            lemma_mask64_values();
        }
        get_field32(self.raw, 8, 16) as u16
    }

    /// Returns the NVDM type.
    pub fn nvdm_type(self) -> (nvdm_type: u8)
        ensures
            nvdm_type == field32(self.raw, 24, 8),
    {
        proof {
            lemma_mask64_values();
        }
        get_field32(self.raw, 24, 8) as u8
    }
}

/// The fields of an NVDM header.
proof fn lemma_nvdm_word(nvdm_type: u8)
    by (bit_vector)
    ensures
        field32(nvdm_word(nvdm_type), 0, 7) == 0x7e,
        field32(nvdm_word(nvdm_type), 8, 16) == 0x10de,
        field32(nvdm_word(nvdm_type), 24, 8) == nvdm_type,
        bit32(nvdm_word(nvdm_type), 7) == false,
{
}

/// An NVDM header is a vendor-defined PCI message of NVIDIA, and gives back the type it was made of.
pub proof fn law_nvdm_header_fields(nvdm_type: u8)
    ensures
        field32(nvdm_word(nvdm_type), 0, 7) == MSG_TYPE_VENDOR_PCI,
        field32(nvdm_word(nvdm_type), 8, 16) == VENDOR_ID_NV,
        field32(nvdm_word(nvdm_type), 24, 8) == nvdm_type,
        !bit32(nvdm_word(nvdm_type), 7),
{
    lemma_nvdm_word(nvdm_type);
}

/// The numbers of the headers.
proof fn lemma_header_numbers(som: bool, eom: bool, seid: u8, deid: u8, seq: u8, nvdm_type: u8)
    by (bit_vector)
    requires
        seq < 4,
    ensures
        transport_word(som, eom, seid, deid, seq) == 1 + deid * 0x100 + seid * 0x1_0000 + seq
            * 0x1000_0000 + (if eom {
            0x4000_0000u32
        } else {
            0
        }) + (if som {
            0x8000_0000u32
        } else {
            0
        }),
        nvdm_word(nvdm_type) == 0x7e + 0x10de * 0x100 + nvdm_type * 0x100_0000,
{
}

/// A transport header is the number with the version 1 in its lowest digits, the destination from bit
/// 8 on, the source from bit 16 on, the sequence number from bit 28 on, and the flags for the end and
/// the start of a message in bits 30 and 31.
pub proof fn law_transport_header_number(som: bool, eom: bool, seid: u8, deid: u8, seq: u8)
    requires
        seq < 4,
    ensures
        transport_word(som, eom, seid, deid, seq) == 1 + deid * 0x100 + seid * 0x1_0000 + seq
            * 0x1000_0000 + (if eom {
            0x4000_0000u32
        } else {
            0
        }) + (if som {
            0x8000_0000u32
        } else {
            0
        }),
{
    lemma_header_numbers(som, eom, seid, deid, seq, 0);
}

/// An NVDM header is the number with the message type `0x7e` in its lowest digits, the vendor
/// `0x10de` from bit 8 on and the NVDM type from bit 24 on.
pub proof fn law_nvdm_header_number(nvdm_type: u8)
    ensures
        nvdm_word(nvdm_type) == 0x10_de7e + nvdm_type * 0x100_0000,
{
    lemma_header_numbers(true, true, 0, 0, 0, nvdm_type);
}

/// The numbers of the protocol.
pub proof fn law_protocol_numbers()
    ensures
        MSG_TYPE_VENDOR_PCI == 0x7e,
        VENDOR_ID_NV == 0x10de,
        NVDM_TYPE_COT == 0x14,
        NVDM_TYPE_FSP_RESPONSE == 0x15,
        NVDM_TYPE_RM_RPC == 0x25,
        NVDM_TYPE_GMCAPI == 0x26,
{
}

} // verus!
