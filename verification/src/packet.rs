//! Decoding a raw frame into a command packet.
//!
//! The wire layout is `Length | Command | Payload | CRC32-LE`, where
//! `Length` counts every byte after itself.  Parsing is a pure decoding
//! step; the CRC is checked against the raw bytes before parsing and is
//! only carried along here.

use vstd::prelude::*;
use crate::crc::{spec_word_from_le_bytes, word_from_le_bytes};

verus! {

/// A frame decodes successfully when it is long enough to hold command and
/// CRC, its length field matches the byte count actually received, and the
/// payload it implies fits the receive buffer.
pub open spec fn spec_parse_ok(f: Seq<u8>) -> bool {
    &&& f.len() >= 6
    &&& f[0] as int + 1 == f.len()
    &&& f[0] >= 5
    &&& f[0] as int - 5 <= 197
}

/// The payload bytes of a well-formed frame: everything between the
/// command byte and the trailing CRC.
pub open spec fn spec_frame_payload(f: Seq<u8>) -> Seq<u8> {
    f.subrange(2, f[0] as int - 3)
}

/// The CRC field of a frame, read little-endian from its last four bytes.
pub open spec fn spec_frame_crc_field(f: Seq<u8>) -> u32 {
    spec_word_from_le_bytes(f[f.len() - 4], f[f.len() - 3], f[f.len() - 2], f[f.len() - 1])
}

/// One decoded frame, alive for a single dispatch.
#[derive(Debug, Clone)]
pub struct CommandPacket {
    pub length: u8,
    pub command: u8,
    pub payload: Vec<u8>,
    pub crc: u32,
}

impl CommandPacket {
    /// The length field always counts command byte, payload and CRC, so
    /// the payload is five bytes shorter than the field says, and never
    /// longer than the receive buffer allows.
    pub open spec fn wf(self) -> bool {
        &&& self.payload@.len() + 5 == self.length
        &&& self.payload@.len() <= 197
    }

    /// Decode a raw frame, or return `None` for any inconsistent one.
    pub fn parse(buffer: &[u8]) -> (r: Option<CommandPacket>)
        ensures
            r is Some <==> spec_parse_ok(buffer@),
            r matches Some(p) ==> {
                &&& p.length == buffer@[0]
                &&& p.command == buffer@[1]
                &&& p.payload@ == spec_frame_payload(buffer@)
                &&& p.crc == spec_frame_crc_field(buffer@)
                &&& p.wf()
            },
    {
        if buffer.len() < 6 {
            return None;
        }
        let length = buffer[0];
        if (length as usize) + 1 != buffer.len() {
            return None;
        }
        if length < 5 {
            return None;
        }
        let payload_len: usize = (length as usize) - 5;
        if payload_len > 197 {
            return None;
        }
        let command = buffer[1];

        let mut payload: Vec<u8> = Vec::new();
        let mut i: usize = 0;
        while i < payload_len
            invariant
                i <= payload_len,
                payload_len <= 197,
                payload_len + 2 <= buffer@.len(),
                payload@ == buffer@.subrange(2, 2 + i as int),
            decreases payload_len - i,
        {
            payload.push(buffer[2 + i]);
            proof {
                assert(buffer@.subrange(2, 2 + i as int + 1) =~= buffer@.subrange(
                    2,
                    2 + i as int,
                ).push(buffer@[2 + i as int]));
            }
            i = i + 1;
        }

        let crc_offset: usize = buffer.len() - 4;
        let crc = word_from_le_bytes(
            buffer[crc_offset],
            buffer[crc_offset + 1],
            buffer[crc_offset + 2],
            buffer[crc_offset + 3],
        );
        proof {
            assert(payload@ =~= spec_frame_payload(buffer@));
        }
        Some(CommandPacket { length, command, payload, crc })
    }
}

} // verus!
