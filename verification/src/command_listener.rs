//! Direct output commands: the smallest listener, which drives an output from one frame.
use crate::bytes::{le16, u16_from_le};
use crate::can::{frame_bytes, FrameBody};
use crate::hco::Level;
use crate::high_current_out::HighCurrentOutput as Hco;
use vstd::prelude::*;

verus! {

/// This listener's node id.
pub const NODE_ID: u8 = 10;

/// What a frame asks of the outputs.
#[derive(Clone, Copy, PartialEq, Eq, Debug, Structural)]
pub enum HcoCommand {
    SetLevel(Hco, Level),
    SetPwmMicros(Hco, u16),
}

/// The output that a sub-index names, counted from zero.
pub open spec fn output_at(sub: u8) -> Option<Hco> {
    if sub == 0 {
        Some(Hco::_1)
    } else if sub == 1 {
        Some(Hco::_2)
    } else if sub == 2 {
        Some(Hco::_3)
    } else if sub == 3 {
        Some(Hco::_4)
    } else {
        None
    }
}

pub fn output_of(sub: u8) -> (r: Option<Hco>)
    ensures
        r == output_at(sub),
{
    match sub {
        0 => Some(Hco::_1),
        1 => Some(Hco::_2),
        2 => Some(Hco::_3),
        3 => Some(Hco::_4),
        _ => None,
    }
}

/// Whether a frame is a command to a node: its identifier carries the node in the low seven bits
/// and has both request bits set, and it is eight bytes long.
pub open spec fn is_command_to(node_id: u8, id: u16, body: Seq<u8>) -> bool {
    id % 128 == node_id && id / 512 % 4 == 3 && body.len() == 8
}

/// What the command byte says: expedited, and the one command that is supported.
pub open spec fn is_expedited_upload(command: u8) -> bool {
    command / 2 % 2 == 1 && command / 32 == 2
}

/// How many of the four data bytes are used.
pub open spec fn used_bytes(command: u8) -> int {
    4 - command / 4 % 4
}

/// What a frame asks of the outputs of a node, if anything: object 0x2020 switches an output,
/// object 0x2021 pulses one and needs two data bytes.
pub open spec fn command_of(node_id: u8, id: u16, body: Seq<u8>) -> Option<HcoCommand> {
    if !is_command_to(node_id, id, body) || !is_expedited_upload(body[0]) || output_at(
        body[3],
    ) is None {
        None
    } else if le16(body[1], body[2]) == 0x2020 {
        Some(
            HcoCommand::SetLevel(
                output_at(body[3])->0,
                if body[4] != 0 {
                    Level::High
                } else {
                    Level::Low
                },
            ),
        )
    } else if le16(body[1], body[2]) == 0x2021 && used_bytes(body[0]) >= 2 {
        Some(HcoCommand::SetPwmMicros(output_at(body[3])->0, le16(body[4], body[5]) as u16))
    } else {
        None
    }
}

pub struct CommandListener {
    node_id: u8,
}

impl CommandListener {
    pub closed spec fn node(self) -> u8 {
        self.node_id
    }

    pub fn new() -> (r: Self)
        ensures
            r.node() == NODE_ID,
    {
        Self { node_id: NODE_ID }
    }

    /// Decides what a received frame asks of the outputs, if anything.
    pub fn listen(&self, id: u16, body: &FrameBody) -> (r: Option<HcoCommand>)
        ensures
            r == command_of(self.node(), id, frame_bytes(*body)),
    {
        let body = body.as_slice();
        assert(id & 0x7F == id % 128) by (bit_vector);
        assert((id & 0x600 == 0x600) == (id / 512 % 4 == 3)) by (bit_vector);
        let node_id: u16 = id & 0x7F;
        if node_id != self.node_id as u16 {
            return None;
        }
        if (id & 0x600) != 0x600 {
            return None;
        }
        if body.len() != 8 {
            return None;
        }
        let command_specifier: u8 = body[0];
        assert((command_specifier & 0b1110_0000) >> 5 == command_specifier / 32) by (bit_vector);
        assert((command_specifier & 0b0000_1100) >> 2 == command_specifier / 4 % 4) by (bit_vector);
        assert((command_specifier & 0b0000_0010) >> 1 == command_specifier / 2 % 2) by (bit_vector);
        let ccs: u8 = (command_specifier & 0b1110_0000) >> 5;
        let n_empty_data_bytes: u8 = (command_specifier & 0b0000_1100) >> 2;
        let is_expedited_transfer: bool = ((command_specifier & 0b0000_0010) >> 1) == 1;
        let dict_index: u16 = u16_from_le(body[1], body[2]);
        let dict_subindex: u8 = body[3];
        if !is_expedited_transfer {
            return None;
        }
        if ccs != 2 {
            return None;
        }
        let data_len: usize = 4 - n_empty_data_bytes as usize;
        let output = match output_of(dict_subindex) {
            Some(output) => output,
            None => return None,
        };
        match dict_index {
            0x2020 => Some(HcoCommand::SetLevel(output, Level::from(body[4] != 0))),
            0x2021 => {
                if data_len < 2 {
                    return None;
                }
                Some(HcoCommand::SetPwmMicros(output, u16_from_le(body[4], body[5])))
            },
            _ => None,
        }
    }
}

impl Default for CommandListener {
    fn default() -> (r: Self)
        ensures
            r.node() == NODE_ID,
    {
        Self::new()
    }
}

/// A frame never commands two nodes.
pub proof fn a_frame_commands_one_node(a: u8, b: u8, id: u16, body: Seq<u8>)
    requires
        command_of(a, id, body) is Some,
        command_of(b, id, body) is Some,
    ensures
        a == b,
{
}

/// A frame that switches an output: a request to the node, eight bytes long, with the command byte of
/// an expedited upload, object 0x2020 and the output's number less one. The output goes low for a zero
/// in the fifth byte and high for anything else.
pub proof fn a_switching_frame_switches_its_output(node_id: u8, id: u16, body: Seq<u8>)
    requires
        id % 128 == node_id,
        id / 512 % 4 == 3,
        body.len() == 8,
        body[0] / 32 == 2,
        body[0] / 2 % 2 == 1,
        body[1] == 0x20,
        body[2] == 0x20,
    ensures
        body[3] == 0 && body[4] == 0 ==> command_of(node_id, id, body) == Some(
            HcoCommand::SetLevel(Hco::_1, Level::Low),
        ),
        body[3] == 0 && body[4] != 0 ==> command_of(node_id, id, body) == Some(
            HcoCommand::SetLevel(Hco::_1, Level::High),
        ),
        body[3] == 1 && body[4] == 0 ==> command_of(node_id, id, body) == Some(
            HcoCommand::SetLevel(Hco::_2, Level::Low),
        ),
        body[3] == 1 && body[4] != 0 ==> command_of(node_id, id, body) == Some(
            HcoCommand::SetLevel(Hco::_2, Level::High),
        ),
        body[3] == 2 && body[4] == 0 ==> command_of(node_id, id, body) == Some(
            HcoCommand::SetLevel(Hco::_3, Level::Low),
        ),
        body[3] == 2 && body[4] != 0 ==> command_of(node_id, id, body) == Some(
            HcoCommand::SetLevel(Hco::_3, Level::High),
        ),
        body[3] == 3 && body[4] == 0 ==> command_of(node_id, id, body) == Some(
            HcoCommand::SetLevel(Hco::_4, Level::Low),
        ),
        body[3] == 3 && body[4] != 0 ==> command_of(node_id, id, body) == Some(
            HcoCommand::SetLevel(Hco::_4, Level::High),
        ),
        body[3] > 3 ==> command_of(node_id, id, body) is None,
{
}

/// A frame that pulses an output: the same with object 0x2021, and at least two bytes of data by the
/// command byte, which are the width in microseconds, the low byte first.
pub proof fn a_pulsing_frame_pulses_its_output(node_id: u8, id: u16, body: Seq<u8>)
    requires
        id % 128 == node_id,
        id / 512 % 4 == 3,
        body.len() == 8,
        body[0] / 32 == 2,
        body[0] / 2 % 2 == 1,
        body[1] == 0x21,
        body[2] == 0x20,
        body[3] < 4,
    ensures
        body[0] / 4 % 4 <= 2 ==> (command_of(node_id, id, body) matches Some(
            HcoCommand::SetPwmMicros(output, micros),
        ) && micros == body[4] + 256 * body[5] && output == match body[3] {
            0 => Hco::_1,
            1 => Hco::_2,
            2 => Hco::_3,
            _ => Hco::_4,
        }),
        body[0] / 4 % 4 == 3 ==> command_of(node_id, id, body) is None,
{
}

/// Every other frame is left alone: one to another node, without both request bits, of another length,
/// with another command, not expedited, or for another object.
pub proof fn every_other_frame_is_left_alone(node_id: u8, id: u16, body: Seq<u8>)
    requires
        id % 128 != node_id || id / 512 % 4 != 3 || body.len() != 8 || body[0] / 32 != 2 || body[0] / 2
            % 2 == 0 || body[2] != 0x20 || (body[1] != 0x20 && body[1] != 0x21),
    ensures
        command_of(node_id, id, body) is None,
{
}

} // verus!
