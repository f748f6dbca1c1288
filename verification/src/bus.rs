//! Transport framing: the bus operations a driver emits and the
//! chip-select/data-command discipline around command bytes.
//!
//! Every driver method returns the exact sequence of [`BusOp`] values that
//! the hardware glue must perform in order. Reordering or omitting any step
//! corrupts the command interpreted by the chip, so the sequences are pinned
//! down element by element.

use vstd::prelude::*;

use crate::instruction::Instruction;

verus! {

/// One observable operation on the display's bus and control pins.
#[derive(Debug, Clone, Copy, PartialEq, Eq, Structural)]
pub enum BusOp {
    /// Assert chip-select (device listens).
    CsLow,
    /// Deassert chip-select.
    CsHigh,
    /// Drive the data/command pin low: the next byte is an opcode.
    DcLow,
    /// Drive the data/command pin high: the next bytes are data.
    DcHigh,
    /// Drive the reset pin low.
    RstLow,
    /// Drive the reset pin high.
    RstHigh,
    /// Write one byte on the serial bus.
    Byte(u8),
    /// Block for at least this many milliseconds.
    DelayMs(u8),
}

/// One [`BusOp::Byte`] per byte, in order.
pub open spec fn writes_of(bytes: Seq<u8>) -> Seq<BusOp> {
    Seq::new(bytes.len(), |i: int| BusOp::Byte(bytes[i]))
}

/// The pin discipline that must precede raw data bytes: chip-select
/// asserted, data/command high.
pub open spec fn data_start_ops() -> Seq<BusOp> {
    seq![BusOp::CsLow, BusOp::DcHigh]
}

/// The full framing of one command: chip-select asserted, data/command low,
/// the opcode byte; then, only if there are parameters, data/command high
/// and the parameter bytes; finally chip-select deasserted.
pub open spec fn command_frame(op: u8, params: Seq<u8>) -> Seq<BusOp> {
    seq![BusOp::CsLow, BusOp::DcLow, BusOp::Byte(op)]
        + (if params.len() == 0 {
            Seq::<BusOp>::empty()
        } else {
            data_start_ops() + writes_of(params)
        }) + seq![BusOp::CsHigh]
}

/// The opcode framing followed by the data-start discipline, before any
/// parameter byte has gone out.
spec fn command_data_prefix(op: u8) -> Seq<BusOp> {
    seq![BusOp::CsLow, BusOp::DcLow, BusOp::Byte(op)] + data_start_ops()
}

/// The framed command sequence for one instruction with its parameters.
pub fn command_ops(command: Instruction, params: &Vec<u8>) -> (ops: Vec<BusOp>)
    ensures
        ops@ == command_frame(command.spec_opcode(), params@),
{
    let mut ops: Vec<BusOp> = Vec::new();
    ops.push(BusOp::CsLow);
    ops.push(BusOp::DcLow);
    ops.push(BusOp::Byte(command.opcode()));
    if params.len() > 0 {
        ops.push(BusOp::CsLow);
        ops.push(BusOp::DcHigh);
        proof {
            assert(ops@ =~= command_data_prefix(command.spec_opcode()) + writes_of(
                params@.take(0),
            ));
        }
        for i in 0..params.len()
            invariant
                ops@ == command_data_prefix(command.spec_opcode()) + writes_of(
                    params@.take(i as int),
                ),
        {
            ops.push(BusOp::Byte(params[i]));
            proof {
                assert(ops@ =~= command_data_prefix(command.spec_opcode()) + writes_of(
                    params@.take(i as int + 1),
                ));
            }
        }
        proof {
            assert(params@.take(params@.len() as int) =~= params@);
        }
    }
    ops.push(BusOp::CsHigh);
    proof {
        assert(ops@ =~= command_frame(command.spec_opcode(), params@));
    }
    ops
}

/// The pin sequence of a hard reset: the reset pin toggled low and back
/// high, with settling delays. A partially-sent command leaves the chip's
/// protocol state undefined; this sequence (followed by a full
/// re-initialization) is the only way back.
pub open spec fn spec_hard_reset_ops() -> Seq<BusOp> {
    seq![
        BusOp::RstHigh,
        BusOp::DelayMs(10),
        BusOp::RstLow,
        BusOp::DelayMs(10),
        BusOp::RstHigh,
    ]
}

/// The hard-reset pin sequence.
pub fn hard_reset_ops() -> (ops: Vec<BusOp>)
    ensures
        ops@ == spec_hard_reset_ops(),
{
    let mut ops: Vec<BusOp> = Vec::new();
    ops.push(BusOp::RstHigh);
    ops.push(BusOp::DelayMs(10));
    ops.push(BusOp::RstLow);
    ops.push(BusOp::DelayMs(10));
    ops.push(BusOp::RstHigh);
    proof {
        assert(ops@ =~= spec_hard_reset_ops());
    }
    ops
}

/// Append one framed command to a sequence under construction.
pub fn push_command(ops: &mut Vec<BusOp>, command: Instruction, params: &Vec<u8>)
    ensures
        final(ops)@ == old(ops)@ + command_frame(command.spec_opcode(), params@),
{
    let mut frame = command_ops(command, params);
    ops.append(&mut frame);
}

/// Append a settling delay to a sequence under construction.
pub fn push_delay(ops: &mut Vec<BusOp>, ms: u8)
    ensures
        final(ops)@ == old(ops)@ + seq![BusOp::DelayMs(ms)],
{
    ops.push(BusOp::DelayMs(ms));
    proof {
        assert(ops@ =~= old(ops)@ + seq![BusOp::DelayMs(ms)]);
    }
}

} // verus!
