use vstd::prelude::*;

use byte_slice_cast::AsByteSlice;

use super::commands::LcdCommand;
use super::commands::command_code;
use vstd::endian::{endianness, Endian};

verus! {

/// The most parameter bytes one command can carry.
pub const MAX_DATA_FRAMES: usize = 20;

/// Ninth bit of a frame: clear for a command, set for a parameter byte.
pub const DATA_FLAG: u16 = 0x100;

/// The 9-bit frame that carries a command: its code with the ninth bit clear.
pub open spec fn spec_command_frame(command: LcdCommand) -> u16 {
    command_code(command) as u16
}

/// The 9-bit frame that carries a parameter byte: the byte with the ninth bit set.
pub open spec fn spec_data_frame(byte: u8) -> u16 {
    (DATA_FLAG + byte) as u16
}

/// A command frame is its code in the low byte with the ninth bit clear; a
/// data frame is its byte in the low byte with the ninth bit set; both fit
/// in nine bits, and different bytes give different frames.
pub proof fn lemma_frame_layout(command: LcdCommand, byte: u8, other: u8)
    ensures
        spec_command_frame(command) < 256,
        spec_command_frame(command) == command_code(command),
        spec_data_frame(byte) == 256 + byte,
        spec_data_frame(byte) < 512,
        spec_data_frame(byte) != spec_command_frame(command),
        spec_data_frame(byte) == spec_data_frame(other) ==> byte == other,
{
}

/// Frames laid out low byte first.
pub open spec fn frames_le(frames: Seq<u16>) -> Seq<u8> {
    Seq::new(
        2 * frames.len(),
        |i: int|
            if i % 2 == 0 {
                (frames[i / 2] % 256) as u8
            } else {
                (frames[i / 2] / 256) as u8
            },
    )
}

/// Frames laid out high byte first.
pub open spec fn frames_be(frames: Seq<u16>) -> Seq<u8> {
    Seq::new(
        2 * frames.len(),
        |i: int|
            if i % 2 == 0 {
                (frames[i / 2] / 256) as u8
            } else {
                (frames[i / 2] % 256) as u8
            },
    )
}

/// `bytes` holds `frames` in one of the two byte orders a machine can have.
pub open spec fn in_machine_order(bytes: Seq<u8>, frames: Seq<u16>) -> bool {
    bytes == frames_le(frames) || bytes == frames_be(frames)
}

/// Frames laid out as they lie in the memory of the executing machine: in
/// the byte order that vstd names `endianness()`, the same for every call.
pub open spec fn machine_frames(frames: Seq<u16>) -> Seq<u8> {
    match endianness() {
        Endian::Little => frames_le(frames),
        Endian::Big => frames_be(frames),
    }
}

/// Laying out frames one after another gives their bytes one after another.
pub proof fn lemma_machine_frames_concatenate(first: Seq<u16>, second: Seq<u16>)
    ensures
        machine_frames(first + second) == machine_frames(first) + machine_frames(second),
{
    assert(frames_le(first + second) =~= frames_le(first) + frames_le(second));
    assert(frames_be(first + second) =~= frames_be(first) + frames_be(second));
}

/// Each frame takes two bytes, and its two bytes, read in the machine's byte
/// order, give the frame back.
pub proof fn lemma_machine_frames_decode(frames: Seq<u16>, i: int)
    requires
        0 <= i < frames.len(),
    ensures
        machine_frames(frames).len() == 2 * frames.len(),
        ({
            let bytes = machine_frames(frames);
            let (low, high) = match endianness() {
                Endian::Little => (bytes[2 * i], bytes[2 * i + 1]),
                Endian::Big => (bytes[2 * i + 1], bytes[2 * i]),
            };
            low as int + 256 * high as int == frames[i]
        }),
{
    let f = frames[i];
    assert((f % 256) as u8 as int + 256 * ((f / 256) as u8 as int) == f as int) by (nonlinear_arith)
        requires
            0 <= f <= 65535,
    ;
    assert((2 * i) / 2 == i && (2 * i + 1) / 2 == i && (2 * i) % 2 == 0 && (2 * i + 1) % 2 == 1);
}

/// The bytes of `frames` as they lie in memory, copied out through
/// `byte_slice_cast::AsByteSlice::as_byte_slice`.
///
/// The crate reinterprets the frames' memory without reordering it, so each
/// frame gives two bytes in the byte order of the executing machine, the one
/// vstd names `endianness()`.
#[verifier::external_body]
fn frames_as_bytes(frames: &[u16]) -> (bytes: Vec<u8>)
    ensures
        in_machine_order(bytes@, frames@),
        bytes@ == machine_frames(frames@),
{
    frames.as_byte_slice().to_vec()
}

/// The frame that carries `command`.
pub fn command_frame(command: LcdCommand) -> (frame: u16)
    ensures
        frame == spec_command_frame(command),
        frame & DATA_FLAG == 0,
        frame < 256,
{
    let code = command.code() as u16;
    let frame = 0u16 | code;
    assert(frame == code && code & 0x100 == 0) by (bit_vector)
        requires
            frame == 0u16 | code,
            code < 256,
    ;
    frame
}

/// The frame that carries the parameter byte `byte`.
pub fn data_frame(byte: u8) -> (frame: u16)
    ensures
        frame == spec_data_frame(byte),
        frame & DATA_FLAG == DATA_FLAG,
        frame % 256 == byte,
{
    let b = byte as u16;
    let frame = DATA_FLAG | b;
    assert(frame == 0x100 + b && frame & 0x100 == 0x100 && frame % 256 == b) by (bit_vector)
        requires
            frame == 0x100u16 | b,
            b < 256,
    ;
    frame
}

/// The frames that carry the parameter bytes `data`, one frame per byte.
pub fn data_frames(data: &[u8]) -> (frames: Vec<u16>)
    requires
        data@.len() <= MAX_DATA_FRAMES,
    ensures
        frames@ == data@.map_values(|b: u8| spec_data_frame(b)),
{
    let mut frames: Vec<u16> = Vec::new();
    let mut i: usize = 0;
    while i < data.len()
        invariant
            i <= data@.len(),
            frames@ == data@.subrange(0, i as int).map_values(|b: u8| spec_data_frame(b)),
        decreases data@.len() - i,
    {
        frames.push(data_frame(data[i]));
        i = i + 1;
        assert(data@.subrange(0, i as int) =~= data@.subrange(0, i - 1).push(data@[i - 1]));
    }
    assert(data@.subrange(0, i as int) =~= data@);
    frames
}

/// The bytes that send `command` over the display's SPI bus.
pub fn command_bytes(command: LcdCommand) -> (bytes: Vec<u8>)
    ensures
        in_machine_order(bytes@, seq![spec_command_frame(command)]),
        bytes@ == machine_frames(seq![spec_command_frame(command)]),
{
    let mut frames: Vec<u16> = Vec::new();
    frames.push(command_frame(command));
    frames_as_bytes(frames.as_slice())
}

/// The bytes that send the parameter bytes `data` over the display's SPI bus.
pub fn data_bytes(data: &[u8]) -> (bytes: Vec<u8>)
    requires
        data@.len() <= MAX_DATA_FRAMES,
    ensures
        in_machine_order(bytes@, data@.map_values(|b: u8| spec_data_frame(b))),
        bytes@ == machine_frames(data@.map_values(|b: u8| spec_data_frame(b))),
{
    let frames = data_frames(data);
    frames_as_bytes(frames.as_slice())
}

} // verus!
