//! Command opcodes and the frames that carry them on the bus.
use vstd::prelude::*;

verus! {

/// The operations the sensor understands, each selected by a fixed 16-bit opcode.
#[derive(Clone, Copy, Debug, PartialEq, Eq, Structural)]
pub enum Command {
    StartContinuousMeasurement,
    StopContinuousMeasurement,
    SetMeasurementInterval,
    GetDataReadyStatus,
    ReadMeasurement,
    SetAutomaticSelfCalibration,
    SetForcedRecalibrationValue,
    SetTemperatureOffset,
    SetAltitude,
    ReadFirmwareVersion,
    SoftReset,
}

/// The opcode of each command, as the sensor's register map assigns it.
pub open spec fn spec_opcode(c: Command) -> u16 {
    match c {
        Command::StartContinuousMeasurement => 0x0010,
        Command::StopContinuousMeasurement => 0x0104,
        Command::SetMeasurementInterval => 0x4600,
        Command::GetDataReadyStatus => 0x0202,
        Command::ReadMeasurement => 0x0300,
        Command::SetAutomaticSelfCalibration => 0x5306,
        Command::SetForcedRecalibrationValue => 0x5204,
        Command::SetTemperatureOffset => 0x5403,
        Command::SetAltitude => 0x5102,
        Command::ReadFirmwareVersion => 0xd100,
        Command::SoftReset => 0xd304,
    }
}

/// The two bytes of `v`, most significant first.
pub open spec fn be_u16_bytes(v: u16) -> Seq<u8> {
    seq![(v / 256) as u8, (v % 256) as u8]
}

/// The value of two bytes read most significant first.
pub open spec fn be_u16_value(hi: u8, lo: u8) -> int {
    hi as int * 256 + lo as int
}

/// A frame that carries only the opcode of `c`.
pub open spec fn spec_frame(c: Command) -> Seq<u8> {
    be_u16_bytes(spec_opcode(c))
}

/// A frame that carries the opcode of `c` followed by the argument `arg`.
pub open spec fn spec_frame_with_arg(c: Command, arg: u16) -> Seq<u8> {
    be_u16_bytes(spec_opcode(c)) + be_u16_bytes(arg)
}

impl Command {
    /// The 16-bit opcode of this command.
    pub fn opcode(&self) -> (r: u16)
        ensures
            r == spec_opcode(*self),
    {
        match self {
            Command::StartContinuousMeasurement => 0x0010,
            Command::StopContinuousMeasurement => 0x0104,
            Command::SetMeasurementInterval => 0x4600,
            Command::GetDataReadyStatus => 0x0202,
            Command::ReadMeasurement => 0x0300,
            Command::SetAutomaticSelfCalibration => 0x5306,
            Command::SetForcedRecalibrationValue => 0x5204,
            Command::SetTemperatureOffset => 0x5403,
            Command::SetAltitude => 0x5102,
            Command::ReadFirmwareVersion => 0xd100,
            Command::SoftReset => 0xd304,
        }
    }
}

/// The opcode of `command` as two big-endian bytes.
pub fn encode(command: Command) -> (r: [u8; 2])
    ensures
        r@ == spec_frame(command),
{
    let op = command.opcode();
    let r: [u8; 2] = [(op / 256) as u8, (op % 256) as u8];
    assert(r@ =~= spec_frame(command));
    r
}

/// The opcode of `command` followed by `arg`, each as two big-endian bytes.
pub fn encode_with_u16_arg(command: Command, arg: u16) -> (r: [u8; 4])
    ensures
        r@ == spec_frame_with_arg(command, arg),
{
    let op = command.opcode();
    let r: [u8; 4] = [(op / 256) as u8, (op % 256) as u8, (arg / 256) as u8, (arg % 256) as u8];
    assert(r@ =~= spec_frame_with_arg(command, arg));
    r
}

/// Every frame reads back, most significant byte first, as the command's opcode.
pub proof fn lemma_frame_holds_opcode(c: Command)
    ensures
        spec_frame(c).len() == 2,
        be_u16_value(spec_frame(c)[0], spec_frame(c)[1]) == spec_opcode(c) as int,
{
}

/// A frame with an argument is the opcode frame followed by the argument,
/// and both read back as the values they were built from.
pub proof fn lemma_frame_with_arg_holds_both(c: Command, arg: u16)
    ensures
        spec_frame_with_arg(c, arg).len() == 4,
        spec_frame_with_arg(c, arg).subrange(0, 2) == spec_frame(c),
        be_u16_value(spec_frame_with_arg(c, arg)[0], spec_frame_with_arg(c, arg)[1])
            == spec_opcode(c) as int,
        be_u16_value(spec_frame_with_arg(c, arg)[2], spec_frame_with_arg(c, arg)[3]) == arg as int,
{
    assert(spec_frame_with_arg(c, arg).subrange(0, 2) =~= spec_frame(c));
}

} // verus!
