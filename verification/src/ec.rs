//! The command protocol of the embedded controller.
//!
//! Each operation is laid out as the list of port operations that carries it
//! out, in order. The caller performs them one by one and gives up at the first
//! wait that fails; a flush and a wait are loops of their own, whose decisions
//! are [`ec_flush`] and [`Flag::wait`].

use vstd::prelude::*;
use crate::consts::{COMMAND_SPEED, COMMAND_TEMP, EC_COMMAND_PORT, EC_DATA_PORT, FAN_ID};
use crate::error::FailedToSetIOPermissionError;
use crate::flag::Flag;

verus! {

/// One operation on the controller's ports.
#[derive(Debug, Clone, Copy, PartialEq, Eq, Structural)]
pub enum Op {
    /// Read and discard data bytes for as long as the output buffer is full.
    Flush,
    /// Wait until the flag is in the state `on`.
    Wait { flag: Flag, on: bool },
    /// Write the byte `value` to `port`.
    Write { port: u16, value: u8 },
    /// Read one byte from `port`: the answer of the operation.
    Read { port: u16 },
}

/// The duty-cycle byte for a speed in percent: 255 is full scale, and any
/// speed above 100 counts as 100.
pub open spec fn spec_scale(percent: u8) -> int {
    (if percent <= 100 { percent as int } else { 100 }) * 255 / 100
}

/// A write of one byte: wait until the controller has taken the byte before,
/// then write.
pub open spec fn write_ops(port: u16, value: u8) -> Seq<Op> {
    seq![Op::Wait { flag: Flag::IBF, on: false }, Op::Write { port, value }]
}

/// A read of one byte: wait until the controller has a byte ready, then read
/// it from the data port.
pub open spec fn read_ops() -> Seq<Op> {
    seq![Op::Wait { flag: Flag::OBF, on: true }, Op::Read { port: EC_DATA_PORT }]
}

/// Setting the fan speed: the command, the fan, the duty cycle.
pub open spec fn set_fan_speed_ops(speed: u8) -> Seq<Op> {
    write_ops(EC_COMMAND_PORT, COMMAND_SPEED) + write_ops(EC_DATA_PORT, FAN_ID) + write_ops(
        EC_DATA_PORT,
        spec_scale(speed) as u8,
    )
}

/// Asking for the temperature: drop stale output, then the command, the fan,
/// and the read of the answer.
pub open spec fn get_local_temp_ops() -> Seq<Op> {
    seq![Op::Flush] + write_ops(EC_COMMAND_PORT, COMMAND_TEMP) + write_ops(EC_DATA_PORT, FAN_ID)
        + read_ops()
}

/// The number of bytes that a flush reads and discards when its probes of the
/// status byte come back as `statuses`, in order: one for each probe that
/// shows the output buffer full, up to the first that does not.
pub open spec fn flush_reads(statuses: Seq<u8>) -> nat
    decreases statuses.len(),
{
    if statuses.len() == 0 || !Flag::OBF.is_on(statuses[0]) {
        0
    } else {
        1 + flush_reads(statuses.subrange(1, statuses.len() as int))
    }
}

/// Converts a speed in percent to the controller's duty-cycle byte.
pub fn scale(percent: u8) -> (duty: u8)
    ensures
        duty as int == spec_scale(percent),
        percent <= 100 ==> duty as int == percent as int * 255 / 100,
        percent >= 100 ==> duty == 255,
{
    let capped: u16 = if percent <= 100 { percent as u16 } else { 100u16 };
    let duty: u16 = capped * 255 / 100;
    duty as u8
}

/// The ports that the controller needs raw access to, in the order in which
/// access is requested: the data port, then the command port.
pub fn ec_init() -> (ports: Vec<u16>)
    ensures
        ports@ == seq![EC_DATA_PORT, EC_COMMAND_PORT],
{
    let ports: Vec<u16> = vec![EC_DATA_PORT, EC_COMMAND_PORT];
    assert(ports@ =~= seq![EC_DATA_PORT, EC_COMMAND_PORT]);
    ports
}

/// Judges the status that a request for raw access to `port` returned: zero
/// grants it, anything else is a refusal that carries the port and the status.
pub fn set_port_io_permission(port: u16, return_value: i32) -> (granted: Result<
    (),
    FailedToSetIOPermissionError,
>)
    ensures
        granted.is_ok() <==> return_value == 0,
        granted.is_err() ==> granted.unwrap_err() == (FailedToSetIOPermissionError {
            port,
            return_value,
        }),
{
    if return_value != 0 {
        return Err(FailedToSetIOPermissionError::new(port, return_value));
    }
    Ok(())
}

/// Writes `value` to `port` once the input buffer is free.
pub fn write_to_port(port: u16, value: u8) -> (ops: Vec<Op>)
    ensures
        ops@ == write_ops(port, value),
{
    let ops: Vec<Op> = vec![Op::Wait { flag: Flag::IBF, on: false }, Op::Write { port, value }];
    assert(ops@ =~= write_ops(port, value));
    ops
}

/// Sends a command byte to the controller.
pub fn send_command(command: u8) -> (ops: Vec<Op>)
    ensures
        ops@ == write_ops(EC_COMMAND_PORT, command),
{
    write_to_port(EC_COMMAND_PORT, command)
}

/// Writes a data byte to the controller.
pub fn write_data(data: u8) -> (ops: Vec<Op>)
    ensures
        ops@ == write_ops(EC_DATA_PORT, data),
{
    write_to_port(EC_DATA_PORT, data)
}

/// Sets the fan speed, given in percent.
pub fn set_fan_speed(speed: u8) -> (ops: Vec<Op>)
    ensures
        ops@ == set_fan_speed_ops(speed),
        ops@.len() == 6,
        ops@[1] == (Op::Write { port: EC_COMMAND_PORT, value: COMMAND_SPEED }),
        ops@[3] == (Op::Write { port: EC_DATA_PORT, value: FAN_ID }),
        ops@[5] == (Op::Write { port: EC_DATA_PORT, value: spec_scale(speed) as u8 }),
{
    let mut ops: Vec<Op> = send_command(COMMAND_SPEED);
    let mut fan: Vec<Op> = write_data(FAN_ID);
    let mut duty: Vec<Op> = write_data(scale(speed));
    ops.append(&mut fan);
    ops.append(&mut duty);
    assert(ops@ =~= set_fan_speed_ops(speed));
    ops
}

/// One probe of a flush: `status` is the byte just read from the command
/// port. The answer is whether a byte has to be read from the data port and
/// discarded before the next probe; the flush is over when it is `false`, and
/// then the output buffer was seen empty.
pub fn ec_flush(status: u8) -> (pending: bool)
    ensures
        pending == Flag::OBF.is_on(status),
{
    Flag::OBF.on(status)
}

/// Runs a flush over recorded probes of the status byte and returns the
/// number of bytes that it reads and discards: the flush stops at the first
/// probe that shows the output buffer empty, or when the probes run out.
pub fn flush_over(statuses: &Vec<u8>) -> (reads: usize)
    ensures
        reads == flush_reads(statuses@),
        reads <= statuses@.len(),
        reads < statuses@.len() ==> !Flag::OBF.is_on(statuses@[reads as int]),
        forall|i: int| 0 <= i < reads ==> Flag::OBF.is_on(#[trigger] statuses@[i]),
{
    let mut reads: usize = 0;
    while reads < statuses.len() && ec_flush(statuses[reads])
        invariant
            reads <= statuses.len(),
            forall|i: int| 0 <= i < reads ==> Flag::OBF.is_on(#[trigger] statuses@[i]),
        decreases statuses.len() - reads,
    {
        reads += 1;
    }
    proof {
        lemma_flush_reads(statuses@, reads as nat);
    }
    reads
}

/// Reads one byte from the controller.
pub fn read_byte() -> (ops: Vec<Op>)
    ensures
        ops@ == read_ops(),
{
    let ops: Vec<Op> = vec![Op::Wait { flag: Flag::OBF, on: true }, Op::Read { port: EC_DATA_PORT }];
    assert(ops@ =~= read_ops());
    ops
}

/// Asks the controller for the temperature; the byte read last is the
/// temperature in degrees Celsius.
pub fn get_local_temp() -> (ops: Vec<Op>)
    ensures
        ops@ == get_local_temp_ops(),
        ops@.len() == 7,
        ops@[0] == Op::Flush,
        ops@[2] == (Op::Write { port: EC_COMMAND_PORT, value: COMMAND_TEMP }),
        ops@[4] == (Op::Write { port: EC_DATA_PORT, value: FAN_ID }),
        ops@[6] == (Op::Read { port: EC_DATA_PORT }),
{
    let mut ops: Vec<Op> = vec![Op::Flush];
    let mut command: Vec<Op> = send_command(COMMAND_TEMP);
    let mut fan: Vec<Op> = write_data(FAN_ID);
    let mut answer: Vec<Op> = read_byte();
    ops.append(&mut command);
    ops.append(&mut fan);
    ops.append(&mut answer);
    assert(ops@ =~= get_local_temp_ops());
    ops
}

/// A speed above 100 percent gives the same duty cycle as 100 percent.
pub proof fn lemma_scale_saturates(percent: u8)
    requires
        percent >= 100,
    ensures
        spec_scale(percent) == spec_scale(100),
        spec_scale(percent) == 255,
{
}

/// A flush ends with the output buffer seen empty, however many stale bytes
/// were pending: if the first `pending` probes show the buffer full and the
/// next one shows it empty, the flush discards exactly `pending` bytes and
/// stops at that probe.
pub proof fn lemma_flush_drains(statuses: Seq<u8>, pending: nat)
    requires
        pending < statuses.len(),
        forall|i: int| 0 <= i < pending ==> Flag::OBF.is_on(#[trigger] statuses[i]),
        !Flag::OBF.is_on(statuses[pending as int]),
    ensures
        flush_reads(statuses) == pending,
        !Flag::OBF.is_on(statuses[flush_reads(statuses) as int]),
{
    lemma_flush_reads(statuses, pending);
}

/// If the first `n` probes show the output buffer full and the next one does
/// not, or there is no next one, the flush discards exactly `n` bytes.
pub proof fn lemma_flush_reads(statuses: Seq<u8>, n: nat)
    requires
        n <= statuses.len(),
        forall|i: int| 0 <= i < n ==> Flag::OBF.is_on(#[trigger] statuses[i]),
        n < statuses.len() ==> !Flag::OBF.is_on(statuses[n as int]),
    ensures
        flush_reads(statuses) == n,
    decreases n,
{
    if n > 0 {
        let rest = statuses.subrange(1, statuses.len() as int);
        assert(Flag::OBF.is_on(statuses[0]));
        assert forall|i: int| 0 <= i < n - 1 implies Flag::OBF.is_on(#[trigger] rest[i]) by {
            assert(rest[i] == statuses[i + 1]);
        }
        if n < statuses.len() {
            assert(rest[n - 1] == statuses[n as int]);
        }
        lemma_flush_reads(rest, (n - 1) as nat);
    }
}

} // verus!
