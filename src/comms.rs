//! The self-pipe between the SIGCHLD handler and the event loop: each
//! notification is the reporting child's pid as four little-endian bytes.
use vstd::prelude::*;

verus! {

/// All the signal data provided to the signal handler.
#[derive(Debug, Clone, Copy)]
pub struct SignalData {
    /// Process id of the child.
    pub pid: i32,
    /// User id of the child.
    pub uid: u32,
    /// Status of the child.
    pub status: i32,
    /// Errno of the child.
    pub errno: i32,
    /// Signal code.
    pub code: i32,
}

/// Number of bytes of one notification on the pipe.
pub const PID_WIDTH: usize = 4;

/// Why a notification could not be taken from the pipe or put into it.
#[derive(Debug, Clone, Copy, PartialEq, Eq, Structural)]
pub enum PipeError {
    /// Zero bytes were read: the write end is closed.
    Closed,
    /// Fewer bytes than one notification were read or written.
    Short(usize),
}

/// The two's complement value of a pid, as an unsigned 32-bit number.
pub open spec fn unsigned_of(pid: i32) -> int {
    if pid >= 0 {
        pid as int
    } else {
        pid + 0x1_0000_0000
    }
}

/// The signed 32-bit number whose two's complement is `u`.
pub open spec fn signed_of(u: int) -> int {
    if u < 0x8000_0000 {
        u
    } else {
        u - 0x1_0000_0000
    }
}

/// The four little-endian bytes of a pid.
pub open spec fn pid_bytes(pid: i32) -> Seq<u8> {
    let u = unsigned_of(pid);
    seq![
        (u % 256) as u8,
        (u / 0x100 % 256) as u8,
        (u / 0x1_0000 % 256) as u8,
        (u / 0x100_0000 % 256) as u8,
    ]
}

/// The unsigned number that four little-endian bytes stand for.
pub open spec fn le_value(b: Seq<u8>) -> int {
    b[0] + 0x100 * b[1] + 0x1_0000 * b[2] + 0x100_0000 * b[3]
}

/// The pid that four little-endian bytes stand for.
pub open spec fn pid_of_bytes(b: Seq<u8>) -> i32 {
    signed_of(le_value(b)) as i32
}

/// Encodes a pid as the bytes of one notification.
pub fn encode_pid(pid: i32) -> (r: [u8; 4])
    ensures
        r@ == pid_bytes(pid),
{
    let u: u32 = if pid >= 0 {
        pid as u32
    } else {
        (pid as i64 + 0x1_0000_0000i64) as u32
    };
    let r: [u8; 4] = [
        (u % 256) as u8,
        (u / 0x100 % 256) as u8,
        (u / 0x1_0000 % 256) as u8,
        (u / 0x100_0000 % 256) as u8,
    ];
    assert(r@ =~= pid_bytes(pid));
    r
}

/// Decodes the bytes of one notification into a pid.
pub fn decode_pid(buf: [u8; 4]) -> (r: i32)
    ensures
        r == pid_of_bytes(buf@),
{
    let b0: u32 = buf[0] as u32;
    let b1: u32 = buf[1] as u32;
    let b2: u32 = buf[2] as u32;
    let b3: u32 = buf[3] as u32;
    assert(0x100 * b1 <= 0xff00) by (nonlinear_arith)
        requires
            b1 <= 0xff,
    ;
    assert(0x1_0000 * b2 <= 0xff_0000) by (nonlinear_arith)
        requires
            b2 <= 0xff,
    ;
    assert(0x100_0000 * b3 <= 0xff00_0000) by (nonlinear_arith)
        requires
            b3 <= 0xff,
    ;
    let u: u32 = b0 + 0x100 * b1 + 0x1_0000 * b2 + 0x100_0000 * b3;
    if u < 0x8000_0000 {
        u as i32
    } else {
        (u as i64 - 0x1_0000_0000i64) as i32
    }
}

/// Decoding the encoding of a pid gives the pid back.
pub proof fn lemma_pid_round_trip(pid: i32)
    ensures
        pid_of_bytes(pid_bytes(pid)) == pid,
{
    let u = unsigned_of(pid);
    let b = pid_bytes(pid);
    assert(0 <= u < 0x1_0000_0000);
    assert(le_value(b) == u) by (nonlinear_arith)
        requires
            0 <= u < 0x1_0000_0000,
            b[0] == u % 256,
            b[1] == u / 0x100 % 256,
            b[2] == u / 0x1_0000 % 256,
            b[3] == u / 0x100_0000 % 256,
    ;
}

/// The bytes on the pipe after one notification for each pid, in order.
pub open spec fn stream_of(pids: Seq<i32>) -> Seq<u8>
    decreases pids.len(),
{
    if pids.len() == 0 {
        Seq::empty()
    } else {
        stream_of(pids.drop_last()) + pid_bytes(pids.last())
    }
}

/// Notifications written one after another are drained in write order: the
/// k-th group of four bytes on the pipe decodes to the k-th pid written, and
/// no byte is lost or added.
pub proof fn lemma_stream_in_order(pids: Seq<i32>)
    ensures
        stream_of(pids).len() == PID_WIDTH * pids.len(),
        forall|k: int|
            0 <= k < pids.len() ==> #[trigger] pid_of_bytes(
                stream_of(pids).subrange(PID_WIDTH * k, PID_WIDTH * k + PID_WIDTH),
            ) == pids[k],
    decreases pids.len(),
{
    if pids.len() > 0 {
        let front = pids.drop_last();
        lemma_stream_in_order(front);
        let s = stream_of(pids);
        assert(s == stream_of(front) + pid_bytes(pids.last()));
        assert forall|k: int| 0 <= k < pids.len() implies #[trigger] pid_of_bytes(
            s.subrange(PID_WIDTH * k, PID_WIDTH * k + PID_WIDTH),
        ) == pids[k] by {
            if k < front.len() {
                assert(s.subrange(4 * k, 4 * k + 4) =~= stream_of(front).subrange(4 * k, 4 * k + 4));
                assert(front[k] == pids[k]);
            } else {
                assert(s.subrange(4 * k, 4 * k + 4) =~= pid_bytes(pids.last()));
                lemma_pid_round_trip(pids.last());
            }
        }
    }
}

/// What one read of a notification yields, given the number of bytes read
/// into the four-byte buffer.
pub fn notification_from_read(n_read: usize, buf: [u8; 4]) -> (r: Result<i32, PipeError>)
    requires
        n_read <= PID_WIDTH,
    ensures
        n_read == 0 ==> r == Err::<i32, PipeError>(PipeError::Closed),
        0 < n_read < PID_WIDTH ==> r == Err::<i32, PipeError>(PipeError::Short(n_read)),
        n_read == PID_WIDTH ==> r == Ok::<i32, PipeError>(pid_of_bytes(buf@)),
{
    if n_read == 0 {
        Err(PipeError::Closed)
    } else if n_read < PID_WIDTH {
        Err(PipeError::Short(n_read))
    } else {
        Ok(decode_pid(buf))
    }
}

/// Whether one write of a notification put all its bytes into the pipe.
pub fn check_written(n_written: usize) -> (r: Result<(), PipeError>)
    ensures
        n_written == PID_WIDTH ==> r == Ok::<(), PipeError>(()),
        n_written != PID_WIDTH ==> r == Err::<(), PipeError>(PipeError::Short(n_written)),
{
    if n_written == PID_WIDTH {
        Ok(())
    } else {
        Err(PipeError::Short(n_written))
    }
}

} // verus!
