use vstd::prelude::*;

verus! {

/// The operation code carried by every gateway frame.
#[derive(Clone, Copy, Debug, PartialEq, Eq, Structural)]
pub enum OpCode {
    Dispatch,
    Heartbeat,
    Identify,
    Resume,
    Reconnect,
    InvalidSession,
    Hello,
    HeartbeatAck,
    /// A code this client does not know; kept so that the receive loop goes on.
    Unknown(u64),
}

/// The operation code that a wire integer stands for.
pub open spec fn opcode_of(n: u64) -> OpCode {
    if n == 0 {
        OpCode::Dispatch
    } else if n == 1 {
        OpCode::Heartbeat
    } else if n == 2 {
        OpCode::Identify
    } else if n == 6 {
        OpCode::Resume
    } else if n == 7 {
        OpCode::Reconnect
    } else if n == 9 {
        OpCode::InvalidSession
    } else if n == 10 {
        OpCode::Hello
    } else if n == 11 {
        OpCode::HeartbeatAck
    } else {
        OpCode::Unknown(n)
    }
}

/// The wire integer of an operation code.
pub open spec fn code_of(op: OpCode) -> u64 {
    match op {
        OpCode::Dispatch => 0,
        OpCode::Heartbeat => 1,
        OpCode::Identify => 2,
        OpCode::Resume => 6,
        OpCode::Reconnect => 7,
        OpCode::InvalidSession => 9,
        OpCode::Hello => 10,
        OpCode::HeartbeatAck => 11,
        OpCode::Unknown(n) => n,
    }
}

impl OpCode {
    pub fn from_code(n: u64) -> (r: OpCode)
        ensures
            r == opcode_of(n),
    {
        if n == 0 {
            OpCode::Dispatch
        } else if n == 1 {
            OpCode::Heartbeat
        } else if n == 2 {
            OpCode::Identify
        } else if n == 6 {
            OpCode::Resume
        } else if n == 7 {
            OpCode::Reconnect
        } else if n == 9 {
            OpCode::InvalidSession
        } else if n == 10 {
            OpCode::Hello
        } else if n == 11 {
            OpCode::HeartbeatAck
        } else {
            OpCode::Unknown(n)
        }
    }

    pub fn code(&self) -> (r: u64)
        ensures
            r == code_of(*self),
    {
        match self {
            OpCode::Dispatch => 0,
            OpCode::Heartbeat => 1,
            OpCode::Identify => 2,
            OpCode::Resume => 6,
            OpCode::Reconnect => 7,
            OpCode::InvalidSession => 9,
            OpCode::Hello => 10,
            OpCode::HeartbeatAck => 11,
            OpCode::Unknown(n) => *n,
        }
    }
}

/// Decoding a wire integer and encoding it again gives the same integer.
pub proof fn lemma_code_round_trip(n: u64)
    ensures
        code_of(opcode_of(n)) == n,
{
}

} // verus!
