//! Engine-lifecycle and task-lifecycle event kinds.
//!
//! The engine reports progress through a callback carrying a small integer
//! code; [`Message`] is the closed enumeration of the known codes.  Unknown
//! codes decode to [`Message::InternalError`] rather than failing, so that a
//! misbehaving engine can never break the bridge.

use vstd::prelude::*;

verus! {

/// An asynchronous event kind emitted by the engine.
#[derive(Clone, Copy, Debug, PartialEq, Eq, Structural)]
pub enum Message {
    /// Internal engine error; also the fallback for unknown codes.
    InternalError,
    /// Engine initialisation failed.
    InitFailed,
    /// Connection-related information.
    ConnectionInfo,
    /// Every queued task chain has completed.
    AllTasksCompleted,
    /// Information about an external asynchronous call.
    AsyncCallInfo,
    /// The engine instance was destroyed.
    Destroyed,
    /// A task chain hit an execution or recognition error.
    TaskChainError,
    /// A task chain started.
    TaskChainStart,
    /// A task chain completed.
    TaskChainCompleted,
    /// Extra information about a task chain.
    TaskChainExtraInfo,
    /// A task chain was stopped by hand.
    TaskChainStopped,
    /// An atomic sub-task hit an execution or recognition error.
    SubTaskError,
    /// An atomic sub-task started.
    SubTaskStart,
    /// An atomic sub-task completed.
    SubTaskCompleted,
    /// Extra information about an atomic sub-task.
    SubTaskExtraInfo,
    /// An atomic sub-task was stopped by hand.
    SubTaskStopped,
}

/// The message that a given callback code decodes to; codes outside the
/// fixed table fall back to `InternalError`.
pub open spec fn message_of(code: int) -> Message {
    if code == 0 {
        Message::InternalError
    } else if code == 1 {
        Message::InitFailed
    } else if code == 2 {
        Message::ConnectionInfo
    } else if code == 3 {
        Message::AllTasksCompleted
    } else if code == 4 {
        Message::AsyncCallInfo
    } else if code == 5 {
        Message::Destroyed
    } else if code == 10000 {
        Message::TaskChainError
    } else if code == 10001 {
        Message::TaskChainStart
    } else if code == 10002 {
        Message::TaskChainCompleted
    } else if code == 10003 {
        Message::TaskChainExtraInfo
    } else if code == 10004 {
        Message::TaskChainStopped
    } else if code == 20000 {
        Message::SubTaskError
    } else if code == 20001 {
        Message::SubTaskStart
    } else if code == 20002 {
        Message::SubTaskCompleted
    } else if code == 20003 {
        Message::SubTaskExtraInfo
    } else if code == 20004 {
        Message::SubTaskStopped
    } else {
        Message::InternalError
    }
}

/// The fixed code of a message, as the engine reports it.
pub open spec fn code_of(m: Message) -> int {
    match m {
        Message::InternalError => 0,
        Message::InitFailed => 1,
        Message::ConnectionInfo => 2,
        Message::AllTasksCompleted => 3,
        Message::AsyncCallInfo => 4,
        Message::Destroyed => 5,
        Message::TaskChainError => 10000,
        Message::TaskChainStart => 10001,
        Message::TaskChainCompleted => 10002,
        Message::TaskChainExtraInfo => 10003,
        Message::TaskChainStopped => 10004,
        Message::SubTaskError => 20000,
        Message::SubTaskStart => 20001,
        Message::SubTaskCompleted => 20002,
        Message::SubTaskExtraInfo => 20003,
        Message::SubTaskStopped => 20004,
    }
}

impl From<i32> for Message {
    /// Decode a raw callback code; unknown codes become `InternalError`.
    fn from(value: i32) -> (r: Message) {
        if value == 0 {
            Message::InternalError
        } else if value == 1 {
            Message::InitFailed
        } else if value == 2 {
            Message::ConnectionInfo
        } else if value == 3 {
            Message::AllTasksCompleted
        } else if value == 4 {
            Message::AsyncCallInfo
        } else if value == 5 {
            Message::Destroyed
        } else if value == 10000 {
            Message::TaskChainError
        } else if value == 10001 {
            Message::TaskChainStart
        } else if value == 10002 {
            Message::TaskChainCompleted
        } else if value == 10003 {
            Message::TaskChainExtraInfo
        } else if value == 10004 {
            Message::TaskChainStopped
        } else if value == 20000 {
            Message::SubTaskError
        } else if value == 20001 {
            Message::SubTaskStart
        } else if value == 20002 {
            Message::SubTaskCompleted
        } else if value == 20003 {
            Message::SubTaskExtraInfo
        } else if value == 20004 {
            Message::SubTaskStopped
        } else {
            Message::InternalError
        }
    }
}

impl vstd::std_specs::convert::FromSpecImpl<i32> for Message {
    open spec fn obeys_from_spec() -> bool {
        true
    }

    open spec fn from_spec(v: i32) -> Message {
        message_of(v as int)
    }
}

impl Message {
    /// The fixed integer code of this message.
    pub fn code(&self) -> (r: i32)
        ensures
            r as int == code_of(*self),
    {
        match self {
            Message::InternalError => 0,
            Message::InitFailed => 1,
            Message::ConnectionInfo => 2,
            Message::AllTasksCompleted => 3,
            Message::AsyncCallInfo => 4,
            Message::Destroyed => 5,
            Message::TaskChainError => 10000,
            Message::TaskChainStart => 10001,
            Message::TaskChainCompleted => 10002,
            Message::TaskChainExtraInfo => 10003,
            Message::TaskChainStopped => 10004,
            Message::SubTaskError => 20000,
            Message::SubTaskStart => 20001,
            Message::SubTaskCompleted => 20002,
            Message::SubTaskExtraInfo => 20003,
            Message::SubTaskStopped => 20004,
        }
    }
}

/// Decoding a message's own code gives the message back: the table of codes
/// is injective on the known messages.
pub proof fn lemma_message_code_round_trip(m: Message)
    ensures
        message_of(code_of(m)) == m,
{
}

/// The event kinds known to the flat, handle-level engine interface.  This
/// older enumeration lacks the stopped/destroyed kinds and decodes strictly:
/// an unknown code is an error, not a fallback.
#[derive(Clone, Copy, Debug, PartialEq, Eq, Structural)]
pub enum AsstMsg {
    /// Internal engine error.
    InternalError,
    /// Engine initialisation failed.
    InitFailed,
    /// Connection-related information.
    ConnectionInfo,
    /// Every queued task chain has completed.
    AllTasksCompleted,
    /// A task chain hit an execution or recognition error.
    TaskChainError,
    /// A task chain started.
    TaskChainStart,
    /// A task chain completed.
    TaskChainCompleted,
    /// Extra information about a task chain.
    TaskChainExtraInfo,
    /// An atomic sub-task hit an execution or recognition error.
    SubTaskError,
    /// An atomic sub-task started.
    SubTaskStart,
    /// An atomic sub-task completed.
    SubTaskCompleted,
    /// Extra information about an atomic sub-task.
    SubTaskExtraInfo,
}

/// The strict decoding of a raw code for the older interface: known codes
/// map to their message, all others are rejected.
pub open spec fn asst_msg_of(code: int) -> Result<AsstMsg, ()> {
    if code == 0 {
        Ok(AsstMsg::InternalError)
    } else if code == 1 {
        Ok(AsstMsg::InitFailed)
    } else if code == 2 {
        Ok(AsstMsg::ConnectionInfo)
    } else if code == 3 {
        Ok(AsstMsg::AllTasksCompleted)
    } else if code == 10000 {
        Ok(AsstMsg::TaskChainError)
    } else if code == 10001 {
        Ok(AsstMsg::TaskChainStart)
    } else if code == 10002 {
        Ok(AsstMsg::TaskChainCompleted)
    } else if code == 10003 {
        Ok(AsstMsg::TaskChainExtraInfo)
    } else if code == 20000 {
        Ok(AsstMsg::SubTaskError)
    } else if code == 20001 {
        Ok(AsstMsg::SubTaskStart)
    } else if code == 20002 {
        Ok(AsstMsg::SubTaskCompleted)
    } else if code == 20003 {
        Ok(AsstMsg::SubTaskExtraInfo)
    } else {
        Err(())
    }
}

impl AsstMsg {
    /// Decode a raw code strictly: `Err(())` for any unknown code.
    pub fn try_from(input: i32) -> (r: Result<AsstMsg, ()>)
        ensures
            r == asst_msg_of(input as int),
    {
        if input == 0 {
            Ok(AsstMsg::InternalError)
        } else if input == 1 {
            Ok(AsstMsg::InitFailed)
        } else if input == 2 {
            Ok(AsstMsg::ConnectionInfo)
        } else if input == 3 {
            Ok(AsstMsg::AllTasksCompleted)
        } else if input == 10000 {
            Ok(AsstMsg::TaskChainError)
        } else if input == 10001 {
            Ok(AsstMsg::TaskChainStart)
        } else if input == 10002 {
            Ok(AsstMsg::TaskChainCompleted)
        } else if input == 10003 {
            Ok(AsstMsg::TaskChainExtraInfo)
        } else if input == 20000 {
            Ok(AsstMsg::SubTaskError)
        } else if input == 20001 {
            Ok(AsstMsg::SubTaskStart)
        } else if input == 20002 {
            Ok(AsstMsg::SubTaskCompleted)
        } else if input == 20003 {
            Ok(AsstMsg::SubTaskExtraInfo)
        } else {
            Err(())
        }
    }
}

} // verus!
