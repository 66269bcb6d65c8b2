//! Fault codes of the guest machine and the errors of the host side.

use vstd::prelude::*;

verus! {

/// Status code that the guest machine reports when an operation succeeded.
pub const AMX_ERR_NONE: i32 = 0;

/// Errors reported by the guest machine, and the conditions that the host side
/// detects on its own while marshalling values across the boundary.
#[derive(Debug, Clone, Copy, PartialEq, Eq, Structural)]
pub enum AmxError {
    Exit,
    Assert,
    StackError,
    Bounds,
    MemoryAccess,
    InvalidInstruction,
    StackLow,
    HeapLow,
    Callback,
    Native,
    Divide,
    Sleep,
    InvalidState,
    Memory,
    Format,
    Version,
    NotFound,
    Index,
    Debug,
    Init,
    UserData,
    InitJit,
    Params,
    Domain,
    General,
    /// A status code outside the known set, kept as it was reported.
    Unknown(i32),
    /// A byte or a character that the single-byte code page cannot represent.
    Encoding,
    /// A packed string was asked for: the host only writes unpacked strings.
    Unsupported,
    /// The argument count of a native call differs from the declared arity.
    Arity,
}

pub type AmxResult<T> = Result<T, AmxError>;

/// True for the status codes that name a known fault of the guest machine.
pub open spec fn is_known_code(code: int) -> bool {
    (1 <= code <= 13) || (16 <= code <= 27)
}

/// The fault that a non-zero status code stands for.
pub open spec fn fault_of(code: i32) -> AmxError {
    match code {
        1 => AmxError::Exit,
        2 => AmxError::Assert,
        3 => AmxError::StackError,
        4 => AmxError::Bounds,
        5 => AmxError::MemoryAccess,
        6 => AmxError::InvalidInstruction,
        7 => AmxError::StackLow,
        8 => AmxError::HeapLow,
        9 => AmxError::Callback,
        10 => AmxError::Native,
        11 => AmxError::Divide,
        12 => AmxError::Sleep,
        13 => AmxError::InvalidState,
        16 => AmxError::Memory,
        17 => AmxError::Format,
        18 => AmxError::Version,
        19 => AmxError::NotFound,
        20 => AmxError::Index,
        21 => AmxError::Debug,
        22 => AmxError::Init,
        23 => AmxError::UserData,
        24 => AmxError::InitJit,
        25 => AmxError::Params,
        26 => AmxError::Domain,
        27 => AmxError::General,
        _ => AmxError::Unknown(code),
    }
}

/// The status code that the guest machine uses for a fault, if it has one.
pub open spec fn code_of(e: AmxError) -> Option<i32> {
    match e {
        AmxError::Exit => Some(1i32),
        AmxError::Assert => Some(2i32),
        AmxError::StackError => Some(3i32),
        AmxError::Bounds => Some(4i32),
        AmxError::MemoryAccess => Some(5i32),
        AmxError::InvalidInstruction => Some(6i32),
        AmxError::StackLow => Some(7i32),
        AmxError::HeapLow => Some(8i32),
        AmxError::Callback => Some(9i32),
        AmxError::Native => Some(10i32),
        AmxError::Divide => Some(11i32),
        AmxError::Sleep => Some(12i32),
        AmxError::InvalidState => Some(13i32),
        AmxError::Memory => Some(16i32),
        AmxError::Format => Some(17i32),
        AmxError::Version => Some(18i32),
        AmxError::NotFound => Some(19i32),
        AmxError::Index => Some(20i32),
        AmxError::Debug => Some(21i32),
        AmxError::Init => Some(22i32),
        AmxError::UserData => Some(23i32),
        AmxError::InitJit => Some(24i32),
        AmxError::Params => Some(25i32),
        AmxError::Domain => Some(26i32),
        AmxError::General => Some(27i32),
        AmxError::Unknown(c) => Some(c),
        AmxError::Encoding => None,
        AmxError::Unsupported => None,
        AmxError::Arity => None,
    }
}

/// The outcome of a guest operation that reported `status` and, on success,
/// produced `value`.
pub open spec fn status_result<T>(status: i32, value: T) -> AmxResult<T> {
    if status == AMX_ERR_NONE {
        Ok(value)
    } else {
        Err(fault_of(status))
    }
}

impl AmxError {
    /// The status code of this fault as the guest machine knows it; `None` for
    /// the conditions that only the host side detects.
    pub fn code(&self) -> (r: Option<i32>)
        ensures
            r == code_of(*self),
    {
        match *self {
            AmxError::Exit => Some(1),
            AmxError::Assert => Some(2),
            AmxError::StackError => Some(3),
            AmxError::Bounds => Some(4),
            AmxError::MemoryAccess => Some(5),
            AmxError::InvalidInstruction => Some(6),
            AmxError::StackLow => Some(7),
            AmxError::HeapLow => Some(8),
            AmxError::Callback => Some(9),
            AmxError::Native => Some(10),
            AmxError::Divide => Some(11),
            AmxError::Sleep => Some(12),
            AmxError::InvalidState => Some(13),
            AmxError::Memory => Some(16),
            AmxError::Format => Some(17),
            AmxError::Version => Some(18),
            AmxError::NotFound => Some(19),
            AmxError::Index => Some(20),
            AmxError::Debug => Some(21),
            AmxError::Init => Some(22),
            AmxError::UserData => Some(23),
            AmxError::InitJit => Some(24),
            AmxError::Params => Some(25),
            AmxError::Domain => Some(26),
            AmxError::General => Some(27),
            AmxError::Unknown(c) => Some(c),
            AmxError::Encoding => None,
            AmxError::Unsupported => None,
            AmxError::Arity => None,
        }
    }
}

impl From<i32> for AmxError {
    /// Maps a status code to its fault; a code outside the known set is kept
    /// in `Unknown`.
    fn from(val: i32) -> (r: AmxError) {
        match val {
            1 => AmxError::Exit,
            2 => AmxError::Assert,
            3 => AmxError::StackError,
            4 => AmxError::Bounds,
            5 => AmxError::MemoryAccess,
            6 => AmxError::InvalidInstruction,
            7 => AmxError::StackLow,
            8 => AmxError::HeapLow,
            9 => AmxError::Callback,
            10 => AmxError::Native,
            11 => AmxError::Divide,
            12 => AmxError::Sleep,
            13 => AmxError::InvalidState,
            16 => AmxError::Memory,
            17 => AmxError::Format,
            18 => AmxError::Version,
            19 => AmxError::NotFound,
            20 => AmxError::Index,
            21 => AmxError::Debug,
            22 => AmxError::Init,
            23 => AmxError::UserData,
            24 => AmxError::InitJit,
            25 => AmxError::Params,
            26 => AmxError::Domain,
            27 => AmxError::General,
            _ => AmxError::Unknown(val),
        }
    }
}

impl vstd::std_specs::convert::FromSpecImpl<i32> for AmxError {
    open spec fn obeys_from_spec() -> bool {
        true
    }

    open spec fn from_spec(v: i32) -> AmxError {
        fault_of(v)
    }
}

/// Maps the status code of a guest operation to its outcome: `Ok(value)` for a
/// zero status, else the fault that the code stands for.
pub fn check_status<T>(status: i32, value: T) -> (r: AmxResult<T>)
    ensures
        r == status_result(status, value),
{
    if status == AMX_ERR_NONE {
        Ok(value)
    } else {
        Err(AmxError::from(status))
    }
}

/// Every status code maps to a fault whose code is that status; a code
/// outside the known set maps to `Unknown` carrying the code itself.
pub proof fn lemma_fault_code_round_trip(code: i32)
    ensures
        !is_known_code(code as int) ==> fault_of(code) == AmxError::Unknown(code),
        code_of(fault_of(code)) == Some(code),
{
}

/// Every fault with a guest status code is what that code maps back to.
pub proof fn lemma_code_fault_round_trip(e: AmxError)
    requires
        code_of(e) is Some,
        !(e is Unknown),
    ensures
        fault_of(code_of(e)->0) == e,
{
}

} // verus!
