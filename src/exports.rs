//! The table of entry points that the host environment hands to the plugin
//! when it is loaded, indexed by fixed ordinals.

use vstd::prelude::*;

use crate::error::{AmxError, AmxResult};

verus! {

/// Index of the logging function in the data the host hands over on load.
pub const PLUGIN_DATA_LOGPRINTF: usize = 0;

/// Index of the export table in the data the host hands over on load.
pub const PLUGIN_DATA_AMX_EXPORTS: usize = 16;

/// Number of entries of the export table in the supported version.
pub const EXPORT_COUNT: usize = 44;

/// The entry points of the export table.
#[derive(Debug, Clone, Copy, PartialEq, Eq, Structural)]
pub enum Exports {
    Align16,
    Align32,
    Align64,
    Allot,
    Callback,
    Cleanup,
    Clone,
    Exec,
    FindNative,
    FindPublic,
    FindPubVar,
    FindTagId,
    Flags,
    GetAddr,
    GetNative,
    GetPublic,
    GetPubVar,
    GetString,
    GetTag,
    GetUserData,
    Init,
    InitJIT,
    MemInfo,
    NameLength,
    NativeInfo,
    NumNatives,
    NumPublics,
    NumPubVars,
    NumTags,
    Push,
    PushArray,
    PushString,
    RaiseError,
    Register,
    Release,
    SetCallback,
    SetDebugHook,
    SetString,
    SetUserData,
    StrLen,
    UTF8Check,
    UTF8Get,
    UTF8Len,
    UTF8Put,
}

/// The position of an entry point in the export table.
pub open spec fn ordinal_of(e: Exports) -> int {
    match e {
        Exports::Align16 => 0,
        Exports::Align32 => 1,
        Exports::Align64 => 2,
        Exports::Allot => 3,
        Exports::Callback => 4,
        Exports::Cleanup => 5,
        Exports::Clone => 6,
        Exports::Exec => 7,
        Exports::FindNative => 8,
        Exports::FindPublic => 9,
        Exports::FindPubVar => 10,
        Exports::FindTagId => 11,
        Exports::Flags => 12,
        Exports::GetAddr => 13,
        Exports::GetNative => 14,
        Exports::GetPublic => 15,
        Exports::GetPubVar => 16,
        Exports::GetString => 17,
        Exports::GetTag => 18,
        Exports::GetUserData => 19,
        Exports::Init => 20,
        Exports::InitJIT => 21,
        Exports::MemInfo => 22,
        Exports::NameLength => 23,
        Exports::NativeInfo => 24,
        Exports::NumNatives => 25,
        Exports::NumPublics => 26,
        Exports::NumPubVars => 27,
        Exports::NumTags => 28,
        Exports::Push => 29,
        Exports::PushArray => 30,
        Exports::PushString => 31,
        Exports::RaiseError => 32,
        Exports::Register => 33,
        Exports::Release => 34,
        Exports::SetCallback => 35,
        Exports::SetDebugHook => 36,
        Exports::SetString => 37,
        Exports::SetUserData => 38,
        Exports::StrLen => 39,
        Exports::UTF8Check => 40,
        Exports::UTF8Get => 41,
        Exports::UTF8Len => 42,
        Exports::UTF8Put => 43,
    }
}

impl Exports {
    /// The position of this entry point in the export table.
    pub fn ordinal(&self) -> (r: usize)
        ensures
            r == ordinal_of(*self),
            r < EXPORT_COUNT,
    {
        match self {
            Exports::Align16 => 0,
            Exports::Align32 => 1,
            Exports::Align64 => 2,
            Exports::Allot => 3,
            Exports::Callback => 4,
            Exports::Cleanup => 5,
            Exports::Clone => 6,
            Exports::Exec => 7,
            Exports::FindNative => 8,
            Exports::FindPublic => 9,
            Exports::FindPubVar => 10,
            Exports::FindTagId => 11,
            Exports::Flags => 12,
            Exports::GetAddr => 13,
            Exports::GetNative => 14,
            Exports::GetPublic => 15,
            Exports::GetPubVar => 16,
            Exports::GetString => 17,
            Exports::GetTag => 18,
            Exports::GetUserData => 19,
            Exports::Init => 20,
            Exports::InitJIT => 21,
            Exports::MemInfo => 22,
            Exports::NameLength => 23,
            Exports::NativeInfo => 24,
            Exports::NumNatives => 25,
            Exports::NumPublics => 26,
            Exports::NumPubVars => 27,
            Exports::NumTags => 28,
            Exports::Push => 29,
            Exports::PushArray => 30,
            Exports::PushString => 31,
            Exports::RaiseError => 32,
            Exports::Register => 33,
            Exports::Release => 34,
            Exports::SetCallback => 35,
            Exports::SetDebugHook => 36,
            Exports::SetString => 37,
            Exports::SetUserData => 38,
            Exports::StrLen => 39,
            Exports::UTF8Check => 40,
            Exports::UTF8Get => 41,
            Exports::UTF8Len => 42,
            Exports::UTF8Put => 43,
        }
    }
}

/// What the plugin keeps from the data handed over on load: the logging
/// function and the export table, each entry a host address.
pub struct InternalData {
    logprintf: usize,
    amx_functions: Vec<usize>,
}

impl InternalData {
    /// The table holds an entry for every ordinal of the supported version.
    #[verifier::type_invariant]
    pub closed spec fn complete(&self) -> bool {
        self.amx_functions@.len() >= EXPORT_COUNT
    }

    /// The logging function.
    pub closed spec fn logprintf_spec(&self) -> usize {
        self.logprintf
    }

    /// The entries of the export table.
    pub closed spec fn exports(&self) -> Seq<usize> {
        self.amx_functions@
    }

    /// Takes the logging function and the export table from the data handed
    /// over on load; fails with `Version` when the data, or the export table,
    /// is too short for the supported version.
    pub fn new(data: &[usize], amx_functions: Vec<usize>) -> (r: AmxResult<InternalData>)
        ensures
            data@.len() > PLUGIN_DATA_AMX_EXPORTS && amx_functions@.len() >= EXPORT_COUNT ==> (r matches Ok(d)
                && d.logprintf_spec() == data@[PLUGIN_DATA_LOGPRINTF as int] && d.exports()
                == amx_functions@),
            !(data@.len() > PLUGIN_DATA_AMX_EXPORTS && amx_functions@.len() >= EXPORT_COUNT) ==> r
                is Err && r->Err_0 == AmxError::Version,
    {
        if data.len() <= PLUGIN_DATA_AMX_EXPORTS || amx_functions.len() < EXPORT_COUNT {
            return Err(AmxError::Version);
        }
        Ok(InternalData { logprintf: data[PLUGIN_DATA_LOGPRINTF], amx_functions })
    }

    /// The host address of the logging function.
    pub fn logprintf(&self) -> (r: usize)
        ensures
            r == self.logprintf_spec(),
    {
        self.logprintf
    }

    /// The host address of an entry point of the export table.
    pub fn amx_function(&self, export: Exports) -> (r: usize)
        ensures
            r == self.exports()[ordinal_of(export)],
    {
        proof {
            use_type_invariant(self);
        }
        self.amx_functions[export.ordinal()]
    }
}

} // verus!
