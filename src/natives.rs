//! Calls from the guest into host functions: the arguments a native receives
//! are decoded by their declared kinds, the host function runs, and its
//! result, or the sentinel 0 on any failure, goes back as one cell.

use vstd::prelude::*;

use crate::amx::AMX;
use crate::cells::string_of;
use crate::cp1251::{decodable, decoded};
use crate::error::{AmxError, AmxResult};
use crate::types::Cell;

verus! {

/// How a declared parameter of a native is passed.
#[derive(Debug, Clone, Copy, PartialEq, Eq, Structural)]
pub enum ParamKind {
    /// The cell itself: an integer, a float's bits, or a boolean.
    Value,
    /// The cell is the guest address of a variable.
    Reference,
    /// The cell is the guest address of a string.
    Text,
}

/// A decoded argument.
#[derive(Debug, Clone, PartialEq, Eq)]
pub enum ArgValue {
    Value(Cell),
    /// A guest address and where it lies in host memory; valid for the call
    /// only.
    Reference { address: Cell, location: usize },
    Text(String),
}

/// A decoded argument with its text as characters.
pub enum ArgView {
    Value(Cell),
    Reference { address: Cell, location: usize },
    Text(Seq<char>),
}

/// The mathematical value of an argument.
pub open spec fn arg_view(a: ArgValue) -> ArgView {
    match a {
        ArgValue::Value(c) => ArgView::Value(c),
        ArgValue::Reference { address, location } => ArgView::Reference { address, location },
        ArgValue::Text(s) => ArgView::Text(s@),
    }
}

/// What the cell of a parameter of the given kind decodes to.
pub open spec fn decoded_arg(s: AMX, kind: ParamKind, c: Cell) -> AmxResult<ArgView> {
    match kind {
        ParamKind::Value => Ok(ArgView::Value(c)),
        ParamKind::Reference => match s.resolved(c) {
            Ok(location) => Ok(ArgView::Reference { address: c, location }),
            Err(e) => Err(e),
        },
        ParamKind::Text => if !s.cell_ok(c as int) {
            Err(AmxError::MemoryAccess)
        } else {
            let bytes = string_of(s.cells_from(c as int), usize::MAX as int);
            if decodable(bytes) {
                Ok(ArgView::Text(decoded(bytes)))
            } else {
                Err(AmxError::Encoding)
            }
        },
    }
}

/// The call's cells match the declared parameters: the first cell holds the
/// argument size in bytes, exactly one cell per parameter, and that many cells
/// follow.
pub open spec fn arity_ok(params: Seq<Cell>, n: int) -> bool {
    params.len() > 0 && params[0] == 4 * n && params.len() >= n + 1
}

/// Every argument before `j` decodes.
pub open spec fn decodes_before(s: AMX, params: Seq<Cell>, kinds: Seq<ParamKind>, j: int) -> bool {
    forall|k: int| 0 <= k < j ==> (#[trigger] decoded_arg(s, kinds[k], params[k + 1])) is Ok
}

/// The outcome of decoding the arguments of a call: `Arity` when the cells do
/// not match the declaration, before any argument is read; else the error of
/// the first argument that does not decode; else every argument decoded.
pub open spec fn decode_args_result(
    s: AMX,
    params: Seq<Cell>,
    kinds: Seq<ParamKind>,
    r: AmxResult<Vec<ArgValue>>,
) -> bool {
    let n = kinds.len() as int;
    if !arity_ok(params, n) {
        r == Err::<Vec<ArgValue>, AmxError>(AmxError::Arity)
    } else {
        match r {
            Ok(v) => v@.len() == n && forall|i: int|
                0 <= i < n ==> decoded_arg(s, kinds[i], params[i + 1]) == Ok::<ArgView, AmxError>(
                    arg_view(#[trigger] v@[i]),
                ),
            Err(e) => exists|j: int|
                0 <= j < n && decodes_before(s, params, kinds, j) && decoded_arg(
                    s,
                    kinds[j],
                    params[j + 1],
                ) == Err::<ArgView, AmxError>(e),
        }
    }
}

/// Decodes the cell of one parameter.
pub fn decode_arg(amx: &AMX, kind: ParamKind, c: Cell) -> (r: AmxResult<ArgValue>)
    ensures
        match r {
            Ok(a) => decoded_arg(*amx, kind, c) == Ok::<ArgView, AmxError>(arg_view(a)),
            Err(e) => decoded_arg(*amx, kind, c) == Err::<ArgView, AmxError>(e),
        },
{
    match kind {
        ParamKind::Value => Ok(ArgValue::Value(c)),
        ParamKind::Reference => {
            let location = amx.get_address(c)?;
            Ok(ArgValue::Reference { address: c, location })
        },
        ParamKind::Text => {
            let s = amx.get_string(c)?;
            Ok(ArgValue::Text(s))
        },
    }
}

/// Decodes the arguments of a native call: `params[0]` holds the size of the
/// arguments in bytes, the arguments follow in declared order. The arity is
/// checked before any argument is read.
pub fn decode_args(amx: &AMX, params: &[Cell], kinds: &[ParamKind]) -> (r: AmxResult<Vec<ArgValue>>)
    ensures
        decode_args_result(*amx, params@, kinds@, r),
{
    let n = kinds.len();
    if params.len() == 0 || n > (i32::MAX / 4) as usize || params[0] != 4 * (n as i32)
        || params.len() - 1 < n {
        return Err(AmxError::Arity);
    }
    let mut out: Vec<ArgValue> = Vec::new();
    let mut i: usize = 0;
    while i < n
        invariant
            n == kinds@.len(),
            arity_ok(params@, n as int),
            i <= n,
            out@.len() == i,
            forall|k: int|
                0 <= k < i ==> decoded_arg(*amx, kinds@[k], params@[k + 1]) == Ok::<
                    ArgView,
                    AmxError,
                >(arg_view(#[trigger] out@[k])),
        decreases n - i,
    {
        match decode_arg(amx, kinds[i], params[i + 1]) {
            Ok(a) => {
                let ghost before = out@;
                out.push(a);
                assert forall|k: int| 0 <= k < i + 1 implies decoded_arg(
                    *amx,
                    kinds@[k],
                    params@[k + 1],
                ) == Ok::<ArgView, AmxError>(arg_view(#[trigger] out@[k])) by {
                    if k < i {
                        assert(out@[k] == before[k]);
                    }
                }
            },
            Err(e) => {
                assert forall|k: int| 0 <= k < i implies (#[trigger] decoded_arg(
                    *amx,
                    kinds@[k],
                    params@[k + 1],
                )) is Ok by {
                    assert(decoded_arg(*amx, kinds@[k], params@[k + 1]) == Ok::<ArgView, AmxError>(
                        arg_view(out@[k]),
                    ));
                }
                assert(decodes_before(*amx, params@, kinds@, i as int));
                assert(decoded_arg(*amx, kinds@[i as int], params@[i + 1]) == Err::<ArgView, AmxError>(e));
                return Err(e);
            },
        }
        i = i + 1;
    }
    Ok(out)
}

/// What a native hands back to the guest: one cell, and the error that was
/// absorbed on the way, if any, for the log.
#[derive(Debug, Clone, Copy, PartialEq, Eq, Structural)]
pub struct NativeReturn {
    pub cell: Cell,
    pub error: Option<AmxError>,
}

/// The return of a native whose host function gave `result`: its value, or 0
/// and the error.
pub open spec fn native_return_of(result: AmxResult<Cell>) -> NativeReturn {
    match result {
        Ok(v) => NativeReturn { cell: v, error: None },
        Err(e) => NativeReturn { cell: 0, error: Some(e) },
    }
}

/// Turns the result of a host function into what the guest receives: the
/// value itself, or the sentinel 0 with the error kept for the log.
pub fn native_return(result: AmxResult<Cell>) -> (r: NativeReturn)
    ensures
        r == native_return_of(result),
{
    match result {
        Ok(v) => NativeReturn { cell: v, error: None },
        Err(e) => NativeReturn { cell: 0, error: Some(e) },
    }
}

/// Runs a host function as a native: decodes the call's arguments by the
/// declared kinds, calls `method` with them, and returns its value as the
/// cell for the guest. Every failure, in decoding or in `method`, is absorbed:
/// the guest receives 0.
pub fn dispatch<F>(amx: &AMX, params: &[Cell], kinds: &[ParamKind], method: F) -> (r: NativeReturn) where
    F: Fn(Vec<ArgValue>) -> AmxResult<Cell>,

    requires
        forall|args: Vec<ArgValue>| method.requires((args,)),
    ensures
        !arity_ok(params@, kinds@.len() as int) ==> r == native_return_of(Err(AmxError::Arity)),
        exists|d: AmxResult<Vec<ArgValue>>|
            decode_args_result(*amx, params@, kinds@, d) && match d {
                Err(e) => r == native_return_of(Err(e)),
                Ok(args) => exists|hr: AmxResult<Cell>|
                    method.ensures((args,), hr) && r == native_return_of(hr),
            },
{
    let decoded = decode_args(amx, params, kinds);
    match decoded {
        Err(e) => native_return(Err(e)),
        Ok(args) => {
            let ghost a = args;
            let hr = method(args);
            assert(method.ensures((a,), hr));
            native_return(hr)
        },
    }
}

} // verus!
