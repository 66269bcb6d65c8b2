use samp_sdk::amx::{RawAmx, AMX};
use samp_sdk::error::{AmxError, AmxResult};
use samp_sdk::exports::{Exports, InternalData, EXPORT_COUNT};
use samp_sdk::image::ModuleImage;
use samp_sdk::natives::{decode_args, dispatch, native_return, ArgValue, NativeReturn, ParamKind};
use samp_sdk::types::{AmxHeader, Cell};

fn machine() -> AMX {
    let header = AmxHeader {
        size: 0,
        magic: 0xF1E0,
        file_version: 8,
        amx_version: 8,
        flags: 0,
        defsize: 8,
        cod: 64,
        dat: 128,
        hea: 192,
        stp: 1152,
        cip: 0,
        publics: 64,
        natives: 64,
        libraries: 64,
        pubvars: 64,
        tags: 64,
        nametable: 64,
    };
    let raw = RawAmx { base: 0x1000, data: None, hea: 64, stk: 1024, stp: 1024, flags: 0, error: 0, paramcount: 0 };
    AMX::new(raw, ModuleImage { header, bytes: vec![0; 64] }, vec![0; 256])
}

fn player_money(args: Vec<ArgValue>) -> AmxResult<Cell> {
    match args.first() {
        Some(ArgValue::Value(7)) => Ok(500),
        Some(ArgValue::Value(_)) => Ok(0),
        _ => Err(AmxError::Params),
    }
}

#[test]
fn get_player_money_returns_host_value() {
    let amx = machine();
    let r = dispatch(&amx, &[4, 7], &[ParamKind::Value], player_money);
    assert_eq!(r, NativeReturn { cell: 500, error: None });
    let other = dispatch(&amx, &[4, 3], &[ParamKind::Value], player_money);
    assert_eq!(other.cell, 0);
}

#[test]
fn arity_mismatch_fails_before_reading() {
    let amx = machine();
    // The third argument would be a string at an address in the heap gap.
    let params = [12, 1, 0, 500];
    let kinds = [ParamKind::Value, ParamKind::Value];
    assert_eq!(decode_args(&amx, &params, &kinds), Err(AmxError::Arity));
    let r = dispatch(&amx, &params, &kinds, |_args: Vec<ArgValue>| Ok(1));
    assert_eq!(r, NativeReturn { cell: 0, error: Some(AmxError::Arity) });
    assert_eq!(decode_args(&amx, &[8, 1], &kinds), Err(AmxError::Arity));
    assert_eq!(decode_args(&amx, &[], &kinds), Err(AmxError::Arity));
    assert_eq!(decode_args(&amx, &[-8, 1, 2], &kinds), Err(AmxError::Arity));
}

#[test]
fn byte_count_must_be_whole_cells() {
    let amx = machine();
    let kinds = [ParamKind::Value];
    assert_eq!(decode_args(&amx, &[5, 7], &kinds), Err(AmxError::Arity));
    assert_eq!(decode_args(&amx, &[7, 7], &kinds), Err(AmxError::Arity));
    let r = dispatch(&amx, &[5, 7], &kinds, player_money);
    assert_eq!(r, NativeReturn { cell: 0, error: Some(AmxError::Arity) });
    assert_eq!(decode_args(&amx, &[4, 7], &kinds), Ok(vec![ArgValue::Value(7)]));
}

#[test]
fn arguments_decoded_by_kind() {
    let mut amx = machine();
    amx.write_cell(0, 0x41).unwrap();
    amx.write_cell(4, 0xC1).unwrap();
    amx.write_cell(8, 0).unwrap();
    let kinds = [ParamKind::Value, ParamKind::Reference, ParamKind::Text];
    let args = decode_args(&amx, &[12, -5, 16, 0], &kinds).unwrap();
    assert_eq!(
        args,
        vec![
            ArgValue::Value(-5),
            ArgValue::Reference { address: 16, location: 0x1000 + 128 + 16 },
            ArgValue::Text("A\u{411}".to_string()),
        ]
    );
}

#[test]
fn bad_reference_is_absorbed() {
    let amx = machine();
    let kinds = [ParamKind::Reference];
    assert_eq!(decode_args(&amx, &[4, 100], &kinds), Err(AmxError::MemoryAccess));
    let r = dispatch(&amx, &[4, 100], &kinds, |_args: Vec<ArgValue>| Ok(1));
    assert_eq!(r, NativeReturn { cell: 0, error: Some(AmxError::MemoryAccess) });
}

#[test]
fn host_failure_becomes_sentinel() {
    assert_eq!(native_return(Err(AmxError::General)), NativeReturn { cell: 0, error: Some(AmxError::General) });
    assert_eq!(native_return(Ok(-3)), NativeReturn { cell: -3, error: None });
}

#[test]
fn export_table_resolves_ordinals() {
    let table: Vec<usize> = (0..EXPORT_COUNT).map(|i| 0x100 + i).collect();
    let mut data = vec![0usize; 17];
    data[0] = 0x77;
    let internal = InternalData::new(&data, table).unwrap();
    assert_eq!(internal.logprintf(), 0x77);
    assert_eq!(internal.amx_function(Exports::Allot), 0x103);
    assert_eq!(internal.amx_function(Exports::Exec), 0x107);
    assert_eq!(internal.amx_function(Exports::Push), 0x100 + 29);
    assert_eq!(internal.amx_function(Exports::Release), 0x100 + 34);
    assert_eq!(internal.amx_function(Exports::StrLen), 0x100 + 39);
    assert_eq!(internal.amx_function(Exports::UTF8Put), 0x100 + 43);
}

#[test]
fn short_export_table_is_refused() {
    let table: Vec<usize> = vec![0; EXPORT_COUNT - 1];
    let data = vec![0usize; 17];
    assert!(matches!(InternalData::new(&data, table), Err(AmxError::Version)));
    assert!(matches!(InternalData::new(&[0usize; 3], vec![0; EXPORT_COUNT]), Err(AmxError::Version)));
}
