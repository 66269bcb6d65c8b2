use samp_sdk::amx::{ExecOutcome, PushArg, RawAmx, AMX};
use samp_sdk::cells::{decode_bytes, encode_packed, encode_unpacked, string_length};
use samp_sdk::cp1251::{decode, decode_byte, encode, encode_char};
use samp_sdk::error::{check_status, AmxError};
use samp_sdk::image::{ModuleImage, Table};
use samp_sdk::types::{AmxHeader, AmxNativeInfo, Cell};

fn header(defsize: i16) -> AmxHeader {
    AmxHeader {
        size: 0,
        magic: 0xF1E0,
        file_version: 8,
        amx_version: 8,
        flags: 0,
        defsize,
        cod: 64,
        dat: 128,
        hea: 192,
        stp: 1152,
        cip: 0,
        publics: 0,
        natives: 0,
        libraries: 0,
        pubvars: 0,
        tags: 0,
        nametable: 0,
    }
}

fn le(v: u32) -> [u8; 4] {
    v.to_le_bytes()
}

/// A module image in the long form: records of an address and a name offset.
fn long_form(publics: &[(u32, &str)], natives: &[(u32, &str)], pubvars: &[(u32, &str)]) -> ModuleImage {
    let mut h = header(8);
    let start = 64usize;
    h.publics = start;
    h.natives = h.publics + 8 * publics.len();
    h.libraries = h.natives + 8 * natives.len();
    h.pubvars = h.libraries;
    h.tags = h.pubvars + 8 * pubvars.len();
    h.nametable = h.tags;
    let mut bytes = vec![0u8; h.nametable];
    let mut names: Vec<u8> = Vec::new();
    let mut at = h.publics;
    for (address, name) in publics.iter().chain(natives.iter()).chain(pubvars.iter()) {
        let ofs = (h.nametable + names.len()) as u32;
        bytes[at..at + 4].copy_from_slice(&le(*address));
        bytes[at + 4..at + 8].copy_from_slice(&le(ofs));
        names.extend_from_slice(name.as_bytes());
        names.push(0);
        at += 8;
    }
    bytes.extend_from_slice(&names);
    ModuleImage { header: h, bytes }
}

/// A module image in the short form: records of an address and an inline name.
fn short_form(publics: &[(u32, &str)]) -> ModuleImage {
    let mut h = header(24);
    h.publics = 64;
    h.natives = 64 + 24 * publics.len();
    h.libraries = h.natives;
    h.pubvars = h.natives;
    h.tags = h.natives;
    h.nametable = h.natives;
    let mut bytes = vec![0u8; h.natives];
    for (i, (address, name)) in publics.iter().enumerate() {
        let at = 64 + 24 * i;
        bytes[at..at + 4].copy_from_slice(&le(*address));
        bytes[at + 4..at + 4 + name.len()].copy_from_slice(name.as_bytes());
    }
    ModuleImage { header: h, bytes }
}

fn raw(hea: Cell, stk: Cell, stp: Cell) -> RawAmx {
    RawAmx { base: 0x1000, data: None, hea, stk, stp, flags: 0, error: 0, paramcount: 0 }
}

/// A machine with 256 cells: data below 64, heap from 64, stack at the top.
fn machine() -> AMX {
    AMX::new(raw(64, 1024, 1024), long_form(&[(16, "OnInit"), (32, "OnTick")], &[(0, "GetPlayerMoney"), (0, "SetPlayerName")], &[(8, "version")]), vec![0; 256])
}

#[test]
fn resolve_rejects_gap_negative_and_top() {
    let amx = AMX::new(raw(100, 200, 400), long_form(&[], &[], &[]), vec![0; 100]);
    assert_eq!(amx.get_address(150), Err(AmxError::MemoryAccess));
    assert_eq!(amx.get_address(100), Err(AmxError::MemoryAccess));
    assert_eq!(amx.get_address(-4), Err(AmxError::MemoryAccess));
    assert_eq!(amx.get_address(400), Err(AmxError::MemoryAccess));
    assert_eq!(amx.get_address(401), Err(AmxError::MemoryAccess));
}

#[test]
fn resolve_accepts_last_address_below_top() {
    let amx = AMX::new(raw(100, 200, 400), long_form(&[], &[], &[]), vec![0; 100]);
    assert_eq!(amx.get_address(399), Ok(0x1000 + 128 + 399));
    assert_eq!(amx.get_address(200), Ok(0x1000 + 128 + 200));
    assert_eq!(amx.get_address(99), Ok(0x1000 + 128 + 99));
    assert_eq!(amx.get_address(0), Ok(0x1000 + 128));
}

#[test]
fn resolve_uses_separate_data_section() {
    let mut r = raw(100, 200, 400);
    r.data = Some(0x8000);
    let amx = AMX::new(r, long_form(&[], &[], &[]), vec![0; 100]);
    assert_eq!(amx.data_section(), 0x8000);
    assert_eq!(amx.get_address(8), Ok(0x8008));
}

#[test]
fn code_page_round_trip() {
    let bytes: Vec<u8> = vec![0x48, 0x69, 0x20, 0xC0, 0xFF, 0xA8, 0xB9, 0x80, 0x88];
    let text = decode(&bytes).unwrap();
    assert_eq!(text, "Hi \u{410}\u{44F}\u{401}\u{2116}\u{402}\u{20AC}");
    let mut expected = bytes.clone();
    expected.push(0);
    assert_eq!(encode_unpacked(&text), Ok(expected));
}

#[test]
fn code_page_rejects_unassigned_byte() {
    assert_eq!(decode(&[0x41, 0x98]), Err(AmxError::Encoding));
    assert_eq!(decode_byte(0x98), None);
}

#[test]
fn code_page_rejects_unmapped_char() {
    assert_eq!(encode("a\u{3042}"), Err(AmxError::Encoding));
    assert_eq!(encode_unpacked("\u{10FFFF}"), Err(AmxError::Encoding));
    assert_eq!(encode_char('\u{451}'), Some(0xB8));
    assert_eq!(encode_char('z'), Some(b'z'));
}

#[test]
fn packed_encoding_is_unsupported() {
    assert_eq!(encode_packed("abc"), Err(AmxError::Unsupported));
}

#[test]
fn packed_cells_decode_most_significant_first() {
    assert_eq!(decode_bytes(&[0x68656C6C], 4), b"hell".to_vec());
    assert_eq!(decode_bytes(&[0x68656C6C, 0x6F000000], 100), b"hello".to_vec());
    assert_eq!(string_length(&[0x68656C6C, 0x6F000000]), 5);
}

#[test]
fn unpacked_cells_decode_one_per_cell() {
    assert_eq!(decode_bytes(&[0x68, 0x65, 0x6C, 0x6C, 0x00], 100), b"hell".to_vec());
    assert_eq!(decode_bytes(&[0x68, 0x65, 0x6C, 0x6C, 0x00], 2), b"he".to_vec());
    assert_eq!(string_length(&[0x68, 0x65, 0x6C, 0x6C, 0x00]), 4);
    assert_eq!(decode_bytes(&[], 10), Vec::<u8>::new());
}

#[test]
fn first_cell_at_threshold_is_unpacked() {
    assert_eq!(decode_bytes(&[0x00FF_FFFF, 0x41, 0], 10), vec![0xFF, 0x41]);
    assert_eq!(decode_bytes(&[0x0100_0041, 0], 10), vec![0x01]);
}

#[test]
fn strings_read_from_guest_memory() {
    let mut amx = machine();
    for (i, c) in [0x48, 0xC0, 0x21, 0].iter().enumerate() {
        amx.write_cell(4 * i as Cell, *c).unwrap();
    }
    amx.write_cell(16, 0x68656C6C).unwrap();
    amx.write_cell(20, 0).unwrap();
    assert_eq!(amx.string_len(0), Ok(3));
    assert_eq!(amx.get_cstring(0), Ok(vec![0x48, 0xC0, 0x21]));
    assert_eq!(amx.get_string(0), Ok("H\u{410}!".to_string()));
    assert_eq!(amx.get_cstring_of_length(0, 2), Ok(vec![0x48, 0xC0]));
    assert_eq!(amx.get_string(16), Ok("hell".to_string()));
    assert_eq!(amx.get_string(2), Err(AmxError::MemoryAccess));
    assert_eq!(amx.get_string(500), Err(AmxError::MemoryAccess));
}

#[test]
fn string_written_within_size() {
    let mut amx = machine();
    amx.set_cstr_of_size(b"abcdef", 8, 3).unwrap();
    assert_eq!(amx.read_cell(8), Ok(0x61));
    assert_eq!(amx.read_cell(16), Ok(0x63));
    assert_eq!(amx.read_cell(20), Ok(0));
    assert_eq!(amx.get_string(8), Ok("abc".to_string()));
    assert_eq!(amx.set_cstr_of_size(b"abc", 3, 10), Err(AmxError::MemoryAccess));
}

#[test]
fn fault_codes_map_to_faults() {
    assert_eq!(AmxError::from(4), AmxError::Bounds);
    assert_eq!(AmxError::from(8), AmxError::HeapLow);
    assert_eq!(AmxError::from(25), AmxError::Params);
    assert_eq!(AmxError::from(1), AmxError::Exit);
    assert_eq!(AmxError::from(27), AmxError::General);
    for code in [0, 14, 15, 28, -1, 1000, i32::MIN] {
        assert_eq!(AmxError::from(code), AmxError::Unknown(code));
    }
    assert_eq!(AmxError::Bounds.code(), Some(4));
    assert_eq!(AmxError::Unknown(99).code(), Some(99));
    assert_eq!(AmxError::Arity.code(), None);
}

#[test]
fn status_maps_to_result() {
    assert_eq!(check_status(0, 7), Ok(7));
    assert_eq!(check_status(19, 7), Err(AmxError::NotFound));
}

#[test]
fn push_exec_release_restores_heap() {
    let mut amx = machine();
    let hea = amx.amx.hea;
    let stk = amx.amx.stk;
    let addr = amx.push_array(&[1, 2, 3, 4, 5]).unwrap();
    assert_eq!(addr, hea);
    assert_eq!(amx.amx.hea, hea + 20);
    assert_eq!(amx.amx.stk, stk - 4);
    assert_eq!(amx.read_cell(addr + 8), Ok(3));
    assert_eq!(amx.read_cell(amx.amx.stk), Ok(addr));
    let index = amx.find_public("OnTick").unwrap();
    assert_eq!(amx.exec(index, ExecOutcome { status: 0, retval: 9 }), Ok(9));
    assert_eq!(amx.amx.stk, stk);
    assert_eq!(amx.amx.paramcount, 0);
    amx.release(addr).unwrap();
    assert_eq!(amx.amx.hea, hea);
}

#[test]
fn call_releases_heap_on_every_path() {
    let mut amx = machine();
    let hea = amx.amx.hea;
    let args = vec![PushArg::Value(7), PushArg::Array(vec![1, 2, 3, 4, 5]), PushArg::Text("hi".to_string())];
    assert_eq!(amx.call(0, &args, ExecOutcome { status: 0, retval: 500 }), Ok(500));
    assert_eq!(amx.amx.hea, hea);
    assert_eq!(amx.amx.stk, 1024);
    assert_eq!(amx.call(1, &args, ExecOutcome { status: 4, retval: 0 }), Err(AmxError::Bounds));
    assert_eq!(amx.amx.hea, hea);
    let bad = vec![PushArg::Array(vec![1, 2]), PushArg::Text("\u{3042}".to_string())];
    assert_eq!(amx.call(0, &bad, ExecOutcome { status: 0, retval: 1 }), Err(AmxError::Encoding));
    assert_eq!(amx.amx.hea, hea);
    assert_eq!(amx.call(9, &args, ExecOutcome { status: 0, retval: 1 }), Err(AmxError::Index));
    assert_eq!(amx.amx.hea, hea);
}

#[test]
fn push_string_writes_unpacked_cells() {
    let mut amx = machine();
    let addr = amx.push_string("h\u{410}", false).unwrap();
    assert_eq!(amx.read_cell(addr), Ok(0x68));
    assert_eq!(amx.read_cell(addr + 4), Ok(0xC0));
    assert_eq!(amx.read_cell(addr + 8), Ok(0));
    assert_eq!(amx.get_string(addr), Ok("h\u{410}".to_string()));
    assert_eq!(amx.push_string("h", true), Err(AmxError::Unsupported));
}

#[test]
fn allot_refuses_to_reach_stack() {
    let mut amx = AMX::new(raw(64, 200, 200), long_form(&[], &[], &[]), vec![0; 50]);
    assert_eq!(amx.allot(19), Err(AmxError::Memory));
    assert_eq!(amx.amx.hea, 64);
    let (addr, phys) = amx.allot(18).unwrap();
    assert_eq!(addr, 64);
    assert_eq!(phys, 0x1000 + 128 + 64);
    assert_eq!(amx.amx.hea, 136);
    assert_eq!(amx.allot(1), Err(AmxError::Memory));
}

#[test]
fn push_refuses_without_margin() {
    let mut amx = AMX::new(raw(64, 120, 200), long_form(&[], &[], &[]), vec![0; 50]);
    assert_eq!(amx.push(1), Err(AmxError::StackError));
    assert_eq!(amx.amx.stk, 120);
    let mut amx = AMX::new(raw(64, 200, 200), long_form(&[], &[], &[]), vec![0; 10]);
    assert_eq!(amx.push(1), Err(AmxError::MemoryAccess));
}

#[test]
fn exec_rejects_unknown_index() {
    let mut amx = machine();
    assert_eq!(amx.exec(2, ExecOutcome { status: 0, retval: 0 }), Err(AmxError::Index));
    assert_eq!(amx.exec(-2, ExecOutcome { status: 0, retval: 0 }), Err(AmxError::Index));
    assert_eq!(amx.exec(-1, ExecOutcome { status: 99, retval: 0 }), Err(AmxError::Unknown(99)));
}

#[test]
fn natives_run_by_index_from_their_table() {
    let mut amx = machine();
    let index = amx.find_native("SetPlayerName").unwrap();
    amx.push(7).unwrap();
    assert_eq!(amx.exec_native(index, ExecOutcome { status: 0, retval: 1 }), Ok(1));
    assert_eq!(amx.amx.stk, 1024);
    assert_eq!(amx.amx.paramcount, 0);
    assert_eq!(amx.exec_native(0, ExecOutcome { status: 10, retval: 0 }), Err(AmxError::Native));
    assert_eq!(amx.exec_native(2, ExecOutcome { status: 0, retval: 0 }), Err(AmxError::Index));
    assert_eq!(amx.exec_native(-1, ExecOutcome { status: 0, retval: 0 }), Err(AmxError::Index));
}

#[test]
fn publics_found_by_exact_name() {
    let amx = machine();
    assert_eq!(amx.find_public("OnInit"), Ok(0));
    assert_eq!(amx.find_public("OnTick"), Ok(1));
    assert_eq!(amx.find_public("OnTic"), Err(AmxError::NotFound));
    assert_eq!(amx.find_native("SetPlayerName"), Ok(1));
    assert_eq!(amx.get_public(1), Ok(b"OnTick".to_vec()));
    assert_eq!(amx.get_native(0), Ok(b"GetPlayerMoney".to_vec()));
    assert_eq!(amx.get_public(2), Err(AmxError::Index));
    assert_eq!(amx.num_natives(), Ok(2));
}

#[test]
fn short_form_names_are_inline() {
    let amx = AMX::new(raw(64, 1024, 1024), short_form(&[(4, "main"), (12, "OnPlayerConnect")]), vec![0; 256]);
    assert_eq!(amx.get_public(1), Ok(b"OnPlayerConnect".to_vec()));
    assert_eq!(amx.find_public("main"), Ok(0));
    assert_eq!(amx.module.entry(Table::Publics, 1), Ok((12, b"OnPlayerConnect".to_vec())));
}

#[test]
fn pubvar_resolves_to_host_location() {
    let amx = machine();
    assert_eq!(amx.find_pubvar("version"), Ok(0x1000 + 128 + 8));
    assert_eq!(amx.find_pubvar("missing"), Err(AmxError::NotFound));
}

#[test]
fn register_binds_natives_by_name() {
    let mut amx = machine();
    let partial = vec![AmxNativeInfo { name: "GetPlayerMoney".to_string(), func: 0x4000 }];
    assert_eq!(amx.register(&partial), Err(AmxError::NotFound));
    assert_eq!(amx.get_native_addr(0), Ok(0x4000));
    assert_eq!(amx.get_native_addr(1), Ok(0));
    let rest = vec![
        AmxNativeInfo { name: "SetPlayerName".to_string(), func: 0x5000 },
        AmxNativeInfo { name: "GetPlayerMoney".to_string(), func: 0x6000 },
    ];
    assert_eq!(amx.register(&rest), Ok(()));
    assert_eq!(amx.get_native_addr(0), Ok(0x4000));
    assert_eq!(amx.get_native_addr(1), Ok(0x5000));
}

#[test]
fn raise_error_sets_guest_error() {
    let mut amx = machine();
    assert_eq!(amx.raise_error(AmxError::Divide), Ok(()));
    assert_eq!(amx.amx.error, 11);
    assert_eq!(amx.raise_error(AmxError::Arity), Err(AmxError::Params));
    assert_eq!(amx.amx.error, 11);
}

#[test]
fn memory_sizes_from_header() {
    let amx = machine();
    assert_eq!(amx.mem_info(), Ok((64, 64, 960)));
    assert_eq!(amx.flags(), Ok(0));
    assert_eq!(amx.header().defsize, 8);
}
