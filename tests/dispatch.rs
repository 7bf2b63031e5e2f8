use tvm_linker::handlers::{DecodeError, Handlers};
use tvm_linker::loader::{Loader, Variant};
use tvm_linker::slice::SliceData;

fn lookup(bytes: &[u8]) -> (Result<Loader, DecodeError>, usize) {
    let table = Handlers::new_code_page_0();
    let mut slice = SliceData::new(bytes.to_vec());
    let r = table.get_handler(&mut slice);
    (r, slice.position())
}

#[test]
fn nop_is_a_single_byte() {
    assert_eq!(lookup(&[0x00, 0x12]), (Ok(Loader::Nop), 1));
}

#[test]
fn pushnan_sits_behind_0x83() {
    assert_eq!(lookup(&[0x83, 0xFF]), (Ok(Loader::Pushnan), 2));
    assert_eq!(lookup(&[0x83, 0x05]), (Ok(Loader::Pushpow2), 2));
}

#[test]
fn unassigned_first_byte_is_rejected() {
    assert_eq!(lookup(&[0xF5]), (Err(DecodeError::UnknownOpcode { prefix: vec![0xF5] }), 1));
}

#[test]
fn unassigned_second_byte_reports_the_prefix() {
    assert_eq!(
        lookup(&[0xB6, 0x04, 0x00]),
        (Err(DecodeError::UnknownOpcode { prefix: vec![0xB6, 0x04] }), 2)
    );
}

#[test]
fn quiet_arithmetic_is_behind_0xb7() {
    assert_eq!(lookup(&[0xA0]), (Ok(Loader::Add(Variant::Signaling)), 1));
    assert_eq!(lookup(&[0xB7, 0xA0]), (Ok(Loader::Add(Variant::Quiet)), 2));
    assert_eq!(lookup(&[0xB7, 0xB6, 0x0B]), (Ok(Loader::Abs(Variant::Quiet)), 3));
    assert_eq!(lookup(&[0xB6, 0x0B]), (Ok(Loader::Abs(Variant::Signaling)), 2));
}

#[test]
fn empty_slice_underruns() {
    assert_eq!(lookup(&[]), (Err(DecodeError::Underrun { position: 0 }), 0));
}

#[test]
fn truncated_opcode_underruns() {
    assert_eq!(lookup(&[0xF4]), (Err(DecodeError::Underrun { position: 1 }), 1));
}

#[test]
fn ranges_cover_their_ends() {
    assert_eq!(lookup(&[0x5F, 0xFF]), (Ok(Loader::Blkpush), 2));
    assert_eq!(lookup(&[0xFF, 0xF0]), (Ok(Loader::Setcpx), 2));
    assert_eq!(lookup(&[0xFF, 0xFF]), (Ok(Loader::Setcp), 2));
    assert_eq!(lookup(&[0x9F]), (Ok(Loader::PushcontShort), 1));
    assert_eq!(lookup(&[0xF4, 0xBF]), (Ok(Loader::Dictugetexecz), 2));
}

#[test]
fn every_first_byte_is_assigned_or_rejected() {
    let unassigned = [0x86u8, 0x87, 0xAF, 0xC6, 0xEF, 0xF5, 0xF6, 0xF7, 0xFC, 0xFD];
    let table = Handlers::new_code_page_0();
    for b in 0u16..256 {
        let b = b as u8;
        let mut slice = SliceData::new(vec![b, 0x00, 0x00]);
        let r = table.get_handler(&mut slice);
        if unassigned.contains(&b) {
            assert_eq!(r, Err(DecodeError::UnknownOpcode { prefix: vec![b] }), "byte {:02x}", b);
        } else {
            match r {
                Ok(_) => {}
                Err(DecodeError::UnknownOpcode { prefix }) => assert!(prefix.len() >= 2, "byte {:02x}", b),
                Err(e) => panic!("byte {:02x}: {:?}", b, e),
            }
        }
    }
}
