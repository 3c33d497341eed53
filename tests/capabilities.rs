use evprobe::bits::{bit_at, set_bits};
use evprobe::control::{classify, transient, ControlChannel, ProbeError, Request, Step};
use evprobe::device::{CString, DriverVersion, InputId, Probe, Stage};
use evprobe::event::{EventCode, EventType};
use evprobe::probe::{decode_event_types, decode_key_codes, needs_key_codes};

fn key_words(bits: &[usize]) -> Vec<u64> {
    let mut w = vec![0u64; 12];
    for &b in bits {
        w[b / 64] |= 1u64 << (b % 64);
    }
    w
}

#[test]
fn set_bits_matches_bit_test() {
    let w = vec![0b1010_0110u64, 1u64 << 63];
    let r = set_bits(&w, 0, 128);
    assert_eq!(r, vec![1, 2, 5, 7, 127]);
    for i in 0..128 {
        assert_eq!(r.contains(&i), bit_at(&w, i));
    }
}

#[test]
fn set_bits_respects_range() {
    let w = vec![u64::MAX];
    assert_eq!(set_bits(&w, 3, 6), vec![3, 4, 5]);
    assert_eq!(set_bits(&w, 6, 6), Vec::<usize>::new());
    assert_eq!(set_bits(&w, 7, 2), Vec::<usize>::new());
}

#[test]
fn set_bits_repeatable() {
    let w = key_words(&[0, 64, 0x110, 0x2ff]);
    let a = set_bits(&w, 0, 0x300);
    let b = set_bits(&w, 0, 0x300);
    assert_eq!(a, b);
    assert_eq!(a, vec![0, 64, 0x110, 0x2ff]);
}

#[test]
fn synchro_present_on_empty_bitmap() {
    let d = decode_event_types(0);
    assert_eq!(d.types, vec![EventType::Synchro]);
    assert!(d.unmapped.is_empty());
}

#[test]
fn synchro_not_duplicated() {
    let d = decode_event_types(1);
    assert_eq!(d.types, vec![EventType::Synchro]);
}

#[test]
fn type_bitmap_key_and_relative() {
    let d = decode_event_types(0b110);
    assert_eq!(d.types.len(), 3);
    assert!(d.types.contains(&EventType::Synchro));
    assert!(d.types.contains(&EventType::Key));
    assert!(d.types.contains(&EventType::Relative));
    assert!(needs_key_codes(&d.types));
}

#[test]
fn unmapped_type_bits_are_recorded() {
    let d = decode_event_types((1u64 << 6) | (1u64 << 0x11) | (1u64 << 40));
    assert_eq!(d.types, vec![EventType::Synchro, EventType::LED]);
    assert_eq!(d.unmapped, vec![6]);
    assert!(!needs_key_codes(&d.types));
}

#[test]
fn key_bitmap_left_and_side() {
    let w = key_words(&[0x110, 0x113]);
    assert_eq!(w[4], (1u64 << 16) | (1u64 << 19));
    let c = decode_key_codes(&w);
    assert_eq!(c.len(), 2);
    assert!(c.contains(&EventCode::ButtonLeft));
    assert!(c.contains(&EventCode::ButtonSide));
}

#[test]
fn key_bitmap_unmapped_bit_dropped() {
    let w = key_words(&[0x2fe]);
    assert!(decode_key_codes(&w).is_empty());
}

#[test]
fn event_type_table() {
    assert_eq!(EventType::new(0x11), Some(EventType::LED));
    assert_eq!(EventType::new(0x17), Some(EventType::FFStatus));
    assert_eq!(EventType::new(0x06), None);
    assert_eq!(EventType::Repeat.code(), 0x14);
}

#[test]
fn event_code_table() {
    assert_eq!(EventCode::new(EventType::Key, 0x117), Some(EventCode::ButtonTask));
    assert_eq!(EventCode::new(EventType::Key, 0x118), None);
    assert_eq!(EventCode::new(EventType::Key, 0x2ff), None);
    assert_eq!(EventCode::new(EventType::Key, 0x110), Some(EventCode::ButtonLeft));
    assert_eq!(EventCode::ButtonBack.code(), 0x116);
}

#[test]
fn transient_failures_retried_then_success() {
    let mut ch = ControlChannel::new(Request::GetVersion);
    assert_eq!(ch.record(-1, 4), Step::Retry);
    assert!(!ch.finished);
    assert_eq!(ch.record(-1, 11), Step::Retry);
    assert!(!ch.finished);
    let buffer: u32 = 0x0001_0203;
    assert_eq!(ch.record(0, 0), Step::Done(0));
    assert!(ch.finished);
    assert_eq!(ch.retries, 2);
    let v = DriverVersion::from_raw(buffer);
    assert_eq!((v.major, v.minor, v.patch), (1, 2, 3));
}

#[test]
fn hard_failure_aborts_without_retry() {
    let mut ch = ControlChannel::new(Request::GetId);
    assert_eq!(ch.record(-1, 25), Step::Failed(ProbeError::ControlFailed(25)));
    assert!(ch.finished);
    assert_eq!(ch.retries, 0);
}

#[test]
fn classify_cases() {
    assert!(transient(4));
    assert!(transient(11));
    assert!(!transient(5));
    assert_eq!(classify(-2, 4), Step::Failed(ProbeError::ControlFailed(4)));
    assert_eq!(classify(7, 4), Step::Done(7));
}

#[test]
fn request_codes() {
    assert_eq!(Request::GetId.code(), 0x80084502);
    assert_eq!(Request::GetVersion.code(), 0x80044501);
    assert_eq!(Request::GetBits.code(), 0x80084520);
    assert_eq!(Request::GetKeyBits.code(), 0x80604521);
    assert_eq!(Request::GetKeyBits.buffer_len(), 96);
    assert_eq!(Request::GetId.buffer_len(), 8);
}

#[test]
fn version_decodes_by_shifts() {
    let v = DriverVersion::from_raw(0x0001_0203);
    assert_eq!(v.major, 1);
    assert_eq!(v.minor, 2);
    assert_eq!(v.patch, 3);
    let w = DriverVersion::from_raw(0xAB12_34FF);
    assert_eq!((w.major, w.minor, w.patch), (0x12, 0x34, 0xFF));
}

#[test]
fn identity_from_bytes() {
    let id = InputId::from_bytes(&vec![0x03, 0x00, 0x6d, 0x04, 0x2d, 0xc5, 0x11, 0x01]);
    assert_eq!(id.bustype, 0x0003);
    assert_eq!(id.vendor, 0x046d);
    assert_eq!(id.product, 0xc52d);
    assert_eq!(id.version, 0x0111);
    let z = InputId::new();
    assert_eq!((z.bustype, z.vendor, z.product, z.version), (0, 0, 0, 0));
}

#[test]
fn path_string_is_nul_terminated() {
    let p = CString::new("/dev/input/event6");
    assert_eq!(p.as_ref(), "/dev/input/event6\0");
    let b = p.as_bytes();
    assert_eq!(b.len(), 18);
    assert_eq!(b[17], 0);
    assert_eq!(&b[..17], "/dev/input/event6".as_bytes());
}

#[test]
fn probe_with_key_type() {
    let mut p = Probe::new();
    assert_eq!(p.next_request(), Some(Request::GetId));
    p.accept_id(&vec![1, 0, 2, 0, 3, 0, 4, 0]);
    assert_eq!(p.next_request(), Some(Request::GetVersion));
    p.accept_version(0x0001_0203);
    assert_eq!(p.next_request(), Some(Request::GetBits));
    p.accept_type_bits(0b110);
    assert_eq!(p.stage, Stage::CodeBits);
    assert_eq!(p.next_request(), Some(Request::GetKeyBits));
    p.accept_key_bits(&key_words(&[0x110, 0x113]));
    assert_eq!(p.next_request(), None);
    let r = &p.report;
    assert_eq!(r.id.vendor, 2);
    assert_eq!(r.version.minor, 2);
    assert!(r.has_event_type(EventType::Relative));
    assert!(r.has_event_type(EventType::Key));
    assert!(!r.has_event_type(EventType::Absolute));
    assert!(r.has_event_code(EventCode::ButtonLeft));
    assert!(!r.has_event_code(EventCode::ButtonRight));
}

#[test]
fn probe_without_key_type() {
    let mut p = Probe::new();
    p.accept_id(&vec![0; 8]);
    p.accept_version(0);
    p.accept_type_bits(0b100);
    assert_eq!(p.stage, Stage::Assembled);
    assert!(p.report.codes.is_empty());
    assert!(!p.report.has_event_type(EventType::Key));
    let r = p.finish().unwrap();
    assert!(r.has_event_type(EventType::Relative));
    assert!(!r.has_event_type(EventType::Absolute));
}

#[test]
fn probe_aborts_on_failed_request() {
    let mut p = Probe::new();
    p.accept_id(&vec![0; 8]);
    let mut ch = ControlChannel::new(Request::GetVersion);
    match ch.record(-1, 5) {
        Step::Failed(e) => p.abort(e),
        other => panic!("unexpected step {:?}", other),
    }
    assert_eq!(p.stage, Stage::Aborted(ProbeError::ControlFailed(5)));
    assert_eq!(p.next_request(), None);
    assert!(matches!(p.finish(), Err(ProbeError::ControlFailed(5))));
}
