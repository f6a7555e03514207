use snow_bridge::disk::{DiskOpenAction, JsDiskImage, DISK_BLOCKSIZE};
use snow_bridge::host::host_name;

fn ready(path: &str, id: i32, size: usize) -> JsDiskImage {
    match JsDiskImage::on_size(path.to_string(), id, size) {
        DiskOpenAction::Ready(d) => d,
        _ => panic!("expected an adapter"),
    }
}

#[test]
fn aligned_disk_constructs() {
    let d = ready("hd.img", 7, 1_474_560);
    assert_eq!(d.byte_len(), 1_474_560);
    assert!(d.media_bytes().is_none());
    assert_eq!(d.image_path(), Some("hd.img"));
    assert_eq!(d.disk_id(), 7);
}

#[test]
fn misaligned_disk_closes_handle() {
    match JsDiskImage::on_size("hd.img".to_string(), 7, 1_474_561) {
        DiskOpenAction::CloseAndFail(id, msg) => {
            assert_eq!(id, 7);
            assert!(msg.contains("not multiple of 512"));
            assert_eq!(msg, "Cannot load disk image hd.img: not multiple of 512");
        }
        _ => panic!("expected the handle to be closed"),
    }
}

#[test]
fn path_with_nul_is_refused_before_open() {
    match JsDiskImage::open("foo\0bar") {
        DiskOpenAction::Fail(msg) => assert!(msg.contains("embedded null byte")),
        _ => panic!("expected a failure without a host call"),
    }
}

#[test]
fn open_encodes_nul_terminated_name() {
    match JsDiskImage::open("hd.img") {
        DiskOpenAction::Open(b) => assert_eq!(b, b"hd.img\0".to_vec()),
        _ => panic!("expected an open request"),
    }
    assert_eq!(host_name("é"), Some(vec![0xc3, 0xa9, 0]));
    assert_eq!(host_name(""), Some(vec![0]));
    assert_eq!(host_name("\0"), None);
}

#[test]
fn missing_disk_fails_without_close() {
    match JsDiskImage::on_open("nope.img", -1) {
        DiskOpenAction::Fail(msg) => assert_eq!(msg, "Disk not found: nope.img"),
        _ => panic!("expected a failure"),
    }
    match JsDiskImage::on_open("hd.img", 0) {
        DiskOpenAction::QuerySize(id) => assert_eq!(id, 0),
        _ => panic!("expected a size query"),
    }
}

#[test]
fn release_closes_once() {
    let mut d = ready("hd.img", 3, 512);
    assert_eq!(d.release(), Some(3));
    assert_eq!(d.release(), None);
    assert_eq!(d.release(), None);
    assert_eq!(d.disk_id(), -1);
}

#[test]
fn read_buffer_has_requested_length() {
    let d = ready("hd.img", 3, 1024);
    let b = d.read_bytes(512, 300);
    assert_eq!(b.len(), 300);
    assert!(b.iter().all(|x| *x == 0));
    assert!(d.read_bytes(0, 0).is_empty());
    assert_eq!(d.write_bytes(0, &[1, 2, 3]), 3);
}

#[test]
fn empty_disk_is_aligned() {
    assert_eq!(ready("e.img", 1, 0).byte_len(), 0);
    assert_eq!(DISK_BLOCKSIZE, 512);
}
