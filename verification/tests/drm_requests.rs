use rknpu_starry_adapter::card1::Card1;
use rknpu_starry_adapter::drm::{
    c_string_len, drm_copy_field, drm_gem_flink_ioctl, drm_get_unique, drm_prime_handle_to_fd_ioctl,
    drm_set_unique, drm_version,
};
use rknpu_starry_adapter::error::DevError;
use rknpu_starry_adapter::ioctl::DrmRequest;
use rknpu_starry_adapter::records::{DrmPrimeHandle, DrmUnique, DrmVersion};

fn put_u64(buf: &mut [u8], off: usize, v: u64) {
    buf[off..off + 8].copy_from_slice(&v.to_le_bytes());
}

fn get_u64(buf: &[u8], off: usize) -> u64 {
    u64::from_le_bytes(buf[off..off + 8].try_into().unwrap())
}

fn get_i32(buf: &[u8], off: usize) -> i32 {
    i32::from_le_bytes(buf[off..off + 4].try_into().unwrap())
}

#[test]
fn c_string_length_stops_at_first_nul() {
    assert_eq!(c_string_len(b"rknpu\0tail\0"), 5);
    assert_eq!(c_string_len(b"\0"), 0);
}

#[test]
fn copy_field_without_value_clears_length() {
    let mut len = 40u64;
    assert_eq!(drm_copy_field(0x1000, &mut len, None), None);
    assert_eq!(len, 0);
}

#[test]
fn copy_field_truncates_to_user_buffer() {
    let mut len = 3u64;
    let copy = drm_copy_field(0x1000, &mut len, Some(&b"rknpu\0"[..])).unwrap();
    assert_eq!(len, 5);
    assert_eq!(copy.dst, 0x1000);
    assert_eq!(copy.bytes, b"rkn".to_vec());
}

#[test]
fn copy_field_copies_whole_string_into_large_buffer() {
    let mut len = 100u64;
    let copy = drm_copy_field(0x2000, &mut len, Some(&b"20240828\0"[..])).unwrap();
    assert_eq!(len, 8);
    assert_eq!(copy.bytes, b"20240828".to_vec());
}

#[test]
fn copy_field_skips_null_or_empty_buffer() {
    let mut len = 100u64;
    assert_eq!(drm_copy_field(0, &mut len, Some(&b"rknpu\0"[..])), None);
    assert_eq!(len, 5);
    let mut len = 0u64;
    assert_eq!(drm_copy_field(0x1000, &mut len, Some(&b"rknpu\0"[..])), None);
    assert_eq!(len, 5);
}

#[test]
fn version_query_answers_and_copies() {
    let mut data = vec![0xAAu8; 64];
    put_u64(&mut data, 16, 3);
    put_u64(&mut data, 24, 0x1000);
    put_u64(&mut data, 32, 64);
    put_u64(&mut data, 40, 0x2000);
    put_u64(&mut data, 48, 64);
    put_u64(&mut data, 56, 0);
    let copies = drm_version(&mut data);
    assert_eq!(get_i32(&data, 0), 0);
    assert_eq!(get_i32(&data, 4), 9);
    assert_eq!(get_i32(&data, 8), 8);
    assert_eq!(&data[12..16], &[0xAA, 0xAA, 0xAA, 0xAA]);
    assert_eq!(get_u64(&data, 16), 5);
    assert_eq!(get_u64(&data, 24), 0x1000);
    assert_eq!(get_u64(&data, 32), 8);
    assert_eq!(get_u64(&data, 40), 0x2000);
    assert_eq!(get_u64(&data, 48), 12);
    assert_eq!(get_u64(&data, 56), 0);
    assert_eq!(copies.len(), 2);
    assert_eq!(copies[0].dst, 0x1000);
    assert_eq!(copies[0].bytes, b"rkn".to_vec());
    assert_eq!(copies[1].dst, 0x2000);
    assert_eq!(copies[1].bytes, b"20240828".to_vec());
    let v = DrmVersion::read(&data);
    assert_eq!(v.version_minor, 9);
    assert_eq!(v.desc_len, 12);
}

#[test]
fn version_query_copies_description() {
    let mut data = vec![0u8; 64];
    put_u64(&mut data, 48, 32);
    put_u64(&mut data, 56, 0x3000);
    let copies = drm_version(&mut data);
    assert_eq!(copies.len(), 1);
    assert_eq!(copies[0].dst, 0x3000);
    assert_eq!(copies[0].bytes, b"RKNPU driver".to_vec());
}

#[test]
fn unique_query_clears_length() {
    let mut data = vec![0u8; 16];
    put_u64(&mut data, 0, 77);
    put_u64(&mut data, 8, 0x4000);
    assert_eq!(drm_get_unique(&mut data), Ok(()));
    assert_eq!(DrmUnique::read(&data), DrmUnique { unique_len: 0, unique: 0x4000 });
}

#[test]
fn set_unique_changes_nothing() {
    let mut data = vec![5u8; 16];
    assert_eq!(drm_set_unique(&mut data), Ok(()));
    assert_eq!(data, vec![5u8; 16]);
}

#[test]
fn gem_flink_is_not_found() {
    let mut data = vec![1u8; 8];
    assert_eq!(drm_gem_flink_ioctl(&mut data), Err(DevError::NotFound));
    assert_eq!(data, vec![1u8; 8]);
}

#[test]
fn prime_export_reports_fixed_fd() {
    let mut data = vec![0u8; 12];
    data[0] = 3;
    data[4] = 2;
    data[8] = 0xff;
    data[9] = 0xff;
    data[10] = 0xff;
    data[11] = 0xff;
    assert_eq!(drm_prime_handle_to_fd_ioctl(&mut data), Ok(0));
    assert_eq!(DrmPrimeHandle::read(&data), DrmPrimeHandle { handle: 3, flags: 2, fd: 1 });
}

#[test]
fn card_serves_generic_requests() {
    let card = Card1::new();
    let mut data = [0u8; 128];
    put_u64(&mut data, 16, 16);
    put_u64(&mut data, 24, 0x1000);
    let copies = card.drm_ioctl(DrmRequest::Version, &mut data).unwrap();
    assert_eq!(copies.len(), 1);
    assert_eq!(copies[0].bytes, b"rknpu".to_vec());
    assert_eq!(get_u64(&data, 16), 5);

    let mut data = [0u8; 128];
    assert_eq!(card.drm_ioctl(DrmRequest::GemFlink, &mut data), Err(DevError::NotFound));
    let mut data = [9u8; 128];
    assert_eq!(card.drm_ioctl(DrmRequest::GetUnique, &mut data), Ok(Vec::new()));
    assert_eq!(get_u64(&data, 0), 0);
    let mut data = [0u8; 128];
    assert_eq!(card.drm_ioctl(DrmRequest::PrimeHandleToFd, &mut data), Ok(Vec::new()));
    assert_eq!(get_i32(&data, 8), 1);
}

#[test]
fn records_round_trip() {
    let v = DrmVersion {
        version_major: -1,
        version_minor: 2,
        version_patchlevel: 3,
        name_len: 4,
        name: 5,
        date_len: 6,
        date: 7,
        desc_len: 8,
        desc: u64::MAX,
    };
    let mut data = vec![0x5Au8; 80];
    v.write(&mut data);
    assert_eq!(DrmVersion::read(&data), v);
    assert_eq!(&data[64..], &[0x5Au8; 16]);
    let before = data.clone();
    DrmVersion::read(&before).write(&mut data);
    assert_eq!(data, before);
}
