use rknpu_starry_adapter::card1::Card1;
use rknpu_starry_adapter::error::{map_service_error, map_vfs_to_service_error, DevError, ServiceError};
use rknpu_starry_adapter::ioctl::{io_size, ioctl_nr, is_driver_ioctl, route_ioctl, route_refusal, DrmRequest, IoctlRoute};

const DRM_IOCTL_VERSION: u32 = 0xC040_6400;
const DRM_IOCTL_GET_UNIQUE: u32 = 0xC010_6401;
const DRM_IOCTL_GEM_FLINK: u32 = 0xC008_640A;
const DRM_IOCTL_PRIME_HANDLE_TO_FD: u32 = 0xC00C_642D;
const RKNPU_ACTION: u32 = 0xC008_6440;

#[test]
fn command_word_fields() {
    assert_eq!(ioctl_nr(DRM_IOCTL_VERSION), 0);
    assert_eq!(io_size(DRM_IOCTL_VERSION), 64);
    assert_eq!(ioctl_nr(DRM_IOCTL_PRIME_HANDLE_TO_FD), 0x2d);
    assert_eq!(io_size(DRM_IOCTL_PRIME_HANDLE_TO_FD), 12);
    assert_eq!(io_size(0xFFFF_FFFF), 0x3fff);
    assert_eq!(ioctl_nr(0xFFFF_FFFF), 0xff);
}

#[test]
fn driver_range_bounds() {
    assert!(!is_driver_ioctl(0x3f));
    assert!(is_driver_ioctl(0x40));
    assert!(is_driver_ioctl(0x9f));
    assert!(!is_driver_ioctl(0xa0));
}

#[test]
fn null_argument_is_refused() {
    assert_eq!(route_ioctl(DRM_IOCTL_VERSION, 0), IoctlRoute::NullArg);
    assert_eq!(route_ioctl(RKNPU_ACTION, 0), IoctlRoute::NullArg);
}

#[test]
fn driver_requests_go_to_service() {
    assert_eq!(route_ioctl(RKNPU_ACTION, 0x1000), IoctlRoute::Driver { nr: 0x40 });
    assert_eq!(route_ioctl(0xC018_6441, 0x1000), IoctlRoute::Driver { nr: 0x41 });
}

#[test]
fn generic_requests_are_served() {
    let card = Card1::new();
    assert_eq!(card.ioctl_route(DRM_IOCTL_VERSION, 0x1000), IoctlRoute::Drm { request: DrmRequest::Version, size: 64 });
    assert_eq!(card.ioctl_route(DRM_IOCTL_GET_UNIQUE, 0x1000), IoctlRoute::Drm { request: DrmRequest::GetUnique, size: 16 });
    assert_eq!(card.ioctl_route(DRM_IOCTL_GEM_FLINK, 0x1000), IoctlRoute::Drm { request: DrmRequest::GemFlink, size: 8 });
    assert_eq!(
        card.ioctl_route(DRM_IOCTL_PRIME_HANDLE_TO_FD, 0x1000),
        IoctlRoute::Drm { request: DrmRequest::PrimeHandleToFd, size: 12 }
    );
}

#[test]
fn unknown_and_out_of_range_requests() {
    assert_eq!(route_ioctl(0xC008_6402, 0x1000), IoctlRoute::UnknownDrm { nr: 2, size: 8 });
    assert_eq!(route_ioctl(0xC008_64D0, 0x1000), IoctlRoute::OutOfRange { nr: 0xd0 });
    assert_eq!(route_ioctl(0xC008_64CF, 0x1000), IoctlRoute::UnknownDrm { nr: 0xcf, size: 8 });
    assert_eq!(route_ioctl(0xC100_6400, 0x1000), IoctlRoute::Oversized { nr: 0, size: 256 });
    assert_eq!(route_ioctl(0xC080_6400, 0x1000), IoctlRoute::Drm { request: DrmRequest::Version, size: 128 });
}

#[test]
fn vfs_errors_become_service_errors() {
    assert_eq!(map_vfs_to_service_error(DevError::NotFound), ServiceError::NotFound);
    assert_eq!(map_vfs_to_service_error(DevError::AddrInUse), ServiceError::Busy);
    assert_eq!(map_vfs_to_service_error(DevError::OperationNotSupported), ServiceError::BadIoctl);
    assert_eq!(map_vfs_to_service_error(DevError::InvalidInput), ServiceError::InvalidData);
    assert_eq!(map_vfs_to_service_error(DevError::Interrupted), ServiceError::InvalidData);
    assert_eq!(map_vfs_to_service_error(DevError::Other(12)), ServiceError::InvalidData);
}

#[test]
fn service_errors_become_vfs_errors() {
    assert_eq!(map_service_error(ServiceError::InvalidInput), DevError::InvalidInput);
    assert_eq!(map_service_error(ServiceError::InvalidData), DevError::InvalidData);
    assert_eq!(map_service_error(ServiceError::NotFound), DevError::NotFound);
    assert_eq!(map_service_error(ServiceError::Busy), DevError::AddrInUse);
    assert_eq!(map_service_error(ServiceError::Interrupted), DevError::Interrupted);
    assert_eq!(map_service_error(ServiceError::BadIoctl), DevError::OperationNotSupported);
    assert_eq!(map_service_error(ServiceError::Driver), DevError::InvalidData);
    assert_eq!(map_service_error(ServiceError::Internal), DevError::InvalidData);
}

#[test]
fn error_round_trips() {
    for e in [DevError::NotFound, DevError::AddrInUse, DevError::OperationNotSupported, DevError::InvalidData] {
        assert_eq!(map_service_error(map_vfs_to_service_error(e)), e);
    }
    assert_eq!(map_service_error(map_vfs_to_service_error(DevError::InvalidInput)), DevError::InvalidData);
    for s in [ServiceError::NotFound, ServiceError::Busy, ServiceError::BadIoctl, ServiceError::InvalidData] {
        assert_eq!(map_vfs_to_service_error(map_service_error(s)), s);
    }
}

#[test]
fn direct_reads_and_writes_are_refused() {
    let card = Card1::default();
    let mut buf = [7u8; 4];
    assert_eq!(card.read_at(&mut buf, 0), Err(DevError::InvalidInput));
    assert_eq!(buf, [7u8; 4]);
    assert_eq!(card.write_at(&buf, 16), Err(DevError::InvalidInput));
}

#[test]
fn refusal_errors() {
    for cmd in [DRM_IOCTL_VERSION, RKNPU_ACTION, 0xC008_64D0, 0xC100_6400, 0] {
        assert_eq!(route_refusal(route_ioctl(cmd, 0), true), Some(DevError::InvalidData));
        assert_eq!(route_refusal(route_ioctl(cmd, 0), false), Some(DevError::InvalidData));
    }
    let driver = route_ioctl(RKNPU_ACTION, 0x1000);
    assert_eq!(route_refusal(driver, false), Some(DevError::OperationNotSupported));
    assert_eq!(route_refusal(driver, true), None);
    assert_eq!(route_refusal(route_ioctl(DRM_IOCTL_VERSION, 0x1000), false), None);
    assert_eq!(route_refusal(route_ioctl(0xC008_6402, 0x1000), false), None);
}

use rknpu_starry_adapter::request::{
    driver_result, generic_step, phase_after, GenericAction, GenericEvent, GenericPhase,
};

fn run_generic(copy_in: Result<(), DevError>, ran: Result<usize, DevError>, copies: &[bool], copy_back: Result<(), DevError>) -> (Result<usize, DevError>, usize, bool) {
    let mut phase = GenericPhase::CopyIn;
    let mut copies_made = 0;
    let mut copied_back = false;
    loop {
        let event = match phase {
            GenericPhase::CopyIn => GenericEvent::CopiedIn(copy_in),
            GenericPhase::Run => GenericEvent::Ran(ran),
            GenericPhase::CopyOut { next, .. } => {
                copies_made += 1;
                GenericEvent::CopiedOut(copies[next])
            }
            GenericPhase::CopyBack => {
                copied_back = true;
                GenericEvent::CopiedBack(copy_back)
            }
        };
        let action = generic_step(phase, event);
        if let GenericAction::Finish(r) = action {
            return (r, copies_made, copied_back);
        }
        phase = phase_after(action).unwrap();
    }
}

#[test]
fn generic_request_succeeds_after_copy_back() {
    assert_eq!(run_generic(Ok(()), Ok(2), &[true, true], Ok(())), (Ok(0), 2, true));
    assert_eq!(run_generic(Ok(()), Ok(0), &[], Ok(())), (Ok(0), 0, true));
}

#[test]
fn generic_request_failed_user_copy_is_invalid_data() {
    assert_eq!(run_generic(Ok(()), Ok(3), &[true, false, true], Ok(())), (Err(DevError::InvalidData), 2, false));
    assert_eq!(generic_step(GenericPhase::CopyOut { next: 0, total: 1 }, GenericEvent::CopiedOut(false)),
        GenericAction::Finish(Err(DevError::InvalidData)));
}

#[test]
fn generic_request_errors_propagate() {
    assert_eq!(run_generic(Err(DevError::Other(14)), Ok(1), &[true], Ok(())), (Err(DevError::Other(14)), 0, false));
    assert_eq!(run_generic(Ok(()), Err(DevError::NotFound), &[], Ok(())), (Err(DevError::NotFound), 0, false));
    assert_eq!(run_generic(Ok(()), Ok(1), &[true], Err(DevError::Other(14))), (Err(DevError::Other(14)), 1, true));
}

#[test]
fn driver_answers() {
    assert_eq!(driver_result(Ok(7)), Ok(0));
    assert_eq!(driver_result(Err(ServiceError::Busy)), Err(DevError::AddrInUse));
    assert_eq!(driver_result(Err(ServiceError::Driver)), Err(DevError::InvalidData));
}
