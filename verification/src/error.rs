//! Error kinds of the two domains the adapter stands between, and the
//! conversions between them.

use vstd::prelude::*;

verus! {

/// The VFS error kinds the adapter produces or inspects.
///
/// `Other` carries the platform error code of any other kind.
#[derive(Debug, Clone, Copy, PartialEq, Eq, Structural)]
pub enum DevError {
    NotFound,
    AddrInUse,
    OperationNotSupported,
    InvalidInput,
    InvalidData,
    Interrupted,
    Other(i32),
}

/// The error kinds of the NPU request service.
#[derive(Debug, Clone, Copy, PartialEq, Eq, Structural)]
pub enum ServiceError {
    InvalidInput,
    InvalidData,
    NotFound,
    Busy,
    Interrupted,
    BadIoctl,
    Driver,
    Internal,
}

/// What a VFS error becomes when the service reports it.
pub open spec fn vfs_to_service(err: DevError) -> ServiceError {
    match err {
        DevError::NotFound => ServiceError::NotFound,
        DevError::AddrInUse => ServiceError::Busy,
        DevError::OperationNotSupported => ServiceError::BadIoctl,
        _ => ServiceError::InvalidData,
    }
}

/// What a service error becomes when it is returned through the VFS.
pub open spec fn service_to_vfs(err: ServiceError) -> DevError {
    match err {
        ServiceError::InvalidInput => DevError::InvalidInput,
        ServiceError::InvalidData => DevError::InvalidData,
        ServiceError::NotFound => DevError::NotFound,
        ServiceError::Busy => DevError::AddrInUse,
        ServiceError::Interrupted => DevError::Interrupted,
        ServiceError::BadIoctl => DevError::OperationNotSupported,
        ServiceError::Driver => DevError::InvalidData,
        ServiceError::Internal => DevError::InvalidData,
    }
}

/// Converts an error met while reaching the device into a service error.
pub fn map_vfs_to_service_error(err: DevError) -> (r: ServiceError)
    ensures
        r == vfs_to_service(err),
{
    match err {
        DevError::NotFound => ServiceError::NotFound,
        DevError::AddrInUse => ServiceError::Busy,
        DevError::OperationNotSupported => ServiceError::BadIoctl,
        _ => ServiceError::InvalidData,
    }
}

/// Converts a service error into the error the device node returns.
pub fn map_service_error(err: ServiceError) -> (r: DevError)
    ensures
        r == service_to_vfs(err),
{
    match err {
        ServiceError::InvalidInput => DevError::InvalidInput,
        ServiceError::InvalidData => DevError::InvalidData,
        ServiceError::NotFound => DevError::NotFound,
        ServiceError::Busy => DevError::AddrInUse,
        ServiceError::Interrupted => DevError::Interrupted,
        ServiceError::BadIoctl => DevError::OperationNotSupported,
        ServiceError::Driver | ServiceError::Internal => DevError::InvalidData,
    }
}

/// The VFS errors that survive a trip through the service unchanged.
pub open spec fn is_service_representable(err: DevError) -> bool {
    ||| err == DevError::NotFound
    ||| err == DevError::AddrInUse
    ||| err == DevError::OperationNotSupported
    ||| err == DevError::InvalidData
}

/// A VFS error of one of the kinds the service can name comes back as
/// itself after being passed through the service and returned to the VFS.
pub proof fn lemma_vfs_error_round_trip(err: DevError)
    requires
        is_service_representable(err),
    ensures
        service_to_vfs(vfs_to_service(err)) == err,
{
}

/// Whatever VFS error goes into the service, the error that comes back out
/// is one of the kinds the service can name.
pub proof fn lemma_vfs_error_round_trip_lands_in_named_kinds(err: DevError)
    ensures
        is_service_representable(service_to_vfs(vfs_to_service(err))),
{
}

/// A service error of the kinds that arise from reaching the device comes
/// back as itself after being returned through the VFS and reported to the
/// service again.
pub proof fn lemma_service_error_round_trip(err: ServiceError)
    requires
        err == ServiceError::NotFound || err == ServiceError::Busy
            || err == ServiceError::BadIoctl || err == ServiceError::InvalidData,
    ensures
        vfs_to_service(service_to_vfs(err)) == err,
{
}

/// Reaching the device fails in the service as: not found for a missing
/// device, busy for a device in use, a bad ioctl for an unsupported
/// operation, and invalid data for anything else.
pub proof fn lemma_vfs_to_service_kinds(err: DevError)
    ensures
        err == DevError::NotFound ==> vfs_to_service(err) == ServiceError::NotFound,
        err == DevError::AddrInUse ==> vfs_to_service(err) == ServiceError::Busy,
        err == DevError::OperationNotSupported ==> vfs_to_service(err) == ServiceError::BadIoctl,
        err != DevError::NotFound && err != DevError::AddrInUse && err != DevError::OperationNotSupported
            ==> vfs_to_service(err) == ServiceError::InvalidData,
{
}

} // verus!
