//! Decoding of ioctl command words and routing of requests on the NPU card.

use vstd::prelude::*;
use crate::error::DevError;

verus! {

/// Bits of a command word that hold the request number.
pub const IOC_NR_MASK: u32 = 0xff;
/// Position of the argument size in a command word.
pub const IOC_SIZE_SHIFT: u32 = 16;
/// Bits of the shifted command word that hold the argument size.
pub const IOC_SIZE_MASK: u32 = 0x3fff;
/// First request number reserved for driver-specific ioctls.
pub const DRM_COMMAND_BASE: u32 = 0x40;
/// First request number after the driver-specific range.
pub const DRM_COMMAND_END: u32 = 0xa0;
/// Largest generic request number the card accepts.
pub const MAX_IOCTL_NR: u32 = 0xcf;
/// Size of the kernel-side buffer that holds a generic request's argument.
pub const STACK_DATA_SIZE: usize = 128;
/// Request number of the version query.
pub const DRM_IOCTL_VERSION_NR: u32 = 0;
/// Request number of the bus-id query.
pub const DRM_IOCTL_GET_UNIQUE_NR: u32 = 1;
/// Request number of the global-name export of a buffer object.
pub const DRM_IOCTL_GEM_FLINK_NR: u32 = 10;
/// Request number of the export of a buffer object as a file descriptor.
pub const DRM_IOCTL_PRIME_HANDLE_TO_FD_NR: u32 = 0x2d;

/// Request number held in a command word.
pub open spec fn spec_ioctl_nr(cmd: u32) -> u32 {
    cmd & IOC_NR_MASK
}

/// Argument size held in a command word.
pub open spec fn spec_io_size(cmd: u32) -> u32 {
    (cmd >> IOC_SIZE_SHIFT) & IOC_SIZE_MASK
}

/// Whether a request number lies in the driver-specific range.
pub open spec fn spec_is_driver_ioctl(nr: u32) -> bool {
    DRM_COMMAND_BASE <= nr && nr < DRM_COMMAND_END
}

/// Extracts the request number of a command word.
pub fn ioctl_nr(cmd: u32) -> (nr: u32)
    ensures
        nr == spec_ioctl_nr(cmd),
        nr == cmd % 256,
{
    assert(cmd & 0xff == cmd % 256) by (bit_vector);
    cmd & IOC_NR_MASK
}

/// Extracts the argument size of a command word.
pub fn io_size(cmd: u32) -> (size: u32)
    ensures
        size == spec_io_size(cmd),
        size == (cmd / 65536) % 16384,
{
    assert((cmd >> 16u32) & 0x3fff == (cmd / 65536) % 16384) by (bit_vector);
    (cmd >> IOC_SIZE_SHIFT) & IOC_SIZE_MASK
}

/// Tells whether a request number belongs to the driver-specific range.
pub fn is_driver_ioctl(nr: u32) -> (b: bool)
    ensures
        b == spec_is_driver_ioctl(nr),
        b == (0x40 <= nr && nr < 0xa0),
{
    DRM_COMMAND_BASE <= nr && nr < DRM_COMMAND_END
}

/// The generic requests the card serves itself.
#[derive(Debug, Clone, Copy, PartialEq, Eq, Structural)]
pub enum DrmRequest {
    Version,
    GetUnique,
    GemFlink,
    PrimeHandleToFd,
}

/// The generic request a request number names, if the card serves it.
pub open spec fn spec_drm_request(nr: u32) -> Option<DrmRequest> {
    if nr == DRM_IOCTL_VERSION_NR {
        Some(DrmRequest::Version)
    } else if nr == DRM_IOCTL_GET_UNIQUE_NR {
        Some(DrmRequest::GetUnique)
    } else if nr == DRM_IOCTL_GEM_FLINK_NR {
        Some(DrmRequest::GemFlink)
    } else if nr == DRM_IOCTL_PRIME_HANDLE_TO_FD_NR {
        Some(DrmRequest::PrimeHandleToFd)
    } else {
        None
    }
}

/// Looks up the generic request a request number names.
pub fn drm_request(nr: u32) -> (r: Option<DrmRequest>)
    ensures
        r == spec_drm_request(nr),
{
    if nr == DRM_IOCTL_VERSION_NR {
        Some(DrmRequest::Version)
    } else if nr == DRM_IOCTL_GET_UNIQUE_NR {
        Some(DrmRequest::GetUnique)
    } else if nr == DRM_IOCTL_GEM_FLINK_NR {
        Some(DrmRequest::GemFlink)
    } else if nr == DRM_IOCTL_PRIME_HANDLE_TO_FD_NR {
        Some(DrmRequest::PrimeHandleToFd)
    } else {
        None
    }
}

/// Where an ioctl on the NPU card goes.
#[derive(Debug, Clone, Copy, PartialEq, Eq, Structural)]
pub enum IoctlRoute {
    /// The argument pointer is null: the call fails with invalid data.
    NullArg,
    /// A driver-specific request, handed to the NPU service by number.
    Driver { nr: u32 },
    /// A generic request the card serves: `size` bytes of the argument are
    /// copied in, the request runs on them, and they are copied back out.
    Drm { request: DrmRequest, size: usize },
    /// A generic request number the card does not serve: the argument is
    /// copied in and the call is then refused by aborting.
    UnknownDrm { nr: u32, size: usize },
    /// A generic request number above the accepted range: the call is
    /// refused by aborting before anything is copied.
    OutOfRange { nr: u32 },
    /// A generic request whose argument does not fit the kernel-side
    /// buffer: the call is refused by aborting before anything is copied.
    Oversized { nr: u32, size: usize },
}

/// The route of an ioctl with command word `cmd` and argument `arg`.
pub open spec fn spec_route(cmd: u32, arg: usize) -> IoctlRoute {
    let nr = spec_ioctl_nr(cmd);
    let size = spec_io_size(cmd) as usize;
    if arg == 0 {
        IoctlRoute::NullArg
    } else if spec_is_driver_ioctl(nr) {
        IoctlRoute::Driver { nr }
    } else if nr > MAX_IOCTL_NR {
        IoctlRoute::OutOfRange { nr }
    } else if size > STACK_DATA_SIZE {
        IoctlRoute::Oversized { nr, size }
    } else {
        match spec_drm_request(nr) {
            Some(request) => IoctlRoute::Drm { request, size },
            None => IoctlRoute::UnknownDrm { nr, size },
        }
    }
}

/// Decides where an ioctl goes.
pub fn route_ioctl(cmd: u32, arg: usize) -> (r: IoctlRoute)
    ensures
        r == spec_route(cmd, arg),
{
    if arg == 0 {
        return IoctlRoute::NullArg;
    }
    let nr = ioctl_nr(cmd);
    if is_driver_ioctl(nr) {
        return IoctlRoute::Driver { nr };
    }
    if nr > MAX_IOCTL_NR {
        return IoctlRoute::OutOfRange { nr };
    }
    let size = io_size(cmd) as usize;
    if size > STACK_DATA_SIZE {
        return IoctlRoute::Oversized { nr, size };
    }
    match drm_request(nr) {
        Some(request) => IoctlRoute::Drm { request, size },
        None => IoctlRoute::UnknownDrm { nr, size },
    }
}

/// A null argument is refused whatever the command word says.
pub proof fn lemma_null_arg_always_refused(cmd: u32)
    ensures
        spec_route(cmd, 0) == IoctlRoute::NullArg,
{
}

/// A driver-specific request with a non-null argument always reaches the
/// NPU service, carrying its own request number.
pub proof fn lemma_driver_requests_reach_service(cmd: u32, arg: usize)
    requires
        arg != 0,
        spec_is_driver_ioctl(spec_ioctl_nr(cmd)),
    ensures
        spec_route(cmd, arg) == (IoctlRoute::Driver { nr: spec_ioctl_nr(cmd) }),
{
}

/// Every route that copies the argument in copies at most the size of the
/// kernel-side buffer, and only generic requests are served by the card.
pub proof fn lemma_copied_arguments_fit(cmd: u32, arg: usize)
    ensures
        match spec_route(cmd, arg) {
            IoctlRoute::Drm { request, size } => size <= STACK_DATA_SIZE
                && size == spec_io_size(cmd)
                && !spec_is_driver_ioctl(spec_ioctl_nr(cmd))
                && spec_drm_request(spec_ioctl_nr(cmd)) == Some(request),
            IoctlRoute::UnknownDrm { nr, size } => size <= STACK_DATA_SIZE
                && nr <= MAX_IOCTL_NR,
            _ => true,
        },
{
}

/// The error an ioctl is refused with on `route`, before any user memory is
/// touched: a null argument is invalid data, and a driver-specific request
/// whose number the NPU service does not know (`driver_cmd_known` false) is
/// not supported. Every other route is not refused this way: it is served,
/// or it aborts.
pub open spec fn spec_refusal(route: IoctlRoute, driver_cmd_known: bool) -> Option<DevError> {
    match route {
        IoctlRoute::NullArg => Some(DevError::InvalidData),
        IoctlRoute::Driver { .. } => if driver_cmd_known {
            None
        } else {
            Some(DevError::OperationNotSupported)
        },
        _ => None,
    }
}

/// Decides the error an ioctl on `route` is refused with, if any.
/// `driver_cmd_known` tells whether the NPU service knows the number of a
/// driver-specific request.
pub fn route_refusal(route: IoctlRoute, driver_cmd_known: bool) -> (r: Option<DevError>)
    ensures
        r == spec_refusal(route, driver_cmd_known),
{
    match route {
        IoctlRoute::NullArg => Some(DevError::InvalidData),
        IoctlRoute::Driver { .. } => if driver_cmd_known {
            None
        } else {
            Some(DevError::OperationNotSupported)
        },
        _ => None,
    }
}

/// An ioctl with a null argument fails with invalid data, whatever the
/// command word, before anything is copied, served or aborted.
pub proof fn lemma_null_arg_fails_with_invalid_data(cmd: u32, driver_cmd_known: bool)
    ensures
        spec_route(cmd, 0) == IoctlRoute::NullArg,
        spec_refusal(spec_route(cmd, 0), driver_cmd_known) == Some(DevError::InvalidData),
{
}

/// A driver-specific request with a non-null argument is refused as not
/// supported exactly when the service does not know its number.
pub proof fn lemma_unknown_driver_request_unsupported(cmd: u32, arg: usize, driver_cmd_known: bool)
    requires
        arg != 0,
        spec_is_driver_ioctl(spec_ioctl_nr(cmd)),
    ensures
        spec_refusal(spec_route(cmd, arg), driver_cmd_known) == (if driver_cmd_known {
            None
        } else {
            Some(DevError::OperationNotSupported)
        }),
{
}

/// The request number of a command word is its low byte, and the argument
/// size is the 14 bits above the two type and number bytes.
pub proof fn lemma_command_word_fields(cmd: u32)
    ensures
        spec_ioctl_nr(cmd) == cmd % 256,
        spec_io_size(cmd) == (cmd / 65536) % 16384,
{
    assert(cmd & 0xff == cmd % 256) by (bit_vector);
    assert((cmd >> 16u32) & 0x3fff == (cmd / 65536) % 16384) by (bit_vector);
}

/// The driver-specific request numbers are exactly 0x40 through 0x9f.
pub proof fn lemma_driver_range(nr: u32)
    ensures
        spec_is_driver_ioctl(nr) <==> (0x40 <= nr && nr < 0xa0),
{
}

/// Every command word whose request number lies in 0x40..0x9f, with a
/// non-null argument, is handed to the NPU service with that number,
/// whatever its argument size.
pub proof fn lemma_driver_commands_go_to_service(cmd: u32, arg: usize)
    requires
        arg != 0,
        0x40 <= cmd % 256 < 0xa0,
    ensures
        spec_route(cmd, arg) == (IoctlRoute::Driver { nr: cmd % 256 }),
{
    lemma_command_word_fields(cmd);
}

/// A command word with a non-null argument, a request number of 0, 1, 0x0a
/// or 0x2d, and an argument of at most 128 bytes is served by the card as
/// the version query, the bus-id query, the global-name export and the
/// file-descriptor export respectively, with the size the word gives.
pub proof fn lemma_generic_commands_served(cmd: u32, arg: usize)
    requires
        arg != 0,
        (cmd / 65536) % 16384 <= 128,
    ensures
        cmd % 256 == 0 ==> spec_route(cmd, arg) == (IoctlRoute::Drm {
            request: DrmRequest::Version,
            size: ((cmd / 65536) % 16384) as usize,
        }),
        cmd % 256 == 1 ==> spec_route(cmd, arg) == (IoctlRoute::Drm {
            request: DrmRequest::GetUnique,
            size: ((cmd / 65536) % 16384) as usize,
        }),
        cmd % 256 == 0x0a ==> spec_route(cmd, arg) == (IoctlRoute::Drm {
            request: DrmRequest::GemFlink,
            size: ((cmd / 65536) % 16384) as usize,
        }),
        cmd % 256 == 0x2d ==> spec_route(cmd, arg) == (IoctlRoute::Drm {
            request: DrmRequest::PrimeHandleToFd,
            size: ((cmd / 65536) % 16384) as usize,
        }),
{
    lemma_command_word_fields(cmd);
}

} // verus!
