//! The NPU card behind `/dev/rknpu` and `/dev/dri/card1`.

use vstd::prelude::*;
use crate::drm;
use crate::drm::UserCopy;
use crate::error::DevError;
use crate::ioctl;
use crate::ioctl::{DrmRequest, IoctlRoute};
use crate::records::{DrmPrimeHandle, DrmUnique, DrmVersion};

verus! {

/// The NPU card device.
#[derive(Debug, Clone, Copy, PartialEq, Eq, Structural)]
pub struct Card1;

/// A handler's result as plain values: the copies it asks for, or its error.
pub open spec fn outcome_model(r: Result<Vec<UserCopy>, DevError>) -> Result<Seq<(u64, Seq<u8>)>, DevError> {
    match r {
        Ok(v) => Ok(v@.map_values(|u: UserCopy| u.model())),
        Err(e) => Err(e),
    }
}

/// What a generic request returns, given the argument bytes `s`.
pub open spec fn drm_result(request: DrmRequest, s: Seq<u8>) -> Result<Seq<(u64, Seq<u8>)>, DevError> {
    match request {
        DrmRequest::Version => Ok(drm::version_copies(DrmVersion::parse(s))),
        DrmRequest::GetUnique => Ok(Seq::empty()),
        DrmRequest::GemFlink => Err(DevError::NotFound),
        DrmRequest::PrimeHandleToFd => Ok(Seq::empty()),
    }
}

/// The argument bytes a generic request leaves behind, given the bytes `s`
/// it started from.
pub open spec fn drm_effect(request: DrmRequest, s: Seq<u8>) -> Seq<u8> {
    match request {
        DrmRequest::Version => drm::answered_version(DrmVersion::parse(s)).emit(s),
        DrmRequest::GetUnique => (DrmUnique { unique_len: 0, ..DrmUnique::parse(s) }).emit(s),
        DrmRequest::GemFlink => s,
        DrmRequest::PrimeHandleToFd => (DrmPrimeHandle { fd: drm::EXPORTED_FD, ..DrmPrimeHandle::parse(s) }).emit(s),
    }
}

impl Card1 {
    /// Creates the card device.
    pub fn new() -> (r: Card1)
        ensures
            r == Card1,
    {
        Card1
    }

    /// Reading the card directly is not supported.
    pub fn read_at(&self, buf: &mut [u8], offset: u64) -> (r: Result<usize, DevError>)
        ensures
            r == Err::<usize, DevError>(DevError::InvalidInput),
            final(buf)@ == old(buf)@,
    {
        Err(DevError::InvalidInput)
    }

    /// Writing the card directly is not supported.
    pub fn write_at(&self, buf: &[u8], offset: u64) -> (r: Result<usize, DevError>)
        ensures
            r == Err::<usize, DevError>(DevError::InvalidInput),
    {
        Err(DevError::InvalidInput)
    }

    /// Decides where an ioctl with command word `cmd` and argument `arg`
    /// goes.
    pub fn ioctl_route(&self, cmd: u32, arg: usize) -> (r: IoctlRoute)
        ensures
            r == ioctl::spec_route(cmd, arg),
    {
        ioctl::route_ioctl(cmd, arg)
    }

    /// Runs a generic request on the kernel-side copy `data` of its
    /// argument, and returns the copies into user memory it asks for.
    pub fn drm_ioctl(&self, request: DrmRequest, data: &mut [u8]) -> (r: Result<Vec<UserCopy>, DevError>)
        requires
            old(data)@.len() == ioctl::STACK_DATA_SIZE,
        ensures
            outcome_model(r) == drm_result(request, old(data)@),
            final(data)@ == drm_effect(request, old(data)@),
            request == DrmRequest::GetUnique ==> (r matches Ok(v) && v@.len() == 0) && final(data)@ == (
            DrmUnique { unique_len: 0, ..DrmUnique::parse(old(data)@) }).emit(old(data)@),
            request == DrmRequest::PrimeHandleToFd ==> (r matches Ok(v) && v@.len() == 0) && final(data)@
                == (DrmPrimeHandle { fd: 1, ..DrmPrimeHandle::parse(old(data)@) }).emit(old(data)@),
            request == DrmRequest::GemFlink ==> (r matches Err(e) && e == DevError::NotFound) && final(data)@
                == old(data)@,
            request == DrmRequest::Version ==> r is Ok,
    {
        match request {
            DrmRequest::Version => {
                let copies = drm::drm_version(data);
                Ok(copies)
            },
            DrmRequest::GetUnique => {
                let _ = drm::drm_get_unique(data);
                let copies: Vec<UserCopy> = Vec::new();
                proof {
                    assert(copies@.map_values(|u: UserCopy| u.model()) =~= Seq::empty());
                    assert(copies@.len() == 0);
                }
                Ok(copies)
            },
            DrmRequest::GemFlink => {
                match drm::drm_gem_flink_ioctl(data) {
                    Ok(_) => Ok(Vec::new()),
                    Err(e) => Err(e),
                }
            },
            DrmRequest::PrimeHandleToFd => {
                let _ = drm::drm_prime_handle_to_fd_ioctl(data);
                let copies: Vec<UserCopy> = Vec::new();
                proof {
                    assert(copies@.map_values(|u: UserCopy| u.model()) =~= Seq::empty());
                }
                Ok(copies)
            },
        }
    }
}

impl Default for Card1 {
    fn default() -> (r: Card1)
        ensures
            r == Card1,
    {
        Card1::new()
    }
}

/// Whatever argument record user space passes: the bus-id query succeeds
/// with no copies and leaves the record with length 0 and its buffer
/// address kept; the file-descriptor export succeeds with no copies and
/// leaves descriptor 1 with handle and flags kept; the global-name export
/// fails as not found and leaves the argument as it was; the version query
/// succeeds.
pub proof fn lemma_drm_request_outcomes(s: Seq<u8>)
    requires
        s.len() == ioctl::STACK_DATA_SIZE,
    ensures
        drm_result(DrmRequest::GetUnique, s) == Ok::<Seq<(u64, Seq<u8>)>, DevError>(Seq::empty()),
        DrmUnique::parse(drm_effect(DrmRequest::GetUnique, s)) == (DrmUnique {
            unique_len: 0,
            unique: DrmUnique::parse(s).unique,
        }),
        drm_effect(DrmRequest::GetUnique, s).len() == s.len(),
        drm_result(DrmRequest::PrimeHandleToFd, s) == Ok::<Seq<(u64, Seq<u8>)>, DevError>(Seq::empty()),
        DrmPrimeHandle::parse(drm_effect(DrmRequest::PrimeHandleToFd, s)) == (DrmPrimeHandle {
            handle: DrmPrimeHandle::parse(s).handle,
            flags: DrmPrimeHandle::parse(s).flags,
            fd: 1,
        }),
        drm_effect(DrmRequest::PrimeHandleToFd, s).len() == s.len(),
        drm_result(DrmRequest::GemFlink, s) == Err::<Seq<(u64, Seq<u8>)>, DevError>(DevError::NotFound),
        drm_effect(DrmRequest::GemFlink, s) == s,
        drm_result(DrmRequest::Version, s) is Ok,
{
    crate::records::lemma_drm_unique_round_trip(DrmUnique { unique_len: 0, ..DrmUnique::parse(s) }, s);
    crate::records::lemma_drm_prime_handle_round_trip(
        DrmPrimeHandle { fd: 1, ..DrmPrimeHandle::parse(s) },
        s,
    );
}

} // verus!
