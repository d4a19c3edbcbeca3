//! Power-up plan of the RK3588 NPU power domains.

use vstd::prelude::*;

verus! {

/// Physical base address of the RK3588 power management unit.
pub const RK3588_PMU_BASE: u64 = 0xfd8d8000;
/// Size of the power management unit's register window.
pub const RK3588_PMU_SIZE: usize = 0x1000;

/// The NPU-related RK3588 power domains.
#[derive(Debug, Clone, Copy, PartialEq, Eq, Structural)]
pub enum NpuDomain {
    /// The NPU main domain.
    Npu,
    /// The NPU top-level domain.
    NpuTop,
    /// NPU core 1.
    Npu1,
    /// NPU core 2.
    Npu2,
}

/// Power-domain number of a domain in the RK3588 power management unit.
pub open spec fn spec_domain_id(d: NpuDomain) -> usize {
    match d {
        NpuDomain::Npu => 8,
        NpuDomain::NpuTop => 9,
        NpuDomain::Npu1 => 10,
        NpuDomain::Npu2 => 11,
    }
}

/// Name of a domain as it appears in failure reports.
pub open spec fn spec_domain_name(d: NpuDomain) -> Seq<char> {
    match d {
        NpuDomain::Npu => "NPU"@,
        NpuDomain::NpuTop => "NPUTOP"@,
        NpuDomain::Npu1 => "NPU1"@,
        NpuDomain::Npu2 => "NPU2"@,
    }
}

impl NpuDomain {
    /// Power-domain number of the domain.
    pub fn id(&self) -> (r: usize)
        ensures
            r == spec_domain_id(*self),
    {
        match self {
            NpuDomain::Npu => 8,
            NpuDomain::NpuTop => 9,
            NpuDomain::Npu1 => 10,
            NpuDomain::Npu2 => 11,
        }
    }

    /// Name of the domain as it appears in failure reports.
    pub fn name(&self) -> (r: &'static str)
        ensures
            r@ == spec_domain_name(*self),
    {
        match self {
            NpuDomain::Npu => "NPU",
            NpuDomain::NpuTop => "NPUTOP",
            NpuDomain::Npu1 => "NPU1",
            NpuDomain::Npu2 => "NPU2",
        }
    }
}

/// The order in which the domains are switched on: the top-level domain
/// first, then the main domain, then the two cores.
pub open spec fn spec_power_on_order() -> Seq<NpuDomain> {
    seq![NpuDomain::NpuTop, NpuDomain::Npu, NpuDomain::Npu1, NpuDomain::Npu2]
}

/// Lists the domains in the order they must be switched on before the NPU's
/// registers are touched.
pub fn npu_power_on_order() -> (order: Vec<NpuDomain>)
    ensures
        order@ == spec_power_on_order(),
{
    let order: Vec<NpuDomain> = vec![NpuDomain::NpuTop, NpuDomain::Npu, NpuDomain::Npu1, NpuDomain::Npu2];
    proof {
        assert(order@ =~= spec_power_on_order());
    }
    order
}

/// Every NPU domain is switched on exactly once, and the top-level domain
/// comes before any other.
pub proof fn lemma_power_on_order_complete(d: NpuDomain)
    ensures
        spec_power_on_order().contains(d),
        forall|i: int, j: int|
            0 <= i < j < spec_power_on_order().len() ==> spec_power_on_order()[i] != spec_power_on_order()[j],
        spec_power_on_order()[0] == NpuDomain::NpuTop,
        forall|i: int|
            0 <= i < spec_power_on_order().len() ==> spec_domain_id(#[trigger] spec_power_on_order()[i]) >= 8
                && spec_domain_id(spec_power_on_order()[i]) <= 11,
{
    match d {
        NpuDomain::NpuTop => assert(spec_power_on_order()[0] == d),
        NpuDomain::Npu => assert(spec_power_on_order()[1] == d),
        NpuDomain::Npu1 => assert(spec_power_on_order()[2] == d),
        NpuDomain::Npu2 => assert(spec_power_on_order()[3] == d),
    }
}

} // verus!
