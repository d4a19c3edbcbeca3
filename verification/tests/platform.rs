use rknpu_starry_adapter::devfs::{
    card0_system_device_id, card1_system_device_id, rknpu_device_id, rknpu_device_nodes, NodeOps, NodePath,
};
use rknpu_starry_adapter::irq::{IrqSlot, NPU_CORE_COUNT};
use rknpu_starry_adapter::power::{npu_power_on_order, NpuDomain, RK3588_PMU_BASE, RK3588_PMU_SIZE};
use rknpu_starry_adapter::waiter::{next_phase, wait_step, WaitAction, WaitPhase};

#[test]
fn device_words() {
    assert_eq!(rknpu_device_id(), 0xfb00);
    assert_eq!(card0_system_device_id(), 0xe200);
    assert_eq!(card1_system_device_id(), 0xe201);
}

#[test]
fn device_nodes() {
    let nodes = rknpu_device_nodes();
    assert_eq!(nodes.len(), 3);
    assert_eq!(nodes[0].path, NodePath::Rknpu);
    assert_eq!(nodes[0].path.dir(), None);
    assert_eq!(nodes[0].path.name(), "rknpu");
    assert_eq!(nodes[0].ops, NodeOps::Card1);
    assert_eq!(nodes[0].device_id, 0xfb00);
    assert_eq!(nodes[1].path.dir(), Some("dri"));
    assert_eq!(nodes[1].path.name(), "card0");
    assert_eq!(nodes[1].ops, NodeOps::Card0);
    assert_eq!(nodes[1].device_id, 0xe200);
    assert_eq!(nodes[2].path.dir(), Some("dri"));
    assert_eq!(nodes[2].path.name(), "card1");
    assert_eq!(nodes[2].ops, NodeOps::Card1);
    assert_eq!(nodes[2].device_id, 0xe201);
    for i in 0..3 {
        for j in (i + 1)..3 {
            assert_ne!(nodes[i].device_id, nodes[j].device_id);
        }
    }
}

#[test]
fn power_on_order() {
    let order = npu_power_on_order();
    assert_eq!(order, vec![NpuDomain::NpuTop, NpuDomain::Npu, NpuDomain::Npu1, NpuDomain::Npu2]);
    let ids: Vec<usize> = order.iter().map(|d| d.id()).collect();
    assert_eq!(ids, vec![9, 8, 10, 11]);
    let names: Vec<&str> = order.iter().map(|d| d.name()).collect();
    assert_eq!(names, vec!["NPUTOP", "NPU", "NPU1", "NPU2"]);
    assert_eq!(RK3588_PMU_BASE, 0xfd8d8000);
    assert_eq!(RK3588_PMU_SIZE, 0x1000);
}

#[test]
fn irq_slots() {
    let mut slot: IrqSlot<u32> = IrqSlot::empty();
    assert_eq!(slot.handler(), None);
    slot.install(4);
    assert_eq!(slot.handler(), Some(&4));

    slot.install(5);
    assert_eq!(slot.handler(), Some(&5));
    assert_eq!(NPU_CORE_COUNT, 3);
}

#[test]
fn waiter_rechecks_before_sleeping() {
    assert_eq!(wait_step(WaitPhase::Check, true), WaitAction::Finish);
    assert_eq!(wait_step(WaitPhase::Check, false), WaitAction::Listen);
    assert_eq!(next_phase(WaitAction::Listen), WaitPhase::Listening);
    assert_eq!(wait_step(WaitPhase::Listening, true), WaitAction::Finish);
    assert_eq!(wait_step(WaitPhase::Listening, false), WaitAction::Block);
    assert_eq!(next_phase(WaitAction::Block), WaitPhase::Check);
    assert_eq!(next_phase(WaitAction::Finish), WaitPhase::Check);
}
