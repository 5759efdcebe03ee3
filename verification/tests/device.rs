use dot_engine::device::{
    first_fitting_family, select_device, DeviceInfo, DeviceKind, QueueFamily, Selection,
};

fn family(compute: bool, presents: bool) -> QueueFamily {
    QueueFamily { compute, presents }
}

fn device(kind: DeviceKind, has_extensions: bool, families: Vec<QueueFamily>) -> DeviceInfo {
    DeviceInfo { kind, has_extensions, families }
}

fn plain(kind: DeviceKind) -> DeviceInfo {
    device(kind, true, vec![family(true, true)])
}

#[test]
fn kinds_are_ranked_in_the_order_of_preference() {
    assert_eq!(DeviceKind::DiscreteGpu.preference(), 0);
    assert_eq!(DeviceKind::IntegratedGpu.preference(), 1);
    assert_eq!(DeviceKind::VirtualGpu.preference(), 2);
    assert_eq!(DeviceKind::Cpu.preference(), 3);
    assert_eq!(DeviceKind::Other.preference(), 4);
    assert_eq!(DeviceKind::Unlisted.preference(), 5);
}

#[test]
fn first_fitting_family_skips_families_that_lack_either() {
    let families =
        vec![family(true, false), family(false, true), family(false, false), family(true, true)];
    assert_eq!(first_fitting_family(&families), Some(3));
}

#[test]
fn first_fitting_family_takes_the_first_of_several() {
    let families = vec![family(false, true), family(true, true), family(true, true)];
    assert_eq!(first_fitting_family(&families), Some(1));
}

#[test]
fn first_fitting_family_of_none() {
    assert_eq!(first_fitting_family(&vec![]), None);
    assert_eq!(first_fitting_family(&vec![family(true, false), family(false, true)]), None);
}

#[test]
fn no_device_no_selection() {
    assert_eq!(select_device(&vec![]), None);
}

#[test]
fn device_without_the_extensions_is_passed_over() {
    let devices = vec![device(DeviceKind::DiscreteGpu, false, vec![family(true, true)])];
    assert_eq!(select_device(&devices), None);
}

#[test]
fn device_without_a_fitting_family_is_passed_over() {
    let devices = vec![
        device(DeviceKind::DiscreteGpu, true, vec![family(true, false), family(false, true)]),
        device(DeviceKind::IntegratedGpu, true, vec![]),
    ];
    assert_eq!(select_device(&devices), None);
}

#[test]
fn discrete_gpu_is_preferred_to_all_others() {
    let devices = vec![
        plain(DeviceKind::Unlisted),
        plain(DeviceKind::Other),
        plain(DeviceKind::Cpu),
        plain(DeviceKind::VirtualGpu),
        plain(DeviceKind::IntegratedGpu),
        plain(DeviceKind::DiscreteGpu),
    ];
    assert_eq!(select_device(&devices), Some(Selection { device: 5, family: 0 }));
}

#[test]
fn each_kind_is_preferred_to_the_next() {
    let order = [
        DeviceKind::DiscreteGpu,
        DeviceKind::IntegratedGpu,
        DeviceKind::VirtualGpu,
        DeviceKind::Cpu,
        DeviceKind::Other,
        DeviceKind::Unlisted,
    ];
    for pair in order.windows(2) {
        let worse_first = vec![plain(pair[1]), plain(pair[0])];
        assert_eq!(select_device(&worse_first), Some(Selection { device: 1, family: 0 }));
        let better_first = vec![plain(pair[0]), plain(pair[1])];
        assert_eq!(select_device(&better_first), Some(Selection { device: 0, family: 0 }));
    }
}

#[test]
fn first_of_equal_kind_is_taken() {
    let devices = vec![
        plain(DeviceKind::Cpu),
        plain(DeviceKind::IntegratedGpu),
        plain(DeviceKind::IntegratedGpu),
    ];
    assert_eq!(select_device(&devices), Some(Selection { device: 1, family: 0 }));
}

#[test]
fn unsuitable_discrete_gpu_loses_to_a_suitable_cpu() {
    let devices = vec![
        device(DeviceKind::DiscreteGpu, false, vec![family(true, true)]),
        device(DeviceKind::DiscreteGpu, true, vec![family(true, false)]),
        device(DeviceKind::Cpu, true, vec![family(false, false), family(true, true)]),
    ];
    assert_eq!(select_device(&devices), Some(Selection { device: 2, family: 1 }));
}

#[test]
fn selection_names_the_first_fitting_family_of_the_device() {
    let devices = vec![device(
        DeviceKind::IntegratedGpu,
        true,
        vec![family(false, true), family(true, false), family(true, true), family(true, true)],
    )];
    assert_eq!(select_device(&devices), Some(Selection { device: 0, family: 2 }));
}
