use render_core::device::{
    desired_image_count, get_physical_device, PhysicalDeviceType, QueueFamilies, QueueFamily,
};

fn family(queue_count: u32, graphics: bool, transfer: bool) -> QueueFamily {
    QueueFamily { queue_count, graphics, transfer }
}

#[test]
fn no_family_gives_no_queue() {
    let chosen = QueueFamilies::init(&vec![]);
    assert_eq!(chosen, QueueFamilies { graphics_q_index: None, transfer_q_index: None });
}

#[test]
fn last_graphics_family_is_chosen() {
    let families = vec![
        family(16, true, true),
        family(2, false, false),
        family(8, true, false),
        family(1, false, false),
    ];
    let chosen = QueueFamilies::init(&families);
    assert_eq!(chosen.graphics_q_index, Some(2));
    assert_eq!(chosen.transfer_q_index, Some(0));
}

#[test]
fn last_dedicated_transfer_family_is_preferred() {
    let families = vec![
        family(16, true, true),
        family(2, false, true),
        family(8, true, true),
        family(1, false, true),
        family(4, true, true),
    ];
    let chosen = QueueFamilies::init(&families);
    assert_eq!(chosen.graphics_q_index, Some(4));
    assert_eq!(chosen.transfer_q_index, Some(3));
}

#[test]
fn first_transfer_family_is_chosen_where_none_is_dedicated() {
    let families = vec![family(1, true, false), family(16, true, true), family(8, true, true)];
    let chosen = QueueFamilies::init(&families);
    assert_eq!(chosen.graphics_q_index, Some(2));
    assert_eq!(chosen.transfer_q_index, Some(1));
}

#[test]
fn family_without_queues_is_passed_over() {
    let families = vec![family(1, true, true), family(0, true, true), family(0, false, true)];
    let chosen = QueueFamilies::init(&families);
    assert_eq!(chosen.graphics_q_index, Some(0));
    assert_eq!(chosen.transfer_q_index, Some(0));
    let none = QueueFamilies::init(&vec![family(0, true, true), family(3, false, false)]);
    assert_eq!(none, QueueFamilies { graphics_q_index: None, transfer_q_index: None });
}

#[test]
fn last_discrete_gpu_is_chosen() {
    let kinds = vec![
        PhysicalDeviceType::IntegratedGpu,
        PhysicalDeviceType::DiscreteGpu,
        PhysicalDeviceType::Cpu,
        PhysicalDeviceType::DiscreteGpu,
        PhysicalDeviceType::VirtualGpu,
    ];
    assert_eq!(get_physical_device(&kinds), Some(3));
    assert_eq!(get_physical_device(&vec![PhysicalDeviceType::DiscreteGpu]), Some(0));
}

#[test]
fn without_a_discrete_gpu_no_device_is_chosen() {
    let kinds = vec![
        PhysicalDeviceType::IntegratedGpu,
        PhysicalDeviceType::Other,
        PhysicalDeviceType::Cpu,
    ];
    assert_eq!(get_physical_device(&kinds), None);
    assert_eq!(get_physical_device(&vec![]), None);
}

#[test]
fn one_image_more_than_the_minimum_is_asked_for() {
    assert_eq!(desired_image_count(2, 8), 3);
    assert_eq!(desired_image_count(2, 3), 3);
    assert_eq!(desired_image_count(1, 0), 2);
    assert_eq!(desired_image_count(0, 0), 1);
}

#[test]
fn image_count_keeps_to_the_limit() {
    assert_eq!(desired_image_count(3, 3), 3);
    assert_eq!(desired_image_count(2, 2), 2);
    assert_eq!(desired_image_count(u32::MAX, 4), 4);
    assert_eq!(desired_image_count(u32::MAX, u32::MAX), u32::MAX);
    assert_eq!(desired_image_count(u32::MAX - 1, 0), u32::MAX);
}
