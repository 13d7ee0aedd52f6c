use gamess9::device::{
    device_filter_fn, device_priority_fn, get_device, get_physical_device, get_queue_indices,
    rate_device_suitability, DeviceKind, DeviceProfile, QueueFamily, SelectionError,
    DISCRETE_BONUS, RANKED_DIMENSIONS,
};

fn device(geometry_shader: bool, presentation: bool, kind: DeviceKind, max: u32) -> DeviceProfile {
    DeviceProfile { geometry_shader, presentation, kind, max_image_dimension: max }
}

fn family(queue_count: u32, graphics: bool, transfer: bool) -> QueueFamily {
    QueueFamily { queue_count, graphics, transfer }
}

#[test]
fn score_is_zero_without_geometry_shader() {
    let d = device(false, true, DeviceKind::DiscreteGpu, 16384);
    assert_eq!(rate_device_suitability(&d), 0);
}

#[test]
fn score_adds_bonus_for_discrete_gpu() {
    assert_eq!(DISCRETE_BONUS, 0x1_0000_0000);
    assert_eq!(
        rate_device_suitability(&device(true, true, DeviceKind::DiscreteGpu, 16384)),
        0x1_0000_4000
    );
    assert_eq!(rate_device_suitability(&device(true, true, DeviceKind::IntegratedGpu, 16384)), 16384);
    assert_eq!(rate_device_suitability(&device(true, true, DeviceKind::VirtualGpu, 7)), 7);
    assert_eq!(rate_device_suitability(&device(true, true, DeviceKind::Cpu, 0)), 0);
}

#[test]
fn score_does_not_overflow_at_the_largest_dimension() {
    let d = device(true, true, DeviceKind::DiscreteGpu, u32::MAX);
    assert_eq!(rate_device_suitability(&d), 0x1_FFFF_FFFF);
}

#[test]
fn discrete_bonus_outweighs_any_dimension() {
    let discrete = device(true, true, DeviceKind::DiscreteGpu, 8192);
    let integrated = device(true, true, DeviceKind::IntegratedGpu, 16384);
    assert!(rate_device_suitability(&discrete) > rate_device_suitability(&integrated));
    let smallest = device(true, true, DeviceKind::DiscreteGpu, 0);
    let largest = device(true, true, DeviceKind::IntegratedGpu, u32::MAX);
    assert!(rate_device_suitability(&smallest) > rate_device_suitability(&largest));
    assert!(device_priority_fn(&smallest) < device_priority_fn(&largest));
}

#[test]
fn dimension_decides_within_a_class() {
    for kind in [DeviceKind::DiscreteGpu, DeviceKind::IntegratedGpu, DeviceKind::Other] {
        let small = device(true, true, kind, 4096);
        let large = device(true, true, kind, 4097);
        assert!(rate_device_suitability(&large) > rate_device_suitability(&small));
    }
}

#[test]
fn priority_counts_down_from_the_maximum() {
    assert_eq!(device_priority_fn(&device(false, true, DeviceKind::DiscreteGpu, 4096)), u32::MAX);
    assert_eq!(device_priority_fn(&device(false, true, DeviceKind::Other, 0)), u32::MAX);
    assert_eq!(
        device_priority_fn(&device(true, true, DeviceKind::IntegratedGpu, 4096)),
        u32::MAX - 1 - 4096
    );
    assert_eq!(device_priority_fn(&device(true, true, DeviceKind::Cpu, 0)), u32::MAX - 1);
    assert_eq!(
        device_priority_fn(&device(true, true, DeviceKind::DiscreteGpu, 4096)),
        0x7FFF_FFFE - 4096
    );
    assert_eq!(device_priority_fn(&device(true, true, DeviceKind::DiscreteGpu, 0)), 0x7FFF_FFFE);
    assert_eq!(device_priority_fn(&device(true, true, DeviceKind::DiscreteGpu, u32::MAX)), 0);
    assert_eq!(
        device_priority_fn(&device(true, true, DeviceKind::IntegratedGpu, u32::MAX)),
        0x8000_0000
    );
}

#[test]
fn larger_dimension_ranks_first_within_a_class() {
    for kind in [DeviceKind::DiscreteGpu, DeviceKind::IntegratedGpu, DeviceKind::VirtualGpu] {
        let rank = |dimension: u32| device_priority_fn(&device(true, true, kind, dimension));
        assert!(rank(8193) < rank(8192));
        assert!(rank(4097) < rank(4096));
        assert!(rank(1) < rank(0));
        assert!(rank(RANKED_DIMENSIONS) < rank(RANKED_DIMENSIONS - 1));
    }
}

#[test]
fn ranks_tie_only_from_the_ranked_dimensions_on() {
    let rank = |dimension: u32| device_priority_fn(&device(true, true, DeviceKind::DiscreteGpu, dimension));
    assert_eq!(RANKED_DIMENSIONS, 0x7FFF_FFFE);
    assert_eq!(rank(RANKED_DIMENSIONS), rank(RANKED_DIMENSIONS + 1));
    assert_eq!(rank(RANKED_DIMENSIONS), rank(u32::MAX));
    assert_eq!(rank(0xFFFF_FFFF), rank(0xFFFF_FFFE));
    assert!(rank(0xFFFF_FFFF) < rank(RANKED_DIMENSIONS - 1));
}

#[test]
fn device_without_the_feature_ranks_after_every_other() {
    let without = device(false, true, DeviceKind::DiscreteGpu, u32::MAX);
    for kind in [DeviceKind::DiscreteGpu, DeviceKind::IntegratedGpu, DeviceKind::Other] {
        for dimension in [0, 1, 4096, u32::MAX] {
            assert!(
                device_priority_fn(&device(true, true, kind, dimension))
                    < device_priority_fn(&without)
            );
        }
    }
}

#[test]
fn discrete_gpu_wins_over_integrated_of_larger_dimension() {
    let candidates = vec![
        device(true, true, DeviceKind::IntegratedGpu, 16384),
        device(true, true, DeviceKind::DiscreteGpu, 8192),
        device(true, true, DeviceKind::IntegratedGpu, 32768),
    ];
    assert_eq!(get_physical_device(&candidates), Ok(1));
}

#[test]
fn integrated_gpu_wins_where_the_discrete_one_does_not_qualify() {
    let candidates = vec![
        device(true, false, DeviceKind::DiscreteGpu, 16384),
        device(false, true, DeviceKind::DiscreteGpu, 16384),
        device(true, true, DeviceKind::IntegratedGpu, 4096),
    ];
    assert_eq!(get_physical_device(&candidates), Ok(2));
}

#[test]
fn priority_reverses_the_order_of_scores() {
    let devices = [
        device(false, true, DeviceKind::DiscreteGpu, 16384),
        device(true, true, DeviceKind::IntegratedGpu, 4096),
        device(true, true, DeviceKind::IntegratedGpu, 16384),
        device(true, true, DeviceKind::DiscreteGpu, 4096),
        device(true, true, DeviceKind::DiscreteGpu, 16384),
    ];
    for a in devices.iter() {
        for b in devices.iter() {
            if rate_device_suitability(a) < rate_device_suitability(b) {
                assert!(device_priority_fn(a) >= device_priority_fn(b));
            }
            if rate_device_suitability(a) < rate_device_suitability(b) && a.geometry_shader {
                assert!(device_priority_fn(a) > device_priority_fn(b));
            }
        }
    }
}

#[test]
fn filter_wants_feature_and_presentation() {
    assert!(device_filter_fn(&device(true, true, DeviceKind::Other, 1)));
    assert!(!device_filter_fn(&device(true, false, DeviceKind::Other, 1)));
    assert!(!device_filter_fn(&device(false, true, DeviceKind::Other, 1)));
}

#[test]
fn discrete_gpu_wins_over_integrated_of_same_dimension() {
    let candidates = vec![
        device(true, true, DeviceKind::IntegratedGpu, 16384),
        device(true, true, DeviceKind::DiscreteGpu, 16384),
    ];
    assert_eq!(get_physical_device(&candidates), Ok(1));
}

#[test]
fn larger_dimension_breaks_ties_between_equal_kinds() {
    let candidates = vec![
        device(true, true, DeviceKind::DiscreteGpu, 8192),
        device(true, true, DeviceKind::DiscreteGpu, 16384),
        device(true, true, DeviceKind::DiscreteGpu, 4096),
    ];
    assert_eq!(get_physical_device(&candidates), Ok(1));
}

#[test]
fn first_seen_wins_among_equal_scores() {
    let candidates = vec![
        device(true, false, DeviceKind::DiscreteGpu, 16384),
        device(true, true, DeviceKind::DiscreteGpu, 16384),
        device(true, true, DeviceKind::DiscreteGpu, 16384),
    ];
    assert_eq!(get_physical_device(&candidates), Ok(1));
}

#[test]
fn device_that_cannot_present_is_passed_over() {
    let candidates = vec![
        device(true, false, DeviceKind::DiscreteGpu, 32768),
        device(true, true, DeviceKind::IntegratedGpu, 4096),
    ];
    assert_eq!(get_physical_device(&candidates), Ok(1));
}

#[test]
fn selection_fails_without_a_qualifying_device() {
    let candidates = vec![
        device(false, true, DeviceKind::DiscreteGpu, 16384),
        device(true, false, DeviceKind::DiscreteGpu, 16384),
    ];
    assert_eq!(get_physical_device(&candidates), Err(SelectionError::NoSuitableDevice));
    assert_eq!(get_physical_device(&Vec::new()), Err(SelectionError::NoSuitableDevice));
}

#[test]
fn transfer_only_family_is_preferred() {
    let families = vec![family(16, true, true), family(2, false, true), family(8, false, false)];
    assert_eq!(get_queue_indices(&families), Ok((0, 1)));
}

#[test]
fn last_transfer_only_family_is_taken() {
    let families = vec![
        family(1, false, true),
        family(16, true, true),
        family(2, false, true),
        family(4, true, true),
    ];
    assert_eq!(get_queue_indices(&families), Ok((3, 2)));
}

#[test]
fn first_transfer_family_serves_without_a_transfer_only_one() {
    let families = vec![family(1, true, false), family(16, true, true), family(4, true, true)];
    assert_eq!(get_queue_indices(&families), Ok((2, 1)));
}

#[test]
fn families_without_queues_are_ignored() {
    let families = vec![family(0, true, true), family(1, true, true), family(0, false, true)];
    assert_eq!(get_queue_indices(&families), Ok((1, 1)));
}

#[test]
fn queue_resolution_fails_without_graphics() {
    let families = vec![family(1, false, true)];
    assert_eq!(get_queue_indices(&families), Err(SelectionError::NoGraphicsQueue));
    assert_eq!(get_queue_indices(&Vec::new()), Err(SelectionError::NoGraphicsQueue));
}

#[test]
fn queue_resolution_fails_without_transfer() {
    let families = vec![family(1, true, false), family(0, false, true)];
    assert_eq!(get_queue_indices(&families), Err(SelectionError::NoTransferQueue));
}

#[test]
fn device_opens_both_families() {
    let families = vec![family(16, true, true), family(2, false, true)];
    let info = get_device(&families).unwrap();
    assert!(info.geometry_shader);
    assert!(info.khr_swapchain);
    assert_eq!(info.queue_families, vec![0, 1]);
    assert_eq!(info.graphics_queue, 0);
    assert_eq!(info.transfer_queue, 1);
}

#[test]
fn device_names_a_shared_family_once() {
    let families = vec![family(16, true, true)];
    let info = get_device(&families).unwrap();
    assert_eq!(info.queue_families, vec![0]);
    assert_eq!(info.graphics_queue, 0);
    assert_eq!(info.transfer_queue, 0);
}

#[test]
fn device_fails_as_queue_resolution_does() {
    assert_eq!(get_device(&vec![family(1, false, true)]), Err(SelectionError::NoGraphicsQueue));
    assert_eq!(get_device(&vec![family(1, true, false)]), Err(SelectionError::NoTransferQueue));
}
