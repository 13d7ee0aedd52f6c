use gamess9::extent::Extent;
use gamess9::swapchain::{
    create_swapchain, image_count, images_match, recreate, Format, PresentMode,
    SurfaceCapabilities, SwapchainCreateInfo, SwapchainImage,
};

fn caps(min: u32, max: Option<u32>) -> SurfaceCapabilities {
    SurfaceCapabilities { min_image_count: min, max_image_count: max }
}

#[test]
fn three_images_between_two_and_four() {
    assert_eq!(image_count(&caps(2, Some(4))), 3);
}

#[test]
fn four_images_when_surface_wants_exactly_four() {
    assert_eq!(image_count(&caps(4, Some(4))), 4);
}

#[test]
fn unbounded_surface_has_no_cap() {
    assert_eq!(image_count(&caps(1, None)), 3);
    assert_eq!(image_count(&caps(7, None)), 7);
    assert_eq!(image_count(&caps(u32::MAX, None)), u32::MAX);
}

#[test]
fn maximum_below_three_caps_the_count() {
    assert_eq!(image_count(&caps(1, Some(2))), 2);
    assert_eq!(image_count(&caps(1, Some(1))), 1);
}

#[test]
fn count_stays_within_every_consistent_surface() {
    for min in 0..12u32 {
        for max in min..12u32 {
            let count = image_count(&caps(min, Some(max)));
            assert!(min <= count && count <= max);
            if max >= 3 {
                assert_eq!(count, min.max(3));
            }
        }
        assert_eq!(image_count(&caps(min, None)), min.max(3));
    }
}

#[test]
fn extent_has_no_area_when_a_side_is_zero() {
    assert!(Extent::new(0, 600).is_zero_area());
    assert!(Extent::new(800, 0).is_zero_area());
    assert!(Extent::new(0, 0).is_zero_area());
    assert!(!Extent::new(1, 1).is_zero_area());
}

#[test]
fn first_swapchain_presents_immediately() {
    let info = create_swapchain(&caps(2, Some(4)), Format::B8G8R8A8Unorm, Extent::new(1280, 800));
    assert_eq!(
        info,
        SwapchainCreateInfo {
            min_image_count: 3,
            image_format: Format::B8G8R8A8Unorm,
            image_extent: Extent::new(1280, 800),
            color_attachment: true,
            present_mode: PresentMode::Immediate,
        }
    );
}

#[test]
fn recreation_changes_the_extent_only() {
    let current = SwapchainCreateInfo {
        min_image_count: 4,
        image_format: Format::B8G8R8A8Srgb,
        image_extent: Extent::new(1280, 800),
        color_attachment: true,
        present_mode: PresentMode::Fifo,
    };
    let next = recreate(&current, Extent::new(640, 480));
    assert_eq!(next, SwapchainCreateInfo { image_extent: Extent::new(640, 480), ..current });
    assert_eq!(recreate(&next, Extent::new(1280, 800)), current);
}

#[test]
fn images_match_only_when_all_have_the_extent() {
    let e = Extent::new(8, 6);
    let good = vec![SwapchainImage { handle: 1, extent: e }, SwapchainImage { handle: 2, extent: e }];
    assert!(images_match(&good, e));
    let bad = vec![
        SwapchainImage { handle: 1, extent: e },
        SwapchainImage { handle: 2, extent: Extent::new(8, 7) },
    ];
    assert!(!images_match(&bad, e));
    assert!(!images_match(&Vec::new(), e));
}
