use rust_vrender::swapchain::{
    choose_extent, choose_image_count, choose_surface_format, plan_swapchain, Extent2d,
    SurfaceCaps, SurfaceFormat, COLOR_SPACE_SRGB_NONLINEAR, COMPOSITE_ALPHA_OPAQUE,
    EXTENT_UNDEFINED, FORMAT_B8G8R8A8_SRGB, IMAGE_USAGE_COLOR_ATTACHMENT, PRESENT_MODE_FIFO,
    SHARING_MODE_EXCLUSIVE,
};

fn caps_with(min_count: u32, max_count: u32, current: Extent2d) -> SurfaceCaps {
    SurfaceCaps {
        min_image_count: min_count,
        max_image_count: max_count,
        current_extent: current,
        min_image_extent: Extent2d { width: 1, height: 1 },
        max_image_extent: Extent2d {
            width: 4096,
            height: 4096,
        },
        current_transform: 0,
    }
}

#[test]
fn format_picks_preferred_pair() {
    let formats = vec![
        SurfaceFormat {
            format: 37,
            color_space: 0,
        },
        SurfaceFormat {
            format: FORMAT_B8G8R8A8_SRGB,
            color_space: COLOR_SPACE_SRGB_NONLINEAR,
        },
        SurfaceFormat {
            format: 44,
            color_space: 0,
        },
    ];
    let chosen = choose_surface_format(&formats);
    assert_eq!(chosen.format, FORMAT_B8G8R8A8_SRGB);
    assert_eq!(chosen.color_space, COLOR_SPACE_SRGB_NONLINEAR);
}

#[test]
fn format_falls_back_to_first_entry() {
    let formats = vec![
        SurfaceFormat {
            format: 44,
            color_space: 0,
        },
        SurfaceFormat {
            format: 37,
            color_space: 0,
        },
    ];
    let chosen = choose_surface_format(&formats);
    assert_eq!(
        chosen,
        SurfaceFormat {
            format: 44,
            color_space: 0,
        }
    );
}

#[test]
fn extent_uses_surface_report_verbatim() {
    let caps = caps_with(
        2,
        0,
        Extent2d {
            width: 1280,
            height: 720,
        },
    );
    let extent = choose_extent(
        &caps,
        Extent2d {
            width: 800,
            height: 600,
        },
    );
    assert_eq!(
        extent,
        Extent2d {
            width: 1280,
            height: 720,
        }
    );
}

#[test]
fn extent_clamps_window_size_on_sentinel() {
    let mut caps = caps_with(
        2,
        0,
        Extent2d {
            width: EXTENT_UNDEFINED,
            height: EXTENT_UNDEFINED,
        },
    );
    caps.min_image_extent = Extent2d {
        width: 100,
        height: 100,
    };
    caps.max_image_extent = Extent2d {
        width: 1000,
        height: 500,
    };
    let extent = choose_extent(
        &caps,
        Extent2d {
            width: 50,
            height: 600,
        },
    );
    assert_eq!(
        extent,
        Extent2d {
            width: 100,
            height: 500,
        }
    );
    let inside = choose_extent(
        &caps,
        Extent2d {
            width: 800,
            height: 300,
        },
    );
    assert_eq!(
        inside,
        Extent2d {
            width: 800,
            height: 300,
        }
    );
}

#[test]
fn image_count_is_min_plus_one_when_unbounded() {
    let caps = caps_with(
        2,
        0,
        Extent2d {
            width: 640,
            height: 480,
        },
    );
    assert_eq!(choose_image_count(&caps), 3);
}

#[test]
fn image_count_clamps_to_bounded_maximum() {
    let caps = caps_with(
        2,
        3,
        Extent2d {
            width: 640,
            height: 480,
        },
    );
    assert_eq!(choose_image_count(&caps), 3);
    let tight = caps_with(
        3,
        3,
        Extent2d {
            width: 640,
            height: 480,
        },
    );
    assert_eq!(choose_image_count(&tight), 3);
    let roomy = caps_with(
        2,
        8,
        Extent2d {
            width: 640,
            height: 480,
        },
    );
    assert_eq!(choose_image_count(&roomy), 3);
}

#[test]
fn end_to_end_negotiation_scenario() {
    let caps = SurfaceCaps {
        min_image_count: 2,
        max_image_count: 0,
        current_extent: Extent2d {
            width: u32::MAX,
            height: u32::MAX,
        },
        min_image_extent: Extent2d { width: 1, height: 1 },
        max_image_extent: Extent2d {
            width: 4096,
            height: 4096,
        },
        current_transform: 0,
    };
    let formats = vec![SurfaceFormat {
        format: 37,
        color_space: 0,
    }];
    let plan = plan_swapchain(
        &caps,
        &formats,
        Extent2d {
            width: 800,
            height: 600,
        },
    );
    assert_eq!(plan.image_count, 3);
    assert_eq!(
        plan.extent,
        Extent2d {
            width: 800,
            height: 600,
        }
    );
    assert_eq!(
        plan.format,
        SurfaceFormat {
            format: 37,
            color_space: 0,
        }
    );
    assert_eq!(plan.present_mode, PRESENT_MODE_FIFO);
    assert_eq!(plan.sharing_mode, SHARING_MODE_EXCLUSIVE);
    assert_eq!(plan.image_usage, IMAGE_USAGE_COLOR_ATTACHMENT);
    assert_eq!(plan.composite_alpha, COMPOSITE_ALPHA_OPAQUE);
    assert_eq!(plan.image_array_layers, 1);
    assert!(plan.clipped);
}
