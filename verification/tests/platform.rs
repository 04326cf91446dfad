use technoir::audio::{fft_input, pick_stereo_frames, spectrum_slots, FRAME_STEP, SPECTRUM_SLOTS, SPECTRUM_WINDOW};
use technoir::files::{admit_package_file, bytes_eq_ignore_ascii_case, is_package_extension, split_file_size};
use technoir::screen::{
    bounds_from_rect, build_classname, device_names_match, display_device_name, normalize_origins, screen_name,
    ScreenBounds,
};
use technoir::surface::{
    acquire_action, begin_frame_action, client_extent, find_eight_bit_format, renderer_surface_format,
    select_alpha_mode, select_present_mode, window_surface_format, AcquireAction, CompositeAlphaMode,
    FrameAction, PresentMode, SurfaceExtent, SurfaceFormatKind, SurfaceStatus,
};
use technoir::texture::{image_texels, noise_texels, plan_texture_load, ImageLoadError, ImageTexelFormat, InvalidTextureSize, ResizeMode, ResizeStep, TextureSize};
use technoir::windowing::{
    manager_action, tray_menu_choice, wallpaper_action, ManagerAction, ManagerMessage, ManagerVisibility,
    TrayMenuChoice, TrayMouse, WallpaperAction, WallpaperMessage,
};

use SurfaceFormatKind::{Bgra8Unorm, Other, Rgba8Unorm};

#[test]
fn surface_format_choice() {
    assert_eq!(find_eight_bit_format(&[Other, Bgra8Unorm, Rgba8Unorm]), Some(1));
    assert_eq!(find_eight_bit_format(&[Other, Other]), None);
    assert_eq!(window_surface_format(&[Other, Rgba8Unorm]), 1);
    assert_eq!(window_surface_format(&[Other, Other]), 0);
    assert_eq!(renderer_surface_format(&[Bgra8Unorm, Rgba8Unorm]), 1);
    assert_eq!(renderer_surface_format(&[Bgra8Unorm, Other]), 0);
}

#[test]
fn present_and_alpha_mode_choice() {
    assert_eq!(select_present_mode(&[PresentMode::Fifo, PresentMode::Immediate, PresentMode::Mailbox]), PresentMode::Mailbox);
    assert_eq!(select_present_mode(&[PresentMode::Fifo, PresentMode::Immediate]), PresentMode::Immediate);
    assert_eq!(select_present_mode(&[PresentMode::FifoRelaxed]), PresentMode::Fifo);
    assert_eq!(select_present_mode(&[]), PresentMode::Fifo);
    assert_eq!(select_alpha_mode(&[CompositeAlphaMode::PreMultiplied, CompositeAlphaMode::Opaque]), CompositeAlphaMode::Opaque);
    assert_eq!(select_alpha_mode(&[CompositeAlphaMode::Inherit, CompositeAlphaMode::Auto]), CompositeAlphaMode::Inherit);
}

#[test]
fn frame_acquisition_decisions() {
    assert_eq!(begin_frame_action(SurfaceStatus::Success), FrameAction::Render);
    assert_eq!(begin_frame_action(SurfaceStatus::Suboptimal), FrameAction::ReconfigureAndRender);
    assert_eq!(begin_frame_action(SurfaceStatus::Outdated), FrameAction::ReconfigureAndSkip);
    assert_eq!(begin_frame_action(SurfaceStatus::Occluded), FrameAction::Skip);
    assert_eq!(acquire_action(SurfaceStatus::Suboptimal, false), AcquireAction::Use);
    assert_eq!(acquire_action(SurfaceStatus::Lost, false), AcquireAction::ReconfigureAndRetry);
    assert_eq!(acquire_action(SurfaceStatus::Lost, true), AcquireAction::GiveUp);
    assert_eq!(acquire_action(SurfaceStatus::Validation, false), AcquireAction::GiveUp);
}

#[test]
fn surface_resize_ignores_empty_sizes() {
    let mut extent = SurfaceExtent { width: 800, height: 600 };
    assert!(!extent.resize(0, 300));
    assert_eq!((extent.width(), extent.height()), (800, 600));
    assert!(extent.resize(1024, 768));
    assert_eq!((extent.width(), extent.height()), (1024, 768));
}

#[test]
fn client_extent_clamps_and_truncates() {
    assert_eq!(client_extent(0, 0, 800, 600), (800, 600));
    assert_eq!(client_extent(10, 10, 5, 5), (1, 1));
    assert_eq!(client_extent(0, 0, 70000, 1), (70000u32 as u16, 1));
}

#[test]
fn monitor_bounds() {
    assert_eq!(bounds_from_rect(-1920, 0, 0, 1080), ScreenBounds { x: -1920, y: 0, width: 1920, height: 1080 });
    assert_eq!(bounds_from_rect(100, 100, 50, 40), ScreenBounds { x: 100, y: 100, width: 50, height: 60 });
}

#[test]
fn screens_are_moved_to_the_origin() {
    let mut screens = vec![
        ScreenBounds { x: 0, y: 0, width: 2560, height: 1440 },
        ScreenBounds { x: -1920, y: 200, width: 1920, height: 1080 },
    ];
    normalize_origins(&mut screens);
    assert_eq!(screens[0], ScreenBounds { x: 1920, y: 0, width: 2560, height: 1440 });
    assert_eq!(screens[1], ScreenBounds { x: 0, y: 200, width: 1920, height: 1080 });
    let mut none: Vec<ScreenBounds> = Vec::new();
    normalize_origins(&mut none);
    assert!(none.is_empty());
}

#[test]
fn class_names() {
    let name = build_classname("DELL U2720Q");
    let expected: Vec<u16> = "TechNoirTarget DELL U2720Q".encode_utf16().collect();
    assert_eq!(&name[..expected.len()], &expected[..]);
    assert!(name[expected.len()..].iter().all(|&u| u == 0));
    let long = "x".repeat(200);
    let truncated = build_classname(&long);
    assert_eq!(truncated[94], 'x' as u16);
    assert_eq!(truncated[95], 0);
    let wide = build_classname("画面😀");
    let expected: Vec<u16> = "TechNoirTarget 画面😀".encode_utf16().collect();
    assert_eq!(&wide[..expected.len()], &expected[..]);
}

#[test]
fn device_name_comparison() {
    let a = [7u16; 32];
    let mut b = [7u16; 32];
    assert!(device_names_match(&a, &b));
    b[31] = 8;
    assert!(!device_names_match(&a, &b));
}

#[test]
fn texture_plans() {
    let image = TextureSize { width: 640, height: 480 };
    assert_eq!(plan_texture_load(image, Some(TextureSize { width: 0, height: 10 }), false, true), Err(InvalidTextureSize));
    let plan = plan_texture_load(image, Some(TextureSize { width: 100, height: 50 }), false, true).unwrap();
    assert_eq!(plan.resize, Some(ResizeStep { target: TextureSize { width: 100, height: 50 }, mode: ResizeMode::Fill }));
    assert_eq!(plan.size, TextureSize { width: 100, height: 50 });
    assert_eq!(plan.format, ImageTexelFormat::Rgba8Unorm);
    assert_eq!(plan.bytes_per_row, 400);
    let plan = plan_texture_load(image, None, true, false).unwrap();
    assert_eq!(plan.resize, None);
    assert_eq!(plan.size, image);
    assert_eq!(plan.format, ImageTexelFormat::R8Unorm);
    assert_eq!(plan.bytes_per_row, 640);
    let plan = plan_texture_load(image, Some(TextureSize { width: 3, height: 3 }), true, false).unwrap();
    assert_eq!(plan.resize.unwrap().mode, ResizeMode::Exact);
}

#[test]
fn noise_has_four_bytes_per_texel() {
    assert_eq!(noise_texels(4, 2).len(), 32);
    assert_eq!(noise_texels(0, 7).len(), 0);
}

#[test]
fn stereo_frames_are_decimated() {
    let samples: Vec<u32> = (0..20).collect();
    let (left, right) = pick_stereo_frames(&samples, 10);
    assert_eq!(left, vec![0, 8, 16]);
    assert_eq!(right, vec![1, 9, 17]);
    let many: Vec<u32> = (0..20000).collect();
    let (left, right) = pick_stereo_frames(&many, 10000);
    assert_eq!(left.len(), SPECTRUM_WINDOW);
    assert_eq!(right.len(), SPECTRUM_WINDOW);
    assert_eq!(left[1023], 1023 * 2 * FRAME_STEP as u32);
}

#[test]
fn fft_input_is_zero_padded() {
    assert_eq!(fft_input(&[3, 4], 4, 0), vec![3, 4, 0, 0]);
    assert_eq!(fft_input(&[1, 2, 3, 4, 5], 3, 0), vec![1, 2, 3]);
    let padded = fft_input(&[0.5f32], 2, 0.0);
    assert_eq!(padded, vec![0.5, 0.0]);
}

#[test]
fn manager_window_messages() {
    assert_eq!(manager_action(ManagerMessage::Tray(TrayMouse::LeftButtonUp), true), ManagerAction::ShowManager);
    assert_eq!(manager_action(ManagerMessage::Tray(TrayMouse::RightButtonUp), true), ManagerAction::ShowTrayMenu);
    assert_eq!(manager_action(ManagerMessage::Tray(TrayMouse::LeftButtonUp), false), ManagerAction::Ignore);
    assert_eq!(manager_action(ManagerMessage::Close, true), ManagerAction::HideManager);
    assert_eq!(manager_action(ManagerMessage::Close, false), ManagerAction::Default);
    assert_eq!(manager_action(ManagerMessage::Terminate, false), ManagerAction::Quit);
    assert_eq!(manager_action(ManagerMessage::Destroy, true), ManagerAction::Quit);
    assert_eq!(manager_action(ManagerMessage::Other, true), ManagerAction::Default);
    assert_eq!(tray_menu_choice(1), TrayMenuChoice::OpenManager);
    assert_eq!(tray_menu_choice(2), TrayMenuChoice::Terminate);
    assert_eq!(tray_menu_choice(0), TrayMenuChoice::Dismissed);
}

#[test]
fn manager_visibility() {
    let mut v = ManagerVisibility::new(false);
    assert!(v.show());
    assert!(!v.show());
    assert!(v.is_open);
    assert!(v.close());
    assert!(!v.close());
    assert!(!v.is_open);
}

#[test]
fn wallpaper_window_messages() {
    assert_eq!(wallpaper_action(WallpaperMessage::Terminate), WallpaperAction::DestroyWindow);
    assert_eq!(wallpaper_action(WallpaperMessage::Close), WallpaperAction::Ignore);
    assert_eq!(wallpaper_action(WallpaperMessage::Paint), WallpaperAction::Paint);
    assert_eq!(wallpaper_action(WallpaperMessage::Destroy), WallpaperAction::Quit);
    assert_eq!(wallpaper_action(WallpaperMessage::Other), WallpaperAction::Default);
}

#[test]
fn package_files() {
    assert!(is_package_extension(b"tnzip"));
    assert!(is_package_extension(b"TnZiP"));
    assert!(!is_package_extension(b"zip"));
    assert!(!is_package_extension(b"tnzip2"));
    assert!(bytes_eq_ignore_ascii_case(b"ABC", b"abc"));
    assert!(!bytes_eq_ignore_ascii_case(b"AB[", b"ab{"));
    assert_eq!(split_file_size(0x1_0000_0005), (1, 5));
    assert_eq!(split_file_size(u64::MAX), (u32::MAX, u32::MAX));
}

#[test]
fn display_names_are_decoded_and_trimmed() {
    let mut buf = [0u16; 16];
    for (i, u) in "DELL U2720Q".encode_utf16().enumerate() {
        buf[i] = u;
    }
    assert_eq!(display_device_name(&buf), "DELL U2720Q");
    assert_eq!(display_device_name(&[0, 0x41, 0, 0x42, 0]), "A\0B");
    assert_eq!(display_device_name(&[0; 8]), "");
    assert_eq!(display_device_name(&[]), "");
    assert_eq!(display_device_name(&[0x41, 0xD800, 0]), "A\u{fffd}");
    assert_eq!(display_device_name(&[0xD83D, 0xDE00, 0x41]), "\u{1F600}A");
    assert_eq!(display_device_name(&[0xDE00, 0xD83D]), "\u{fffd}\u{fffd}");
}

#[test]
fn screen_names_fall_back() {
    let friendly = Some("Friendly".to_string());
    let adapter = Some("Adapter".to_string());
    let device = "\\\\.\\DISPLAY1".to_string();
    assert_eq!(screen_name(friendly.clone(), adapter.clone(), device.clone()), "Friendly");
    assert_eq!(screen_name(None, adapter, device.clone()), "Adapter");
    assert_eq!(screen_name(None, None, device.clone()), device);
}

#[test]
fn spectrum_slot_count() {
    assert_eq!(SPECTRUM_SLOTS, 16);
    assert_eq!(spectrum_slots(64, 64), 16);
    assert_eq!(spectrum_slots(3, 10), 3);
    assert_eq!(spectrum_slots(10, 0), 0);
    assert_eq!(spectrum_slots(20, 12), 12);
}

#[test]
fn package_files_are_admitted_once() {
    let mut seen: rapidhash::RapidHashSet<Vec<u8>> = rapidhash::RapidHashSet::default();
    let path = b"C:\\plugins\\clock.tnzip".to_vec();
    assert!(!admit_package_file(&mut seen, false, Some(b"tnzip"), path.clone()));
    assert!(seen.is_empty());
    assert!(!admit_package_file(&mut seen, true, Some(b"zip"), path.clone()));
    assert!(!admit_package_file(&mut seen, true, None, path.clone()));
    assert!(seen.is_empty());
    assert!(admit_package_file(&mut seen, true, Some(b"TNZip"), path.clone()));
    assert!(!admit_package_file(&mut seen, true, Some(b"tnzip"), path.clone()));
    assert_eq!(seen.len(), 1);
    assert!(admit_package_file(&mut seen, true, Some(b"tnzip"), b"other.tnzip".to_vec()));
}

fn png(width: u32, height: u32) -> Vec<u8> {
    let mut img = image::RgbaImage::new(width, height);
    for (x, y, pixel) in img.enumerate_pixels_mut() {
        *pixel = image::Rgba([(x * 40) as u8, (y * 40) as u8, 200, 255]);
    }
    let mut out = std::io::Cursor::new(Vec::new());
    img.write_to(&mut out, image::ImageFormat::Png).unwrap();
    out.into_inner()
}

#[test]
fn image_files_become_texels() {
    let bytes = png(3, 2);

    let (plan, texels) = image_texels(&bytes, None, false, false).ok().expect("a png decodes");
    assert_eq!(plan.size, TextureSize { width: 3, height: 2 });
    assert_eq!(plan.bytes_per_row, 12);
    assert_eq!(texels.len(), 24);
    assert_eq!(&texels[4..8], &[40, 0, 200, 255]);

    let (plan, texels) = image_texels(&bytes, None, true, false).ok().expect("a png decodes");
    assert_eq!(plan.format, ImageTexelFormat::R8Unorm);
    assert_eq!(plan.bytes_per_row, 3);
    assert_eq!(texels.len(), 6);

    let target = TextureSize { width: 4, height: 4 };
    let (plan, texels) = image_texels(&bytes, Some(target), false, true).ok().expect("a png decodes");
    assert_eq!(plan.resize, Some(ResizeStep { target, mode: ResizeMode::Fill }));
    assert_eq!(texels.len(), 64);

    assert!(matches!(image_texels(&bytes, Some(TextureSize { width: 0, height: 4 }), false, true), Err(ImageLoadError::InvalidTextureSize)));
    assert!(matches!(image_texels(b"not an image", None, false, false), Err(ImageLoadError::Decode(_))));
    assert!(matches!(image_texels(&bytes, Some(TextureSize { width: 0x4000_0000, height: 1 }), false, false), Err(ImageLoadError::RowTooLarge)));
}
