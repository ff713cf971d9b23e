use img_render::{
    Aspect, DataLayout, Extent, FrontendEvent, ImageError, InputUniform, LoopAction, NoImage, State,
    SurfaceError, SurfaceSize, TextureManager, TextureUpload, WebImage, EFFECT_COUNT,
};

fn red_2x2() -> WebImage {
    let mut data = Vec::new();
    for _ in 0..4 {
        data.extend_from_slice(&[255, 0, 0, 255]);
    }
    WebImage { width: 2, height: 2, data }
}

fn blank(width: u32, height: u32) -> WebImage {
    WebImage { width, height, data: vec![0; (4 * width * height) as usize] }
}

fn start_state() -> State {
    State::new(SurfaceSize { width: 800, height: 600 })
}

#[test]
fn step_n_times_from_zero_is_n_mod_7() {
    let mut u = InputUniform::new(Aspect { width: 4, height: 3 });
    for n in 1..=30 {
        u.step();
        assert_eq!(u.effect(), n % EFFECT_COUNT);
    }
}

#[test]
fn seven_steps_return_to_start() {
    let mut u = InputUniform::new(Aspect { width: 4, height: 3 });
    assert_eq!(u.effect(), 0);
    assert_eq!(u.fill_mode(), 0);
    for _ in 0..7 {
        u.step();
    }
    assert_eq!(u.effect(), 0);
    assert_eq!(u.fill_mode(), 0);
}

#[test]
fn step_wraps_after_last_effect() {
    let mut u = InputUniform::new(Aspect { width: 1, height: 1 });
    for _ in 0..6 {
        u.step();
    }
    assert_eq!(u.effect(), 6);
    u.step();
    assert_eq!(u.effect(), 0);
}

#[test]
fn toggle_fill_twice_is_identity() {
    let mut u = InputUniform::new(Aspect { width: 16, height: 9 });
    u.toggle_fill();
    assert_eq!(u.fill_mode(), 1);
    u.toggle_fill();
    assert_eq!(u.fill_mode(), 0);
    u.toggle_fill();
    u.toggle_fill();
    assert_eq!(u.fill_mode(), 0);
}

#[test]
fn new_uniform_starts_without_image_ratio() {
    let u = InputUniform::new(Aspect { width: 16, height: 9 });
    assert_eq!(u.window_ratio(), Aspect { width: 16, height: 9 });
    assert_eq!(u.img_ratio(), Aspect { width: 0, height: 1 });
}

#[test]
fn red_image_refresh_sets_ratio_and_size() {
    let mut tex = TextureManager::new();
    let mut u = InputUniform::new(Aspect { width: 800, height: 600 });
    assert_eq!(tex.submit_image(red_2x2()), Ok(()));
    assert!(tex.is_dirty());
    let upload = tex.refresh(&mut u).expect("an upload is due");
    assert_eq!(upload.size, Extent { width: 2, height: 2, depth_or_array_layers: 1 });
    assert_eq!(upload.layout, DataLayout { offset: 0, bytes_per_row: Some(8), rows_per_image: Some(2) });
    assert_eq!(u.img_ratio(), Aspect { width: 2, height: 2 });
    assert_eq!(tex.get_dims(), (2, 2));
    assert!(!tex.is_dirty());
    let pixels = tex.get_pixels().expect("image is held");
    assert_eq!(pixels.len(), 16);
    assert_eq!(&pixels[0..4], &[255, 0, 0, 255]);
}

#[test]
fn refresh_ratio_is_width_over_height() {
    let mut tex = TextureManager::new();
    let mut u = InputUniform::new(Aspect { width: 1, height: 1 });
    tex.submit_image(blank(3, 5)).unwrap();
    let upload = tex.refresh(&mut u).unwrap();
    assert_eq!(u.img_ratio(), Aspect { width: 3, height: 5 });
    assert_eq!(
        upload,
        TextureUpload {
            size: Extent { width: 3, height: 5, depth_or_array_layers: 1 },
            layout: DataLayout { offset: 0, bytes_per_row: Some(12), rows_per_image: Some(5) },
        }
    );
    assert_eq!(u.effect(), 0);
    assert_eq!(u.window_ratio(), Aspect { width: 1, height: 1 });
}

#[test]
fn no_image_reports_unit_dims_and_refresh_does_nothing() {
    let mut tex = TextureManager::new();
    let mut u = InputUniform::new(Aspect { width: 4, height: 3 });
    assert_eq!(tex.get_dims(), (1, 1));
    assert_eq!(tex.get_texture_size(), Extent { width: 1, height: 1, depth_or_array_layers: 1 });
    assert_eq!(tex.image_data_layout(), DataLayout { offset: 0, bytes_per_row: Some(4), rows_per_image: Some(1) });
    assert!(!tex.is_dirty());
    assert_eq!(tex.refresh(&mut u), None);
    assert!(!tex.is_dirty());
    assert_eq!(u.img_ratio(), Aspect { width: 0, height: 1 });
}

#[test]
fn pixels_without_image_is_no_image() {
    let tex = TextureManager::new();
    assert_eq!(tex.get_pixels(), Err(NoImage));
}

#[test]
fn short_buffer_is_refused() {
    let mut tex = TextureManager::new();
    let img = WebImage { width: 2, height: 2, data: vec![0; 15] };
    assert_eq!(img.validate(), Err(ImageError::LengthMismatch));
    assert_eq!(tex.submit_image(img), Err(ImageError::LengthMismatch));
    assert!(!tex.is_dirty());
    assert_eq!(tex.get_dims(), (1, 1));
}

#[test]
fn long_buffer_is_refused() {
    let img = WebImage { width: 2, height: 2, data: vec![0; 17] };
    assert_eq!(img.validate(), Err(ImageError::LengthMismatch));
}

#[test]
fn zero_dimension_is_refused() {
    let img = WebImage { width: 0, height: 3, data: Vec::new() };
    assert_eq!(img.validate(), Err(ImageError::ZeroDimension));
    let img = WebImage { width: 3, height: 0, data: Vec::new() };
    assert_eq!(img.validate(), Err(ImageError::ZeroDimension));
}

#[test]
fn refused_image_keeps_previous_one() {
    let mut tex = TextureManager::new();
    let mut u = InputUniform::new(Aspect { width: 1, height: 1 });
    tex.submit_image(blank(4, 2)).unwrap();
    tex.refresh(&mut u).unwrap();
    let bad = WebImage { width: 8, height: 8, data: vec![0; 3] };
    assert_eq!(tex.submit_image(bad), Err(ImageError::LengthMismatch));
    assert_eq!(tex.get_dims(), (4, 2));
    assert!(!tex.is_dirty());
}

#[test]
fn new_image_replaces_old_one_wholesale() {
    let mut tex = TextureManager::new();
    let mut u = InputUniform::new(Aspect { width: 1, height: 1 });
    tex.submit_image(blank(4, 2)).unwrap();
    tex.submit_image(red_2x2()).unwrap();
    let upload = tex.refresh(&mut u).unwrap();
    assert_eq!(upload.size.width, 2);
    assert_eq!(u.img_ratio(), Aspect { width: 2, height: 2 });
}

#[test]
fn surface_lost_reconfigures_at_current_size() {
    let mut s = start_state();
    assert_eq!(
        s.present_outcome(Err(SurfaceError::Lost)),
        LoopAction::Reconfigure(SurfaceSize { width: 800, height: 600 })
    );
    assert!(s.is_running());
    assert_eq!(s.present_outcome(Ok(())), LoopAction::Continue);
    assert!(s.is_running());
}

#[test]
fn out_of_memory_terminates() {
    let mut s = start_state();
    assert_eq!(s.present_outcome(Err(SurfaceError::OutOfMemory)), LoopAction::Exit);
    assert!(!s.is_running());
}

#[test]
fn other_present_errors_skip_the_frame() {
    let mut s = start_state();
    assert_eq!(s.present_outcome(Err(SurfaceError::Timeout)), LoopAction::Skip(SurfaceError::Timeout));
    assert_eq!(s.present_outcome(Err(SurfaceError::Outdated)), LoopAction::Skip(SurfaceError::Outdated));
    assert!(s.is_running());
}

#[test]
fn resize_ignores_zero_sides() {
    let mut s = start_state();
    assert!(!s.resize(SurfaceSize { width: 0, height: 100 }));
    assert!(!s.resize(SurfaceSize { width: 100, height: 0 }));
    assert_eq!(s.size(), SurfaceSize { width: 800, height: 600 });
    assert!(s.resize(SurfaceSize { width: 1024, height: 768 }));
    assert_eq!(s.size(), SurfaceSize { width: 1024, height: 768 });
    assert_eq!(
        s.present_outcome(Err(SurfaceError::Lost)),
        LoopAction::Reconfigure(SurfaceSize { width: 1024, height: 768 })
    );
}

#[test]
fn events_drive_uniform_and_texture() {
    let mut s = start_state();
    assert_eq!(s.uniform().window_ratio(), Aspect { width: 800, height: 600 });
    assert_eq!(s.handle_event(FrontendEvent::STEP), Ok(()));
    assert_eq!(s.handle_event(FrontendEvent::STEP), Ok(()));
    assert_eq!(s.handle_event(FrontendEvent::FILL_MODE), Ok(()));
    assert_eq!(s.handle_event(FrontendEvent::NEW_COLORS), Ok(()));
    assert_eq!(s.uniform().effect(), 2);
    assert_eq!(s.uniform().fill_mode(), 1);
    assert_eq!(s.update(), None);
    assert_eq!(s.handle_event(FrontendEvent::NewImage(red_2x2())), Ok(()));
    assert!(s.textures().is_dirty());
    let upload = s.update().expect("an upload is due");
    assert_eq!(upload.size, Extent { width: 2, height: 2, depth_or_array_layers: 1 });
    assert_eq!(s.uniform().img_ratio(), Aspect { width: 2, height: 2 });
    assert_eq!(s.uniform().effect(), 2);
    assert_eq!(s.update(), None);
}

#[test]
fn bad_image_event_reports_error() {
    let mut s = start_state();
    let img = WebImage { width: 1, height: 1, data: vec![1, 2, 3] };
    assert_eq!(s.handle_event(FrontendEvent::NewImage(img)), Err(ImageError::LengthMismatch));
    assert!(!s.textures().is_dirty());
    assert_eq!(s.update(), None);
}
