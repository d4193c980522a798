use image::DynamicImage;
use quad_renderer::console::Command;
use quad_renderer::gpu::{Color, Extent3d, PhysicalSize, Rgb, CHANNEL_ONE};
use quad_renderer::host::{
    advance_texture, HostEvent, Key, Reaction, SharedState, EXIT_NORMAL, EXIT_OUT_OF_MEMORY,
};
use quad_renderer::renderer::{LoadOp, Renderer, SurfaceError};
use quad_renderer::texture::{ImageTexture, TextureError};

fn png(width: u32, height: u32) -> Vec<u8> {
    let mut out = std::io::Cursor::new(Vec::new());
    DynamicImage::new_rgba8(width, height)
        .write_to(&mut out, image::ImageOutputFormat::Png)
        .unwrap();
    out.into_inner()
}

fn state(textures: usize) -> SharedState<u8> {
    let texture = ImageTexture::from_image(DynamicImage::new_rgba8(4, 4)).unwrap();
    let (renderer, _) = Renderer::with_texture(
        PhysicalSize { width: 640, height: 480 },
        1,
        &texture,
        String::from("shader"),
    );
    SharedState::new(renderer, textures)
}

#[test]
fn advance_texture_steps_and_wraps() {
    assert_eq!(advance_texture(0, 2), 1);
    assert_eq!(advance_texture(1, 2), 0);
    assert_eq!(advance_texture(0, 1), 0);
    assert_eq!(advance_texture(3, 5), 4);
    assert_eq!(advance_texture(4, 5), 0);
    assert_eq!(advance_texture(7, 5), 3);
    assert_eq!(advance_texture(usize::MAX, 4), 0);
    assert_eq!(advance_texture(usize::MAX - 1, usize::MAX), 0);
}

#[test]
fn as_many_advances_as_textures_return_to_the_start() {
    for count in 1..8 {
        for start in 0..count {
            let mut index = start;
            for _ in 0..count {
                index = advance_texture(index, count);
            }
            assert_eq!(index, start);
        }
    }
}

#[test]
fn space_asks_for_the_next_texture_round_the_list() {
    let mut state = state(3);
    assert_eq!(state.texture_index(), 0);
    let mut asked = Vec::new();
    for _ in 0..3 {
        match state.handle(HostEvent::KeyPressed(Key::Space)) {
            Reaction::LoadTexture { index } => asked.push(index),
            other => panic!("unexpected reaction {:?}", other),
        }
    }
    assert_eq!(asked, vec![1, 2, 0]);
    assert_eq!(state.texture_index(), 0);
}

#[test]
fn other_keys_and_events_do_nothing() {
    let mut state = state(2);
    assert_eq!(state.handle(HostEvent::KeyPressed(Key::Other)), Reaction::Idle);
    assert_eq!(state.handle(HostEvent::Other), Reaction::Idle);
    assert_eq!(state.texture_index(), 0);
}

#[test]
fn cleared_events_ask_for_a_redraw() {
    assert_eq!(state(2).handle(HostEvent::MainEventsCleared), Reaction::RequestRedraw);
}

#[test]
fn close_exits_normally() {
    assert_eq!(EXIT_NORMAL, 0);
    assert_eq!(state(2).handle(HostEvent::CloseRequested), Reaction::Exit { code: 0 });
}

#[test]
fn redraw_presents_the_frame() {
    let mut state = state(2);
    let frame = state.renderer().frame();
    assert_eq!(
        state.handle(HostEvent::RedrawRequested { acquired: Ok(()) }),
        Reaction::Present(frame)
    );
}

#[test]
fn lost_surface_is_configured_again_at_the_same_size() {
    let mut state = state(2);
    let config = state.renderer().config();
    assert_eq!(
        state.handle(HostEvent::RedrawRequested { acquired: Err(SurfaceError::Lost) }),
        Reaction::Configure(config)
    );
    assert_eq!(state.renderer().config(), config);
}

#[test]
fn out_of_memory_exits_with_code_one() {
    assert_eq!(EXIT_OUT_OF_MEMORY, 1);
    assert_eq!(
        state(2).handle(HostEvent::RedrawRequested { acquired: Err(SurfaceError::OutOfMemory) }),
        Reaction::Exit { code: 1 }
    );
}

#[test]
fn other_surface_failures_are_reported() {
    for error in [SurfaceError::Timeout, SurfaceError::Outdated] {
        assert_eq!(
            state(2).handle(HostEvent::RedrawRequested { acquired: Err(error) }),
            Reaction::Report(error)
        );
    }
}

#[test]
fn resize_events_configure_the_surface() {
    let mut state = state(2);
    let size = PhysicalSize { width: 800, height: 600 };
    let reaction = state.handle(HostEvent::Resized(size));
    assert_eq!(state.renderer().size(), size);
    assert_eq!(reaction, Reaction::Configure(state.renderer().config()));

    let scaled = PhysicalSize { width: 1600, height: 1200 };
    let reaction = state.handle(HostEvent::ScaleFactorChanged { new_inner_size: scaled });
    assert_eq!(state.renderer().size(), scaled);
    assert_eq!(reaction, Reaction::Configure(state.renderer().config()));
}

#[test]
fn resize_events_with_a_zero_side_are_ignored() {
    let mut state = state(2);
    let config = state.renderer().config();
    let zero = PhysicalSize { width: 0, height: 0 };
    assert_eq!(state.handle(HostEvent::Resized(zero)), Reaction::Idle);
    assert_eq!(
        state.handle(HostEvent::ScaleFactorChanged { new_inner_size: zero }),
        Reaction::Idle
    );
    assert_eq!(state.renderer().config(), config);
}

#[test]
fn commands_change_the_clear_color_or_exit() {
    let mut state = state(2);
    let green = Rgb { r: 0, g: CHANNEL_ONE, b: 0 };
    assert_eq!(state.run_command(Command::SetClearColor(green)), Reaction::Idle);
    assert_eq!(
        state.renderer().frame().load,
        LoadOp::Clear(Color { r: 0, g: CHANNEL_ONE, b: 0, a: CHANNEL_ONE })
    );
    assert_eq!(state.run_command(Command::Ignored), Reaction::Idle);
    assert_eq!(
        state.renderer().background_color(),
        Color { r: 0, g: CHANNEL_ONE, b: 0, a: CHANNEL_ONE }
    );
    assert_eq!(state.run_command(Command::Exit), Reaction::Exit { code: 0 });
}

#[test]
fn loaded_texture_becomes_the_diffuse_texture() {
    let mut state = state(2);
    assert_eq!(
        state.handle(HostEvent::KeyPressed(Key::Space)),
        Reaction::LoadTexture { index: 1 }
    );
    let group = state.set_texture(&png(12, 6)).unwrap();
    let extent = Extent3d { width: 12, height: 6, depth_or_array_layers: 1 };
    assert_eq!(group.upload.size, extent);
    assert_eq!(state.renderer().diffuse_texture(), extent);
    assert_eq!(state.texture_index(), 1);
}

#[test]
fn texture_that_fails_to_load_leaves_the_old_one() {
    let mut state = state(2);
    assert_eq!(state.set_texture(b"").err(), Some(TextureError::Decode));
    assert_eq!(
        state.renderer().diffuse_texture(),
        Extent3d { width: 4, height: 4, depth_or_array_layers: 1 }
    );
}
