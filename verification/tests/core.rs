use pixelgrid::app::{Action, App, Phase, WindowEvent};
use pixelgrid::{
    physical_to_pixel_pos, pixel_pos_to_index, BufferError, PixelBuffer, PixelBufferSize,
    PixelPosition, Rgba, WindowSize,
};

const RED: Rgba = Rgba { r: 255, g: 0, b: 0, a: 255 };

fn buffer_50x30_red() -> PixelBuffer {
    PixelBuffer::new(50, 30, RED)
}

#[test]
fn new_fills_buffer() {
    let buf = buffer_50x30_red();
    let bytes = buf.read_all();
    assert_eq!(bytes.len(), 50 * 30 * 4);
    for i in 0..(50 * 30) {
        assert_eq!(bytes[4 * i], 255);
        assert_eq!(bytes[4 * i + 1], 0);
        assert_eq!(bytes[4 * i + 2], 0);
        assert_eq!(bytes[4 * i + 3], 255);
    }
}

#[test]
fn center_maps_to_buffer_center() {
    let ws = WindowSize { width: 800, height: 600 };
    let bs = PixelBufferSize { width: 50, height: 30 };
    let mapped = physical_to_pixel_pos(400, 300, ws, bs);
    assert_eq!(mapped, Some(PixelPosition { x: 25, y: 15 }));
}

#[test]
fn letterbox_margin_returns_none() {
    // Window 800x600, buffer 50x30: scale = max(16, 20) = 20, display 40x30,
    // so pointer x in [720, 800) lands past the display's right edge.
    let ws = WindowSize { width: 800, height: 600 };
    let bs = PixelBufferSize { width: 50, height: 30 };
    assert_eq!(physical_to_pixel_pos(721, 300, ws, bs), None);
    assert_eq!(physical_to_pixel_pos(799, 599, ws, bs), None);
    // Just inside the display still maps.
    assert!(physical_to_pixel_pos(719, 300, ws, bs).is_some());
}

#[test]
fn edge_coordinate_tolerated() {
    // At scale 1 the exact right edge maps to x == buffer width: accepted by
    // the boundary check, rejected by any subsequent bounds-checked write.
    let ws = WindowSize { width: 50, height: 30 };
    let bs = PixelBufferSize { width: 50, height: 30 };
    assert_eq!(
        physical_to_pixel_pos(50, 10, ws, bs),
        Some(PixelPosition { x: 50, y: 10 })
    );
}

#[test]
fn pixel_offsets_injective() {
    let bs = PixelBufferSize { width: 50, height: 30 };
    let mut offsets = Vec::new();
    for y in 0..30 {
        for x in 0..50 {
            offsets.push(pixel_pos_to_index(PixelPosition { x, y }, bs));
        }
    }
    let mut sorted = offsets.clone();
    sorted.sort_unstable();
    sorted.dedup();
    assert_eq!(sorted.len(), offsets.len());
}

#[test]
fn pixel_pos_to_index_formula() {
    let bs = PixelBufferSize { width: 50, height: 30 };
    assert_eq!(pixel_pos_to_index(PixelPosition { x: 0, y: 0 }, bs), 0);
    assert_eq!(
        pixel_pos_to_index(PixelPosition { x: 10, y: 10 }, bs),
        (10 + 10 * 50) * 4
    );
    assert_eq!(pixel_pos_to_index(PixelPosition { x: 49, y: 29 }, bs), 5996);
}

#[test]
fn resume_twice_single_backend() {
    let mut app = App::new(buffer_50x30_red());
    assert!(app.needs_backend());
    let first = app.resumed(WindowSize { width: 800, height: 600 });
    assert!(first);
    assert_eq!(app.controller.phase, Phase::Ready);
    let ready = app.controller;
    let second = app.resumed(WindowSize { width: 1024, height: 768 });
    assert!(!second);
    assert!(!app.needs_backend());
    assert_eq!(app.controller, ready);
}

#[test]
fn zero_resize_keeps_config() {
    let mut app = App::new(buffer_50x30_red());
    app.resumed(WindowSize { width: 800, height: 600 });
    let act = app.window_event(WindowEvent::Resized(WindowSize { width: 0, height: 0 }));
    assert_eq!(act, Action::RequestRedraw);
    assert_eq!(app.controller.config_size, WindowSize { width: 800, height: 600 });
    // A redraw after the ignored resize still renders.
    assert_eq!(app.window_event(WindowEvent::RedrawRequested), Action::RenderFrame);
}

#[test]
fn pointer_paints_cyan() {
    // Buffer 50x30 filled red; window 800x600 gives scale 20 with the display
    // x-offset 5, so the pointer at (100, 200) covers buffer pixel (10, 10).
    let mut app = App::new(buffer_50x30_red());
    app.resumed(WindowSize { width: 800, height: 600 });
    let act = app.window_event(WindowEvent::CursorMoved(100, 200));
    assert_eq!(act, Action::Nothing);
    let offset = pixel_pos_to_index(
        PixelPosition { x: 10, y: 10 },
        PixelBufferSize { width: 50, height: 30 },
    );
    let bytes = app.pixel_buffer.read_all();
    assert_eq!(bytes[offset], 0);
    assert_eq!(bytes[offset + 1], 255);
    assert_eq!(bytes[offset + 2], 255);
    // Alpha is left as the fill wrote it.
    assert_eq!(bytes[offset + 3], 255);
    // Neighboring pixels keep the fill color.
    assert_eq!(bytes[offset - 1], 255);
    assert_eq!(bytes[offset + 4], 255);
}

#[test]
fn pointer_in_margin_is_ignored() {
    let mut app = App::new(buffer_50x30_red());
    app.resumed(WindowSize { width: 800, height: 600 });
    let before = app.pixel_buffer.read_all().clone();
    app.window_event(WindowEvent::CursorMoved(721, 300));
    assert_eq!(app.pixel_buffer.read_all(), &before);
}

#[test]
fn resize_to_zero_and_back() {
    let mut app = App::new(buffer_50x30_red());
    app.resumed(WindowSize { width: 800, height: 600 });
    let a1 = app.window_event(WindowEvent::Resized(WindowSize { width: 800, height: 600 }));
    assert_eq!(a1, Action::ConfigureSurface(WindowSize { width: 800, height: 600 }));
    let a2 = app.window_event(WindowEvent::Resized(WindowSize { width: 0, height: 0 }));
    assert_eq!(a2, Action::RequestRedraw);
    let a3 = app.window_event(WindowEvent::Resized(WindowSize { width: 800, height: 600 }));
    assert_eq!(a3, Action::ConfigureSurface(WindowSize { width: 800, height: 600 }));
    assert_eq!(app.controller.config_size, WindowSize { width: 800, height: 600 });
    assert_eq!(app.window_event(WindowEvent::RedrawRequested), Action::RenderFrame);
}

#[test]
fn write_pixel_out_of_bounds() {
    let mut buf = buffer_50x30_red();
    let cyan = Rgba { r: 0, g: 255, b: 255, a: 255 };
    assert_eq!(
        buf.write_pixel(PixelPosition { x: 50, y: 0 }, cyan),
        Err(BufferError::OutOfBounds)
    );
    assert_eq!(
        buf.write_pixel(PixelPosition { x: 0, y: 30 }, cyan),
        Err(BufferError::OutOfBounds)
    );
    assert_eq!(buf.write_pixel(PixelPosition { x: 49, y: 29 }, cyan), Ok(()));
    let bytes = buf.read_all();
    assert_eq!(bytes[5996], 0);
    assert_eq!(bytes[5997], 255);
    assert_eq!(bytes[5998], 255);
    assert_eq!(bytes[5999], 255);
}

#[test]
fn write_rgb_keeps_alpha() {
    let mut buf = PixelBuffer::new(4, 4, Rgba { r: 9, g: 9, b: 9, a: 77 });
    assert_eq!(buf.write_rgb(PixelPosition { x: 1, y: 2 }, 1, 2, 3), Ok(()));
    let offset = pixel_pos_to_index(
        PixelPosition { x: 1, y: 2 },
        PixelBufferSize { width: 4, height: 4 },
    );
    let bytes = buf.read_all();
    assert_eq!(bytes[offset], 1);
    assert_eq!(bytes[offset + 1], 2);
    assert_eq!(bytes[offset + 2], 3);
    assert_eq!(bytes[offset + 3], 77);
}

#[test]
fn upload_layout_matches_buffer() {
    let buf = buffer_50x30_red();
    assert_eq!(buf.bytes_per_row(), 200);
    assert_eq!(buf.rows(), 30);
}

#[test]
fn events_before_resume_ignored() {
    let mut app = App::new(buffer_50x30_red());
    let before = app.pixel_buffer.read_all().clone();
    assert_eq!(
        app.window_event(WindowEvent::Resized(WindowSize { width: 640, height: 480 })),
        Action::Nothing
    );
    assert_eq!(app.window_event(WindowEvent::RedrawRequested), Action::Nothing);
    assert_eq!(app.window_event(WindowEvent::CursorMoved(10, 10)), Action::Nothing);
    assert_eq!(app.controller.phase, Phase::Uninitialized);
    assert_eq!(app.pixel_buffer.read_all(), &before);
}

#[test]
fn close_requested_terminates() {
    let mut app = App::new(buffer_50x30_red());
    app.resumed(WindowSize { width: 800, height: 600 });
    assert_eq!(app.window_event(WindowEvent::CloseRequested), Action::Exit);
    assert_eq!(app.controller.phase, Phase::Terminated);
    // No further event is acted on.
    assert_eq!(app.window_event(WindowEvent::RedrawRequested), Action::Nothing);
    assert!(!app.resumed(WindowSize { width: 800, height: 600 }));
}

#[test]
fn small_window_clamps_scale() {
    // A window smaller than the buffer clamps both axis scales to 1: the
    // window shows the centered window-sized part of the buffer.
    let ws = WindowSize { width: 25, height: 15 };
    let bs = PixelBufferSize { width: 50, height: 30 };
    let mapped = physical_to_pixel_pos(0, 0, ws, bs);
    assert_eq!(mapped, Some(PixelPosition { x: 12, y: 7 }));
}
