use render_harness::clock::{AnimationClock, AnimationState, ClockConfig};
use render_harness::error::FrameNotFound;
use render_harness::geometry::Rect;
use render_harness::loader::Image;
use render_harness::sheet::{FrameEntry, SheetDescriptor, SpriteSheet};
use render_harness::surface::{DrawCommand, Surface};

fn config(frame_count: u32) -> ClockConfig {
    ClockConfig {
        base_name: "Run".to_string(),
        frame_count,
        canvas: Rect::new(0, 0, 600, 600),
        dst_x: 300,
        dst_y: 300,
    }
}

fn sheet(frames: u16) -> SpriteSheet {
    let mut list = Vec::new();
    for n in 1..=frames {
        list.push(FrameEntry {
            name: format!("Run ({}).png", n),
            frame: Rect::new(n * 100, n, 50 + n, 70 + n),
        });
    }
    SpriteSheet::from_descriptor(&SheetDescriptor { frames: list }).unwrap()
}

fn image() -> Image {
    Image { source: "rhb.png".to_string() }
}

#[test]
fn empty_sequence_has_no_state() {
    assert_eq!(AnimationState::new(0), None);
    assert!(AnimationClock::new(config(0)).is_none());
}

#[test]
fn state_starts_before_the_first_frame() {
    assert_eq!(
        AnimationState::new(8),
        Some(AnimationState { current_frame_index: -1, frame_count: 8 })
    );
}

#[test]
fn advance_wraps_around() {
    let mut state = AnimationState::new(3).unwrap();
    let mut seen = Vec::new();
    for _ in 0..7 {
        state.advance();
        seen.push(state.current_frame_index);
    }
    assert_eq!(seen, vec![0, 1, 2, 0, 1, 2, 0]);
    assert_eq!(state.frame_count, 3);
}

#[test]
fn single_frame_sequence_stays_on_its_frame() {
    let mut state = AnimationState::new(1).unwrap();
    for _ in 0..4 {
        state.advance();
        assert_eq!(state.current_frame_index, 0);
    }
}

#[test]
fn longest_sequence_advances_without_overflow() {
    let mut state =
        AnimationState { current_frame_index: u32::MAX as i64 - 2, frame_count: u32::MAX };
    state.advance();
    assert_eq!(state.current_frame_index, u32::MAX as i64 - 1);
    state.advance();
    assert_eq!(state.current_frame_index, 0);
}

#[test]
fn clock_starts_once() {
    let mut clock = AnimationClock::new(config(8)).unwrap();
    assert!(!clock.running());
    assert_eq!(clock.period_ms(), 0);
    assert_eq!(clock.visible_name(), None);
    assert!(clock.start(50));
    assert!(clock.running());
    assert_eq!(clock.period_ms(), 50);
    assert!(!clock.start(20));
    assert!(clock.running());
    assert_eq!(clock.period_ms(), 50);
    assert_eq!(clock.state(), AnimationState { current_frame_index: -1, frame_count: 8 });
}

#[test]
fn visible_frame_after_one_eight_and_nine_ticks() {
    let sheet = sheet(8);
    let image = image();
    let mut surface = Surface::new();
    let mut clock = AnimationClock::new(config(8)).unwrap();
    clock.start(50);
    let mut names = Vec::new();
    for _ in 0..9 {
        assert_eq!(clock.tick(&sheet, &image, &mut surface), Ok(()));
        names.push(clock.visible_name().unwrap());
    }
    assert_eq!(names[0], "Run (1).png");
    assert_eq!(names[7], "Run (8).png");
    assert_eq!(names[8], "Run (1).png");
    for (i, name) in names.iter().enumerate() {
        assert_eq!(name, &format!("Run ({}).png", (i % 8) + 1));
    }
}

#[test]
fn tick_clears_then_blits_the_frame_in_its_own_size() {
    let sheet = sheet(8);
    let image = image();
    let mut surface = Surface::new();
    let mut clock = AnimationClock::new(config(8)).unwrap();
    clock.start(50);
    assert_eq!(clock.tick(&sheet, &image, &mut surface), Ok(()));
    assert_eq!(
        surface.commands(),
        &vec![
            DrawCommand::ClearRegion { x: 0, y: 0, w: 600, h: 600 },
            DrawCommand::Blit {
                image: Image { source: "rhb.png".to_string() },
                src: Rect { x: 100, y: 1, w: 51, h: 71 },
                dst_x: 300,
                dst_y: 300,
                dst_w: 51,
                dst_h: 71,
            },
        ]
    );
    assert_eq!(clock.state().current_frame_index, 0);
}

#[test]
fn tick_on_a_missing_frame_clears_and_fails() {
    let sheet = sheet(2);
    let image = image();
    let mut surface = Surface::new();
    let mut clock = AnimationClock::new(config(3)).unwrap();
    clock.start(50);
    assert_eq!(clock.tick(&sheet, &image, &mut surface), Ok(()));
    assert_eq!(clock.tick(&sheet, &image, &mut surface), Ok(()));
    surface.drain();
    assert_eq!(
        clock.tick(&sheet, &image, &mut surface),
        Err(FrameNotFound { name: "Run (3).png".to_string() })
    );
    assert_eq!(surface.commands(), &vec![DrawCommand::ClearRegion { x: 0, y: 0, w: 600, h: 600 }]);
    assert_eq!(clock.state().current_frame_index, 2);
    surface.drain();
    assert_eq!(clock.tick(&sheet, &image, &mut surface), Ok(()));
    assert_eq!(clock.visible_name(), Some("Run (1).png".to_string()));
}
