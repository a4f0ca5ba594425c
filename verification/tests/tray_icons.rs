use voice_journal::engine::State;
use voice_journal::platform::macos::tray::{
    rgba_icon, status_text, tooltip_text, truncate, TrayState, ICON_SIZE_16, ICON_SIZE_32,
};

fn states() -> [TrayState; 5] {
    [
        TrayState::Idle,
        TrayState::NoSpeech,
        TrayState::Recording,
        TrayState::Finalizing,
        TrayState::Error("boom".into()),
    ]
}

#[test]
fn icon_rgba_has_four_bytes_per_pixel() {
    for state in states() {
        for size in [ICON_SIZE_16, ICON_SIZE_32] {
            assert_eq!(rgba_icon(&state, size).len(), (size * size * 4) as usize);
        }
    }
}

#[test]
fn circle_corners_are_transparent_and_square_corners_are_opaque() {
    let circle = rgba_icon(&TrayState::Recording, ICON_SIZE_16);
    assert_eq!(circle[3], 0, "circle corner alpha");
    let square = rgba_icon(&TrayState::Error("boom".into()), ICON_SIZE_16);
    assert_eq!(square[3], 255, "square corner alpha");
}

#[test]
fn only_idle_icons_are_templates() {
    assert!(TrayState::Idle.is_template());
    assert!(TrayState::NoSpeech.is_template());
    assert!(!TrayState::Recording.is_template());
    assert!(!TrayState::Finalizing.is_template());
    assert!(!TrayState::Error("boom".into()).is_template());
}

#[test]
fn status_text_reports_state_and_error() {
    assert_eq!(status_text(&TrayState::Idle), "Status: Idle");
    assert_eq!(status_text(&TrayState::Recording), "Status: Recording");
    assert_eq!(status_text(&TrayState::Finalizing), "Status: Finalizing");
    assert!(status_text(&TrayState::Error("boom".into())).contains("boom"));
}

#[test]
fn no_speech_tooltip_is_exact() {
    assert_eq!(tooltip_text(&TrayState::NoSpeech), "No speech detected");
}

#[test]
fn truncate_keeps_short_text_and_marks_long_text() {
    assert_eq!(truncate("hello", 80), "hello");
    let shortened = truncate(&"x".repeat(100), 80);
    assert_eq!(shortened.chars().count(), 81);
    assert!(shortened.ends_with('…'));
}

/// The disc as the floating-point rasterizer computes it: 4 × 4 samples per
/// pixel at `(x + (sx + 0.5) / 4, y + (sy + 0.5) / 4)`.
fn disc_alpha(size: u32, x: u32, y: u32) -> u8 {
    let step = 1.0 / 4.0;
    let mut hits = 0u32;
    for sy in 0..4 {
        for sx in 0..4 {
            let px = x as f64 + (sx as f64 + 0.5) * step;
            let py = y as f64 + (sy as f64 + 0.5) * step;
            let center = size as f64 / 2.0;
            let radius = center - 1.0;
            let dx = px - center;
            let dy = py - center;
            if dx * dx + dy * dy <= radius * radius {
                hits += 1;
            }
        }
    }
    (hits * 255 / 16) as u8
}

#[test]
fn disc_matches_floating_point_sampling() {
    for size in [1u32, 2, 3, 16, 17, 32] {
        let rgba = rgba_icon(&TrayState::Recording, size);
        for y in 0..size {
            for x in 0..size {
                let offset = ((y * size + x) * 4) as usize;
                assert_eq!(rgba[offset], 255);
                assert_eq!(rgba[offset + 1], 59);
                assert_eq!(rgba[offset + 2], 48);
                assert_eq!(rgba[offset + 3], disc_alpha(size, x, y), "size {size} ({x}, {y})");
            }
        }
    }
}

#[test]
fn icon_colours_follow_state() {
    assert_eq!(&rgba_icon(&TrayState::Idle, 16)[..3], &[0, 0, 0]);
    assert_eq!(&rgba_icon(&TrayState::Finalizing, 16)[..3], &[255, 59, 48]);
    assert_eq!(&rgba_icon(&TrayState::Error("x".into()), 16)[..4], &[255, 149, 0, 255]);
    let centre = ((8 * 16 + 8) * 4 + 3) as usize;
    assert_eq!(rgba_icon(&TrayState::Idle, 16)[centre], 255);
    assert!(rgba_icon(&TrayState::Idle, 0).is_empty());
}

#[test]
fn error_texts_are_truncated() {
    let long = "e".repeat(200);
    let status = status_text(&TrayState::Error(long.clone()));
    assert_eq!(status.chars().count(), "Status: Error: ".chars().count() + 81);
    let tip = tooltip_text(&TrayState::Error(long));
    assert_eq!(tip.chars().count(), "Voice Journal — Error: ".chars().count() + 121);
    assert_eq!(tooltip_text(&TrayState::Idle), "Voice Journal — Idle");
}

#[test]
fn tray_state_follows_engine_state() {
    assert_eq!(TrayState::from_engine(&State::Idle), TrayState::Idle);
    assert_eq!(
        TrayState::from_engine(&State::Error {
            message: "m".into()
        }),
        TrayState::Error("m".into())
    );
}
