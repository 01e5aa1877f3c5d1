use egui_elements::components::credentials_form::last_focused_after;
use egui_elements::components::qr_scanner::{
    capture_region, checked_capture_region, decode_qr, first_qr_text, handle_scanner_key, luma_at, CaptureRegion, CaptureRegionError,
    QrDecodeError, ScannerKey, MIN_CAPTURE_SIZE,
};
use egui_elements::components::virtual_keyboard::{keyboard_layout, InputField, KeyCap, KeyboardState};
use secure_types::SecureString;

fn text_of(s: &SecureString) -> String {
    s.unlock_str(|t| t.to_string())
}

#[test]
fn keyboard_types_and_deletes() {
    let mut kb = KeyboardState::new(true);
    let mut target = SecureString::from("ab");
    kb.press_key(KeyCap::Text("c"), &mut target);
    assert_eq!(text_of(&target), "abc");
    kb.press_key(KeyCap::Backspace, &mut target);
    assert_eq!(text_of(&target), "ab");
    kb.press_key(KeyCap::Space, &mut target);
    assert_eq!(text_of(&target), "ab ");
    kb.press_key(KeyCap::Enter, &mut target);
    assert_eq!(text_of(&target), "ab ");
}

#[test]
fn backspace_on_empty_text_does_nothing() {
    let mut kb = KeyboardState::new(true);
    let mut target = SecureString::from("");
    kb.press_key(KeyCap::Backspace, &mut target);
    assert_eq!(text_of(&target), "");
}

#[test]
fn backspace_removes_a_whole_multibyte_character() {
    let mut kb = KeyboardState::new(true);
    let mut target = SecureString::from("aé");
    kb.press_key(KeyCap::Backspace, &mut target);
    assert_eq!(text_of(&target), "a");
}

#[test]
fn shift_applies_to_one_character_and_caps_releases_it() {
    let mut kb = KeyboardState::new(false);
    let mut target = SecureString::from("");
    assert!(!kb.is_uppercase());
    kb.press_key(KeyCap::Shift, &mut target);
    assert!(kb.is_uppercase());
    kb.press_key(KeyCap::Text("Q"), &mut target);
    assert!(!kb.is_uppercase());
    kb.press_key(KeyCap::Caps, &mut target);
    assert!(kb.is_uppercase());
    kb.press_key(KeyCap::Shift, &mut target);
    assert!(!kb.is_uppercase());
    kb.press_key(KeyCap::Caps, &mut target);
    assert!(!kb.is_uppercase());
    kb.press_key(KeyCap::Space, &mut target);
    assert_eq!(text_of(&target), "Q ");
}

#[test]
fn keyboard_open_close_and_target() {
    let mut kb = KeyboardState::new(false);
    assert!(!kb.is_open());
    kb.open();
    assert!(kb.is_open());
    kb.close();
    assert!(!kb.is_open());
    assert_eq!(kb.active_target(), InputField::Username);
    kb.set_active_target(InputField::Password);
    assert_eq!(kb.active_target(), InputField::Password);
}

#[test]
fn layout_rows() {
    let lower = keyboard_layout(false);
    assert_eq!(lower.len(), 4);
    assert_eq!(lower[0].len(), 14);
    assert_eq!(lower[0][0], KeyCap::Text("`"));
    assert_eq!(lower[0][13], KeyCap::Backspace);
    assert_eq!(lower[1][12], KeyCap::Text("\\"));
    assert_eq!(lower[2][0], KeyCap::Caps);
    assert_eq!(lower[2][12], KeyCap::Enter);
    assert_eq!(lower[3][0], KeyCap::Shift);
    assert_eq!(lower[3][11], KeyCap::Shift);
    let upper = keyboard_layout(true);
    assert_eq!(upper[0][1], KeyCap::Text("!"));
    assert_eq!(upper[1][0], KeyCap::Text("Q"));
    assert_eq!(upper[2][11], KeyCap::Text("\""));
    assert_eq!(upper[3][10], KeyCap::Text("?"));
}

#[test]
fn focus_tracking() {
    assert_eq!(last_focused_after(InputField::Password, false, false, false), InputField::Password);
    assert_eq!(last_focused_after(InputField::Password, true, false, false), InputField::Username);
    assert_eq!(last_focused_after(InputField::Username, true, true, false), InputField::Password);
    assert_eq!(
        last_focused_after(InputField::Username, true, true, true),
        InputField::ConfirmPassword
    );
}

#[test]
fn capture_region_centers_and_clamps() {
    // Centered on the pointer.
    assert_eq!(
        capture_region(250, 1000, 500, 0, 0, 1920, 1080),
        Ok(CaptureRegion { x: 875, y: 375, width: 250, height: 250 })
    );
    // Pushed inside near the top-left corner of a second monitor.
    assert_eq!(
        capture_region(250, 1930, 10, 1920, 0, 1280, 1024),
        Ok(CaptureRegion { x: 0, y: 0, width: 250, height: 250 })
    );
    // Pushed inside near the bottom-right corner.
    assert_eq!(
        capture_region(100, 1915, 1075, 0, 0, 1920, 1080),
        Ok(CaptureRegion { x: 1820, y: 980, width: 100, height: 100 })
    );
    // A monitor narrower than the box.
    assert_eq!(
        capture_region(250, 50, 50, 0, 0, 200, 1080),
        Err(CaptureRegionError::OutsideMonitor)
    );
}

#[test]
fn scanner_keys() {
    assert_eq!(handle_scanner_key(250, true, ScannerKey::Grow), (255, true));
    assert_eq!(handle_scanner_key(250, true, ScannerKey::Shrink), (245, true));
    assert_eq!(handle_scanner_key(42, true, ScannerKey::Shrink), (MIN_CAPTURE_SIZE, true));
    assert_eq!(handle_scanner_key(250, true, ScannerKey::Cancel), (250, false));
    assert_eq!(handle_scanner_key(i32::MAX, true, ScannerKey::Grow), (i32::MIN + 4, true));
}

#[test]
fn luma_lookup() {
    let luma = [10u8, 20, 30, 40, 50, 60];
    assert_eq!(luma_at(&luma, 3, 0, 0), 10);
    assert_eq!(luma_at(&luma, 3, 2, 1), 60);
    assert_eq!(luma_at(&luma, 3, 3, 0), 255);
    assert_eq!(luma_at(&luma, 3, 0, 2), 255);
}

#[test]
fn blank_image_has_no_qr_code() {
    let luma = vec![255u8; 64 * 64];
    match decode_qr(64, 64, &luma) {
        Err(QrDecodeError::NoGridDetected) => {}
        other => panic!("expected no grid, got {:?}", other.map(|s| s.char_len())),
    }
}

#[test]
fn first_grid_decides_the_scan() {
    assert!(matches!(first_qr_text(vec![]), Err(QrDecodeError::NoGridDetected)));
    let failed = first_qr_text(vec![Err(rqrr::DeQRError::DataEcc), Ok("later".to_string())]);
    assert!(matches!(failed, Err(QrDecodeError::Decode(rqrr::DeQRError::DataEcc))));
    match first_qr_text(vec![Ok("secret".to_string()), Err(rqrr::DeQRError::FormatEcc)]) {
        Ok(text) => assert_eq!(text_of(&text), "secret"),
        Err(_) => panic!("the first grid decoded"),
    }
}

#[test]
fn checked_capture_region_reports_overflow() {
    assert_eq!(
        checked_capture_region(250, 1000, 500, 0, 0, 1920, 1080),
        capture_region(250, 1000, 500, 0, 0, 1920, 1080)
    );
    assert_eq!(
        checked_capture_region(250, 1000, 500, 0, 0, 1920, 1080),
        Ok(CaptureRegion { x: 875, y: 375, width: 250, height: 250 })
    );
    assert_eq!(
        checked_capture_region(250, 10, 10, i32::MAX, 0, 100, 100),
        Err(CaptureRegionError::ArithmeticOverflow)
    );
    assert_eq!(
        checked_capture_region(250, 10, 10, 0, 0, 100, 100),
        Err(CaptureRegionError::OutsideMonitor)
    );
}
