use ktv_casting::app_state::{AppState, TuiApp};
use ktv_casting::renderer::DlnaDevice;

fn dev(name: &str) -> DlnaDevice {
    DlnaDevice { friendly_name: name.to_string(), location: String::new(), base: None, services: Vec::new() }
}

#[test]
fn device_selection_wraps() {
    let mut app = TuiApp::new();
    app.next_device();
    assert_eq!(app.selected_device_idx, 0);
    assert!(app.selected_device.is_none());
    app.set_devices(vec![dev("a"), dev("b"), dev("c")]);
    assert_eq!(app.selected_device.as_ref().unwrap().friendly_name, "a");
    app.prev_device();
    assert_eq!(app.selected_device_idx, 2);
    assert_eq!(app.selected_device.as_ref().unwrap().friendly_name, "c");
    app.next_device();
    assert_eq!(app.selected_device_idx, 0);
    app.next_device();
    assert_eq!(app.selected_device.as_ref().unwrap().friendly_name, "b");
}

#[test]
fn volume_and_playback_toggles() {
    let mut app = TuiApp::new();
    assert_eq!(app.volume, 50);
    app.increase_volume();
    assert_eq!(app.volume, 55);
    app.volume = 100;
    app.increase_volume();
    assert_eq!(app.volume, 100);
    app.volume = 3;
    app.decrease_volume();
    assert_eq!(app.volume, 3);
    app.update_state(AppState::Playing);
    app.toggle_playback();
    assert!(matches!(app.state, AppState::Paused));
    app.toggle_playback();
    assert!(matches!(app.state, AppState::Playing));
    app.update_state(AppState::Startup);
    app.toggle_playback();
    assert!(matches!(app.state, AppState::Startup));
}

#[test]
fn time_and_room_info() {
    let mut app = TuiApp::new();
    assert_eq!(app.format_time(125), "02:05");
    assert_eq!(app.format_time(6000), "100:00");
    app.set_room_info("https://ktv.example.org".to_string(), 42);
    assert_eq!(app.room_id, Some(42));
    app.next_track();
    assert_eq!(app.room_url.as_deref(), Some("https://ktv.example.org"));
}
