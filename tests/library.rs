use std::sync::mpsc::channel;

use scannrs::cli::split_options;
use scannrs::device::{find_device, DeviceDescriptor};
use scannrs::error::ScannrsError;
use scannrs::frame::{reconstruct, AcquisitionParams, ColorLayout};
use scannrs::registry::{
    assigned_value, find_option, plan_option_settings, render_option, render_options,
    OptionDescriptor, OptionSetting, OptionValue, ValueKind,
};
use scannrs::text::{bytes_equal, contains_nul};
use scannrs::tui::device_picker::DevicePicker;
use scannrs::tui::{
    handler_step, keep_serving, Action, App, Event, HandlerStep, KeyCode, KeyEvent, KeyEventKind,
    SaneQuery,
};

fn opt(name: &str, title: &str, kind: ValueKind) -> OptionDescriptor {
    OptionDescriptor {
        name: name.as_bytes().to_vec(),
        display_name: name.to_string(),
        title: title.to_string(),
        kind,
    }
}

fn assign(k: &str, v: &str) -> (Vec<u8>, String) {
    (k.as_bytes().to_vec(), v.to_string())
}

fn device(name: &str) -> DeviceDescriptor {
    DeviceDescriptor {
        name: name.as_bytes().to_vec(),
        vendor: "Acme".to_string(),
        model: "Flatbed".to_string(),
        kind: "flatbed scanner".to_string(),
    }
}

fn key(code: KeyCode) -> Event {
    Event::Key(KeyEvent { code, kind: KeyEventKind::Press })
}

fn picker_with(names: &[&str]) -> DevicePicker {
    let mut p = DevicePicker::new();
    p.receive_devices(Some(names.iter().map(|n| n.to_string()).collect())).unwrap();
    p
}

#[test]
fn split_options_splits_at_first_equals_and_trims() {
    let (k, v) = split_options(" mode = Color ").unwrap();
    assert_eq!(k, b"mode".to_vec());
    assert_eq!(v, "Color");
    let (k, v) = split_options("a=b=c").unwrap();
    assert_eq!(k, b"a".to_vec());
    assert_eq!(v, "b=c");
    let (k, v) = split_options("resolution=").unwrap();
    assert_eq!(k, b"resolution".to_vec());
    assert_eq!(v, "");
}

#[test]
fn split_options_rejects_token_without_equals() {
    assert!(matches!(split_options("resolution"), Err(ScannrsError::InvalidOption)));
    assert!(matches!(split_options(""), Err(ScannrsError::InvalidOption)));
}

#[test]
fn last_assignment_of_a_key_wins() {
    let options = vec![opt("resolution", "Resolution", ValueKind::Int)];
    let assignments = vec![
        assign("resolution", "100"),
        assign("mode", "Gray"),
        assign("resolution", "300"),
    ];
    let plan = plan_option_settings(&options, &assignments).unwrap();
    assert_eq!(plan, vec![OptionSetting { index: 0, value: OptionValue::Int(300) }]);
    assert_eq!(assigned_value(&assignments, b"resolution"), Some(&"300".to_string()));
    assert_eq!(assigned_value(&assignments, b"depth"), None);
}

#[test]
fn plan_follows_registry_order_and_skips_other_kinds() {
    let options = vec![
        opt("", "Scan mode", ValueKind::Group),
        opt("mode", "Mode", ValueKind::String),
        opt("preview", "Preview", ValueKind::Bool),
        opt("resolution", "Resolution", ValueKind::Int),
    ];
    let assignments = vec![
        assign("resolution", "-150"),
        assign("preview", "yes"),
        assign("unknown", "1"),
        assign("mode", "Color"),
    ];
    let plan = plan_option_settings(&options, &assignments).unwrap();
    assert_eq!(
        plan,
        vec![
            OptionSetting { index: 1, value: OptionValue::Text("Color".to_string()) },
            OptionSetting { index: 3, value: OptionValue::Int(-150) },
        ]
    );
}

#[test]
fn plan_rejects_non_numeric_integer() {
    let options = vec![opt("resolution", "Resolution", ValueKind::Int)];
    for bad in ["abc", "", "+", "2147483648", " 5", "1_0"] {
        let r = plan_option_settings(&options, &vec![assign("resolution", bad)]);
        match r {
            Err(ScannrsError::InvalidValue { key, value }) => {
                assert_eq!(key, b"resolution".to_vec());
                assert_eq!(value, bad);
            }
            other => panic!("unexpected {:?}", other),
        }
    }
    let ok = plan_option_settings(&options, &vec![assign("resolution", "+2147483647")]).unwrap();
    assert_eq!(ok[0].value, OptionValue::Int(2147483647));
}

#[test]
fn plan_rejects_nul_in_string() {
    let options = vec![opt("mode", "Mode", ValueKind::String)];
    let r = plan_option_settings(&options, &vec![assign("mode", "Co\0lor")]);
    assert!(matches!(r, Err(ScannrsError::NulInValue { ref key, .. }) if key == b"mode"));
}

#[test]
fn plan_reports_first_rejected_option_in_registry_order() {
    let options = vec![
        opt("mode", "Mode", ValueKind::String),
        opt("resolution", "Resolution", ValueKind::Int),
    ];
    let assignments = vec![assign("resolution", "high"), assign("mode", "a\0b")];
    let r = plan_option_settings(&options, &assignments);
    assert!(matches!(r, Err(ScannrsError::NulInValue { .. })));
}

#[test]
fn unknown_device_is_not_found() {
    let devices = vec![device("pixma:04A91234"), device("epson2:net:10.0.0.2")];
    match find_device(&devices, &"hp:usb".to_string()) {
        Err(ScannrsError::CouldNotFindScanner { name }) => assert_eq!(name, "hp:usb"),
        other => panic!("unexpected {:?}", other),
    }
    assert!(matches!(
        find_device(&vec![], &"x".to_string()),
        Err(ScannrsError::CouldNotFindScanner { .. })
    ));
}

#[test]
fn device_found_by_exact_name() {
    let devices = vec![device("pixma"), device("epson2"), device("epson2")];
    assert_eq!(find_device(&devices, &"epson2".to_string()).unwrap(), 1);
    assert!(find_device(&devices, &"epson".to_string()).is_err());
}

#[test]
fn unknown_option_is_not_found() {
    let options = vec![opt("resolution", "Resolution", ValueKind::Int)];
    let before = format!("{:?}", options);
    match find_option(&options, &"depth".to_string(), &"pixma".to_string()) {
        Err(ScannrsError::OptionNotFound { name, option }) => {
            assert_eq!(name, "pixma");
            assert_eq!(option, "depth");
        }
        other => panic!("unexpected {:?}", other),
    }
    assert_eq!(format!("{:?}", options), before);
    assert_eq!(find_option(&options, &"resolution".to_string(), &"pixma".to_string()).unwrap(), 0);
}

#[test]
fn listing_renders_groups_and_options() {
    assert_eq!(render_option(&opt("", "Geometry", ValueKind::Group)), "[Geometry]");
    assert_eq!(
        render_option(&opt("resolution", "Scan resolution", ValueKind::Int)),
        "# Scan resolution\nresolution = Int"
    );
    let all = render_options(&vec![
        opt("mode", "Scan mode", ValueKind::String),
        opt("tl-x", "Top-left x", ValueKind::Fixed),
        opt("preview", "Preview", ValueKind::Bool),
        opt("calibrate", "Calibrate", ValueKind::Button),
    ]);
    assert_eq!(
        all,
        vec![
            "# Scan mode\nmode = String".to_string(),
            "# Top-left x\ntl-x = Fixed".to_string(),
            "# Preview\npreview = Bool".to_string(),
            "# Calibrate\ncalibrate = Button".to_string(),
        ]
    );
}

fn params(format: ColorLayout, w: u32, h: u32) -> AcquisitionParams {
    AcquisitionParams { format, pixels_per_line: w, lines: h, depth: 8 }
}

#[test]
fn gray_two_by_two_needs_four_bytes() {
    let img = reconstruct(&params(ColorLayout::Gray, 2, 2), vec![1, 2, 3, 4]).unwrap();
    assert_eq!((img.width, img.height), (2, 2));
    assert_eq!((img.image.width(), img.image.height()), (2, 2));
    assert_eq!(img.image.as_bytes(), &[1, 2, 3, 4]);
    for len in [3usize, 5] {
        match reconstruct(&params(ColorLayout::Gray, 2, 2), vec![0; len]) {
            Err(ScannrsError::InvalidImageSize { width, height, buffer_size, pixel_size }) => {
                assert_eq!((width, height, buffer_size, pixel_size), (2, 2, len, 8));
            }
            _ => panic!("a {len}-byte buffer must be refused"),
        }
    }
}

#[test]
fn rgb_two_by_one_needs_six_bytes() {
    let img = reconstruct(&params(ColorLayout::Rgb, 2, 1), vec![10, 20, 30, 40, 50, 60]).unwrap();
    assert_eq!((img.width, img.height, img.layout), (2, 1, ColorLayout::Rgb));
    assert_eq!((img.image.width(), img.image.height()), (2, 1));
    assert_eq!(img.image.as_bytes(), &[10, 20, 30, 40, 50, 60]);
    assert!(matches!(
        reconstruct(&params(ColorLayout::Rgb, 2, 1), vec![0; 5]),
        Err(ScannrsError::InvalidImageSize { buffer_size: 5, .. })
    ));
    assert!(reconstruct(&params(ColorLayout::Rgb, 2, 1), vec![0; 7]).is_err());
}

#[test]
fn empty_frame_is_rebuilt() {
    let img = reconstruct(&params(ColorLayout::Gray, 0, 0), vec![]).unwrap();
    assert_eq!((img.width, img.height), (0, 0));
    assert!(reconstruct(&params(ColorLayout::Gray, 0, 3), vec![1]).is_err());
}

#[test]
fn picker_down_stops_at_last_item() {
    let mut p = picker_with(&["a", "b"]);
    assert_eq!(p.handle_event(Some(key(KeyCode::Down))), Action::Noop);
    assert_eq!(p.selected, Some(0));
    p.handle_event(Some(key(KeyCode::Down)));
    assert_eq!(p.selected, Some(1));
    p.handle_event(Some(key(KeyCode::Down)));
    assert_eq!(p.selected, Some(1));
    p.handle_event(Some(key(KeyCode::Up)));
    p.handle_event(Some(key(KeyCode::Up)));
    assert_eq!(p.selected, Some(0));
}

#[test]
fn picker_up_without_cursor_goes_to_last() {
    let mut p = picker_with(&["a", "b", "c"]);
    p.handle_event(Some(key(KeyCode::Up)));
    assert_eq!(p.selected, Some(2));
}

#[test]
fn picker_enter_without_items_is_noop() {
    let mut p = picker_with(&[]);
    p.handle_event(Some(key(KeyCode::Down)));
    assert_eq!(p.handle_event(Some(key(KeyCode::Enter))), Action::Noop);
    let mut unlisted = DevicePicker::new();
    assert_eq!(unlisted.handle_event(Some(key(KeyCode::Enter))), Action::Noop);
}

#[test]
fn picker_enter_picks_highlighted_device() {
    let mut p = picker_with(&["pixma", "epson2"]);
    assert_eq!(p.handle_event(Some(key(KeyCode::Enter))), Action::Noop);
    p.handle_event(Some(key(KeyCode::Down)));
    p.handle_event(Some(key(KeyCode::Down)));
    assert_eq!(
        p.handle_event(Some(key(KeyCode::Enter))),
        Action::SetActiveDevice("epson2".to_string())
    );
    assert_eq!(p.handle_event(Some(Event::Resize(80, 24))), Action::Noop);
    assert_eq!(p.handle_event(None), Action::Noop);
    assert_eq!(p.selected, Some(1));
}

#[test]
fn dropped_hardware_thread_fails_the_listing() {
    let (sender, receiver) = channel::<Vec<String>>();
    drop(sender);
    let mut p = DevicePicker::new();
    assert!(matches!(p.receive_devices(receiver.recv().ok()), Err(ScannrsError::Disconnected)));
    assert_eq!(p.available_devices, None);
    assert_eq!(handler_step(None), HandlerStep::Stop);
    assert_eq!(handler_step(Some(SaneQuery::ListDevices)), HandlerStep::ListDevices);
    assert!(!keep_serving(false));
    assert!(keep_serving(true));
}

#[test]
fn app_quits_on_escape_and_keeps_chosen_device() {
    let mut app = App::new();
    app.device_picker.receive_devices(Some(vec!["pixma".to_string()])).unwrap();
    assert_eq!(app.handle_event(key(KeyCode::Down)), Action::Noop);
    assert_eq!(app.handle_event(key(KeyCode::Enter)), Action::Noop);
    assert_eq!(app.config.active_device, Some("pixma".to_string()));
    assert_eq!(app.handle_event(key(KeyCode::Up)), Action::Noop);
    assert_eq!(app.device_picker.selected, Some(0));
    let release = Event::Key(KeyEvent { code: KeyCode::Esc, kind: KeyEventKind::Release });
    assert_eq!(app.handle_event(release), Action::Noop);
    assert_eq!(app.handle_event(key(KeyCode::Esc)), Action::Quit);
}

#[test]
fn app_passes_other_actions_through() {
    let mut app = App::new();
    assert_eq!(app.handle_action(Action::Quit), Some(Action::Quit));
    assert_eq!(app.handle_action(Action::Noop), Some(Action::Noop));
    assert_eq!(app.handle_action(Action::SetActiveDevice("x".to_string())), None);
    assert_eq!(app.config.active_device, Some("x".to_string()));
}

#[test]
fn byte_and_nul_helpers() {
    assert!(bytes_equal(b"abc", b"abc"));
    assert!(!bytes_equal(b"abc", b"abd"));
    assert!(!bytes_equal(b"ab", b"abc"));
    assert!(contains_nul("a\0"));
    assert!(!contains_nul("abc"));
    assert_eq!(ValueKind::Int.label(), "Int");
    assert_eq!(ValueKind::Group.label(), "Group");
}
