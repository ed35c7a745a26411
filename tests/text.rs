use pict::config::Config;
use pict::error::Error;
use pict::event::{drop_events, translate, window_pos_event, EventType, Key, MouseButton, HWND};
use pict::event::{WM_CLOSE, WM_KEYDOWN, WM_LBUTTONDOWN, WM_MOUSEMOVE, WM_MOUSEWHEEL, WM_RBUTTONDOWN};
use pict::folder::{drop_target, parent_dir};
use pict::util::{humanize_size, is_accepted_image_type};

#[test]
fn humanize_exact_values() {
    assert_eq!(humanize_size(0), "0.00 B");
    assert_eq!(humanize_size(1), "1.00 B");
    assert_eq!(humanize_size(1023), "1023.00 B");
    assert_eq!(humanize_size(1024), "1.00 KiB");
    assert_eq!(humanize_size(1536), "1.50 KiB");
    assert_eq!(humanize_size(1_048_576), "1.00 MiB");
    assert_eq!(humanize_size(1_500_000), "1.43 MiB");
    assert_eq!(humanize_size(usize::MAX), "16.00 EiB");
}

#[test]
fn accepted_extensions_any_case() {
    assert!(is_accepted_image_type("a.png"));
    assert!(is_accepted_image_type("a.PNG"));
    assert!(is_accepted_image_type("a.jpeg"));
    assert!(is_accepted_image_type("x.tar.Jpg"));
    assert!(is_accepted_image_type("dir/b.Gif"));
    assert!(is_accepted_image_type("C:\\pics\\c.JPG"));
    assert!(!is_accepted_image_type("a.txt"));
    assert!(!is_accepted_image_type(".png"));
    assert!(!is_accepted_image_type("png"));
    assert!(!is_accepted_image_type("dir.png/file"));
    assert!(!is_accepted_image_type("C:.png"));
    assert!(!is_accepted_image_type("a.pngx"));
    assert!(!is_accepted_image_type(""));
}

#[test]
fn dropped_file_resolves_to_parent() {
    assert_eq!(drop_target("pics/a.png", false), Some("pics".to_string()));
    assert_eq!(drop_target("C:\\pics\\a.png", false), Some("C:\\pics".to_string()));
    assert_eq!(drop_target("/a.png", false), Some("/".to_string()));
    assert_eq!(drop_target("a.png", false), Some(String::new()));
    assert_eq!(drop_target("pics", true), Some("pics".to_string()));
    assert_eq!(drop_target("", false), None);
    assert_eq!(parent_dir("x/y/z"), Some("x/y".to_string()));
}

#[test]
fn dropped_file_at_drive_root_lists_the_root() {
    assert_eq!(drop_target("C:\\a.png", false), Some("C:\\".to_string()));
    assert_eq!(drop_target("C:/a.png", false), Some("C:/".to_string()));
    assert_eq!(drop_target("C:a.png", false), Some("C:".to_string()));
    assert_eq!(parent_dir("C:\\"), None);
    assert_eq!(parent_dir("/"), None);
    assert_eq!(parent_dir("C:"), None);
}

#[test]
fn trailing_separators_and_dots_are_ignored() {
    assert_eq!(parent_dir("pics/sub/"), Some("pics".to_string()));
    assert_eq!(parent_dir("pics//a.png"), Some("pics".to_string()));
    assert_eq!(parent_dir("pics/a.png/."), Some("pics".to_string()));
    assert!(is_accepted_image_type("x.png/"));
    assert!(is_accepted_image_type("dir\\x.JPG\\"));
    assert!(is_accepted_image_type("x.gif/."));
    assert!(is_accepted_image_type("C:a.png"));
    assert!(!is_accepted_image_type("/"));
}

#[test]
fn translate_keys_and_buttons() {
    assert_eq!(translate(WM_CLOSE, 0, 0), Some(EventType::CloseRequest));
    assert_eq!(translate(WM_KEYDOWN, 0x44, 0), Some(EventType::KeyDown { key: Key::D }));
    assert_eq!(translate(WM_KEYDOWN, 0x20, 0), Some(EventType::KeyDown { key: Key::Space }));
    let lp: isize = (20 << 16) | 10;
    assert_eq!(
        translate(WM_LBUTTONDOWN, 0, lp),
        Some(EventType::MouseDown { button: MouseButton::Left, x: 10, y: 20 })
    );
    assert_eq!(
        translate(WM_RBUTTONDOWN, 0, 0xFFFF),
        Some(EventType::MouseDown { button: MouseButton::Right, x: -1, y: 0 })
    );
    assert_eq!(translate(WM_MOUSEMOVE, 0, 0xFFFF_0005), Some(EventType::MouseMove { x: 5, y: -1 }));
    assert_eq!(translate(0x9999, 1, 2), None);
    assert_eq!(translate(0x0012, 0, 0), None);
}

#[test]
fn translate_wheel_delta() {
    let up = 120usize << 16;
    assert_eq!(translate(WM_MOUSEWHEEL, up, 0), Some(EventType::MouseWheel { delta: 120, x: 0, y: 0 }));
    let down = ((-120i16) as u16 as usize) << 16;
    assert_eq!(translate(WM_MOUSEWHEEL, down, 0), Some(EventType::MouseWheel { delta: -120, x: 0, y: 0 }));
}

#[test]
fn key_codes_map_to_keys() {
    assert_eq!(Key::from(0x52), Key::R);
    assert_eq!(Key::from(0x31), Key::Key1);
    assert_eq!(Key::from(0x25), Key::Left);
    assert_eq!(Key::from(0x99), Key::Other(0x99));
    assert_eq!(MouseButton::from_message(0x0207), MouseButton::Middle);
}

#[test]
fn window_position_changes() {
    assert_eq!(window_pos_event(true, 0, 1, 2), Some(EventType::Moved { x: 1, y: 2 }));
    assert_eq!(window_pos_event(false, 0x10, 1, 2), Some(EventType::Moving { x: 1, y: 2 }));
    assert_eq!(window_pos_event(true, 0x0002, 1, 2), None);
}

#[test]
fn drop_events_keep_order_and_skip_bad_paths() {
    let paths = vec![
        "a.png".encode_utf16().collect::<Vec<u16>>(),
        vec![],
        vec![0xD800],
        "dir/b.gif".encode_utf16().collect::<Vec<u16>>(),
    ];
    let events = drop_events(HWND(4), &paths);
    assert_eq!(events.len(), 2);
    assert_eq!(events[0].hwnd, HWND(4));
    assert_eq!(events[0].event, EventType::DropFile { file: "a.png".to_string() });
    assert_eq!(events[1].event, EventType::DropFile { file: "dir/b.gif".to_string() });
}

#[test]
fn error_and_config_values() {
    let e = Error::from(5u32);
    assert_eq!(e, Error::Win32Error(5));
    assert_eq!(e.code(), 5);
    let c = Config::default();
    assert_eq!((c.position.x, c.position.y, c.size.w, c.size.h, c.filelist.snap), (0, 0, 400, 200, false));
}
