use pict::app::{App, AppState, Command};
use pict::context::Context;
use pict::event::{Event, EventType, Key, HWND};
use pict::folder::DirEntry;
use pict::registry::Role;

fn files(names: &[&str]) -> Vec<(String, usize)> {
    names.iter().map(|n| (n.to_string(), 1)).collect()
}

fn entry(name: &str, size: usize, is_dir: bool) -> DirEntry {
    DirEntry { name: name.to_string(), size, is_dir }
}

fn names(ctx: &Context) -> Vec<String> {
    ctx.get_list_iter().to_vec()
}

fn running_app() -> App {
    let mut app = App::new(false);
    assert!(app.register(HWND(1), Role::Main));
    assert!(app.register(HWND(2), Role::List));
    assert!(app.start());
    app
}

fn key(app: &mut App, k: Key) -> Vec<Command> {
    app.handle(&Event { event: EventType::KeyDown { key: k }, hwnd: HWND(1) })
}

#[test]
fn next_n_times_returns_to_start() {
    let mut ctx = Context::new(false);
    ctx.extend_list(&files(&["a.png", "b.png", "c.png", "d.png"]));
    ctx.set_index(1);
    for _ in 0..4 {
        assert!(ctx.select_next().is_some());
    }
    assert_eq!(ctx.get_index(), 1);
}

#[test]
fn previous_then_next_and_back() {
    let mut ctx = Context::new(false);
    ctx.extend_list(&files(&["a.png", "b.png", "c.png"]));
    for start in 0..3 {
        ctx.set_index(start);
        ctx.select_previous();
        ctx.select_next();
        assert_eq!(ctx.get_index(), start);
        ctx.select_next();
        ctx.select_previous();
        assert_eq!(ctx.get_index(), start);
    }
}

#[test]
fn wraparound_both_ways() {
    let mut ctx = Context::new(false);
    ctx.extend_list(&files(&["a.png", "b.png", "c.png"]));
    ctx.set_index(2);
    assert_eq!(ctx.select_next(), Some(0));
    assert_eq!(ctx.get_index(), 0);
    assert_eq!(ctx.select_previous(), Some(2));
    assert_eq!(ctx.get_index(), 2);
}

#[test]
fn navigation_on_empty_list_is_a_no_op() {
    let mut ctx = Context::new(true);
    assert_eq!(ctx.select_next(), None);
    assert_eq!(ctx.select_previous(), None);
    assert_eq!(ctx.get_index(), 0);
    assert_eq!(ctx.get_len(), 0);
}

#[test]
fn navigation_resets_frame() {
    let mut ctx = Context::new(false);
    ctx.extend_list(&files(&["a.gif", "b.gif"]));
    ctx.set_frame_index(7);
    assert_eq!(ctx.get_frame_index(), 7);
    ctx.select_next();
    assert_eq!(ctx.get_frame_index(), 0);
}

#[test]
fn primitives_read_back() {
    let mut ctx = Context::new(true);
    assert!(ctx.get_snap());
    ctx.set_snap(false);
    assert!(!ctx.get_snap());
    ctx.extend_list(&files(&["a.png"]));
    ctx.extend_list(&files(&["b.png", "c.png"]));
    assert_eq!(names(&ctx), vec!["a.png", "b.png", "c.png"]);
    ctx.set_index(2);
    ctx.clear_list();
    assert_eq!(ctx.get_len(), 0);
    assert_eq!(ctx.get_index(), 0);
}

#[test]
fn index_stays_in_range_after_each_operation() {
    let mut ctx = Context::new(false);
    let in_range = |c: &Context| assert!(c.get_len() == 0 && c.get_index() == 0 || c.get_index() < c.get_len());
    ctx.replace_list(&files(&["a.png", "b.png"]));
    in_range(&ctx);
    ctx.select_previous();
    in_range(&ctx);
    ctx.select_next();
    in_range(&ctx);
    assert!(!ctx.select(5));
    in_range(&ctx);
    ctx.replace_list(&files(&["only.png"]));
    in_range(&ctx);
    ctx.clear_list();
    in_range(&ctx);
}

#[test]
fn populate_scenario_filters_and_selects_first() {
    let mut app = running_app();
    let entries = vec![entry("a.png", 10, false), entry("b.txt", 20, false), entry("c.jpg", 30, false)];
    let cmds = app.open_folder("pics".to_string(), &entries);
    assert_eq!(names(app.context()), vec!["a.png", "c.jpg"]);
    assert_eq!(app.context().get_index(), 0);
    assert_eq!(
        cmds,
        vec![Command::PopulateList {
            dir: "pics".to_string(),
            files: vec![("a.png".to_string(), 10), ("c.jpg".to_string(), 30)],
        }]
    );
}

#[test]
fn populate_with_duplicates_and_folders() {
    let mut app = running_app();
    let entries = vec![
        entry("a.png", 1, false),
        entry("a.png", 1, false),
        entry("sub.png", 0, true),
        entry("notes", 3, false),
    ];
    app.open_folder("d".to_string(), &entries);
    assert_eq!(app.context().get_len(), 2);
    assert_eq!(app.context().get_index(), 0);
}

#[test]
fn populate_with_no_accepted_file() {
    let mut app = running_app();
    key(&mut app, Key::D);
    let entries = vec![entry("a.txt", 1, false), entry("b.doc", 1, false)];
    app.open_folder("d".to_string(), &entries);
    assert_eq!(app.context().get_len(), 0);
    assert_eq!(app.context().get_index(), 0);
}

#[test]
fn keys_step_through_files() {
    let mut app = running_app();
    let entries = vec![entry("a.png", 1, false), entry("b.png", 1, false), entry("c.png", 1, false)];
    app.open_folder("d".to_string(), &entries);
    assert_eq!(key(&mut app, Key::D), vec![Command::SelectInList { index: 1 }]);
    assert_eq!(key(&mut app, Key::A), vec![Command::SelectInList { index: 0 }]);
    assert_eq!(key(&mut app, Key::A), vec![Command::SelectInList { index: 2 }]);
    assert_eq!(app.context().get_index(), 2);
}

#[test]
fn random_key_selects_a_file_in_the_list() {
    let mut app = running_app();
    assert!(key(&mut app, Key::R).is_empty());
    let entries = vec![entry("a.png", 1, false), entry("b.png", 1, false), entry("c.png", 1, false)];
    app.open_folder("d".to_string(), &entries);
    for _ in 0..20 {
        let cmds = key(&mut app, Key::R);
        assert_eq!(cmds.len(), 1);
        match &cmds[0] {
            Command::SelectInList { index } => {
                assert!(*index < 3);
                assert_eq!(app.context().get_index(), *index);
            }
            other => panic!("unexpected command {:?}", other),
        }
    }
}

#[test]
fn snap_keys_and_toggle() {
    let mut app = running_app();
    assert_eq!(key(&mut app, Key::L), vec![Command::ToggleList]);
    assert_eq!(app.toggle_list(true), vec![Command::HideList]);
    assert_eq!(app.toggle_list(false), vec![Command::ShowList]);
    assert_eq!(key(&mut app, Key::K), vec![Command::AlignList]);
    assert!(app.context().get_snap());
    assert_eq!(app.toggle_list(false), vec![Command::ShowList, Command::AlignList]);
    let moving = app.handle(&Event { event: EventType::Moving { x: 5, y: 5 }, hwnd: HWND(1) });
    assert_eq!(moving, vec![Command::RepositionTrackbar, Command::AlignList]);
    assert!(key(&mut app, Key::Key2).is_empty());
    assert!(key(&mut app, Key::Other(0x99)).is_empty());
}

#[test]
fn list_notification_selects_item() {
    let mut app = running_app();
    let entries = vec![entry("a.png", 1, false), entry("b.png", 1, false), entry("c.png", 1, false)];
    app.open_folder("d".to_string(), &entries);
    let click = |item: i32| Event {
        event: EventType::Notify { code: pict::app::NM_CLICK, item, new_state: 0, old_state: 0 },
        hwnd: HWND(2),
    };
    assert!(app.handle(&click(2)).is_empty());
    assert_eq!(app.context().get_index(), 2);
    app.handle(&click(9));
    assert_eq!(app.context().get_index(), 2);
    app.handle(&click(-1));
    assert_eq!(app.context().get_index(), 2);
    let changed = Event {
        event: EventType::Notify {
            code: pict::app::LVN_ITEMCHANGED,
            item: 0,
            new_state: pict::app::LVIS_SELECTED,
            old_state: 0,
        },
        hwnd: HWND(2),
    };
    app.handle(&changed);
    assert_eq!(app.context().get_index(), 2);
}

#[test]
fn list_window_events() {
    let mut app = running_app();
    let resize = Event { event: EventType::Resize { width: 10, height: 10 }, hwnd: HWND(2) };
    assert_eq!(app.handle(&resize), vec![Command::FitList]);
}

#[test]
fn close_on_list_window_keeps_running() {
    let mut app = running_app();
    let cmds = app.handle(&Event { event: EventType::CloseRequest, hwnd: HWND(2) });
    assert_eq!(cmds, vec![Command::HideList]);
    assert_eq!(app.state(), AppState::Running);
}

#[test]
fn close_on_main_window_shuts_down() {
    let mut app = running_app();
    key(&mut app, Key::K);
    let cmds = app.handle(&Event { event: EventType::CloseRequest, hwnd: HWND(1) });
    assert_eq!(cmds, vec![Command::SaveConfig { snap: true }, Command::Exit]);
    assert_eq!(app.state(), AppState::ShuttingDown);
    assert_eq!(app.control_flow(), pict::event::ControlFlow::Break);
    assert!(key(&mut app, Key::L).is_empty());
    assert!(app.finish());
    assert_eq!(app.state(), AppState::Terminated);
}

#[test]
fn events_before_start_are_dropped() {
    let mut app = App::new(false);
    app.register(HWND(1), Role::Main);
    assert!(key(&mut app, Key::L).is_empty());
    assert_eq!(app.state(), AppState::Uninitialized);
    assert_eq!(app.control_flow(), pict::event::ControlFlow::Continue);
}

#[test]
fn unregistered_window_has_no_role() {
    let mut app = running_app();
    assert_eq!(app.resolve(HWND(77)), None);
    let cmds = app.handle(&Event { event: EventType::CloseRequest, hwnd: HWND(77) });
    assert!(cmds.is_empty());
    assert_eq!(app.state(), AppState::Running);
}

#[test]
fn re_registration_keeps_first_role() {
    let mut app = App::new(false);
    assert!(app.register(HWND(1), Role::Main));
    assert!(!app.register(HWND(1), Role::List));
    assert!(!app.register(HWND(1), Role::Main));
    assert!(!app.register(HWND(3), Role::Main));
    assert_eq!(app.resolve(HWND(1)), Some(Role::Main));
    assert_eq!(app.resolve(HWND(3)), None);
}

#[test]
fn main_window_scroll_and_drop() {
    let mut app = running_app();
    let drop = Event { event: EventType::DropFile { file: "x/y.png".to_string() }, hwnd: HWND(1) };
    assert_eq!(app.handle(&drop), vec![Command::ListFolder { path: "x/y.png".to_string() }]);
    let scroll = |wp: usize| Event { event: EventType::HScroll { wp, lp: 0 }, hwnd: HWND(1) };
    assert_eq!(app.handle(&scroll(8)), vec![Command::QueryTrackbarPos]);
    assert_eq!(app.handle(&scroll(1)), vec![Command::SetTrackbarPos { pos: 0 }]);
    assert!(app.handle(&scroll(5)).is_empty());
    let color = Event { event: EventType::CtrlColorStatic { wp: 0, lp: 0 }, hwnd: HWND(1) };
    assert_eq!(app.handle(&color), vec![Command::WhiteBackground]);
}

#[test]
fn snapshot_records_geometry_and_snap() {
    let mut app = running_app();
    key(&mut app, Key::K);
    let conf = app.snapshot((3, 4), (500, 300));
    assert_eq!(conf.position.x, 3);
    assert_eq!(conf.position.y, 4);
    assert_eq!(conf.size.w, 500);
    assert_eq!(conf.size.h, 300);
    assert!(conf.filelist.snap);
}
