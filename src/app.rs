use rand::Rng;
use vstd::prelude::*;

use crate::config::{Config, FileList, Position, Size};
use crate::context::{next_index, previous_index, Context, ContextView};
use crate::event::{ControlFlow, Event, EventType, Key, HWND};
use crate::folder::{accepted_files, listed_images, DirEntry};
use crate::registry::{other_role, Role, WindowRegistry};

verus! {

/// Where the viewer is in its life.
#[derive(Clone, Copy, Debug, PartialEq, Eq, Structural)]
pub enum AppState {
    /// Windows are being made and registered; no event is handled yet.
    Uninitialized,
    /// Events are handled.
    Running,
    /// The main window was asked to close: the record is saved and the loop
    /// told to stop; events still queued are dropped.
    ShuttingDown,
    /// The loop has stopped.
    Terminated,
}

/// What the windowing layer is asked to do after an event.
#[derive(Clone, Debug, PartialEq)]
pub enum Command {
    /// Save the record of the main window's place and size with this snap flag.
    SaveConfig { snap: bool },
    /// End the message loop.
    Exit,
    /// Move the list window's selection to this index.
    SelectInList { index: usize },
    HideList,
    ShowList,
    /// Put the list window against the main window's left edge.
    AlignList,
    /// Fit the list view to its window.
    FitList,
    /// Hide the list window if it shows, else show it (see `App::toggle_list`).
    ToggleList,
    RepositionTrackbar,
    /// List the folder of a dropped path (see `drop_target` and `App::open_folder`).
    ListFolder { path: String },
    /// Show these files, titled with their folder, in the list window.
    PopulateList { dir: String, files: Vec<(String, usize)> },
    /// Read the trackbar's position.
    QueryTrackbarPos,
    /// Move the trackbar to this frame.
    SetTrackbarPos { pos: usize },
    /// Paint static controls on a white background.
    WhiteBackground,
}

pub const NM_CLICK: u32 = 0xFFFF_FFFE;
pub const NM_RETURN: u32 = 0xFFFF_FFFC;
pub const NM_SETFOCUS: u32 = 0xFFFF_FFF9;
pub const LVN_ITEMCHANGED: u32 = 0xFFFF_FF9B;
pub const LVN_ITEMACTIVATE: u32 = 0xFFFF_FF8E;
pub const LVIS_SELECTED: u32 = 0x0002;
pub const TB_LINEUP: usize = 0;
pub const TB_LINEDOWN: usize = 1;
pub const TB_PAGEUP: usize = 2;
pub const TB_PAGEDOWN: usize = 3;
pub const TB_THUMBPOSITION: usize = 4;
pub const TB_ENDTRACK: usize = 8;

/// The dispatcher's state as mathematical values.
pub struct AppView {
    pub ctx: ContextView,
    pub registry: WindowRegistry,
    pub state: AppState,
}

/// What a key pressed on the main window does to the context and asks for.
/// `A` and `D` step back and forth through the files, `L` shows or hides the
/// list window, `K` aligns it and flips the snap flag, `R` picks a file at
/// random; other keys change nothing.
pub open spec fn key_step(c0: ContextView, key: Key, c1: ContextView, cmds: Seq<Command>) -> bool {
    let len = c0.list.len();
    match key {
        Key::A => if len == 0 {
            c1 == c0 && cmds.len() == 0
        } else {
            let i = previous_index(c0.index, len);
            c1 == (ContextView { index: i, frame: 0, ..c0 }) && cmds == seq![
                Command::SelectInList { index: i as usize },
            ]
        },
        Key::D => if len == 0 {
            c1 == c0 && cmds.len() == 0
        } else {
            let i = next_index(c0.index, len);
            c1 == (ContextView { index: i, frame: 0, ..c0 }) && cmds == seq![
                Command::SelectInList { index: i as usize },
            ]
        },
        Key::L => c1 == c0 && cmds == seq![Command::ToggleList],
        Key::K => c1 == (ContextView { snap: !c0.snap, ..c0 }) && cmds == seq![Command::AlignList],
        Key::R => if len == 0 {
            c1 == c0 && cmds.len() == 0
        } else {
            &&& c1.list == c0.list
            &&& c1.snap == c0.snap
            &&& c1.index < len
            &&& c1.frame == if c1.index == c0.index {
                c0.frame
            } else {
                0
            }
            &&& cmds == seq![Command::SelectInList { index: c1.index as usize }]
        },
        _ => c1 == c0 && cmds.len() == 0,
    }
}

/// What a trackbar scroll with parameter `wp` asks for, the current frame being
/// `frame`.
pub open spec fn hscroll_commands(wp: usize, frame: nat) -> Seq<Command> {
    let code = wp % 65536;
    if code == TB_ENDTRACK || code == TB_PAGEDOWN || code == TB_PAGEUP {
        seq![Command::QueryTrackbarPos]
    } else if code == TB_LINEDOWN || code == TB_LINEUP || code == TB_THUMBPOSITION {
        seq![Command::SetTrackbarPos { pos: frame as usize }]
    } else {
        Seq::empty()
    }
}

/// What an event on the main window (other than a close request) does to the
/// context and asks for.
pub open spec fn main_step(c0: ContextView, ev: EventType, c1: ContextView, cmds: Seq<Command>) -> bool {
    match ev {
        EventType::KeyDown { key } => key_step(c0, key, c1, cmds),
        EventType::Moving { .. } => c1 == c0 && cmds == if c0.snap {
            seq![Command::RepositionTrackbar, Command::AlignList]
        } else {
            seq![Command::RepositionTrackbar]
        },
        EventType::DropFile { file } => c1 == c0 && cmds == seq![Command::ListFolder { path: file }],
        EventType::HScroll { wp, .. } => c1 == c0 && cmds == hscroll_commands(wp, c0.frame),
        EventType::CtrlColorStatic { .. } => c1 == c0 && cmds == seq![Command::WhiteBackground],
        _ => c1 == c0 && cmds.len() == 0,
    }
}

/// Whether a list-view notification code reports that the user picked an item.
pub open spec fn is_pick_code(code: u32) -> bool {
    code == NM_SETFOCUS || code == NM_RETURN || code == NM_CLICK || code == LVN_ITEMACTIVATE
        || code == LVN_ITEMCHANGED
}

/// The context after a list-view notification: an item picked by the user
/// (whose selected flag did not flip) becomes the selection when it lies in
/// the list and differs from the current one.
pub open spec fn notified(c0: ContextView, code: u32, item: i32, new_state: u32, old_state: u32) -> ContextView {
    if is_pick_code(code) && (new_state ^ old_state) & LVIS_SELECTED == 0 && 0 <= item < c0.list.len()
        && item != c0.index {
        ContextView { index: item as nat, frame: 0, ..c0 }
    } else {
        c0
    }
}

/// What an event on the list window does to the context and asks for.
pub open spec fn list_step(c0: ContextView, ev: EventType, c1: ContextView, cmds: Seq<Command>) -> bool {
    match ev {
        EventType::CloseRequest => c1 == c0 && cmds == seq![Command::HideList],
        EventType::Moved { .. }
        | EventType::Moving { .. }
        | EventType::Resizing { .. }
        | EventType::Resize { .. } => c1 == c0 && cmds == seq![Command::FitList],
        EventType::Notify { code, item, new_state, old_state } => c1 == notified(
            c0,
            code,
            item,
            new_state,
            old_state,
        ) && cmds.len() == 0,
        _ => c1 == c0 && cmds.len() == 0,
    }
}

/// One dispatch: from state `a`, event `ev` leads to state `b` and asks for
/// `cmds`. Events are only handled while running, and only from registered
/// windows; a close request on the main window starts the shutdown.
pub open spec fn step(a: AppView, ev: Event, b: AppView, cmds: Seq<Command>) -> bool {
    let role = a.registry.role_of(ev.hwnd);
    if a.state != AppState::Running || role is None {
        b == a && cmds.len() == 0
    } else if role == Some(Role::Main) {
        if ev.event is CloseRequest {
            &&& b == (AppView { state: AppState::ShuttingDown, ..a })
            &&& cmds == seq![Command::SaveConfig { snap: a.ctx.snap }, Command::Exit]
        } else {
            &&& b.state == AppState::Running
            &&& b.registry == a.registry
            &&& main_step(a.ctx, ev.event, b.ctx, cmds)
        }
    } else {
        &&& b.state == AppState::Running
        &&& b.registry == a.registry
        &&& list_step(a.ctx, ev.event, b.ctx, cmds)
    }
}

/// Only a close request raised on the main window ends the run: the same
/// request on any other window leaves the dispatcher running and asks for no
/// exit.
pub proof fn lemma_only_main_close_shuts_down(a: AppView, ev: Event, b: AppView, cmds: Seq<Command>)
    requires
        step(a, ev, b, cmds),
        a.state == AppState::Running,
        ev.event is CloseRequest,
    ensures
        (b.state == AppState::ShuttingDown) <==> a.registry.role_of(ev.hwnd) == Some(Role::Main),
        a.registry.role_of(ev.hwnd) != Some(Role::Main) ==> b.state == AppState::Running
            && !cmds.contains(Command::Exit),
{
    if a.registry.role_of(ev.hwnd) == Some(Role::List) {
        assert(cmds == seq![Command::HideList]);
        assert(cmds[0] != Command::Exit);
    }
}

/// Once the dispatcher has left the running state, no event changes anything
/// or asks for anything.
pub proof fn lemma_no_dispatch_after_exit(a: AppView, ev: Event, b: AppView, cmds: Seq<Command>)
    requires
        step(a, ev, b, cmds),
        a.state != AppState::Running,
    ensures
        b == a,
        cmds.len() == 0,
{
}

/// Relies on rand's `Rng::gen_range` over `thread_rng()`: a number drawn
/// uniformly below `len`, which must not be 0.
#[verifier::external_body]
fn random_below(len: usize) -> (r: usize)
    requires
        len > 0,
    ensures
        r < len,
{
    rand::thread_rng().gen_range(0..len)
}

fn one(c: Command) -> (r: Vec<Command>)
    ensures
        r@ == seq![c],
{
    let mut r = Vec::new();
    r.push(c);
    r
}

fn two(a: Command, b: Command) -> (r: Vec<Command>)
    ensures
        r@ == seq![a, b],
{
    let mut r = Vec::new();
    r.push(a);
    r.push(b);
    r
}

/// The dispatcher: owns the shared context and the window registry, routes each
/// event to the handler of the role of the window it came from, and reports
/// what the windows must do.
pub struct App {
    context: Context,
    registry: WindowRegistry,
    state: AppState,
}

impl View for App {
    type V = AppView;

    closed spec fn view(&self) -> AppView {
        AppView { ctx: self.context@, registry: self.registry, state: self.state }
    }
}

impl App {
    /// Well-formedness: the context keeps its selection invariant and no window
    /// holds two roles.
    pub closed spec fn wf(&self) -> bool {
        self.context.wf() && self.registry.wf()
    }

    /// A dispatcher not yet running, with an empty file list, no window
    /// registered, and the snap flag read from the saved record.
    pub fn new(snap: bool) -> (r: App)
        ensures
            r.wf(),
            r@.state == AppState::Uninitialized,
            r@.ctx == (ContextView { list: Seq::empty(), index: 0, snap, frame: 0 }),
            r@.registry.holder(Role::Main) is None,
            r@.registry.holder(Role::List) is None,
    {
        let context = Context::new(snap);
        App { context, registry: WindowRegistry::new(), state: AppState::Uninitialized }
    }

    /// Registers window `id` for `role`; the first window registered for a role
    /// keeps it. Returns whether the registration took effect.
    pub fn register(&mut self, id: HWND, role: Role) -> (r: bool)
        requires
            old(self).wf(),
        ensures
            final(self).wf(),
            r == old(self)@.registry.accepts(id, role),
            final(self)@ == (AppView { registry: old(self)@.registry.registered(id, role), ..old(self)@ }),
            r ==> final(self)@.registry.holder(role) == Some(id),
            r ==> final(self)@.registry.holder(other_role(role)) == old(self)@.registry.holder(
                other_role(role),
            ),
            !r ==> final(self)@ == old(self)@,
    {
        self.registry.register(id, role)
    }

    /// The role of window `id`, if it was registered.
    pub fn resolve(&self, id: HWND) -> (r: Option<Role>)
        ensures
            r == self@.registry.role_of(id),
    {
        self.registry.resolve(id)
    }

    /// Starts handling events, once the windows are registered. Returns whether
    /// the dispatcher was waiting to start.
    pub fn start(&mut self) -> (r: bool)
        requires
            old(self).wf(),
        ensures
            final(self).wf(),
            r == (old(self)@.state == AppState::Uninitialized),
            r ==> final(self)@ == (AppView { state: AppState::Running, ..old(self)@ }),
            !r ==> final(self)@ == old(self)@,
    {
        if self.state == AppState::Uninitialized {
            self.state = AppState::Running;
            true
        } else {
            false
        }
    }

    /// Records that the message loop has stopped after a shutdown. Returns
    /// whether a shutdown was under way.
    pub fn finish(&mut self) -> (r: bool)
        requires
            old(self).wf(),
        ensures
            final(self).wf(),
            r == (old(self)@.state == AppState::ShuttingDown),
            r ==> final(self)@ == (AppView { state: AppState::Terminated, ..old(self)@ }),
            !r ==> final(self)@ == old(self)@,
    {
        if self.state == AppState::ShuttingDown {
            self.state = AppState::Terminated;
            true
        } else {
            false
        }
    }

    /// Handles one event, as `step` states: routes it by the role of the
    /// window it came from, drops it while not running or when that window was
    /// never registered, and starts the shutdown on a close request from the
    /// main window.
    pub fn handle(&mut self, ev: &Event) -> (r: Vec<Command>)
        requires
            old(self).wf(),
        ensures
            final(self).wf(),
            step(old(self)@, *ev, final(self)@, r@),
    {
        if self.state != AppState::Running {
            return Vec::new();
        }
        match self.registry.resolve(ev.hwnd) {
            None => Vec::new(),
            Some(Role::Main) => {
                if let EventType::CloseRequest = ev.event {
                    self.state = AppState::ShuttingDown;
                    two(Command::SaveConfig { snap: self.context.get_snap() }, Command::Exit)
                } else {
                    self.on_main_event(&ev.event)
                }
            },
            Some(Role::List) => self.on_list_event(&ev.event),
        }
    }

    fn on_main_event(&mut self, ev: &EventType) -> (r: Vec<Command>)
        requires
            old(self).wf(),
        ensures
            final(self).wf(),
            final(self)@.state == old(self)@.state,
            final(self)@.registry == old(self)@.registry,
            main_step(old(self)@.ctx, *ev, final(self)@.ctx, r@),
    {
        match ev {
            EventType::KeyDown { key } => self.on_key_down(*key),
            EventType::Moving { .. } => {
                if self.context.get_snap() {
                    two(Command::RepositionTrackbar, Command::AlignList)
                } else {
                    one(Command::RepositionTrackbar)
                }
            },
            EventType::DropFile { file } => one(Command::ListFolder { path: file.clone() }),
            EventType::HScroll { wp, .. } => {
                let code = *wp % 65536;
                if code == TB_ENDTRACK || code == TB_PAGEDOWN || code == TB_PAGEUP {
                    one(Command::QueryTrackbarPos)
                } else if code == TB_LINEDOWN || code == TB_LINEUP || code == TB_THUMBPOSITION {
                    one(Command::SetTrackbarPos { pos: self.context.get_frame_index() })
                } else {
                    Vec::new()
                }
            },
            EventType::CtrlColorStatic { .. } => one(Command::WhiteBackground),
            _ => Vec::new(),
        }
    }

    fn on_key_down(&mut self, key: Key) -> (r: Vec<Command>)
        requires
            old(self).wf(),
        ensures
            final(self).wf(),
            final(self)@.state == old(self)@.state,
            final(self)@.registry == old(self)@.registry,
            key_step(old(self)@.ctx, key, final(self)@.ctx, r@),
    {
        match key {
            Key::A => match self.context.select_previous() {
                Some(i) => one(Command::SelectInList { index: i }),
                None => Vec::new(),
            },
            Key::D => match self.context.select_next() {
                Some(i) => one(Command::SelectInList { index: i }),
                None => Vec::new(),
            },
            Key::L => one(Command::ToggleList),
            Key::K => {
                let snap = self.context.get_snap();
                self.context.set_snap(!snap);
                one(Command::AlignList)
            },
            Key::R => {
                let len = self.context.get_len();
                if len == 0 {
                    return Vec::new();
                }
                let n = random_below(len);
                self.context.select(n);
                one(Command::SelectInList { index: n })
            },
            _ => Vec::new(),
        }
    }

    fn on_list_event(&mut self, ev: &EventType) -> (r: Vec<Command>)
        requires
            old(self).wf(),
        ensures
            final(self).wf(),
            final(self)@.state == old(self)@.state,
            final(self)@.registry == old(self)@.registry,
            list_step(old(self)@.ctx, *ev, final(self)@.ctx, r@),
    {
        match ev {
            EventType::CloseRequest => one(Command::HideList),
            EventType::Moved { .. }
            | EventType::Moving { .. }
            | EventType::Resizing { .. }
            | EventType::Resize { .. } => one(Command::FitList),
            EventType::Notify { code, item, new_state, old_state } => {
                let code = *code;
                let picked = code == NM_SETFOCUS || code == NM_RETURN || code == NM_CLICK || code
                    == LVN_ITEMACTIVATE || code == LVN_ITEMCHANGED;
                if picked && (*new_state ^ *old_state) & LVIS_SELECTED == 0 && *item >= 0 {
                    self.context.select(*item as usize);
                }
                Vec::new()
            },
            _ => Vec::new(),
        }
    }

    /// What the `ToggleList` command comes to, given whether the list window
    /// shows: hide it if it does, else show it, aligned to the main window when
    /// the snap flag is set.
    pub fn toggle_list(&self, visible: bool) -> (r: Vec<Command>)
        ensures
            r@ == if visible {
                seq![Command::HideList]
            } else if self@.ctx.snap {
                seq![Command::ShowList, Command::AlignList]
            } else {
                seq![Command::ShowList]
            },
    {
        if visible {
            one(Command::HideList)
        } else if self.context.get_snap() {
            two(Command::ShowList, Command::AlignList)
        } else {
            one(Command::ShowList)
        }
    }

    /// Installs the listing of folder `dir` as the file list, in one step: the
    /// accepted image files replace the old list and the first is selected.
    /// Asks the list window to show the same files.
    pub fn open_folder(&mut self, dir: String, entries: &Vec<DirEntry>) -> (r: Vec<Command>)
        requires
            old(self).wf(),
        ensures
            final(self).wf(),
            final(self)@ == (AppView {
                ctx: ContextView {
                    list: listed_images(entries@).map_values(|f: (Seq<char>, usize)| f.0),
                    index: 0,
                    frame: 0,
                    ..old(self)@.ctx
                },
                ..old(self)@
            }),
            r@.len() == 1,
            match r@[0] {
                Command::PopulateList { dir: d, files } => d == dir && files@.map_values(
                    |f: (String, usize)| (f.0@, f.1),
                ) == listed_images(entries@),
                _ => false,
            },
    {
        let files = accepted_files(entries);
        self.context.replace_list(files.as_slice());
        proof {
            let images = listed_images(entries@);
            assert(files@.map_values(|e: (String, usize)| e.0@) =~= images.map_values(
                |f: (Seq<char>, usize)| f.0,
            )) by {
                assert forall|i: int| 0 <= i < files@.len() implies files@[i].0@ == images[i].0 by {
                    assert(files@.map_values(|f: (String, usize)| (f.0@, f.1))[i] == images[i]);
                }
            }
        }
        one(Command::PopulateList { dir, files })
    }

    /// The dispatcher's state.
    pub fn state(&self) -> (r: AppState)
        ensures
            r == self@.state,
    {
        self.state
    }

    /// Whether the message loop goes on: it stops once a shutdown has begun.
    pub fn control_flow(&self) -> (r: ControlFlow)
        ensures
            r == if self@.state == AppState::ShuttingDown || self@.state == AppState::Terminated {
                ControlFlow::Break
            } else {
                ControlFlow::Continue
            },
    {
        if self.state == AppState::ShuttingDown || self.state == AppState::Terminated {
            ControlFlow::Break
        } else {
            ControlFlow::Continue
        }
    }

    /// The shared context.
    pub fn context(&self) -> (r: &Context)
        ensures
            r@ == self@.ctx,
            self.wf() ==> r.wf(),
    {
        &self.context
    }

    /// The record to save: the main window at `pos` with outer size `size`, and
    /// the current snap flag.
    pub fn snapshot(&self, pos: (i32, i32), size: (i32, i32)) -> (r: Config)
        ensures
            r == (Config {
                position: Position { x: pos.0, y: pos.1 },
                size: Size { w: size.0, h: size.1 },
                filelist: FileList { snap: self@.ctx.snap },
            }),
    {
        Config::snapshot(pos, size, self.context.get_snap())
    }
}

} // verus!
