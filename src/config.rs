use vstd::prelude::*;

verus! {

/// Where the main window stands on screen.
#[derive(Clone, Copy, Debug, PartialEq, Eq, Structural)]
pub struct Position {
    pub x: i32,
    pub y: i32,
}

/// The outer size of the main window.
#[derive(Clone, Copy, Debug, PartialEq, Eq, Structural)]
pub struct Size {
    pub w: i32,
    pub h: i32,
}

/// The settings of the list window.
#[derive(Clone, Copy, Debug, PartialEq, Eq, Structural)]
pub struct FileList {
    pub snap: bool,
}

/// The record kept between runs: the main window's place and size, and
/// whether the list window follows it.
#[derive(Clone, Copy, Debug, PartialEq, Eq, Structural)]
pub struct Config {
    pub position: Position,
    pub size: Size,
    pub filelist: FileList,
}

impl Default for Config {
    /// The record used when none can be read: at the origin, 400 by 200, list
    /// window not following.
    fn default() -> (r: Config)
        ensures
            r == (Config {
                position: Position { x: 0, y: 0 },
                size: Size { w: 400, h: 200 },
                filelist: FileList { snap: false },
            }),
    {
        Config {
            position: Position { x: 0, y: 0 },
            size: Size { w: 400, h: 200 },
            filelist: FileList { snap: false },
        }
    }
}

impl Config {
    /// The record of a window at `pos` with outer size `size`, whose list window
    /// follows it when `snap` holds.
    pub fn snapshot(pos: (i32, i32), size: (i32, i32), snap: bool) -> (r: Config)
        ensures
            r == (Config {
                position: Position { x: pos.0, y: pos.1 },
                size: Size { w: size.0, h: size.1 },
                filelist: FileList { snap },
            }),
    {
        Config {
            position: Position { x: pos.0, y: pos.1 },
            size: Size { w: size.0, h: size.1 },
            filelist: FileList { snap },
        }
    }
}

} // verus!
