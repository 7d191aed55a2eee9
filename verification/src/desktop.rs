//! The window, the log files and the program of the client.

use crate::error::GuiError;
use crate::platform::Platform;
use crate::text::same_text;
use vstd::prelude::*;

verus! {

/// How the client shows among the running programs.
#[derive(Debug, Clone, Copy, PartialEq, Eq, Structural)]
pub enum ActivationPolicy {
    /// As a program with a window.
    Regular,
    /// As a program in the background.
    Accessory,
}

/// The policy to set when the window is shown or hidden, on platforms that have one.
pub fn set_dock_visibility(platform: Platform, visible: bool) -> (r: Option<ActivationPolicy>)
    ensures
        r is Some <==> platform is MacOs,
        r matches Some(policy) ==> (policy is Regular <==> visible),
{
    match platform {
        Platform::MacOs => Some(
            if visible {
                ActivationPolicy::Regular
            } else {
                ActivationPolicy::Accessory
            },
        ),
        Platform::Android | Platform::Other => None,
    }
}

/// What to do with the window.
#[derive(Debug, Clone, Copy, PartialEq, Eq, Structural)]
pub struct WindowChange {
    pub show: bool,
    pub unminimize: bool,
    pub focus: bool,
    pub hide: bool,
    /// Whether the client then counts as a program with a window.
    pub dock_visible: bool,
}

/// What a click on the tray icon does to a window in the given state, where what
/// could not be found out counts as not so: a window that the user sees and works
/// in is hidden; any other is brought to the front.
pub fn toggle_window_visibility(
    visible: Option<bool>,
    minimized: Option<bool>,
    focused: Option<bool>,
) -> (r: WindowChange)
    ensures
        r.hide == (visible == Some(true) && minimized != Some(true) && focused == Some(true)),
        r.dock_visible == !r.hide,
        r.show == (visible != Some(true)),
        r.unminimize == (minimized == Some(true)),
        r.focus == (focused != Some(true)),
{
    let visible = visible.unwrap_or(false);
    let minimized = minimized.unwrap_or(false);
    let focused = focused.unwrap_or(false);
    let should_show = !visible || minimized || !focused;
    WindowChange {
        show: should_show && !visible,
        unminimize: should_show && minimized,
        focus: should_show && !focused,
        hide: !should_show,
        dock_visible: should_show,
    }
}

/// The path of the program: that of the image it was started from, where the
/// environment names one; else that of the running program, or nothing where it
/// cannot be found out.
pub fn get_exe_path(appimage: Option<String>, current_exe: Option<String>) -> (r: String)
    ensures
        r@ == match (appimage, current_exe) {
            (Some(image), program) if image@.len() > 0 => image@,
            (_, Some(program)) => program@,
            (_, None) => Seq::empty(),
        },
{
    if let Some(image) = appimage {
        proof {
            reveal_strlit("");
            if image@.len() == 0 {
                assert(image@ =~= ""@);
            }
        }
        if !same_text(image.as_str(), "") {
            return image;
        }
    }
    match current_exe {
        Some(program) => program,
        None => {
            proof {
                reveal_strlit("");
                assert(""@ =~= Seq::<char>::empty());
            }
            "".to_string()
        },
    }
}

/// Where the log files are kept.
#[derive(Debug, Clone, Copy, PartialEq, Eq, Structural)]
pub enum LogDirectory {
    /// In `logs`, in the directory of the cache.
    CacheLogs,
    /// In the directory that the platform has for log files.
    AppLog,
}

/// Where the log files are kept.
pub fn get_log_dir(platform: Platform) -> (r: LogDirectory)
    ensures
        r is CacheLogs <==> platform is Android,
{
    if platform.is_android() {
        LogDirectory::CacheLogs
    } else {
        LogDirectory::AppLog
    }
}

/// The answer to the question where the log files are kept.
pub fn get_log_dir_path(found: Result<String, String>) -> (r: Result<String, GuiError>)
    ensures
        match found {
            Ok(path) => r matches Ok(told) && told == path,
            Err(words) => r matches Err(GuiError::LogDirectory(said)) && said == words,
        },
{
    match found {
        Ok(path) => Ok(path),
        Err(words) => Err(GuiError::LogDirectory(words)),
    }
}

/// How log files are written; what is missing is left to the logger.
#[derive(Debug)]
pub struct FileLogger {
    pub dir: Option<String>,
    pub level: Option<String>,
    pub file: Option<String>,
    pub size_mb: Option<u64>,
    pub count: Option<usize>,
}

/// How log files are written to `dir`. On Android they are kept small and few.
pub fn file_logger(platform: Platform, dir: String) -> (r: FileLogger)
    ensures
        r.dir == Some(dir),
        r.file is None,
        platform is Android ==> {
            &&& r.level is Some && r.level->0@ == "info"@
            &&& r.size_mb == Some(5u64)
            &&& r.count == Some(3usize)
        },
        !(platform is Android) ==> r.level is None && r.size_mb is None && r.count is None,
{
    if platform.is_android() {
        FileLogger {
            dir: Some(dir),
            level: Some("info".to_string()),
            file: None,
            size_mb: Some(5),
            count: Some(3),
        }
    } else {
        FileLogger { dir: Some(dir), level: None, file: None, size_mb: None, count: None }
    }
}

} // verus!
