//! Decisions of the GUI scripting module: where `open_with` sends a URL,
//! and the errors of the GUI window lookups.
use vstd::prelude::*;
use vstd::string::*;
use crate::text::{decimal_string, decimal_text};

verus! {

/// Who opens a URL.
#[derive(Debug, Clone, PartialEq, Eq)]
pub enum UrlOpener {
    /// The active GUI window opens it.
    ActiveWindow,
    /// The named application opens it.
    App(String),
    /// The system's default handler opens it.
    SystemDefault,
}

/// `open_with(url, app)`: without an application, the active GUI window (if
/// the active window is one) opens the URL; otherwise the named application,
/// or else the system's default handler.
pub fn open_with_target(active_is_gui_window: bool, app: Option<String>) -> (opener: UrlOpener)
    ensures
        opener == match app {
            None => if active_is_gui_window {
                UrlOpener::ActiveWindow
            } else {
                UrlOpener::SystemDefault
            },
            Some(a) => UrlOpener::App(a),
        },
{
    if active_is_gui_window && app.is_none() {
        return UrlOpener::ActiveWindow;
    }
    match app {
        Some(app) => UrlOpener::App(app),
        None => UrlOpener::SystemDefault,
    }
}


/// The identifier of a multiplexer window.
pub type MuxWindowId = usize;

/// The message for a multiplexer window that has no GUI window.
pub open spec fn window_not_associated_text(id: MuxWindowId) -> Seq<char> {
    "mux window id "@ + decimal_text(id as nat) + " is not currently associated with a gui window"@
}

/// The GUI front end, or the message that the call is not on the GUI thread.
pub fn require_gui_thread<T>(front_end: Option<T>) -> (r: Result<T, String>)
    ensures
        match front_end {
            Some(fe) => r == Ok::<T, String>(fe),
            None => r matches Err(e) && e@ == "not called on gui thread"@,
        },
{
    match front_end {
        Some(fe) => Ok(fe),
        None => Err(String::from_str("not called on gui thread")),
    }
}

/// The GUI window of multiplexer window `mux_window_id`, or the message
/// that it has none.
pub fn gui_window_for_mux_window<T>(mux_window_id: MuxWindowId, found: Option<T>) -> (r: Result<
    T,
    String,
>)
    ensures
        match found {
            Some(w) => r == Ok::<T, String>(w),
            None => r matches Err(e) && e@ == window_not_associated_text(mux_window_id),
        },
{
    match found {
        Some(w) => Ok(w),
        None => {
            let id = decimal_string(mux_window_id as u64);
            Err(
                String::from_str("mux window id ").concat(id.as_str()).concat(
                    " is not currently associated with a gui window",
                ),
            )
        },
    }
}

} // verus!
