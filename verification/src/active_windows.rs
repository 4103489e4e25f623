//! The window in focus.

use vstd::prelude::*;

verus! {

/// The window in focus, as the system reports it.
#[derive(Clone, Debug, PartialEq, Eq)]
pub struct ActiveWindow {
    pub title: String,
    pub process_path: String,
    pub app_name: String,
    pub window_id: String,
    pub process_id: u64,
}

impl ActiveWindow {
    /// Nothing is known of the window: every text is empty and the process
    /// id is 0.
    pub open spec fn is_blank(&self) -> bool {
        &&& self.title@.len() == 0
        &&& self.process_path@.len() == 0
        &&& self.app_name@.len() == 0
        &&& self.window_id@.len() == 0
        &&& self.process_id == 0
    }
}

impl Default for ActiveWindow {
    fn default() -> (w: ActiveWindow)
        ensures
            w.is_blank(),
    {
        ActiveWindow {
            title: String::new(),
            process_path: String::new(),
            app_name: String::new(),
            window_id: String::new(),
            process_id: 0,
        }
    }
}

/// The window in focus, given what the system reported: the window it
/// found, or a blank one if it found none.
pub fn get_active_window(found: Option<ActiveWindow>) -> (w: ActiveWindow)
    ensures
        match found {
            Some(window) => w == window,
            None => w.is_blank(),
        },
{
    match found {
        Some(window) => window,
        None => ActiveWindow::default(),
    }
}

} // verus!
