//! The tray menu: what each of its entries does.

use vstd::prelude::*;
use crate::text::text_eq;

verus! {

/// A window that the tray menu can bring forward.
#[derive(Clone, Copy, Debug, PartialEq, Eq, Structural)]
pub enum TrayWindow {
    Projects,
    Settings,
}

/// What a click on a tray menu entry does.
#[derive(Clone, Copy, Debug, PartialEq, Eq, Structural)]
pub enum TrayAction {
    /// Show and focus the window.
    Show(TrayWindow),
    /// Quit the program with exit code 0.
    Quit,
    /// Nothing.
    Ignore,
}

/// The label of the window a tray entry shows.
pub open spec fn window_label(w: TrayWindow) -> Seq<char> {
    match w {
        TrayWindow::Projects => "projects"@,
        TrayWindow::Settings => "settings"@,
    }
}

/// The action of the tray menu entry whose identifier is `id`: `projects` and
/// `settings` show their windows, `quit` quits, anything else does nothing.
pub fn tray_action(id: &str) -> (r: TrayAction)
    ensures
        id@ == "projects"@ ==> r == TrayAction::Show(TrayWindow::Projects),
        id@ != "projects"@ && id@ == "settings"@ ==> r == TrayAction::Show(TrayWindow::Settings),
        id@ != "projects"@ && id@ != "settings"@ && id@ == "quit"@ ==> r == TrayAction::Quit,
        id@ != "projects"@ && id@ != "settings"@ && id@ != "quit"@ ==> r == TrayAction::Ignore,
{
    if text_eq(id, "projects") {
        TrayAction::Show(TrayWindow::Projects)
    } else if text_eq(id, "settings") {
        TrayAction::Show(TrayWindow::Settings)
    } else if text_eq(id, "quit") {
        TrayAction::Quit
    } else {
        TrayAction::Ignore
    }
}

/// The label of the window that `w` names.
pub fn window_label_of(w: TrayWindow) -> (r: &'static str)
    ensures
        r@ == window_label(w),
{
    match w {
        TrayWindow::Projects => "projects",
        TrayWindow::Settings => "settings",
    }
}

} // verus!
