//! The start of the launcher from the desktop of Windows.

use vstd::prelude::*;

verus! {

/// A dialog with one button.
#[derive(Debug, PartialEq, Eq)]
pub struct Dialog {
    pub title: String,
    pub message: String,
}

/// What is shown instead of a run that was started without a terminal, which
/// is one whose console holds no process but this one. `count` is the number
/// of processes that the console holds.
pub fn check_gui_launch(count: u32) -> (r: Option<Dialog>)
    ensures
        r is Some <==> count <= 1,
        r matches Some(d) ==> d.title@ == "tack"@ && d.message@
            == "tack is a command-line application and must be run from the terminal."@,
{
    if count <= 1 {
        Some(
            Dialog {
                title: "tack".to_string(),
                message: "tack is a command-line application and must be run from the terminal.".to_string(),
            },
        )
    } else {
        None
    }
}

} // verus!
