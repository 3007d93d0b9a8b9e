use vstd::prelude::*;

pub mod dspmodules;
pub mod editor;
pub mod nrtmodules;
pub mod text;
pub mod ui_command;

use crate::text::{decimal, decimal_string};

verus! {

/// The editor window's width in logical pixels.
pub const WINDOW_WIDTH: u32 = 300;

/// The editor window's height in logical pixels.
pub const WINDOW_HEIGHT: u32 = 240;

/// The number of parameter slots that the plugin exposes to the host.
pub const NUMPARAMSLOTS: usize = 4;

/// The name under which parameter slot `index` (counted from zero) is shown to
/// the host: `param ` and the slot's number counted from one.
pub fn param_slot_name(index: usize) -> (s: String)
    requires
        index < usize::MAX,
    ensures
        s@ == "param "@ + decimal(index as nat + 1),
{
    let mut s = String::from_str("param ");
    let n = decimal_string(index + 1);
    s.append(n.as_str());
    s
}

} // verus!
