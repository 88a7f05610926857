//! The fixed build configuration of the native sources: the preprocessor
//! switches they are always compiled with, and the system libraries whose
//! linkage is requested only on the GUI-capable desktop family.

use vstd::prelude::*;

verus! {

/// The target operating-system families the build distinguishes. Only the
/// Windows family needs extra system libraries for native UI chrome; every
/// other target links nothing beyond the compiled sources.
#[derive(Clone, Copy, Debug, PartialEq, Eq, Structural)]
pub enum TargetOs {
    Windows,
    MacOs,
    Linux,
    Other,
}

/// Whether the target belongs to the family that links the desktop GUI
/// libraries.
pub open spec fn needs_gui_link(os: TargetOs) -> bool {
    os == TargetOs::Windows
}

/// The preprocessor switches the native sources are compiled with, always
/// and on every target: encrypted transport disabled, debug assertions
/// disabled, response caching disabled, CGI scripting disabled, WebSocket
/// support enabled.
pub fn native_defines() -> (defs: Vec<String>)
    ensures
        defs@.len() == 5,
        defs@[0]@ == "NO_SSL"@,
        defs@[1]@ == "NDEBUG"@,
        defs@[2]@ == "NO_CACHING"@,
        defs@[3]@ == "NO_CGI"@,
        defs@[4]@ == "USE_WEBSOCKET"@,
{
    let mut defs: Vec<String> = Vec::new();
    defs.push("NO_SSL".to_owned());
    defs.push("NDEBUG".to_owned());
    defs.push("NO_CACHING".to_owned());
    defs.push("NO_CGI".to_owned());
    defs.push("USE_WEBSOCKET".to_owned());
    defs
}

/// The system libraries whose linkage the build requests: on the GUI-capable
/// desktop family exactly the windowing, shell-integration and
/// component-object libraries, in that order, and on every other target none
/// at all.
pub fn platform_link_libs(os: TargetOs) -> (libs: Vec<String>)
    ensures
        needs_gui_link(os) ==> libs@.len() == 3 && libs@[0]@ == "user32"@ && libs@[1]@
            == "shell32"@ && libs@[2]@ == "ole32"@,
        !needs_gui_link(os) ==> libs@.len() == 0,
{
    let mut libs: Vec<String> = Vec::new();
    if os == TargetOs::Windows {
        libs.push("user32".to_owned());
        libs.push("shell32".to_owned());
        libs.push("ole32".to_owned());
    }
    libs
}

} // verus!
