//! A window-handle library in the style of a native GUI/web-view binding:
//! numeric window handles drawn from a bounded identifier space, a session
//! table that is the sole arbiter of a handle's liveness and configuration,
//! a closed enumeration of browser choices mapped to small integer codes,
//! the terminator-byte discipline for text that crosses a C-style boundary,
//! and the fixed build/link configuration of the native sources.

pub mod browser;
pub mod marshal;
pub mod platform;
pub mod window;

pub use browser::Browser;
pub use window::Window;
pub use window::WindowTable;
