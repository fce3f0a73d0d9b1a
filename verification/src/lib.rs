//! Bridge between a freestanding execution image and a minimal
//! platform-provided console device.
//!
//! Two components, consumed in dependency order:
//!
//! - the binding translator: a build-time pure function that reads a C-style
//!   header describing the console driver's exported symbols and produces a
//!   typed, locally callable binding module (`header`, `bindings`);
//! - the freestanding runtime shell: the model of the image's single entry
//!   point, its embedded greeting message, and its two-state fault policy
//!   (`shell`), together with the rule that exactly one entry point and
//!   exactly one fault handler may be linked into an image (`image`).

pub mod bindings;
pub mod header;
pub mod image;
pub mod shell;
