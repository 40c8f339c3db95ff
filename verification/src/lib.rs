//! Scaffolding generator for paired "Component" and "System" source files.
//!
//! Given an identifier and a handful of boolean feature flags, the library
//! renders two related text artifacts: a Component class that registers
//! itself with its System, and a System class that owns the collection of
//! live Components and iterates over it every cycle. Rendering is pure
//! string assembly over fixed templates; it cannot fail, and every public
//! function carries a contract that pins the rendered text down exactly.
//!
//! Printing the artifacts, writing them to disk and self-updating are the
//! caller's business; the library only produces the text and the file names.

pub mod generate;
pub mod template;
