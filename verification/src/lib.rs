//! A small model of C++ declarations, a renderer that prints it as indented
//! source text, and the generator that turns a lowered component into the
//! declarations of a program that shows it.
//!
//! The text that rendering gives is defined over the views of the
//! declarations, in `layout`; the executable rendering in `render` is proved
//! to produce exactly that text. What a component is generated as is defined
//! in `generator`, and `laws` states what holds of both for every input.

pub mod cpp_ast;
pub mod generator;
pub mod laws;
pub mod layout;
pub mod lower;
pub mod render;
pub mod renderer;
pub mod text;

pub use cpp_ast::{Declaration, File, Function, Struct, Var};
pub use generator::generate;
pub use lower::{LoweredComponent, LoweredItem, NativeItemType};
pub use renderer::{indent, Renderer};
