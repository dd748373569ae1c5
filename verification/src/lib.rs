//! Classification of compiler and interpreter diagnostics, and the fix
//! suggestions that go with each class.

pub mod config;
pub mod fixer;
pub mod parser;
pub mod pattern;
pub mod scanner;
pub mod text;
pub mod toolchain;
