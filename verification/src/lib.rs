//! Safe, verified counterparts of the logic behind a small collection of
//! foreign-function-interface bindings: C string length, a Fibonacci
//! generator exported to WebAssembly, the configuration and result handling
//! of a Chinese word segmenter, and the choice of C++ runtime to link.
#![allow(non_camel_case_types)]

pub mod cstr;
pub mod fibonacci;
pub mod jieba;
pub mod cpp_runtime;
