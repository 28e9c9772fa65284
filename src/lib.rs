//! Input handling and mesh assembly for a small instanced-cube demo.
//!
//! The window, the GPU and the text overlay live in the application around
//! this library; what it decides is kept here with its contracts.
pub mod controller;
pub mod event;
pub mod mesh;
