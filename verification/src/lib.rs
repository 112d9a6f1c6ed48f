//! The decisions of a small OpenGL renderer, kept apart from the calls that
//! carry them out.
//!
//! The renderer opens a window, compiles and links a shader program, sets up
//! a triangle and draws it frame by frame until the window is closed or
//! Escape is pressed. Nothing in this crate talks to a graphics driver or to
//! a window system. The crate says which calls are to be made and in which
//! order, keeps track of what those calls leave bound, and takes the
//! driver's answers and the window's events as plain values. A thin program
//! around the crate makes the calls.
//!
//! - [`command`]: the calls that the renderer asks for.
//! - [`context`]: what is bound in the graphics context, and the calls
//!   recorded for it. No call is recorded before what it acts on is bound.
//! - [`vbo`], [`vao`]: vertex buffers and the vertex array that owns them.
//! - [`shader`], [`program`]: shader stages, and the construction of the
//!   program step by step, each step after an answer of the driver.
//! - [`mesh`]: the mesh, its draw call, and the setting up of the triangle.
//! - [`event`]: what the renderer does about the events of the window.
//! - [`app`]: the window to open, and the frame loop from its first look to
//!   its last.
//! - [`error`]: the two ways in which the construction of the program fails.
//!
//! Floats pass through the crate as their IEEE 754 bit patterns.

pub mod app;
pub mod command;
pub mod context;
pub mod error;
pub mod event;
pub mod mesh;
pub mod program;
pub mod shader;
pub mod vao;
pub mod vbo;
