//! Decision logic of a real-time rendering harness that recompiles and
//! hot-swaps its shaders while the render loop keeps running.
//!
//! Everything here works on plain values: the GPU handles of the device are
//! carried as raw `u64` numbers, and the calls into the graphics driver are
//! made by the program around the library, which performs the commands that
//! the functions of this crate decide on.

pub mod compile;
pub mod reload;
pub mod registry;
pub mod pipeline;
pub mod swapchain;
pub mod frame;
pub mod driver;
