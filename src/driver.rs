//! The render loop's reaction to each window event.

use vstd::prelude::*;
use crate::compile::SpirvShader;
use crate::reload::{HotReload, poll_takes, polled, reload_starts, requested};
use crate::swapchain::Extent2D;

verus! {

/// The start-up options of the program.
#[derive(Debug, Clone, Copy, PartialEq, Eq, Structural)]
pub struct Options {
    /// Enable the driver's validation layer and its debug messages.
    pub debug_layer: bool,
}

/// A key the loop tells apart.
#[derive(Debug, Clone, Copy, PartialEq, Eq, Structural)]
pub enum Key {
    Escape,
    /// The key that asks for a shader reload.
    Reload,
    Other,
}

/// An event of the window.
#[derive(Debug, Clone, Copy, PartialEq, Eq, Structural)]
pub enum WindowEvent {
    CloseRequested,
    Resized(Extent2D),
    KeyDown(Key),
    /// All pending events are handled and a frame may be drawn.
    RedrawReady,
    Other,
}

/// A failure the loop does not recover from.
#[derive(Debug, Clone, Copy, PartialEq, Eq, Structural)]
pub enum FatalFailure {
    /// A device object could not be created or destroyed.
    DeviceResource,
    /// No image could be acquired, or the frame could not be presented.
    AcquirePresent,
}

/// What the loop does next.
#[derive(Debug)]
pub enum LoopAction {
    Exit,
    /// Nothing to do until the next event.
    Wait,
    /// Launch the background compile.
    SpawnCompile,
    /// Wait for the device, then rebuild the chain for the new size; the
    /// pipelines stay as they are.
    RecreateSwapchain(Extent2D),
    Render,
    /// Register the shaders, rebuild every pipeline, then render.
    RebuildAndRender(Vec<SpirvShader>),
    /// Stop the process, reporting the failure.
    Abort(FatalFailure),
}

/// Handles one window event: Escape or a close request ends the loop, the
/// reload key starts a compile unless one runs, a resize recreates the
/// chain, and a redraw first takes any staged shaders for a rebuild, then
/// renders.
pub fn handle_event(reload: &mut HotReload, event: WindowEvent) -> (r: LoopAction)
    ensures
        match event {
            WindowEvent::CloseRequested | WindowEvent::KeyDown(Key::Escape) => r is Exit
                && final(reload)@ == old(reload)@,
            WindowEvent::KeyDown(Key::Reload) => {
                &&& final(reload)@ == requested(old(reload)@)
                &&& if reload_starts(old(reload).compiling) {
                    r is SpawnCompile
                } else {
                    r is Wait
                }
            },
            WindowEvent::KeyDown(Key::Other) | WindowEvent::Other => r is Wait && final(reload)@
                == old(reload)@,
            WindowEvent::Resized(size) => r == LoopAction::RecreateSwapchain(size) && final(reload)@
                == old(reload)@,
            WindowEvent::RedrawReady => {
                &&& final(reload)@ == polled(old(reload)@)
                &&& if poll_takes(old(reload)@) {
                    r matches LoopAction::RebuildAndRender(v) && v@ == old(reload).staged@
                } else {
                    r is Render
                }
            },
        },
{
    match event {
        WindowEvent::CloseRequested => LoopAction::Exit,
        WindowEvent::KeyDown(Key::Escape) => LoopAction::Exit,
        WindowEvent::KeyDown(Key::Reload) => {
            if reload.request_reload() {
                LoopAction::SpawnCompile
            } else {
                LoopAction::Wait
            }
        },
        WindowEvent::KeyDown(Key::Other) => LoopAction::Wait,
        WindowEvent::Other => LoopAction::Wait,
        WindowEvent::Resized(size) => LoopAction::RecreateSwapchain(size),
        WindowEvent::RedrawReady => match reload.take_staged() {
            Some(shaders) => LoopAction::RebuildAndRender(shaders),
            None => LoopAction::Render,
        },
    }
}

/// The host's reaction to a failure it cannot recover from: the loop stops
/// for good. The result is the terminal action: whoever performs it ends the
/// process and takes no further step, and the call itself changes no state.
///
/// The shader-side panic handler, which spins forever on the GPU, is not part
/// of this crate: it is GPU code built for the SPIR-V target, and a function
/// that never returns cannot be stated here.
pub fn panic(failure: FatalFailure) -> (r: LoopAction)
    ensures
        r == LoopAction::Abort(failure),
{
    LoopAction::Abort(failure)
}

} // verus!
