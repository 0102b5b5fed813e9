//! How host events drive the renderer.
//!
//! The host owns the event loop. For each event it asks `Game::handle` what to
//! do and carries the answer out.
use vstd::prelude::*;
use crate::renderer::Renderer;
use crate::swapchain::{Size, SwapchainConfig};

verus! {

/// Keys the game reacts to.
#[derive(Clone, Copy, Debug, PartialEq, Eq, Structural)]
pub enum Key {
    Escape,
    Other,
}

/// Whether a key went down or up.
#[derive(Clone, Copy, Debug, PartialEq, Eq, Structural)]
pub enum ElementState {
    Pressed,
    Released,
}

/// An event addressed to a window.
#[derive(Clone, Copy, Debug, PartialEq, Eq, Structural)]
pub enum WindowEvent {
    CloseRequested,
    /// A key changed state; `key` is `None` for keys without a known code.
    KeyboardInput { state: ElementState, key: Option<Key> },
    Resized(Size),
    /// The scale factor changed; the window's new size in pixels.
    ScaleFactorChanged(Size),
    Other,
}

/// An event of the host's loop.
#[derive(Clone, Copy, Debug, PartialEq, Eq, Structural)]
pub enum Event {
    /// A window event; `own_window` tells whether it is addressed to the
    /// game's window.
    Window { own_window: bool, event: WindowEvent },
    /// The window is to be redrawn.
    RedrawRequested,
    /// The host has delivered all pending events.
    MainEventsCleared,
    Other,
}

/// What the host is to do after an event.
#[derive(Clone, Copy, Debug, PartialEq, Eq, Structural)]
pub enum Command {
    Nothing,
    /// Leave the event loop.
    Exit,
    /// Recreate the swapchain with this configuration.
    Reconfigure(SwapchainConfig),
    /// Acquire the next image and call `Renderer::render`.
    Render,
    /// Ask the window for another redraw.
    RequestRedraw,
}

/// The game: the renderer it drives.
#[derive(Clone, Debug)]
pub struct Game {
    pub renderer: Renderer,
}

/// The command for an event `e` of the game's own window that the renderer
/// did not consume.
pub open spec fn window_command(e: WindowEvent) -> Command {
    match e {
        WindowEvent::CloseRequested => Command::Exit,
        WindowEvent::KeyboardInput { state: ElementState::Pressed, key: Some(Key::Escape) } => Command::Exit,
        WindowEvent::Resized(s) => resize_command(s),
        WindowEvent::ScaleFactorChanged(s) => resize_command(s),
        _ => Command::Nothing,
    }
}

/// The command after a resize to `s`: recreate the swapchain unless `s` has
/// zero area.
pub open spec fn resize_command(s: Size) -> Command {
    match Renderer::swapchain_for(s) {
        Some(c) => Command::Reconfigure(c),
        None => Command::Nothing,
    }
}

/// The command for event `e`.
pub open spec fn command_for(e: Event) -> Command {
    match e {
        Event::Window { own_window: true, event } => window_command(event),
        Event::RedrawRequested => Command::Render,
        Event::MainEventsCleared => Command::RequestRedraw,
        _ => Command::Nothing,
    }
}

/// The game's state after event `e`: a resize of its own window is
/// recorded; nothing else changes it.
pub open spec fn game_after(g: Game, e: Event) -> Game {
    match e {
        Event::Window { own_window: true, event: WindowEvent::Resized(s) } =>
            Game { renderer: g.renderer.resized(s) },
        Event::Window { own_window: true, event: WindowEvent::ScaleFactorChanged(s) } =>
            Game { renderer: g.renderer.resized(s) },
        _ => g,
    }
}

impl Game {
    /// A game whose window has size `size`.
    pub fn new(size: Size) -> (r: Game)
        ensures
            r.renderer.wf(),
            r.renderer.size == size,
            r.renderer.sc_desc == Renderer::swapchain_for(size),
    {
        Game { renderer: Renderer::new(size) }
    }

    /// Handles one event: closing the window or pressing Escape exits, a
    /// resize recreates the swapchain, a redraw renders a frame, and the end
    /// of a batch of events asks for the next redraw. Events of other windows
    /// are ignored.
    pub fn handle(&mut self, event: Event) -> (r: Command)
        requires
            old(self).renderer.wf(),
        ensures
            final(self).renderer.wf(),
            r == command_for(event),
            *final(self) == game_after(*old(self), event),
    {
        match event {
            Event::Window { own_window, event } => {
                if !own_window {
                    return Command::Nothing;
                }
                if self.renderer.input(&event) {
                    return Command::Nothing;
                }
                match event {
                    WindowEvent::CloseRequested => Command::Exit,
                    WindowEvent::KeyboardInput { state, key } => {
                        match (state, key) {
                            (ElementState::Pressed, Some(Key::Escape)) => Command::Exit,
                            _ => Command::Nothing,
                        }
                    },
                    WindowEvent::Resized(s) => self.resize_to(s),
                    WindowEvent::ScaleFactorChanged(s) => self.resize_to(s),
                    WindowEvent::Other => Command::Nothing,
                }
            },
            Event::RedrawRequested => {
                self.renderer.update();
                Command::Render
            },
            Event::MainEventsCleared => Command::RequestRedraw,
            Event::Other => Command::Nothing,
        }
    }

    fn resize_to(&mut self, s: Size) -> (r: Command)
        requires
            old(self).renderer.wf(),
        ensures
            final(self).renderer.wf(),
            r == resize_command(s),
            final(self).renderer == old(self).renderer.resized(s),
    {
        match self.renderer.resize(s) {
            Some(c) => Command::Reconfigure(c),
            None => Command::Nothing,
        }
    }
}

} // verus!
