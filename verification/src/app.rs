//! The frame loop's decisions: what an event of the loop, or the outcome of
//! a frame, asks the viewer to do next.
//!
//! The loop itself runs outside this crate. It hands each event to
//! [`App::on_event`], carries out the action that comes back, and after a
//! frame reports to [`App::after_frame`] how the presentation ended.

use vstd::prelude::*;
use crate::computer::Computer;
use crate::event::{ElementState, Event, VirtualKeyCode, WindowEvent};
use crate::math::UVec2;
use crate::renderer::{PresentError, Renderer, SurfaceConfig};

verus! {

/// A navigation command: one step of the viewport.
#[derive(Clone, Copy, Debug, PartialEq, Eq, Structural)]
pub enum Command {
    Left,
    Right,
    Up,
    Down,
    ZoomIn,
    ZoomOut,
}

/// What the frame loop is to do next.
#[derive(Clone, Copy, Debug, PartialEq, Eq, Structural)]
pub enum Action {
    /// Nothing.
    Idle,
    /// Move the viewport by one step.
    Navigate(Command),
    /// Configure the surface anew, with this extent.
    Reconfigure(SurfaceConfig),
    /// Compute and present one frame.
    Draw,
    /// Ask the window for another redraw.
    RequestRedraw,
    /// Report the failure and go on: the next frame acquires afresh.
    Report(PresentError),
    /// Leave the loop.
    Exit,
}

/// The command that a key stands for, if it stands for one.
pub open spec fn key_command(key: VirtualKeyCode) -> Option<Command> {
    match key {
        VirtualKeyCode::Left => Some(Command::Left),
        VirtualKeyCode::Right => Some(Command::Right),
        VirtualKeyCode::Up => Some(Command::Up),
        VirtualKeyCode::Down => Some(Command::Down),
        VirtualKeyCode::NumpadAdd => Some(Command::ZoomIn),
        VirtualKeyCode::NumpadSubtract => Some(Command::ZoomOut),
        VirtualKeyCode::Escape => None,
        VirtualKeyCode::Other => None,
    }
}

/// The command that a window event gives: that of the key, once, when a
/// named key goes down. A key that comes up gives none, nor does any event
/// that is no keyboard input.
pub open spec fn event_command(event: WindowEvent) -> Option<Command> {
    match event {
        WindowEvent::KeyboardInput {
            state: ElementState::Pressed,
            virtual_keycode: Some(key),
        } => key_command(key),
        _ => None,
    }
}

/// Whether a window event asks the viewer to quit: a request to close the
/// window, or the escape key going down.
pub open spec fn asks_to_exit(event: WindowEvent) -> bool {
    event == WindowEvent::CloseRequested || event == (WindowEvent::KeyboardInput {
        state: ElementState::Pressed,
        virtual_keycode: Some(VirtualKeyCode::Escape),
    })
}

/// The extent that a window event announces, if it announces one.
pub open spec fn announced_size(event: WindowEvent) -> Option<UVec2> {
    match event {
        WindowEvent::Resized(size) => Some(size),
        WindowEvent::ScaleFactorChanged { new_inner_size } => Some(new_inner_size),
        _ => None,
    }
}

/// The host's side of the viewer: both engines and the configuration of the
/// surface they present to.
#[derive(Clone, Copy, Debug)]
pub struct App {
    pub computer: Computer,
    pub renderer: Renderer,
    pub surface: SurfaceConfig,
}

impl App {
    /// A viewer whose output image and presentation both have `size` pixels,
    /// on a surface that is configured as `surface` says.
    pub fn new(size: UVec2, surface: SurfaceConfig) -> (app: App)
        ensures
            app.computer.size() == size,
            app.renderer.extent() == size,
            app.surface == surface,
    {
        App { computer: Computer::new(size), renderer: Renderer::new(size), surface }
    }

    /// Decodes a window event into the navigation command that it gives.
    ///
    /// The event is never used up: whatever comes back, the caller goes on
    /// to handle the event itself.
    pub fn handle_event(&self, event: &WindowEvent) -> (command: Option<Command>)
        ensures
            command == event_command(*event),
    {
        match event {
            WindowEvent::KeyboardInput { state, virtual_keycode } => match state {
                ElementState::Pressed => match virtual_keycode {
                    Some(VirtualKeyCode::Left) => Some(Command::Left),
                    Some(VirtualKeyCode::Right) => Some(Command::Right),
                    Some(VirtualKeyCode::Up) => Some(Command::Up),
                    Some(VirtualKeyCode::Down) => Some(Command::Down),
                    Some(VirtualKeyCode::NumpadAdd) => Some(Command::ZoomIn),
                    Some(VirtualKeyCode::NumpadSubtract) => Some(Command::ZoomOut),
                    _ => None,
                },
                ElementState::Released => None,
            },
            _ => None,
        }
    }

    /// Takes over a new extent of the window, as [`Renderer::resize`] does,
    /// and says what the loop has to do about it.
    ///
    /// The output image keeps its extent either way.
    pub fn resize(&mut self, new_size: UVec2) -> (action: Action)
        ensures
            final(self).computer == old(self).computer,
            new_size.has_area() ==> {
                &&& final(self).renderer.extent() == new_size
                &&& final(self).surface == (SurfaceConfig {
                    width: new_size.x,
                    height: new_size.y,
                })
                &&& action == Action::Reconfigure(final(self).surface)
            },
            !new_size.has_area() ==> *final(self) == *old(self) && action == Action::Idle,
    {
        let mut renderer = self.renderer;
        let mut surface = self.surface;
        if renderer.resize(new_size, &mut surface) {
            self.renderer = renderer;
            self.surface = surface;
            Action::Reconfigure(surface)
        } else {
            Action::Idle
        }
    }

    /// Decides what the loop does with one event.
    ///
    /// - A window event that gives a navigation command: that command.
    /// - A new extent of the window: what [`Self::resize`] says.
    /// - A request to close, or the escape key going down: leave the loop.
    /// - A redraw request: a frame. When all events are handed out: ask for
    ///   the next redraw.
    /// - Anything else: nothing.
    ///
    /// Only a resize with area changes the viewer's state.
    pub fn on_event(&mut self, event: &Event) -> (action: Action)
        ensures
            final(self).computer == old(self).computer,
            match *event {
                Event::WindowEvent(w) => {
                    if let Some(size) = announced_size(w) {
                        &&& size.has_area() ==> {
                            &&& final(self).renderer.extent() == size
                            &&& final(self).surface == (SurfaceConfig {
                                width: size.x,
                                height: size.y,
                            })
                            &&& action == Action::Reconfigure(final(self).surface)
                        }
                        &&& !size.has_area() ==> *final(self) == *old(self) && action
                            == Action::Idle
                    } else {
                        &&& *final(self) == *old(self)
                        &&& action == if asks_to_exit(w) {
                            Action::Exit
                        } else if let Some(command) = event_command(w) {
                            Action::Navigate(command)
                        } else {
                            Action::Idle
                        }
                    }
                },
                Event::RedrawRequested => *final(self) == *old(self) && action == Action::Draw,
                Event::MainEventsCleared => *final(self) == *old(self) && action
                    == Action::RequestRedraw,
                Event::Other => *final(self) == *old(self) && action == Action::Idle,
            },
    {
        match event {
            Event::WindowEvent(window_event) => {
                let command = self.handle_event(window_event);
                match window_event {
                    WindowEvent::Resized(size) => self.resize(*size),
                    WindowEvent::ScaleFactorChanged { new_inner_size } => self.resize(
                        *new_inner_size,
                    ),
                    WindowEvent::CloseRequested => Action::Exit,
                    WindowEvent::KeyboardInput {
                        state: ElementState::Pressed,
                        virtual_keycode: Some(VirtualKeyCode::Escape),
                    } => Action::Exit,
                    _ => match command {
                        Some(command) => Action::Navigate(command),
                        None => Action::Idle,
                    },
                }
            },
            Event::RedrawRequested => Action::Draw,
            Event::MainEventsCleared => Action::RequestRedraw,
            Event::Other => Action::Idle,
        }
    }

    /// Decides what the loop does once a frame was attempted.
    ///
    /// - Presented: nothing.
    /// - The surface was lost: a resize to the extent that the surface is
    ///   configured with, which configures it anew where that extent has
    ///   area.
    /// - Out of memory: leave the loop.
    /// - A timeout or an outdated surface: report it and go on.
    pub fn after_frame(&mut self, presented: Result<(), PresentError>) -> (action: Action)
        ensures
            final(self).computer == old(self).computer,
            final(self).surface == old(self).surface,
            match presented {
                Ok(_) => *final(self) == *old(self) && action == Action::Idle,
                Err(PresentError::Lost) => {
                    let current = UVec2 { x: old(self).surface.width, y: old(self).surface.height };
                    &&& current.has_area() ==> final(self).renderer.extent() == current && action
                        == Action::Reconfigure(old(self).surface)
                    &&& !current.has_area() ==> *final(self) == *old(self) && action
                        == Action::Idle
                },
                Err(PresentError::OutOfMemory) => *final(self) == *old(self) && action
                    == Action::Exit,
                Err(PresentError::Timeout) => *final(self) == *old(self) && action
                    == Action::Report(PresentError::Timeout),
                Err(PresentError::Outdated) => *final(self) == *old(self) && action
                    == Action::Report(PresentError::Outdated),
            },
    {
        match presented {
            Ok(_) => Action::Idle,
            Err(PresentError::Lost) => {
                let current = UVec2::new(self.surface.width, self.surface.height);
                self.resize(current)
            },
            Err(PresentError::OutOfMemory) => Action::Exit,
            Err(e) => Action::Report(e),
        }
    }
}

} // verus!
