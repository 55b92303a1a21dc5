//! The application: what it is made of and how it answers the events of
//! the window.
//!
//! The event loop itself belongs to the windowing library. For each event
//! it calls [`App::handle_event`], applies the returned [`Response`] and
//! goes on.

use crate::descriptor::{Color, SwapChainDescriptor, TextureFormat};
use crate::input::{keys_after, DeviceEvent, InputState, ESCAPE};
use crate::objects::Cube;
use crate::renderer::{
    clear_pass, draw_commands, swap_chain_for, PhysicalSize, RenderCommand, RenderPass,
    RenderPassRecord, Renderer,
};
use crate::Config;
use vstd::prelude::*;

verus! {

/// An event of the window itself.
#[derive(Clone, Copy, Debug)]
pub enum WindowEvent {
    CloseRequested,
    Resized(PhysicalSize),
    ScaleFactorChanged { new_inner_size: PhysicalSize },
    /// Any other event of the window: focus, cursor, keyboard, touch.
    Other,
}

/// An event of the event loop, reduced to what the application reads.
#[derive(Clone, Copy, Debug)]
pub enum Event {
    MainEventsCleared,
    RedrawRequested,
    WindowEvent(WindowEvent),
    LoopDestroyed,
    DeviceEvent(DeviceEvent),
    /// Any other event: start of an iteration, suspension, user events.
    Other,
}

/// How the event loop goes on after an event.
#[derive(Clone, Copy, Debug, PartialEq, Eq, Structural)]
pub enum ControlFlow {
    /// Start the next iteration at once, whether or not events are pending.
    Poll,
    /// Leave the loop.
    Exit,
}

/// What the shell has to do after an event.
#[derive(Debug)]
pub enum Action {
    Nothing,
    /// Ask the window for a redraw.
    RequestRedraw,
    /// Record the pass against the next image of the swap chain and submit it.
    Submit(RenderPass),
    /// Create the swap chain again, as described.
    CreateSwapChain(SwapChainDescriptor),
}

/// The mathematical content of an [`Action`].
pub enum Effect {
    Nothing,
    RequestRedraw,
    Submit(RenderPassRecord),
    CreateSwapChain(SwapChainDescriptor),
}

impl View for Action {
    type V = Effect;

    open spec fn view(&self) -> Effect {
        match self {
            Action::Nothing => Effect::Nothing,
            Action::RequestRedraw => Effect::RequestRedraw,
            Action::Submit(pass) => Effect::Submit(pass@),
            Action::CreateSwapChain(sc_desc) => Effect::CreateSwapChain(*sc_desc),
        }
    }
}

/// The answer to one event.
#[derive(Debug)]
pub struct Response {
    /// The new control flow, or `None` to leave it as it is.
    pub control_flow: Option<ControlFlow>,
    pub action: Action,
}

/// What the window is created with.
#[derive(Debug)]
pub struct WindowAttributes {
    pub inner_size: PhysicalSize,
    pub title: String,
}

/// A configured extent as a pixel count: negative extents count as 0.
pub open spec fn pixels(extent: i32) -> u32 {
    if extent < 0 {
        0
    } else {
        extent as u32
    }
}

/// Converts a pair of signed extents with `winit`'s
/// `PhysicalSize::<u32>::from`.
///
/// The conversion takes each extent through a 64-bit real, where every
/// `i32` is exact, rounds it and casts it to `u32`; the cast saturates, so
/// a negative extent becomes 0 and any other stays what it was.
#[verifier::external_body]
fn physical_size(width: i32, height: i32) -> (size: PhysicalSize)
    ensures
        size.width == pixels(width),
        size.height == pixels(height),
{
    let size: winit::dpi::PhysicalSize<u32> = winit::dpi::PhysicalSize::from((width, height));
    PhysicalSize { width: size.width, height: size.height }
}

/// The size the swap chain has after a window event.
pub open spec fn size_after(size: PhysicalSize, event: Event) -> PhysicalSize {
    match event {
        Event::WindowEvent(WindowEvent::Resized(new_size)) => new_size,
        Event::WindowEvent(WindowEvent::ScaleFactorChanged { new_inner_size }) => new_inner_size,
        _ => size,
    }
}

/// The keys held down after an event of the event loop.
pub open spec fn keys_after_event(keys: Set<u32>, event: Event) -> Set<u32> {
    match event {
        Event::DeviceEvent(device_event) => keys_after(keys, device_event),
        _ => keys,
    }
}

/// The control flow that an event sets, if any.
///
/// Closing the window leaves the loop, and so does the end of an iteration
/// during which Escape is held down. Events the application has no use
/// for switch the loop to polling.
pub open spec fn control_flow_after(keys: Set<u32>, event: Event) -> Option<ControlFlow> {
    match event {
        Event::MainEventsCleared => if keys.contains(ESCAPE) {
            Some(ControlFlow::Exit)
        } else {
            None
        },
        Event::RedrawRequested => None,
        Event::WindowEvent(WindowEvent::CloseRequested) => Some(ControlFlow::Exit),
        Event::WindowEvent(WindowEvent::Resized(_)) => None,
        Event::WindowEvent(WindowEvent::ScaleFactorChanged { .. }) => None,
        Event::LoopDestroyed => None,
        Event::DeviceEvent(_) => None,
        _ => Some(ControlFlow::Poll),
    }
}

/// What the shell has to do after an event.
///
/// The end of an iteration asks for a redraw, a redraw request draws the
/// cube, and a change of size asks for a swap chain of the new size.
pub open spec fn effect_of(bg_color: Color, num_indices: u32, event: Event) -> Effect {
    match event {
        Event::MainEventsCleared => Effect::RequestRedraw,
        Event::RedrawRequested => Effect::Submit(
            RenderPassRecord {
                targets: clear_pass(bg_color),
                commands: draw_commands(num_indices),
            },
        ),
        Event::WindowEvent(WindowEvent::Resized(new_size)) => Effect::CreateSwapChain(
            swap_chain_for(new_size),
        ),
        Event::WindowEvent(WindowEvent::ScaleFactorChanged { new_inner_size }) => {
            Effect::CreateSwapChain(swap_chain_for(new_inner_size))
        },
        _ => Effect::Nothing,
    }
}

/// The application between two events.
#[derive(Debug)]
pub struct App {
    input_state: InputState,
    renderer: Renderer,
    cube: Cube,
}

impl App {
    /// The keys that are held down.
    pub closed spec fn spec_keys(&self) -> Set<u32> {
        self.input_state@
    }

    /// The renderer.
    pub closed spec fn spec_renderer(&self) -> Renderer {
        self.renderer
    }

    /// The cube.
    pub closed spec fn spec_cube(&self) -> Cube {
        self.cube
    }

    /// The size and the title of the window that `config` asks for.
    pub fn window_attributes(config: &Config) -> (attributes: WindowAttributes)
        ensures
            attributes.inner_size.width == pixels(config.window.width),
            attributes.inner_size.height == pixels(config.window.height),
            attributes.title@ == config.application.name@,
    {
        let width = config.window.width;
        let height = config.window.height;

        let title = config.application.name.clone();

        let size = physical_size(width, height);
        WindowAttributes { inner_size: size, title }
    }

    /// The application in a window whose surface has the size
    /// `inner_size`, together with its first frame, which shows the
    /// configured background colour.
    pub fn new(config: &Config, inner_size: PhysicalSize) -> (started: (App, RenderPass))
        ensures
            started.0.spec_keys() == Set::<u32>::empty(),
            started.0.spec_renderer().spec_size() == inner_size,
            started.0.spec_renderer().spec_sc_desc() == swap_chain_for(inner_size),
            started.0.spec_renderer().spec_bg_color() == (Color {
                r: config.window.bg_color[0],
                g: config.window.bg_color[1],
                b: config.window.bg_color[2],
                a: config.window.bg_color[3],
            }),
            started.0.spec_cube().built_for(TextureFormat::Bgra8UnormSrgb),
            started.1@.targets == clear_pass(started.0.spec_renderer().spec_bg_color()),
            started.1@.commands == Seq::<RenderCommand>::empty(),
    {
        let input_state = InputState::new();

        let mut renderer = Renderer::new(inner_size, config.window.bg_color);
        let first_frame = renderer.init_clear_screen();
        let cube = Cube::new(&renderer);

        (App { input_state, renderer, cube }, first_frame)
    }

    /// The renderer.
    pub fn renderer(&self) -> (renderer: &Renderer)
        ensures
            *renderer == self.spec_renderer(),
    {
        &self.renderer
    }

    /// The cube.
    pub fn cube(&self) -> (cube: &Cube)
        ensures
            *cube == self.spec_cube(),
    {
        &self.cube
    }

    /// Whether the key `code` is held down.
    pub fn is_key_pressed(&self, code: u32) -> (pressed: bool)
        ensures
            pressed == self.spec_keys().contains(code),
    {
        self.input_state.is_key_pressed(code)
    }

    /// Takes in one event and says what follows from it.
    pub fn handle_event(&mut self, event: &Event) -> (response: Response)
        ensures
            final(self).spec_keys() == keys_after_event(old(self).spec_keys(), *event),
            final(self).spec_renderer().spec_size() == size_after(
                old(self).spec_renderer().spec_size(),
                *event,
            ),
            final(self).spec_renderer().spec_sc_desc() == swap_chain_for(
                final(self).spec_renderer().spec_size(),
            ),
            final(self).spec_renderer().spec_bg_color()
                == old(self).spec_renderer().spec_bg_color(),
            final(self).spec_cube() == old(self).spec_cube(),
            response.control_flow == control_flow_after(old(self).spec_keys(), *event),
            response.action@ == effect_of(
                old(self).spec_renderer().spec_bg_color(),
                old(self).spec_cube().num_indices,
                *event,
            ),
    {
        proof {
            use_type_invariant(&self.renderer);
        }
        match event {
            Event::MainEventsCleared => {
                let control_flow = if self.input_state.is_key_pressed(ESCAPE) {
                    Some(ControlFlow::Exit)
                } else {
                    None
                };
                Response { control_flow, action: Action::RequestRedraw }
            },
            Event::RedrawRequested => {
                let frame = self.renderer.render(&self.cube);
                Response { control_flow: None, action: Action::Submit(frame) }
            },
            Event::WindowEvent(WindowEvent::CloseRequested) => Response {
                control_flow: Some(ControlFlow::Exit),
                action: Action::Nothing,
            },
            Event::WindowEvent(WindowEvent::Resized(physical_size)) => {
                self.renderer.resize(*physical_size);
                Response {
                    control_flow: None,
                    action: Action::CreateSwapChain(self.renderer.sc_desc()),
                }
            },
            Event::WindowEvent(WindowEvent::ScaleFactorChanged { new_inner_size }) => {
                self.renderer.resize(*new_inner_size);
                Response {
                    control_flow: None,
                    action: Action::CreateSwapChain(self.renderer.sc_desc()),
                }
            },
            Event::LoopDestroyed => Response { control_flow: None, action: Action::Nothing },
            Event::DeviceEvent(event) => {
                self.input_state.update(event);
                Response { control_flow: None, action: Action::Nothing }
            },
            _ => Response { control_flow: Some(ControlFlow::Poll), action: Action::Nothing },
        }
    }
}

} // verus!
