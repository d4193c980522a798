//! What the renderer's host does with the notifications it receives.
//!
//! The host runs the window's event loop. It turns each notification into a
//! [`HostEvent`], hands it to [`SharedState::handle`], and carries out the
//! [`Reaction`] that comes back.

use vstd::prelude::*;
use vstd::arithmetic::div_mod::{
    lemma_add_mod_noop_right, lemma_fundamental_div_mod, lemma_fundamental_div_mod_converse,
    lemma_mod_add_multiples_vanish, lemma_small_mod,
};
use crate::console::Command;
use crate::gpu::{PhysicalSize, SurfaceConfiguration};
use crate::renderer::bind_group::{binds_decoded_texture, TextureBindGroup};
use crate::renderer::{Frame, Renderer, RendererState, SurfaceError};
use crate::texture::TextureError;

verus! {

/// Exit code of a process that was closed or told to exit.
pub const EXIT_NORMAL: i32 = 0;

/// Exit code of a process whose surface ran out of memory.
pub const EXIT_OUT_OF_MEMORY: i32 = 1;

/// A key of the keyboard, as far as the host tells them apart.
#[derive(Clone, Copy, Debug, PartialEq, Eq, Structural)]
pub enum Key {
    /// The key that advances to the next texture.
    Space,
    Other,
}

/// A notification from the window system, or the outcome of a step that the host
/// took on its own.
#[derive(Clone, Copy, Debug, PartialEq, Eq)]
pub enum HostEvent {
    /// All pending events have been handled.
    MainEventsCleared,
    /// The window is to be drawn again, and this is what acquiring the next
    /// surface image gave.
    RedrawRequested { acquired: Result<(), SurfaceError> },
    CloseRequested,
    Resized(PhysicalSize),
    ScaleFactorChanged { new_inner_size: PhysicalSize },
    KeyPressed(Key),
    /// Any other notification.
    Other,
}

/// What the host is to do in answer to an event.
#[derive(Clone, Debug, PartialEq, Eq)]
pub enum Reaction<F> {
    /// Nothing.
    Idle,
    /// Ask the window system for a redraw.
    RequestRedraw,
    /// Record the frame on the acquired image, submit it and present it.
    Present(Frame),
    /// Configure the surface with the given configuration.
    Configure(SurfaceConfiguration<F>),
    /// Load the texture at this place in the list and hand it to `set_texture`.
    LoadTexture { index: usize },
    /// Report the failure and go on; the frame is dropped.
    Report(SurfaceError),
    /// End the process with this exit code.
    Exit { code: i32 },
}

/// The place in a list of `count` textures that follows `index`, the first
/// following the last.
pub open spec fn next_texture(index: nat, count: nat) -> nat {
    (index + 1) % count
}

/// The place reached from `index` after `presses` advances.
pub open spec fn texture_after(index: nat, count: nat, presses: nat) -> nat
    decreases presses,
{
    if presses == 0 {
        index
    } else {
        next_texture(texture_after(index, count, (presses - 1) as nat), count)
    }
}

/// Where `index` is `quotient` times round the list and `place` further,
/// the place after it is the one after `place`, or the first after the last.
proof fn lemma_next_texture(index: nat, count: nat, quotient: int, place: int)
    requires
        count > 0,
        0 <= place < count,
        index == quotient * count + place,
    ensures
        next_texture(index, count) == if place + 1 == count {
            0
        } else {
            place + 1
        },
{
    if place + 1 == count {
        assert(index + 1 == (quotient + 1) * count + 0) by (nonlinear_arith)
            requires
                index == quotient * count + place,
                place + 1 == count,
        ;
        lemma_fundamental_div_mod_converse((index + 1) as int, count as int, quotient + 1, 0);
    } else {
        lemma_fundamental_div_mod_converse(
            (index + 1) as int,
            count as int,
            quotient,
            place + 1,
        );
    }
}

/// Advances a place in a list of `count` textures by one, wrapping at the end.
pub fn advance_texture(index: usize, count: usize) -> (r: usize)
    requires
        count > 0,
    ensures
        r == next_texture(index as nat, count as nat),
        r < count,
{
    let place = index % count;
    proof {
        lemma_fundamental_div_mod(index as int, count as int);
        assert(index == (index as int / count as int) * count + place) by (nonlinear_arith)
            requires
                index == count * (index as int / count as int) + place,
        ;
        lemma_next_texture(index as nat, count as nat, index as int / count as int, place as int);
    }
    if place + 1 == count {
        0
    } else {
        place + 1
    }
}

/// Advancing `presses` times from `index` arrives `presses` places further on,
/// counted round the list.
pub proof fn lemma_texture_after(index: nat, count: nat, presses: nat)
    requires
        count > 0,
        index < count,
    ensures
        texture_after(index, count, presses) == (index + presses) % count,
    decreases presses,
{
    if presses == 0 {
        lemma_small_mod(index, count);
    } else {
        let before = (presses - 1) as nat;
        lemma_texture_after(index, count, before);
        assert(texture_after(index, count, presses) == next_texture(
            texture_after(index, count, before),
            count,
        ));
        lemma_add_mod_noop_right(1, (index + before) as int, count as int);
    }
}

/// As many advances as the list has textures lead back to where they began.
pub proof fn lemma_texture_cycle(index: nat, count: nat)
    requires
        count > 0,
        index < count,
    ensures
        texture_after(index, count, count) == index,
{
    lemma_texture_after(index, count, count);
    lemma_mod_add_multiples_vanish(index as int, count as int);
    lemma_small_mod(index, count);
}

/// What a running program knows: the renderer, and which texture of the list it shows.
pub struct SharedState<F> {
    renderer: Renderer<F>,
    texture_index: usize,
    texture_count: usize,
}

/// The view of a [`SharedState`].
pub struct SharedStateView<F> {
    pub renderer: RendererState<F>,
    pub texture_index: nat,
    pub texture_count: nat,
}

impl<F> SharedStateView<F> {
    /// The state after `event`.
    pub open spec fn after(self, event: HostEvent) -> Self {
        match event {
            HostEvent::RedrawRequested { acquired: Err(SurfaceError::Lost) } => SharedStateView {
                renderer: self.renderer.resize(self.renderer.size),
                ..self
            },
            HostEvent::Resized(size) => SharedStateView {
                renderer: self.renderer.resize(size),
                ..self
            },
            HostEvent::ScaleFactorChanged { new_inner_size } => SharedStateView {
                renderer: self.renderer.resize(new_inner_size),
                ..self
            },
            HostEvent::KeyPressed(Key::Space) => SharedStateView {
                texture_index: next_texture(self.texture_index, self.texture_count),
                ..self
            },
            _ => self,
        }
    }

    /// The state after `presses` presses of the key that advances the texture.
    pub open spec fn after_presses(self, presses: nat) -> Self
        decreases presses,
    {
        if presses == 0 {
            self
        } else {
            self.after_presses((presses - 1) as nat).after(HostEvent::KeyPressed(Key::Space))
        }
    }

    /// The state after a command of the console.
    pub open spec fn after_command(self, command: Command) -> Self {
        match command {
            Command::SetClearColor(color) => SharedStateView {
                renderer: self.renderer.set_background_color(color),
                ..self
            },
            _ => self,
        }
    }

    /// `reaction` answers `event` in this state, the state after the event being `after`.
    pub open spec fn reacts(self, event: HostEvent, after: Self, reaction: Reaction<F>) -> bool {
        match event {
            HostEvent::MainEventsCleared => reaction == Reaction::<F>::RequestRedraw,
            HostEvent::RedrawRequested { acquired: Ok(_) } => reaction matches Reaction::Present(
                frame,
            ) && self.renderer.draws(frame),
            HostEvent::RedrawRequested { acquired: Err(SurfaceError::Lost) } => reaction
                == configure_or_idle(self.renderer.size, after.renderer.config),
            HostEvent::RedrawRequested { acquired: Err(SurfaceError::OutOfMemory) } => reaction
                == (Reaction::<F>::Exit { code: EXIT_OUT_OF_MEMORY }),
            HostEvent::RedrawRequested { acquired: Err(error) } => reaction == Reaction::<
                F,
            >::Report(error),
            HostEvent::CloseRequested => reaction == (Reaction::<F>::Exit { code: EXIT_NORMAL }),
            HostEvent::Resized(size) => reaction == configure_or_idle(size, after.renderer.config),
            HostEvent::ScaleFactorChanged { new_inner_size } => reaction == configure_or_idle(
                new_inner_size,
                after.renderer.config,
            ),
            HostEvent::KeyPressed(Key::Space) => reaction == (Reaction::<F>::LoadTexture {
                index: after.texture_index as usize,
            }),
            HostEvent::KeyPressed(Key::Other) => reaction == Reaction::<F>::Idle,
            HostEvent::Other => reaction == Reaction::<F>::Idle,
        }
    }
}

/// The answer to a command of the console: `exit` ends the process normally,
/// and nothing else asks anything of the host.
pub open spec fn command_reaction<F>(command: Command) -> Reaction<F> {
    match command {
        Command::Exit => Reaction::Exit { code: EXIT_NORMAL },
        _ => Reaction::Idle,
    }
}

/// Presses of the advancing key move the place in the texture list and leave
/// everything else alone.
pub proof fn lemma_presses_advance<F>(state: SharedStateView<F>, presses: nat)
    ensures
        state.after_presses(presses).texture_index == texture_after(
            state.texture_index,
            state.texture_count,
            presses,
        ),
        state.after_presses(presses).texture_count == state.texture_count,
        state.after_presses(presses).renderer == state.renderer,
    decreases presses,
{
    if presses > 0 {
        lemma_presses_advance(state, (presses - 1) as nat);
    }
}

/// With `N` textures in the list, `N` presses of the advancing key lead back to
/// the texture that was shown before them.
pub proof fn lemma_presses_cycle<F>(state: SharedStateView<F>)
    requires
        state.texture_index < state.texture_count,
    ensures
        state.after_presses(state.texture_count) == state,
{
    lemma_presses_advance(state, state.texture_count);
    lemma_texture_cycle(state.texture_index, state.texture_count);
}

/// The answer to a new size: nothing for a size with a zero side, else the
/// configuration to apply to the surface.
pub open spec fn configure_or_idle<F>(size: PhysicalSize, config: SurfaceConfiguration<F>) -> Reaction<F> {
    if size.width == 0 || size.height == 0 {
        Reaction::Idle
    } else {
        Reaction::Configure(config)
    }
}

impl<F> View for SharedState<F> {
    type V = SharedStateView<F>;

    closed spec fn view(&self) -> SharedStateView<F> {
        SharedStateView {
            renderer: self.renderer@,
            texture_index: self.texture_index as nat,
            texture_count: self.texture_count as nat,
        }
    }
}

impl<F> SharedState<F> {
    #[verifier::type_invariant]
    spec fn well_formed(self) -> bool {
        self.texture_index < self.texture_count
    }
}

impl<F: Copy> SharedState<F> {
    /// The state of a program that shows the first of `texture_count` textures.
    pub fn new(renderer: Renderer<F>, texture_count: usize) -> (r: Self)
        requires
            texture_count > 0,
        ensures
            r@.renderer == renderer@,
            r@.texture_index == 0,
            r@.texture_count == texture_count,
    {
        SharedState { renderer, texture_index: 0, texture_count }
    }

    /// The renderer.
    pub fn renderer(&self) -> (r: &Renderer<F>)
        ensures
            r@ == self@.renderer,
    {
        &self.renderer
    }

    /// The place in the list of the texture that is shown, or being loaded.
    pub fn texture_index(&self) -> (r: usize)
        ensures
            r == self@.texture_index,
            r < self@.texture_count,
    {
        proof {
            use_type_invariant(self);
        }
        self.texture_index
    }

    /// Takes an event and says what the host is to do.
    pub fn handle(&mut self, event: HostEvent) -> (r: Reaction<F>)
        ensures
            final(self)@ == old(self)@.after(event),
            old(self)@.reacts(event, final(self)@, r),
    {
        proof {
            use_type_invariant(&*self);
        }
        match event {
            HostEvent::MainEventsCleared => Reaction::RequestRedraw,
            HostEvent::RedrawRequested { acquired } => match self.renderer.draw(acquired) {
                Ok(frame) => Reaction::Present(frame),
                Err(SurfaceError::Lost) => {
                    let size = self.renderer.size();
                    self.resize(size)
                },
                Err(SurfaceError::OutOfMemory) => Reaction::Exit { code: EXIT_OUT_OF_MEMORY },
                Err(error) => Reaction::Report(error),
            },
            HostEvent::CloseRequested => Reaction::Exit { code: EXIT_NORMAL },
            HostEvent::Resized(size) => self.resize(size),
            HostEvent::ScaleFactorChanged { new_inner_size } => self.resize(new_inner_size),
            HostEvent::KeyPressed(Key::Space) => {
                self.texture_index = advance_texture(self.texture_index, self.texture_count);
                Reaction::LoadTexture { index: self.texture_index }
            },
            HostEvent::KeyPressed(Key::Other) => Reaction::Idle,
            HostEvent::Other => Reaction::Idle,
        }
    }

    /// Carries out a command of the console.
    pub fn run_command(&mut self, command: Command) -> (r: Reaction<F>)
        ensures
            final(self)@ == old(self)@.after_command(command),
            r == command_reaction::<F>(command),
    {
        proof {
            use_type_invariant(&*self);
        }
        match command {
            Command::SetClearColor(color) => {
                let mut renderer = self.renderer;
                renderer.set_background_color(color);
                self.renderer = renderer;
                Reaction::Idle
            },
            Command::Exit => Reaction::Exit { code: EXIT_NORMAL },
            Command::Ignored => Reaction::Idle,
        }
    }

    /// Takes the contents of the texture file that `LoadTexture` asked for and hands
    /// them to the renderer's `set_texture`. The decoder decides whether there is a
    /// texture. Where there is, the result describes the bind group to build and
    /// put in the place of the present one. Where there is none, the texture that
    /// was shown stays.
    pub fn set_texture(&mut self, bytes: &[u8]) -> (r: Result<TextureBindGroup, TextureError>)
        ensures
            final(self)@.texture_index == old(self)@.texture_index,
            final(self)@.texture_count == old(self)@.texture_count,
            match r {
                Ok(group) => binds_decoded_texture(group) && final(self)@.renderer == old(
                    self,
                )@.renderer.bind_texture(group.upload.size),
                Err(_) => final(self)@ == old(self)@,
            },
    {
        proof {
            use_type_invariant(&*self);
        }
        let mut renderer = self.renderer;
        let result = renderer.set_texture(bytes);
        self.renderer = renderer;
        result
    }

    fn resize(&mut self, size: PhysicalSize) -> (r: Reaction<F>)
        ensures
            final(self)@ == (SharedStateView {
                renderer: old(self)@.renderer.resize(size),
                ..old(self)@
            }),
            r == configure_or_idle(size, final(self)@.renderer.config),
    {
        proof {
            use_type_invariant(&*self);
        }
        let mut renderer = self.renderer;
        let configuration = renderer.resize(size);
        self.renderer = renderer;
        match configuration {
            Some(config) => Reaction::Configure(config),
            None => Reaction::Idle,
        }
    }
}

} // verus!
