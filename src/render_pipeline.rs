use vstd::prelude::*;
use crate::image::{WebImage, ImageError, check_outcome};
use crate::texture::{TextureManager, TextureUpload, TexModel, after_submit, upload_of, dims_of, ratio_after_refresh};
use crate::uniform::{Aspect, InputUniform, next_effect, toggled};

verus! {

/// A request sent to the render loop by the user interface.
#[allow(non_camel_case_types)]
pub enum FrontendEvent {
    /// Advance to the next shader effect.
    STEP,
    /// Switch between fill and fit.
    FILL_MODE,
    /// Reserved; accepted and ignored.
    NEW_COLORS,
    /// Replace the displayed image.
    NewImage(WebImage),
}

/// The size of the drawing surface in physical pixels.
#[derive(Clone, Copy, Debug, PartialEq, Eq, Structural)]
pub struct SurfaceSize {
    pub width: u32,
    pub height: u32,
}

/// Why presenting a frame failed, as the GPU surface reports it.
#[derive(Clone, Copy, Debug, PartialEq, Eq, Structural)]
pub enum SurfaceError {
    Timeout,
    Outdated,
    Lost,
    OutOfMemory,
}

/// What the loop must do after a present attempt.
#[derive(Clone, Copy, Debug, PartialEq, Eq, Structural)]
pub enum LoopAction {
    /// The frame went out; carry on.
    Continue,
    /// The surface was lost: configure it again at this size, then carry on.
    Reconfigure(SurfaceSize),
    /// The frame failed for another reason: report it, drop the frame, carry on.
    Skip(SurfaceError),
    /// The device ran out of memory: stop the loop.
    Exit,
}

/// The phase of the render loop.
#[derive(Clone, Copy, Debug, PartialEq, Eq, Structural)]
pub enum Phase {
    Running,
    Terminated,
}

/// The action and phase that follow a present attempt in phase `p` with
/// surface size `size`.
pub open spec fn present_step(p: Phase, size: SurfaceSize, result: Result<(), SurfaceError>) -> (LoopAction, Phase) {
    match result {
        Ok(()) => (LoopAction::Continue, p),
        Err(SurfaceError::Lost) => (LoopAction::Reconfigure(size), p),
        Err(SurfaceError::OutOfMemory) => (LoopAction::Exit, Phase::Terminated),
        Err(e) => (LoopAction::Skip(e), p),
    }
}

/// The logical state of the render loop: the shader uniform, the texture
/// manager, the surface size and whether the loop still runs. The GPU handles
/// that act on it live beside it and follow the actions it returns.
pub struct State {
    size: SurfaceSize,
    input_uniform: InputUniform,
    image_tex_uniform: TextureManager,
    phase: Phase,
}

impl State {
    pub closed spec fn size_spec(&self) -> SurfaceSize {
        self.size
    }

    pub closed spec fn uniform_spec(&self) -> InputUniform {
        self.input_uniform
    }

    pub closed spec fn textures_spec(&self) -> TexModel {
        self.image_tex_uniform.model()
    }

    pub closed spec fn phase_spec(&self) -> Phase {
        self.phase
    }

    pub closed spec fn wf(&self) -> bool {
        &&& self.input_uniform.wf()
        &&& self.image_tex_uniform.wf()
    }

    /// The state at start-up for a surface of `size`: first effect, fit mode,
    /// viewport ratio `size.width / size.height`, no image.
    pub fn new(size: SurfaceSize) -> (r: Self)
        ensures
            r.wf(),
            r.size_spec() == size,
            r.phase_spec() == Phase::Running,
            r.uniform_spec().effect_spec() == 0,
            r.uniform_spec().fill_mode_spec() == 0,
            r.uniform_spec().window_ratio_spec() == (Aspect { width: size.width, height: size.height }),
            r.uniform_spec().img_ratio_spec() == (Aspect { width: 0, height: 1 }),
            r.textures_spec() == (false, None::<(u32, u32, Seq<u8>)>),
    {
        State {
            size,
            input_uniform: InputUniform::new(Aspect { width: size.width, height: size.height }),
            image_tex_uniform: TextureManager::new(),
            phase: Phase::Running,
        }
    }

    /// Takes a new surface size when both sides are positive and returns
    /// whether the surface must be configured again; a size with a zero side
    /// is ignored.
    pub fn resize(&mut self, new_size: SurfaceSize) -> (r: bool)
        ensures
            r == (new_size.width > 0 && new_size.height > 0),
            final(self).size_spec() == (if r { new_size } else { old(self).size_spec() }),
            final(self).uniform_spec() == old(self).uniform_spec(),
            final(self).textures_spec() == old(self).textures_spec(),
            final(self).phase_spec() == old(self).phase_spec(),
            old(self).wf() ==> final(self).wf(),
    {
        if new_size.width > 0 && new_size.height > 0 {
            self.size = new_size;
            true
        } else {
            false
        }
    }

    /// Applies one request from the user interface: a step or fill toggle
    /// changes the uniform, a new image is submitted for the next refresh,
    /// and `NEW_COLORS` changes nothing. The loop renders after each.
    pub fn handle_event(&mut self, event: FrontendEvent) -> (r: Result<(), ImageError>)
        requires
            old(self).wf(),
        ensures
            final(self).wf(),
            final(self).size_spec() == old(self).size_spec(),
            final(self).phase_spec() == old(self).phase_spec(),
            match event {
                FrontendEvent::STEP => {
                    &&& r is Ok
                    &&& final(self).uniform_spec().effect_spec() == next_effect(old(self).uniform_spec().effect_spec())
                    &&& final(self).uniform_spec().fill_mode_spec() == old(self).uniform_spec().fill_mode_spec()
                    &&& final(self).uniform_spec().window_ratio_spec() == old(self).uniform_spec().window_ratio_spec()
                    &&& final(self).uniform_spec().img_ratio_spec() == old(self).uniform_spec().img_ratio_spec()
                    &&& final(self).textures_spec() == old(self).textures_spec()
                },
                FrontendEvent::FILL_MODE => {
                    &&& r is Ok
                    &&& final(self).uniform_spec().fill_mode_spec() == toggled(old(self).uniform_spec().fill_mode_spec())
                    &&& final(self).uniform_spec().effect_spec() == old(self).uniform_spec().effect_spec()
                    &&& final(self).uniform_spec().window_ratio_spec() == old(self).uniform_spec().window_ratio_spec()
                    &&& final(self).uniform_spec().img_ratio_spec() == old(self).uniform_spec().img_ratio_spec()
                    &&& final(self).textures_spec() == old(self).textures_spec()
                },
                FrontendEvent::NEW_COLORS => {
                    &&& r is Ok
                    &&& final(self).uniform_spec() == old(self).uniform_spec()
                    &&& final(self).textures_spec() == old(self).textures_spec()
                },
                FrontendEvent::NewImage(img) => {
                    &&& r == check_outcome(img.width as int, img.height as int, img.data.len() as int)
                    &&& final(self).uniform_spec() == old(self).uniform_spec()
                    &&& final(self).textures_spec() == after_submit(
                        old(self).textures_spec(),
                        img.width,
                        img.height,
                        img.data@,
                    )
                },
            },
    {
        match event {
            FrontendEvent::STEP => {
                self.input_uniform.step();
                Ok(())
            },
            FrontendEvent::FILL_MODE => {
                self.input_uniform.toggle_fill();
                Ok(())
            },
            FrontendEvent::NEW_COLORS => Ok(()),
            FrontendEvent::NewImage(img) => self.image_tex_uniform.submit_image(img),
        }
    }

    /// Prepares a frame: uploads a newly submitted image, if any (see
    /// `TextureManager::refresh`). The uniform is then written out as it
    /// stands, changed or not.
    pub fn update(&mut self) -> (r: Option<TextureUpload>)
        requires
            old(self).wf(),
        ensures
            final(self).wf(),
            final(self).size_spec() == old(self).size_spec(),
            final(self).phase_spec() == old(self).phase_spec(),
            final(self).textures_spec() == (false, old(self).textures_spec().1),
            old(self).textures_spec().0 ==> r == Some(upload_of(dims_of(old(self).textures_spec().1))),
            !old(self).textures_spec().0 ==> r is None,
            final(self).uniform_spec().img_ratio_spec() == ratio_after_refresh(
                old(self).textures_spec(),
                old(self).uniform_spec().img_ratio_spec(),
            ),
            final(self).uniform_spec().effect_spec() == old(self).uniform_spec().effect_spec(),
            final(self).uniform_spec().fill_mode_spec() == old(self).uniform_spec().fill_mode_spec(),
            final(self).uniform_spec().window_ratio_spec() == old(self).uniform_spec().window_ratio_spec(),
    {
        self.image_tex_uniform.refresh(&mut self.input_uniform)
    }

    /// Decides what follows a present attempt: carry on after success,
    /// configure the surface again at the current size after a loss, stop
    /// after running out of memory, and drop the frame after anything else.
    pub fn present_outcome(&mut self, result: Result<(), SurfaceError>) -> (r: LoopAction)
        ensures
            (r, final(self).phase_spec()) == present_step(old(self).phase_spec(), old(self).size_spec(), result),
            final(self).size_spec() == old(self).size_spec(),
            final(self).uniform_spec() == old(self).uniform_spec(),
            final(self).textures_spec() == old(self).textures_spec(),
            old(self).wf() ==> final(self).wf(),
    {
        match result {
            Ok(()) => LoopAction::Continue,
            Err(SurfaceError::Lost) => LoopAction::Reconfigure(self.size),
            Err(SurfaceError::OutOfMemory) => {
                self.phase = Phase::Terminated;
                LoopAction::Exit
            },
            Err(e) => LoopAction::Skip(e),
        }
    }

    pub fn size(&self) -> (r: SurfaceSize)
        ensures
            r == self.size_spec(),
    {
        self.size
    }

    pub fn is_running(&self) -> (r: bool)
        ensures
            r == (self.phase_spec() == Phase::Running),
    {
        match self.phase {
            Phase::Running => true,
            Phase::Terminated => false,
        }
    }

    pub fn uniform(&self) -> (r: &InputUniform)
        ensures
            *r == self.uniform_spec(),
    {
        &self.input_uniform
    }

    pub fn textures(&self) -> (r: &TextureManager)
        ensures
            r.model() == self.textures_spec(),
    {
        &self.image_tex_uniform
    }
}

/// A lost surface heals itself: the loop answers with exactly one
/// reconfiguration at the current size, stays in the phase it was in, and
/// leaves the rest of the state as it was.
pub proof fn lemma_surface_lost_self_heals(p: Phase, size: SurfaceSize)
    ensures
        present_step(p, size, Err(SurfaceError::Lost)) == (LoopAction::Reconfigure(size), p),
{
}

} // verus!
