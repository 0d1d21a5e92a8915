//! Capture session settings and state: the image dimensions, the single-image
//! flag, and the pre-roll state machine that decides when frames start being
//! accepted for saving.

use vstd::prelude::*;

verus! {

/// Capture image state.
///
/// `BuildScene` is the state before any rendering: the capture is not armed
/// and ticks do nothing. `Render(n)` is the armed state with `n` pre-roll
/// ticks left before frames are accepted; `Render(0)` accepts frames and is
/// terminal.
#[derive(Clone, Copy, Debug)]
pub enum SceneState {
    /// State before any rendering.
    BuildScene,
    /// Rendering state, with the number of frames remaining before the image
    /// is saved.
    Render(u32),
}

/// Capture image settings and state. The dimensions and the single-image
/// flag are fixed for the session; only `state` moves, and only from
/// `BuildScene` to `Render(n)` when the session is armed, then down one
/// pre-roll step per consumer tick until `Render(0)`.
#[derive(Debug)]
pub struct SceneController {
    pub state: SceneState,
    pub name: String,
    pub width: u32,
    pub height: u32,
    pub single_image: bool,
}

impl SceneController {
    pub fn new(width: u32, height: u32, single_image: bool) -> (c: SceneController)
        ensures
            c.state == SceneState::BuildScene,
            c.name@ == Seq::<char>::empty(),
            c.width == width,
            c.height == height,
            c.single_image == single_image,
    {
        SceneController {
            state: SceneState::BuildScene,
            name: String::new(),
            width,
            height,
            single_image,
        }
    }

    /// Arms the capture: the session leaves `BuildScene`, takes its scene
    /// name, and starts the pre-roll countdown of `pre_roll_frames` ticks.
    pub fn arm(&mut self, pre_roll_frames: u32, scene_name: String)
        ensures
            final(self).state == SceneState::Render(pre_roll_frames),
            final(self).name == scene_name,
            final(self).width == old(self).width,
            final(self).height == old(self).height,
            final(self).single_image == old(self).single_image,
    {
        self.state = SceneState::Render(pre_roll_frames);
        self.name = scene_name;
    }
}

} // verus!
