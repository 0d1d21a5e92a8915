//! Consumer-side capture sequencer. One tick is one consumer-context
//! invocation: while the scene is still assembling it does nothing; during
//! pre-roll it throws the pending frames away and counts down; once the
//! pre-roll is over it takes the newest pending frame, strips the row
//! padding, and hands the reconstructed image out — together with the
//! termination signal when the session wants a single image only. It also
//! assigns the zero-padded file names of the saved frames.

use vstd::prelude::*;
use vstd::string::StringExecFns;
use crate::channel::channel_frames;
use crate::channel::LatestFrameChannel;
use crate::copier::plan_session_layout;
use crate::copier::session_layout;
use crate::copier::valid_dimensions;
use crate::frame::strip_padding;
use crate::frame::stripped;
use crate::scene_controller::SceneController;
use crate::scene_controller::SceneState;

verus! {

/// What one consumer tick did.
pub enum TickOutcome {
    /// Nothing to do: the capture is not armed, or no frame was pending.
    Idle,
    /// A pre-roll tick: pending frames were thrown away and the countdown
    /// moved one step.
    Discarded,
    /// A frame was consumed: the reconstructed image, and whether the
    /// single-image session is complete and should terminate.
    Saved(Vec<u8>, bool),
}

/// Every queued frame has exactly the size of the session's staging buffer.
pub open spec fn frames_well_sized(frames: Seq<Seq<u8>>, total_size: int) -> bool {
    forall|i: int| 0 <= i < frames.len() ==> #[trigger] frames[i].len() == total_size
}

/// The image a saved frame reconstructs: the session's staging buffer with
/// the row padding stripped from every row.
pub open spec fn reconstructed_image(frame: Seq<u8>, width: int, height: int) -> Seq<u8> {
    stripped(
        frame,
        session_layout(width, height).unpadded_bytes_per_row as int,
        session_layout(width, height).padded_bytes_per_row as int,
        session_layout(width, height).rows as int,
    )
}

/// One consumer tick of the capture sequencer.
///
/// In `BuildScene` the tick is a no-op. In `Render(n)` with `n >= 1` it
/// drains and discards the pending frames and decrements to `Render(n - 1)`.
/// In `Render(0)` it drains the channel: with no frame pending the tick is a
/// no-op, otherwise the newest pending frame is stripped of its row padding
/// and returned, with the termination signal exactly when the session is a
/// single-image one. The settings of the session never change, and the
/// channel is left empty whenever the tick drained it.
pub fn sequencer_tick(
    controller: &mut SceneController,
    channel: &mut LatestFrameChannel,
) -> (outcome: TickOutcome)
    requires
        (old(controller).state matches SceneState::Render(n) && n == 0) ==> valid_dimensions(
            old(controller).width as int,
            old(controller).height as int,
        ) && frames_well_sized(
            channel_frames(*old(channel)),
            session_layout(
                old(controller).width as int,
                old(controller).height as int,
            ).spec_total_size(),
        ),
    ensures
        final(controller).name == old(controller).name,
        final(controller).width == old(controller).width,
        final(controller).height == old(controller).height,
        final(controller).single_image == old(controller).single_image,
        old(controller).state is BuildScene ==> *final(controller) == *old(controller)
            && channel_frames(*final(channel)) == channel_frames(*old(channel))
            && outcome is Idle,
        old(controller).state matches SceneState::Render(n) ==> {
            &&& n >= 1 ==> final(controller).state == SceneState::Render((n - 1) as u32)
                && channel_frames(*final(channel)).len() == 0
                && outcome is Discarded
            &&& (n == 0 && channel_frames(*old(channel)).len() == 0) ==> *final(controller)
                == *old(controller)
                && channel_frames(*final(channel)).len() == 0
                && outcome is Idle
            &&& (n == 0 && channel_frames(*old(channel)).len() > 0) ==> *final(controller)
                == *old(controller)
                && channel_frames(*final(channel)).len() == 0
                && (outcome matches TickOutcome::Saved(image, session_complete)
                    && image@ == reconstructed_image(
                        channel_frames(*old(channel)).last(),
                        old(controller).width as int,
                        old(controller).height as int,
                    )
                    && session_complete == old(controller).single_image)
        },
{
    match controller.state {
        SceneState::BuildScene => TickOutcome::Idle,
        SceneState::Render(n) => {
            if n >= 1 {
                // Skip-frame: the scene is still settling, nothing pending
                // is worth saving.
                channel.drain_and_discard();
                controller.state = SceneState::Render(n - 1);
                TickOutcome::Discarded
            } else {
                match channel.drain_latest() {
                    None => TickOutcome::Idle,
                    Some(newest) => {
                        let layout = plan_session_layout(controller.width, controller.height);
                        let image = strip_padding(newest, &layout);
                        TickOutcome::Saved(image, controller.single_image)
                    },
                }
            }
        },
    }
}

/// The decimal digit character of `d`.
pub open spec fn spec_digit_char(d: int) -> char {
    if d == 0 {
        '0'
    } else if d == 1 {
        '1'
    } else if d == 2 {
        '2'
    } else if d == 3 {
        '3'
    } else if d == 4 {
        '4'
    } else if d == 5 {
        '5'
    } else if d == 6 {
        '6'
    } else if d == 7 {
        '7'
    } else if d == 8 {
        '8'
    } else {
        '9'
    }
}

/// The file name of saved frame `n`: the index as three zero-padded decimal
/// digits, then the image-format suffix.
pub open spec fn spec_frame_file_name(n: int) -> Seq<char>
    recommends
        0 <= n < 1000,
{
    seq![
        spec_digit_char(n / 100),
        spec_digit_char(n / 10 % 10),
        spec_digit_char(n % 10),
    ] + ".png"@
}

fn digit_str(d: u32) -> (s: &'static str)
    requires
        d < 10,
    ensures
        s@ =~= seq![spec_digit_char(d as int)],
{
    if d == 0 {
        proof {
            reveal_strlit("0");
        }
        "0"
    } else if d == 1 {
        proof {
            reveal_strlit("1");
        }
        "1"
    } else if d == 2 {
        proof {
            reveal_strlit("2");
        }
        "2"
    } else if d == 3 {
        proof {
            reveal_strlit("3");
        }
        "3"
    } else if d == 4 {
        proof {
            reveal_strlit("4");
        }
        "4"
    } else if d == 5 {
        proof {
            reveal_strlit("5");
        }
        "5"
    } else if d == 6 {
        proof {
            reveal_strlit("6");
        }
        "6"
    } else if d == 7 {
        proof {
            reveal_strlit("7");
        }
        "7"
    } else if d == 8 {
        proof {
            reveal_strlit("8");
        }
        "8"
    } else {
        proof {
            reveal_strlit("9");
        }
        "9"
    }
}

/// Builds the zero-padded file name of saved frame `index`.
pub fn frame_file_name(index: u32) -> (name: String)
    requires
        index < 1000,
    ensures
        name@ == spec_frame_file_name(index as int),
{
    let mut name = String::new();
    name.append(digit_str(index / 100));
    name.append(digit_str((index / 10) % 10));
    name.append(digit_str(index % 10));
    name.append(".png");
    assert(name@ =~= spec_frame_file_name(index as int));
    name
}

/// Assigns the destination of the next saved frame: the file name of the
/// current index, which then moves up by one.
pub fn next_frame_file(index: &mut u32) -> (name: String)
    requires
        *old(index) < 1000,
    ensures
        name@ == spec_frame_file_name(*old(index) as int),
        *final(index) == *old(index) + 1,
{
    let name = frame_file_name(*index);
    *index = *index + 1;
    name
}

} // verus!
