//! The capture target and the device copy stage. An `ImageCopier` pairs one
//! render target with one staging buffer layout, computed once from the
//! target's fixed dimensions, and carries the shared `enabled` flag that
//! gates the whole producer path. Planning a copy is pure: it either yields
//! the one command the layout dictates, or nothing at all when the target is
//! disabled.

use vstd::prelude::*;
use core::sync::atomic::AtomicBool;
use core::sync::atomic::Ordering;
use crate::layout::align_copy_bytes_per_row;
use crate::layout::align_up;
use crate::layout::COPY_BYTES_PER_ROW_ALIGNMENT;
use crate::layout::PIXEL_BYTES;
use crate::layout::PaddedLayout;

verus! {

/// The layout every capture-session party derives from the image dimensions:
/// rows of `width` pixels of `PIXEL_BYTES` bytes, each row slot rounded up to
/// the device's row alignment. Copy planning and padding stripping both go
/// through this one definition, so the two sides can never disagree.
pub open spec fn session_layout(width: int, height: int) -> PaddedLayout {
    PaddedLayout {
        unpadded_bytes_per_row: (width * PIXEL_BYTES) as usize,
        padded_bytes_per_row: align_up(
            width * PIXEL_BYTES,
            COPY_BYTES_PER_ROW_ALIGNMENT as int,
        ) as usize,
        rows: height as usize,
    }
}

/// The dimensions admit a session layout: they are positive and the padded
/// staging buffer size fits in `usize`.
pub open spec fn valid_dimensions(width: int, height: int) -> bool {
    &&& 0 < width
    &&& 0 < height
    &&& width * PIXEL_BYTES + COPY_BYTES_PER_ROW_ALIGNMENT <= usize::MAX
    &&& align_up(width * PIXEL_BYTES, COPY_BYTES_PER_ROW_ALIGNMENT as int) * height <= usize::MAX
}

/// Builds the session layout from the image dimensions.
pub fn plan_session_layout(width: u32, height: u32) -> (layout: PaddedLayout)
    requires
        valid_dimensions(width as int, height as int),
    ensures
        layout == session_layout(width as int, height as int),
        layout.wf(),
{
    let row_bytes: usize = (width as usize) * (PIXEL_BYTES as usize);
    proof {
        crate::layout::lemma_align_up_bounds(
            row_bytes as int,
            COPY_BYTES_PER_ROW_ALIGNMENT as int,
        );
    }
    let padded = align_copy_bytes_per_row(row_bytes, COPY_BYTES_PER_ROW_ALIGNMENT as usize);
    PaddedLayout {
        unpadded_bytes_per_row: row_bytes,
        padded_bytes_per_row: padded,
        rows: height as usize,
    }
}

/// The one device copy command a capture target admits: the staging buffer
/// offset, the padded stride of each row, and the row count.
pub struct CopyCommand {
    /// Offset into the staging buffer; copies always start at its beginning.
    pub buffer_offset: usize,
    /// Stride between the starts of two consecutive rows in the buffer.
    pub bytes_per_row: usize,
    /// Number of rows the copy writes.
    pub rows: usize,
    /// Size of the staging buffer the command writes into.
    pub total_size: usize,
}

/// The copy command a target's layout dictates.
pub open spec fn command_for(layout: PaddedLayout) -> CopyCommand {
    CopyCommand {
        buffer_offset: 0,
        bytes_per_row: layout.padded_bytes_per_row,
        rows: layout.rows,
        total_size: layout.spec_total_size() as usize,
    }
}

/// The copy commands of one device tick over the first `upto` capture
/// targets: one command per target whose flag was read enabled, none for a
/// disabled one, in target order.
pub open spec fn planned_commands(
    copiers: Seq<ImageCopier>,
    enabled: Seq<bool>,
    upto: int,
) -> Seq<CopyCommand>
    decreases upto,
{
    if upto <= 0 {
        Seq::empty()
    } else {
        planned_commands(copiers, enabled, upto - 1) + (if enabled[upto - 1] {
            seq![command_for(copiers[upto - 1].layout)]
        } else {
            Seq::empty()
        })
    }
}

/// One render-target/staging-buffer pair of a capture session: the fixed
/// dimensions, the layout derived from them once, and the `enabled` flag
/// that other parties may clear at any time to stop the capture.
pub struct ImageCopier {
    pub width: u32,
    pub height: u32,
    pub layout: PaddedLayout,
    /// Read every producer tick, possibly written from outside the copy
    /// loop; a one-tick-stale read only delays the skip, so a relaxed
    /// atomic read suffices.
    pub enabled: AtomicBool,
}

impl ImageCopier {
    /// The layout stored in the copier is the one its dimensions dictate.
    pub open spec fn wf(self) -> bool {
        &&& valid_dimensions(self.width as int, self.height as int)
        &&& self.layout == session_layout(self.width as int, self.height as int)
        &&& self.layout.wf()
    }

    /// Builds the capture target for a render target of the given size,
    /// computing the padded-row layout its staging buffer needs. The target
    /// starts enabled.
    pub fn new(width: u32, height: u32) -> (copier: ImageCopier)
        requires
            valid_dimensions(width as int, height as int),
        ensures
            copier.wf(),
            copier.width == width,
            copier.height == height,
            copier.layout == session_layout(width as int, height as int),
    {
        let layout = plan_session_layout(width, height);
        ImageCopier { width, height, layout, enabled: AtomicBool::new(true) }
    }

    /// Whether the target currently takes part in the capture. The flag is
    /// shared with other parties, so nothing can be promised about the value
    /// read; the copy decision is made from the value it returns.
    pub fn enabled(&self) -> bool {
        self.enabled.load(Ordering::Relaxed)
    }

    /// Stops or resumes the capture of this target; readable from the
    /// producer context while written here.
    pub fn set_enabled(&self, enabled: bool) {
        self.enabled.store(enabled, Ordering::Relaxed);
    }

    /// The copy command for this target, given the `enabled` value just
    /// read: a disabled target issues no command at all, an enabled one
    /// issues exactly the command its layout dictates.
    pub fn plan_copy(&self, enabled: bool) -> (command: Option<CopyCommand>)
        requires
            self.wf(),
        ensures
            !enabled ==> command is None,
            enabled ==> (command matches Some(c)
                && c.buffer_offset == 0
                && c.bytes_per_row == self.layout.padded_bytes_per_row
                && c.rows == self.layout.rows
                && c.total_size == self.layout.spec_total_size()),
    {
        if !enabled {
            return None;
        }
        let total = self.layout.total_size();
        Some(CopyCommand {
            buffer_offset: 0,
            bytes_per_row: self.layout.padded_bytes_per_row,
            rows: self.layout.rows,
            total_size: total,
        })
    }

    /// The producer-tick handoff for this target, given the `enabled` value
    /// just read and the staging buffer contents the device mapped: a
    /// disabled target never pushes a frame, an enabled one pushes the
    /// mapped bytes as one owned frame.
    pub fn forward_frame(
        &self,
        enabled: bool,
        mapped: Vec<u8>,
        channel: &mut crate::channel::LatestFrameChannel,
    ) -> (pushed: bool)
        requires
            self.wf(),
            enabled ==> mapped@.len() == self.layout.spec_total_size(),
        ensures
            !enabled ==> !pushed && crate::channel::channel_frames(*final(channel))
                == crate::channel::channel_frames(*old(channel)),
            enabled ==> pushed && crate::channel::channel_frames(*final(channel))
                == crate::channel::channel_frames(*old(channel)).push(mapped@),
    {
        if !enabled {
            return false;
        }
        channel.push(mapped);
        true
    }
}

/// One tick of the device copy stage over every capture target of the
/// session, given the `enabled` value just read for each: the copy commands
/// of the enabled targets, in target order, with the disabled ones skipped.
pub fn plan_copy_stage(copiers: &Vec<ImageCopier>, enabled: &Vec<bool>) -> (commands: Vec<
    CopyCommand,
>)
    requires
        copiers@.len() == enabled@.len(),
        forall|i: int| 0 <= i < copiers@.len() ==> (#[trigger] copiers@[i]).wf(),
    ensures
        commands@ == planned_commands(copiers@, enabled@, copiers@.len() as int),
{
    let mut commands: Vec<CopyCommand> = Vec::new();
    let mut i: usize = 0;
    while i < copiers.len()
        invariant
            copiers@.len() == enabled@.len(),
            forall|k: int| 0 <= k < copiers@.len() ==> (#[trigger] copiers@[k]).wf(),
            0 <= i <= copiers@.len(),
            commands@ == planned_commands(copiers@, enabled@, i as int),
        decreases copiers@.len() - i,
    {
        match copiers[i].plan_copy(enabled[i]) {
            Some(command) => {
                proof {
                    assert(command == command_for(copiers@[i as int].layout));
                }
                commands.push(command);
            },
            None => {},
        }
        assert(commands@ =~= planned_commands(copiers@, enabled@, i + 1));
        i = i + 1;
    }
    commands
}

} // verus!
