//! The command-recording schedule: one command buffer per swapchain image,
//! each recorded exactly once at construction time. Recording buffer `i`
//! begins the buffer, builds a throwaway framebuffer over image view `i`,
//! begins the clear render pass over the full extent, ends the pass (no draw
//! calls — this is a background-clear-only pipeline), ends the buffer, and
//! destroys the transient framebuffer at once.

use vstd::prelude::*;

verus! {

/// One step of recording the command buffers.
#[derive(Clone, Copy, Debug, PartialEq, Eq, Structural)]
pub enum RecordStep {
    /// Begin command buffer `i`.
    BeginBuffer(u32),
    /// Build the transient framebuffer wrapping image view `i`.
    CreateFramebuffer(u32),
    /// Begin the render pass into framebuffer `i`, over the full extent, with
    /// the fixed clear colour.
    BeginPass(u32),
    /// End the render pass of buffer `i`.
    EndPass(u32),
    /// End command buffer `i`.
    EndBuffer(u32),
    /// Destroy the transient framebuffer of image view `i`.
    DestroyFramebuffer(u32),
}

/// The six steps that record command buffer `i`.
pub open spec fn record_block(i: u32) -> Seq<RecordStep> {
    seq![
        RecordStep::BeginBuffer(i),
        RecordStep::CreateFramebuffer(i),
        RecordStep::BeginPass(i),
        RecordStep::EndPass(i),
        RecordStep::EndBuffer(i),
        RecordStep::DestroyFramebuffer(i),
    ]
}

/// The whole recording schedule for `n` command buffers: the blocks for
/// buffers `0 .. n`, in buffer order.
pub open spec fn record_seq(n: int) -> Seq<RecordStep>
    decreases n,
{
    if n <= 0 {
        Seq::<RecordStep>::empty()
    } else {
        record_seq(n - 1) + record_block((n - 1) as u32)
    }
}

/// The schedule for `n` buffers has six steps per buffer.
pub proof fn lemma_record_seq_len(n: int)
    requires
        n >= 0,
    ensures
        record_seq(n).len() == 6 * n,
    decreases n,
{
    if n > 0 {
        lemma_record_seq_len(n - 1);
    }
}

/// Plans the recording of all command buffers, in image order.
pub fn record_plan(image_count: u32) -> (r: Vec<RecordStep>)
    ensures
        r@ == record_seq(image_count as int),
        r@.len() == 6 * image_count,
{
    proof {
        lemma_record_seq_len(image_count as int);
    }
    let mut steps: Vec<RecordStep> = Vec::new();
    let mut i: u32 = 0;
    while i < image_count
        invariant
            i <= image_count,
            steps@ == record_seq(i as int),
        decreases image_count - i,
    {
        steps.push(RecordStep::BeginBuffer(i));
        steps.push(RecordStep::CreateFramebuffer(i));
        steps.push(RecordStep::BeginPass(i));
        steps.push(RecordStep::EndPass(i));
        steps.push(RecordStep::EndBuffer(i));
        steps.push(RecordStep::DestroyFramebuffer(i));
        proof {
            assert(steps@ =~= record_seq(i as int) + record_block(i));
        }
        i += 1;
    }
    steps
}

} // verus!
