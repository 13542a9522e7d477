//! One full run of the harness, modeled against the mock backend.
//!
//! [`run_session`] performs, on a [`MockGpu`], exactly the resource steps
//! the harness takes against the real driver — compile two shader units, link a program and
//! release the units, upload the mesh, loop over a finite trace of event
//! batches until one carries a quit signal, then tear everything down in
//! scope order. Its contract pins down the frame count and proves that
//! every handle allocated during the run is released again, whatever the
//! event trace holds.

use vstd::prelude::*;

use crate::frame::{has_quit, frame_step, FrameAction, InputEvent, LoopState};
use crate::gpu::MockGpu;
use crate::mesh::{
    triangle_indices, triangle_indices_spec, triangle_vertices_half, triangle_vertices_half_spec,
};

verus! {

/// The event sequences carried by a trace of drained batches.
pub open spec fn batch_views(trace: Seq<Vec<InputEvent>>) -> Seq<Seq<InputEvent>> {
    trace.map_values(|b: Vec<InputEvent>| b@)
}

/// How many frames the loop renders on a finite trace: one per leading
/// batch without a quit signal; the batch with the first quit signal, and
/// everything after it, renders none.
pub open spec fn frames_before_quit(trace: Seq<Seq<InputEvent>>) -> int
    decreases trace.len(),
{
    if trace.len() == 0 {
        0
    } else if has_quit(trace[0]) {
        0
    } else {
        1 + frames_before_quit(trace.drop_first())
    }
}

/// If no batch before `k` carries a quit signal, and batch `k` does (or
/// the trace ends at `k`), the loop renders exactly `k` frames.
proof fn lemma_frames_before_quit_at(trace: Seq<Seq<InputEvent>>, k: int)
    requires
        0 <= k <= trace.len(),
        forall|j: int| 0 <= j < k ==> !has_quit(#[trigger] trace[j]),
        k < trace.len() ==> has_quit(trace[k]),
    ensures
        frames_before_quit(trace) == k,
    decreases k,
{
    if k == 0 {
        if trace.len() > 0 {
            assert(has_quit(trace[0]));
        }
    } else {
        assert(!has_quit(trace[0]));
        let rest = trace.drop_first();
        assert forall|j: int| 0 <= j < k - 1 implies !has_quit(#[trigger] rest[j]) by {
            assert(rest[j] == trace[j + 1]);
        }
        if k - 1 < rest.len() {
            assert(rest[k - 1] == trace[k]);
        }
        lemma_frames_before_quit_at(rest, k - 1);
    }
}

/// Runs the whole harness once against the mock backend: setup, the frame
/// loop over `frame_events`, and teardown. Returns the number of frames
/// rendered. Afterwards the ledger shows six allocations and six releases
/// more than before, the set of live handles is exactly what it was, and
/// the two buffer stores hold the triangle mesh.
#[verifier::loop_isolation(false)]
pub fn run_session(gpu: &mut MockGpu, frame_events: &Vec<Vec<InputEvent>>) -> (frames: usize)
    requires
        old(gpu).wf(),
        old(gpu).next_handle as int + 6 <= u32::MAX as int,
        old(gpu).alloc_count as int + 6 <= u64::MAX as int,
    ensures
        final(gpu).wf(),
        final(gpu).alloc_count == old(gpu).alloc_count + 6,
        final(gpu).release_count == old(gpu).release_count + 6,
        final(gpu).live@.len() == old(gpu).live@.len(),
        forall|x: u32| #[trigger] final(gpu).is_live(x) == old(gpu).is_live(x),
        old(gpu).all_released() ==> final(gpu).all_released(),
        final(gpu).bound_array_buffer == 0u32,
        final(gpu).bound_element_buffer == 0u32,
        final(gpu).bound_vertex_array == 0u32,
        final(gpu).vertex_store_half@ == triangle_vertices_half_spec(),
        final(gpu).index_store@ == triangle_indices_spec(),
        frames as int == frames_before_quit(batch_views(frame_events@)),
{
    // Setup: compile one shader unit per stage, link them into a program,
    // then release the units — the program keeps its own reference.
    let vertex_shader: u32 = gpu.allocate();
    let fragment_shader: u32 = gpu.allocate();
    let program: u32 = gpu.allocate();
    gpu.release(vertex_shader);
    gpu.release(fragment_shader);
    gpu.use_program(program);

    // Mesh upload: vertex buffer, attribute layout object, index buffer,
    // each bound before its data is uploaded or its layout configured.
    let vbo: u32 = gpu.allocate();
    gpu.bind_array_buffer(vbo);
    let vertices: Vec<i32> = triangle_vertices_half();
    gpu.upload_vertices(&vertices);

    let vao: u32 = gpu.allocate();
    gpu.bind_vertex_array(vao);

    let ibo: u32 = gpu.allocate();
    gpu.bind_element_buffer(ibo);
    let indices: Vec<u32> = triangle_indices();
    gpu.upload_indices(&indices);

    // The frame loop: drain one batch per iteration; a quit signal stops
    // the loop before that batch's frame is rendered.
    let ghost trace = batch_views(frame_events@);
    let mut frames: usize = 0;
    let mut k: usize = 0;
    let mut running: bool = true;
    while running && k < frame_events.len()
        invariant
            k <= frame_events@.len(),
            frames == k,
            forall|j: int| 0 <= j < k ==> !has_quit(#[trigger] trace[j]),
            running || (k < frame_events@.len() && has_quit(trace[k as int])),
        decreases frame_events@.len() - k + if running {
            1int
        } else {
            0int
        },
    {
        let batch: &Vec<InputEvent> = &frame_events[k];
        proof {
            assert(trace[k as int] == batch@);
        }
        let (_, action) = frame_step(LoopState::Running, batch);
        match action {
            FrameAction::Stop => {
                running = false;
            },
            FrameAction::Render => {
                // The caller would clear, draw and present here; the mock
                // backend's state does not change.
                frames = frames + 1;
                k = k + 1;
            },
        }
    }
    proof {
        lemma_frames_before_quit_at(trace, k as int);
    }

    // Teardown, in reverse scope order; each buffer-like object unbinds
    // itself from its target slot before it is deleted.
    gpu.bind_element_buffer(0);
    gpu.release(ibo);
    gpu.bind_vertex_array(0);
    gpu.release(vao);
    gpu.bind_array_buffer(0);
    gpu.release(vbo);
    gpu.release(program);

    frames
}

} // verus!
