//! A mock graphics backend.
//!
//! It models the slice of driver state this harness touches: which GPU
//! handles are live, how many allocations and releases have happened, the
//! global binding slots (array buffer, element buffer, vertex array,
//! active program), and the data last uploaded to the two buffer targets.
//! Releasing a handle demands that it no longer sits in a binding slot, so
//! the unbind-before-delete discipline is checked, and the ledger equation
//! `alloc_count == live handles + release_count` makes "every allocation
//! has exactly one matching release" the same as "no handle is left live".

use vstd::prelude::*;

verus! {

/// The modeled driver state. A handle of `0` in a binding slot means the
/// slot is empty; `0` is never a live handle.
pub struct MockGpu {
    /// The handle the next allocation returns; always at least 1.
    pub next_handle: u32,
    /// Handles allocated and not yet released, in allocation order.
    pub live: Vec<u32>,
    /// Total number of allocations so far.
    pub alloc_count: u64,
    /// Total number of releases so far.
    pub release_count: u64,
    /// Handle bound to the vertex-data buffer target, or 0.
    pub bound_array_buffer: u32,
    /// Handle bound to the index-data buffer target, or 0.
    pub bound_element_buffer: u32,
    /// Handle bound as the vertex-attribute-layout object, or 0.
    pub bound_vertex_array: u32,
    /// Handle of the program used by draw calls, or 0.
    pub active_program: u32,
    /// Vertex data last uploaded to the bound array buffer, in half-units.
    pub vertex_store_half: Vec<i32>,
    /// Index data last uploaded to the bound element buffer.
    pub index_store: Vec<u32>,
}

impl MockGpu {
    /// Well-formedness: live handles are nonzero, below `next_handle` and
    /// pairwise distinct; every occupied binding slot holds a live handle;
    /// and the allocation ledger balances.
    pub open spec fn wf(self) -> bool {
        &&& self.next_handle >= 1
        &&& forall|i: int|
            0 <= i < self.live@.len() ==> #[trigger] self.live@[i] != 0 && self.live@[i]
                < self.next_handle
        &&& forall|i: int, j: int|
            #![trigger self.live@[i], self.live@[j]]
            0 <= i < j < self.live@.len() ==> self.live@[i] != self.live@[j]
        &&& (self.bound_array_buffer == 0 || self.live@.contains(self.bound_array_buffer))
        &&& (self.bound_element_buffer == 0 || self.live@.contains(self.bound_element_buffer))
        &&& (self.bound_vertex_array == 0 || self.live@.contains(self.bound_vertex_array))
        &&& self.alloc_count == self.live@.len() + self.release_count
    }

    /// Whether `h` is currently allocated and not released.
    pub open spec fn is_live(self, h: u32) -> bool {
        self.live@.contains(h)
    }

    /// Every allocation so far has been matched by exactly one release.
    pub open spec fn all_released(self) -> bool {
        self.live@.len() == 0 && self.alloc_count == self.release_count
    }

    /// Runtime check of [`MockGpu::all_released`]: no live handle is left
    /// and the two counters agree.
    pub fn is_all_released(&self) -> (r: bool)
        ensures
            r == self.all_released(),
    {
        self.live.len() == 0 && self.alloc_count == self.release_count
    }

    /// A fresh backend: no handles, empty ledger, every slot empty.
    pub fn new() -> (g: MockGpu)
        ensures
            g.wf(),
            g.next_handle == 1u32,
            g.live@ == Seq::<u32>::empty(),
            g.alloc_count == 0u64,
            g.release_count == 0u64,
            g.bound_array_buffer == 0u32,
            g.bound_element_buffer == 0u32,
            g.bound_vertex_array == 0u32,
            g.active_program == 0u32,
            g.vertex_store_half@ == Seq::<i32>::empty(),
            g.index_store@ == Seq::<u32>::empty(),
    {
        let g = MockGpu {
            next_handle: 1,
            live: Vec::new(),
            alloc_count: 0,
            release_count: 0,
            bound_array_buffer: 0,
            bound_element_buffer: 0,
            bound_vertex_array: 0,
            active_program: 0,
            vertex_store_half: Vec::new(),
            index_store: Vec::new(),
        };
        proof {
            assert(g.live@ =~= Seq::<u32>::empty());
            assert(g.vertex_store_half@ =~= Seq::<i32>::empty());
            assert(g.index_store@ =~= Seq::<u32>::empty());
        }
        g
    }

    /// Allocates one GPU object and returns its fresh handle.
    pub fn allocate(&mut self) -> (h: u32)
        requires
            old(self).wf(),
            old(self).next_handle < u32::MAX,
            old(self).alloc_count < u64::MAX,
        ensures
            final(self).wf(),
            h == old(self).next_handle,
            h != 0u32,
            !old(self).is_live(h),
            final(self).is_live(h),
            final(self).live@ == old(self).live@.push(h),
            forall|x: u32|
                (#[trigger] final(self).live@.contains(x)) == (old(self).live@.contains(x) || x
                    == h),
            final(self).next_handle == old(self).next_handle + 1,
            final(self).alloc_count == old(self).alloc_count + 1,
            final(self).release_count == old(self).release_count,
            final(self).bound_array_buffer == old(self).bound_array_buffer,
            final(self).bound_element_buffer == old(self).bound_element_buffer,
            final(self).bound_vertex_array == old(self).bound_vertex_array,
            final(self).active_program == old(self).active_program,
            final(self).vertex_store_half@ == old(self).vertex_store_half@,
            final(self).index_store@ == old(self).index_store@,
    {
        let h: u32 = self.next_handle;
        self.next_handle = self.next_handle + 1;
        self.live.push(h);
        self.alloc_count = self.alloc_count + 1;
        proof {
            let pre = old(self).live@;
            let post = self.live@;
            assert(post == pre.push(h));
            assert(!pre.contains(h));
            assert(post[pre.len() as int] == h);
            assert(post.contains(h));
            assert forall|x: u32| post.contains(x) == (pre.contains(x) || x == h) by {
                if pre.contains(x) {
                    let i = choose|i: int| 0 <= i < pre.len() && pre[i] == x;
                    assert(post[i] == x);
                    assert(post.contains(x));
                }
                if post.contains(x) && x != h {
                    let j = choose|j: int| 0 <= j < post.len() && post[j] == x;
                    assert(j < pre.len());
                    assert(pre[j] == x);
                    assert(pre.contains(x));
                }
            }
            assert forall|i: int, j: int|
                #![trigger post[i], post[j]]
                0 <= i < j < post.len() implies post[i] != post[j] by {
                if j < pre.len() {
                    assert(pre[i] != pre[j]);
                } else {
                    assert(post[j] == h);
                    assert(pre[i] < old(self).next_handle);
                }
            }
        }
        h
    }

    /// Releases a live handle. The handle must already have been unbound
    /// from every binding slot it occupied.
    pub fn release(&mut self, h: u32)
        requires
            old(self).wf(),
            old(self).is_live(h),
            old(self).bound_array_buffer != h,
            old(self).bound_element_buffer != h,
            old(self).bound_vertex_array != h,
        ensures
            final(self).wf(),
            !final(self).is_live(h),
            final(self).live@.len() == old(self).live@.len() - 1,
            forall|x: u32|
                x != h ==> (#[trigger] final(self).live@.contains(x)) == old(
                    self,
                ).live@.contains(x),
            final(self).release_count == old(self).release_count + 1,
            final(self).alloc_count == old(self).alloc_count,
            final(self).next_handle == old(self).next_handle,
            final(self).bound_array_buffer == old(self).bound_array_buffer,
            final(self).bound_element_buffer == old(self).bound_element_buffer,
            final(self).bound_vertex_array == old(self).bound_vertex_array,
            final(self).active_program == old(self).active_program,
            final(self).vertex_store_half@ == old(self).vertex_store_half@,
            final(self).index_store@ == old(self).index_store@,
    {
        let idx: usize = find_handle(&self.live, h);
        self.live.remove(idx);
        self.release_count = self.release_count + 1;
        proof {
            let pre = old(self).live@;
            let post = self.live@;
            let at = idx as int;
            assert(post == pre.remove(at));
            assert forall|j: int| 0 <= j < post.len() implies post[j] != h by {
                if j < at {
                    assert(pre[j] != pre[at]);
                } else {
                    assert(pre[at] != pre[j + 1]);
                }
            }
            assert(!post.contains(h));
            assert forall|x: u32|
                x != h implies #[trigger] post.contains(x) == pre.contains(x) by {
                if pre.contains(x) {
                    let i = choose|i: int| 0 <= i < pre.len() && pre[i] == x;
                    if i < at {
                        assert(post[i] == x);
                    } else {
                        assert(i != at);
                        assert(post[i - 1] == x);
                    }
                    assert(post.contains(x));
                }
                if post.contains(x) {
                    let j = choose|j: int| 0 <= j < post.len() && post[j] == x;
                    if j < at {
                        assert(pre[j] == x);
                    } else {
                        assert(pre[j + 1] == x);
                    }
                    assert(pre.contains(x));
                }
            }
            assert forall|i: int, j: int|
                #![trigger post[i], post[j]]
                0 <= i < j < post.len() implies post[i] != post[j] by {
                let pi: int = if i < at {
                    i
                } else {
                    i + 1
                };
                let pj: int = if j < at {
                    j
                } else {
                    j + 1
                };
                assert(post[i] == pre[pi]);
                assert(post[j] == pre[pj]);
                assert(pre[pi] != pre[pj]);
            }
        }
    }

    /// Binds a live handle (or 0 to empty the slot) to the vertex-data
    /// buffer target.
    pub fn bind_array_buffer(&mut self, h: u32)
        requires
            old(self).wf(),
            h == 0u32 || old(self).is_live(h),
        ensures
            final(self).wf(),
            final(self).bound_array_buffer == h,
            final(self).live@ == old(self).live@,
            final(self).alloc_count == old(self).alloc_count,
            final(self).release_count == old(self).release_count,
            final(self).next_handle == old(self).next_handle,
            final(self).bound_element_buffer == old(self).bound_element_buffer,
            final(self).bound_vertex_array == old(self).bound_vertex_array,
            final(self).active_program == old(self).active_program,
            final(self).vertex_store_half@ == old(self).vertex_store_half@,
            final(self).index_store@ == old(self).index_store@,
    {
        self.bound_array_buffer = h;
    }

    /// Binds a live handle (or 0 to empty the slot) to the index-data
    /// buffer target.
    pub fn bind_element_buffer(&mut self, h: u32)
        requires
            old(self).wf(),
            h == 0u32 || old(self).is_live(h),
        ensures
            final(self).wf(),
            final(self).bound_element_buffer == h,
            final(self).live@ == old(self).live@,
            final(self).alloc_count == old(self).alloc_count,
            final(self).release_count == old(self).release_count,
            final(self).next_handle == old(self).next_handle,
            final(self).bound_array_buffer == old(self).bound_array_buffer,
            final(self).bound_vertex_array == old(self).bound_vertex_array,
            final(self).active_program == old(self).active_program,
            final(self).vertex_store_half@ == old(self).vertex_store_half@,
            final(self).index_store@ == old(self).index_store@,
    {
        self.bound_element_buffer = h;
    }

    /// Binds a live handle (or 0 to empty the slot) as the current
    /// vertex-attribute-layout object.
    pub fn bind_vertex_array(&mut self, h: u32)
        requires
            old(self).wf(),
            h == 0u32 || old(self).is_live(h),
        ensures
            final(self).wf(),
            final(self).bound_vertex_array == h,
            final(self).live@ == old(self).live@,
            final(self).alloc_count == old(self).alloc_count,
            final(self).release_count == old(self).release_count,
            final(self).next_handle == old(self).next_handle,
            final(self).bound_array_buffer == old(self).bound_array_buffer,
            final(self).bound_element_buffer == old(self).bound_element_buffer,
            final(self).active_program == old(self).active_program,
            final(self).vertex_store_half@ == old(self).vertex_store_half@,
            final(self).index_store@ == old(self).index_store@,
    {
        self.bound_vertex_array = h;
    }

    /// Marks a live program handle as the one draw calls use. Idempotent:
    /// only this slot changes, so a repeated call changes nothing.
    pub fn use_program(&mut self, h: u32)
        requires
            old(self).wf(),
            old(self).is_live(h),
        ensures
            final(self).wf(),
            final(self).active_program == h,
            final(self).live@ == old(self).live@,
            final(self).alloc_count == old(self).alloc_count,
            final(self).release_count == old(self).release_count,
            final(self).next_handle == old(self).next_handle,
            final(self).bound_array_buffer == old(self).bound_array_buffer,
            final(self).bound_element_buffer == old(self).bound_element_buffer,
            final(self).bound_vertex_array == old(self).bound_vertex_array,
            final(self).vertex_store_half@ == old(self).vertex_store_half@,
            final(self).index_store@ == old(self).index_store@,
    {
        self.active_program = h;
    }

    /// Copies vertex data (half-units) into the buffer bound to the
    /// vertex-data target; some buffer must be bound first.
    pub fn upload_vertices(&mut self, data: &Vec<i32>)
        requires
            old(self).wf(),
            old(self).bound_array_buffer != 0u32,
        ensures
            final(self).wf(),
            final(self).vertex_store_half@ == data@,
            final(self).live@ == old(self).live@,
            final(self).alloc_count == old(self).alloc_count,
            final(self).release_count == old(self).release_count,
            final(self).next_handle == old(self).next_handle,
            final(self).bound_array_buffer == old(self).bound_array_buffer,
            final(self).bound_element_buffer == old(self).bound_element_buffer,
            final(self).bound_vertex_array == old(self).bound_vertex_array,
            final(self).active_program == old(self).active_program,
            final(self).index_store@ == old(self).index_store@,
    {
        let mut copy: Vec<i32> = Vec::new();
        let mut k: usize = 0;
        while k < data.len()
            invariant
                k <= data@.len(),
                copy@ == data@.subrange(0, k as int),
            decreases data@.len() - k,
        {
            copy.push(data[k]);
            proof {
                assert(copy@ =~= data@.subrange(0, k + 1 as int));
            }
            k = k + 1;
        }
        proof {
            assert(copy@ =~= data@);
        }
        self.vertex_store_half = copy;
    }

    /// Copies index data into the buffer bound to the index-data target;
    /// some buffer must be bound first.
    pub fn upload_indices(&mut self, data: &Vec<u32>)
        requires
            old(self).wf(),
            old(self).bound_element_buffer != 0u32,
        ensures
            final(self).wf(),
            final(self).index_store@ == data@,
            final(self).live@ == old(self).live@,
            final(self).alloc_count == old(self).alloc_count,
            final(self).release_count == old(self).release_count,
            final(self).next_handle == old(self).next_handle,
            final(self).bound_array_buffer == old(self).bound_array_buffer,
            final(self).bound_element_buffer == old(self).bound_element_buffer,
            final(self).bound_vertex_array == old(self).bound_vertex_array,
            final(self).active_program == old(self).active_program,
            final(self).vertex_store_half@ == old(self).vertex_store_half@,
    {
        let mut copy: Vec<u32> = Vec::new();
        let mut k: usize = 0;
        while k < data.len()
            invariant
                k <= data@.len(),
                copy@ == data@.subrange(0, k as int),
            decreases data@.len() - k,
        {
            copy.push(data[k]);
            proof {
                assert(copy@ =~= data@.subrange(0, k + 1 as int));
            }
            k = k + 1;
        }
        proof {
            assert(copy@ =~= data@);
        }
        self.index_store = copy;
    }
}

/// Index of a handle known to be present in the list.
fn find_handle(v: &Vec<u32>, h: u32) -> (idx: usize)
    requires
        v@.contains(h),
    ensures
        idx < v@.len(),
        v@[idx as int] == h,
        forall|i: int| 0 <= i < idx ==> v@[i] != h,
{
    let mut k: usize = 0;
    while k < v.len()
        invariant
            k <= v@.len(),
            v@.contains(h),
            forall|i: int| 0 <= i < k ==> v@[i] != h,
        decreases v@.len() - k,
    {
        if v[k] == h {
            return k;
        }
        k = k + 1;
    }
    proof {
        let i = choose|i: int| 0 <= i < v@.len() && v@[i] == h;
        assert(v@[i] != h);
        assert(false);
    }
    0
}

} // verus!
