//! The quota-bounded buffer heap with parent/child ownership.
//!
//! Every allocation reserves its byte count against one shared counter that
//! may never exceed `MAX_HEAP_SIZE`. A buffer allocated directly is a *root*
//! allocation; a buffer allocated "more" under a root is a *child* owned by
//! that root. Only a root can be freed: freeing it releases its own bytes and
//! the bytes of all its children in one step, and freeing a child pointer, or
//! any pointer that is not a live root, fails with `WFS_ERR_INVALID_BUFFER`.
//!
//! Buffers are named by nonzero ids that are never reused within one heap, so
//! a freed id can never again name a live allocation.

use vstd::prelude::*;

use crate::errors::{
    WFS_ERR_INTERNAL_ERROR, WFS_ERR_INVALID_BUFFER, WFS_ERR_INVALID_POINTER,
    WFS_ERR_OUT_OF_MEMORY, WFS_SUCCESS,
};
use crate::outptr::OutPtr;

verus! {

/// The shared quota: total outstanding bytes never exceed this.
pub const MAX_HEAP_SIZE: usize = 1_000_000_000;

/// The mathematical model of a child allocation: its id and its bytes.
pub ghost struct ChildModel {
    pub id: int,
    pub bytes: Seq<u8>,
}

/// The mathematical model of a root allocation: its id, the flags it was
/// created with, its own bytes, and the children allocated under it.
pub ghost struct RootModel {
    pub id: int,
    pub flags: u32,
    pub bytes: Seq<u8>,
    pub children: Seq<ChildModel>,
}

/// The mathematical model of the heap: the live root allocations in order of
/// creation, the shared byte counter, and the next never-used id.
pub ghost struct HeapModel {
    pub roots: Seq<RootModel>,
    pub total: int,
    pub next_id: int,
}

/// The bytes held by a sequence of children.
pub open spec fn child_sum(cs: Seq<ChildModel>) -> int
    decreases cs.len(),
{
    if cs.len() == 0 {
        0
    } else {
        cs[0].bytes.len() + child_sum(cs.subrange(1, cs.len() as int))
    }
}

/// The bytes held by one root allocation together with all its children.
pub open spec fn root_bytes(r: RootModel) -> int {
    r.bytes.len() + child_sum(r.children)
}

/// The bytes held by every live allocation of the heap.
pub open spec fn heap_sum(rs: Seq<RootModel>) -> int
    decreases rs.len(),
{
    if rs.len() == 0 {
        0
    } else {
        root_bytes(rs[0]) + heap_sum(rs.subrange(1, rs.len() as int))
    }
}

/// The index of the root allocation with the given id, or `-1` if no live
/// root has it.
pub open spec fn find_root(rs: Seq<RootModel>, id: int) -> int
    decreases rs.len(),
{
    if rs.len() == 0 {
        -1
    } else if rs[0].id == id {
        0
    } else {
        let k = find_root(rs.subrange(1, rs.len() as int), id);
        if k == -1 {
            -1
        } else {
            k + 1
        }
    }
}

/// Whether `id` names a live root allocation.
pub open spec fn is_root(m: HeapModel, id: int) -> bool {
    find_root(m.roots, id) != -1
}

/// Whether `id` names a live child allocation.
pub open spec fn is_child(m: HeapModel, id: int) -> bool {
    exists|i: int, k: int|
        0 <= i < m.roots.len() && 0 <= k < m.roots[i].children.len()
            && (#[trigger] m.roots[i].children[k]).id == id
}

/// Well-formedness of one root against the heap's id bound.
pub open spec fn root_wf(r: RootModel, next_id: int) -> bool {
    &&& 1 <= r.id < next_id
    &&& forall|k: int| 0 <= k < r.children.len() ==> 1 <= (#[trigger] r.children[k]).id < next_id
}

impl HeapModel {
    /// Well-formedness: the counter equals the bytes of all live allocations
    /// and stays under quota; every id is nonzero, below the next fresh id,
    /// root ids are pairwise distinct, and no child id equals any root id.
    pub open spec fn wf(self) -> bool {
        &&& self.total == heap_sum(self.roots)
        &&& self.total <= MAX_HEAP_SIZE as int
        &&& 1 <= self.next_id <= u64::MAX as int
        &&& forall|i: int| 0 <= i < self.roots.len() ==> root_wf(#[trigger] self.roots[i], self.next_id)
        &&& forall|i: int, j: int|
            0 <= i < j < self.roots.len() ==> (#[trigger] self.roots[i]).id != (
            #[trigger] self.roots[j]).id
        &&& forall|i: int, j: int, k: int|
            0 <= i < self.roots.len() && 0 <= j < self.roots.len() && 0 <= k
                < self.roots[i].children.len() ==> (#[trigger] self.roots[i].children[k]).id != (
            #[trigger] self.roots[j]).id
    }

    /// The empty heap model: no allocations, counter zero, ids start at one.
    pub open spec fn empty() -> HeapModel {
        HeapModel { roots: Seq::empty(), total: 0, next_id: 1 }
    }
}

/// What `allocate_buffer` does to the heap once its output slot is known to
/// be writable: the new model, the result code, and the id of the new root
/// (zero unless the call succeeds).
pub open spec fn spec_allocate(m: HeapModel, size: int, flags: u32) -> (HeapModel, i32, int) {
    if m.total + size > MAX_HEAP_SIZE as int {
        (m, WFS_ERR_OUT_OF_MEMORY, 0)
    } else if m.next_id >= u64::MAX as int {
        (m, WFS_ERR_INTERNAL_ERROR, 0)
    } else {
        let root = RootModel {
            id: m.next_id,
            flags,
            bytes: Seq::new(size as nat, |i: int| 0u8),
            children: Seq::empty(),
        };
        (
            HeapModel { roots: m.roots.push(root), total: m.total + size, next_id: m.next_id + 1 },
            WFS_SUCCESS,
            m.next_id,
        )
    }
}

/// What `allocate_more` does to the heap once its pointer arguments are known
/// to be usable: the new model, the result code, and the id of the new child
/// (zero unless the call succeeds).
pub open spec fn spec_allocate_more(m: HeapModel, size: int, original: int) -> (
    HeapModel,
    i32,
    int,
) {
    let i = find_root(m.roots, original);
    if i == -1 {
        (m, WFS_ERR_INVALID_BUFFER, 0)
    } else if m.total + size > MAX_HEAP_SIZE as int {
        (m, WFS_ERR_OUT_OF_MEMORY, 0)
    } else if m.next_id >= u64::MAX as int {
        (m, WFS_ERR_INTERNAL_ERROR, 0)
    } else {
        let parent = m.roots[i];
        let child = ChildModel { id: m.next_id, bytes: Seq::new(size as nat, |k: int| 0u8) };
        let parent2 = RootModel {
            id: parent.id,
            flags: parent.flags,
            bytes: parent.bytes,
            children: parent.children.push(child),
        };
        (
            HeapModel {
                roots: m.roots.update(i, parent2),
                total: m.total + size,
                next_id: m.next_id + 1,
            },
            WFS_SUCCESS,
            m.next_id,
        )
    }
}

/// What `deallocate` does to the heap for a nonzero id: the new model and
/// the result code. A root is removed together with its children and the
/// counter drops by their bytes; anything else leaves the heap unchanged and
/// fails with `WFS_ERR_INVALID_BUFFER`.
pub open spec fn spec_free(m: HeapModel, id: int) -> (HeapModel, i32) {
    let i = find_root(m.roots, id);
    if i == -1 {
        (m, WFS_ERR_INVALID_BUFFER)
    } else {
        (
            HeapModel {
                roots: m.roots.remove(i),
                total: m.total - root_bytes(m.roots[i]),
                next_id: m.next_id,
            },
            WFS_SUCCESS,
        )
    }
}

pub proof fn lemma_child_sum_nonneg(cs: Seq<ChildModel>)
    ensures
        child_sum(cs) >= 0,
    decreases cs.len(),
{
    if cs.len() > 0 {
        lemma_child_sum_nonneg(cs.subrange(1, cs.len() as int));
    }
}

pub proof fn lemma_child_sum_push(cs: Seq<ChildModel>, c: ChildModel)
    ensures
        child_sum(cs.push(c)) == child_sum(cs) + c.bytes.len(),
    decreases cs.len(),
{
    let s2 = cs.push(c);
    if cs.len() == 0 {
        assert(s2[0] == c);
        assert(s2.subrange(1, s2.len() as int) =~= Seq::<ChildModel>::empty());
        assert(child_sum(s2) == s2[0].bytes.len() + child_sum(s2.subrange(1, s2.len() as int)));
    } else {
        let rest = cs.subrange(1, cs.len() as int);
        assert(s2[0] == cs[0]);
        assert(s2.subrange(1, s2.len() as int) =~= rest.push(c));
        lemma_child_sum_push(rest, c);
        assert(child_sum(s2) == s2[0].bytes.len() + child_sum(s2.subrange(1, s2.len() as int)));
    }
}

pub proof fn lemma_heap_sum_nonneg(rs: Seq<RootModel>)
    ensures
        heap_sum(rs) >= 0,
    decreases rs.len(),
{
    if rs.len() > 0 {
        lemma_child_sum_nonneg(rs[0].children);
        lemma_heap_sum_nonneg(rs.subrange(1, rs.len() as int));
    }
}

pub proof fn lemma_heap_sum_push(rs: Seq<RootModel>, r: RootModel)
    ensures
        heap_sum(rs.push(r)) == heap_sum(rs) + root_bytes(r),
    decreases rs.len(),
{
    let s2 = rs.push(r);
    if rs.len() == 0 {
        assert(s2[0] == r);
        assert(s2.subrange(1, s2.len() as int) =~= Seq::<RootModel>::empty());
        assert(heap_sum(s2) == root_bytes(s2[0]) + heap_sum(s2.subrange(1, s2.len() as int)));
    } else {
        let rest = rs.subrange(1, rs.len() as int);
        assert(s2[0] == rs[0]);
        assert(s2.subrange(1, s2.len() as int) =~= rest.push(r));
        lemma_heap_sum_push(rest, r);
        assert(heap_sum(s2) == root_bytes(s2[0]) + heap_sum(s2.subrange(1, s2.len() as int)));
    }
}

pub proof fn lemma_heap_sum_remove(rs: Seq<RootModel>, i: int)
    requires
        0 <= i < rs.len(),
    ensures
        heap_sum(rs.remove(i)) == heap_sum(rs) - root_bytes(rs[i]),
    decreases rs.len(),
{
    if i == 0 {
        assert(rs.remove(0) =~= rs.subrange(1, rs.len() as int));
    } else {
        let rest = rs.subrange(1, rs.len() as int);
        assert(rs.remove(i).subrange(1, rs.remove(i).len() as int) =~= rest.remove(i - 1));
        assert(rs.remove(i)[0] == rs[0]);
        lemma_heap_sum_remove(rest, i - 1);
    }
}

pub proof fn lemma_heap_sum_update(rs: Seq<RootModel>, i: int, r: RootModel)
    requires
        0 <= i < rs.len(),
    ensures
        heap_sum(rs.update(i, r)) == heap_sum(rs) - root_bytes(rs[i]) + root_bytes(r),
    decreases rs.len(),
{
    if i == 0 {
        assert(rs.update(0, r).subrange(1, rs.update(0, r).len() as int) =~= rs.subrange(
            1,
            rs.len() as int,
        ));
    } else {
        let rest = rs.subrange(1, rs.len() as int);
        assert(rs.update(i, r).subrange(1, rs.update(i, r).len() as int) =~= rest.update(
            i - 1,
            r,
        ));
        assert(rs.update(i, r)[0] == rs[0]);
        lemma_heap_sum_update(rest, i - 1, r);
    }
}

/// One live root never holds more bytes than the whole heap.
pub proof fn lemma_root_bytes_le_heap_sum(rs: Seq<RootModel>, i: int)
    requires
        0 <= i < rs.len(),
    ensures
        root_bytes(rs[i]) <= heap_sum(rs),
{
    lemma_heap_sum_remove(rs, i);
    lemma_heap_sum_nonneg(rs.remove(i));
}

/// `find_root` returns a genuine index of a root with the id, or `-1` when no
/// root has it.
pub proof fn lemma_find_root_props(rs: Seq<RootModel>, id: int)
    ensures
        find_root(rs, id) == -1 ==> forall|j: int|
            0 <= j < rs.len() ==> (#[trigger] rs[j]).id != id,
        find_root(rs, id) != -1 ==> 0 <= find_root(rs, id) < rs.len() && rs[find_root(
            rs,
            id,
        )].id == id,
    decreases rs.len(),
{
    if rs.len() > 0 && rs[0].id != id {
        let rest = rs.subrange(1, rs.len() as int);
        lemma_find_root_props(rest, id);
        if find_root(rs, id) == -1 {
            assert forall|j: int| 0 <= j < rs.len() implies (#[trigger] rs[j]).id != id by {
                if j > 0 {
                    assert(rs[j] == rest[j - 1]);
                }
            }
        }
    }
}

/// `find_root` finds the first index whose root carries the id.
pub proof fn lemma_find_root_at(rs: Seq<RootModel>, id: int, i: int)
    requires
        0 <= i < rs.len(),
        rs[i].id == id,
        forall|j: int| 0 <= j < i ==> (#[trigger] rs[j]).id != id,
    ensures
        find_root(rs, id) == i,
    decreases rs.len(),
{
    if i > 0 {
        lemma_find_root_at(rs.subrange(1, rs.len() as int), id, i - 1);
    }
}

/// `find_root` misses when no root carries the id.
pub proof fn lemma_find_root_none(rs: Seq<RootModel>, id: int)
    requires
        forall|j: int| 0 <= j < rs.len() ==> (#[trigger] rs[j]).id != id,
    ensures
        find_root(rs, id) == -1,
    decreases rs.len(),
{
    if rs.len() > 0 {
        lemma_find_root_none(rs.subrange(1, rs.len() as int), id);
    }
}

/// A child allocation owned by a live root.
pub struct ChildAlloc {
    id: u64,
    buffer: Vec<u8>,
}

/// A root allocation: its buffer, its creation flags, its children, and the
/// byte count of the whole subtree kept alongside.
pub struct Allocation {
    id: u64,
    flags: u32,
    buffer: Vec<u8>,
    children: Vec<ChildAlloc>,
    subtree_bytes: usize,
}

/// The buffer heap.
pub struct Heap {
    roots: Vec<Allocation>,
    total_bytes: usize,
    next_id: u64,
}

impl View for ChildAlloc {
    type V = ChildModel;

    closed spec fn view(&self) -> ChildModel {
        ChildModel { id: self.id as int, bytes: self.buffer@ }
    }
}

impl View for Allocation {
    type V = RootModel;

    closed spec fn view(&self) -> RootModel {
        RootModel {
            id: self.id as int,
            flags: self.flags,
            bytes: self.buffer@,
            children: self.children@.map_values(|c: ChildAlloc| c@),
        }
    }
}

impl View for Heap {
    type V = HeapModel;

    closed spec fn view(&self) -> HeapModel {
        HeapModel {
            roots: self.roots@.map_values(|a: Allocation| a@),
            total: self.total_bytes as int,
            next_id: self.next_id as int,
        }
    }
}

/// A buffer of `size` zero bytes.
fn zero_buffer(size: usize) -> (r: Vec<u8>)
    ensures
        r@ == Seq::new(size as nat, |i: int| 0u8),
{
    let buf: Vec<u8> = vec![0u8; size];
    proof {
        assert forall|i: int| 0 <= i < size implies buf@[i] == 0u8 by {
            assert(cloned(0u8, buf@[i]));
        }
        assert(buf@ =~= Seq::new(size as nat, |i: int| 0u8));
    }
    buf
}

impl Heap {
    /// Well-formedness of the heap: its model is well-formed and every stored
    /// subtree byte count agrees with the model.
    pub closed spec fn inv(&self) -> bool {
        &&& self@.wf()
        &&& forall|i: int|
            0 <= i < self.roots@.len() ==> (#[trigger] self.roots@[i]).subtree_bytes as int
                == root_bytes(self.roots@[i]@)
    }

    /// A well-formed heap has a well-formed model: what `inv` guarantees of
    /// the stored byte counts includes everything `wf` says of the model.
    pub proof fn lemma_inv_implies_wf(&self)
        requires
            self.inv(),
        ensures
            self@.wf(),
    {
    }

    /// A fresh heap: nothing allocated, counter zero.
    pub fn new() -> (r: Heap)
        ensures
            r.inv(),
            r@ == HeapModel::empty(),
    {
        let h = Heap { roots: Vec::new(), total_bytes: 0, next_id: 1 };
        proof {
            assert(h@.roots =~= Seq::<RootModel>::empty());
        }
        h
    }

    /// The shared byte counter: total outstanding bytes of all allocations.
    pub fn outstanding_bytes(&self) -> (r: usize)
        ensures
            r as int == self@.total,
    {
        self.total_bytes
    }

    /// How many root allocations are live.
    pub fn allocation_count(&self) -> (r: usize)
        ensures
            r as int == self@.roots.len(),
    {
        self.roots.len()
    }

    /// The index of the live root with the given id, if any.
    fn find_index(&self, id: u64) -> (r: Option<usize>)
        ensures
            r is Some ==> find_root(self@.roots, id as int) == r->Some_0 as int,
            r is None ==> find_root(self@.roots, id as int) == -1,
    {
        let n = self.roots.len();
        let mut i: usize = 0;
        while i < n
            invariant
                i <= n,
                n == self.roots@.len(),
                forall|j: int| 0 <= j < i ==> (#[trigger] self@.roots[j]).id != id as int,
            decreases n - i,
        {
            if self.roots[i].id == id {
                proof {
                    assert(self@.roots[i as int].id == id as int);
                    lemma_find_root_at(self@.roots, id as int, i as int);
                }
                return Some(i);
            }
            proof {
                assert(self@.roots[i as int].id != id as int);
            }
            i = i + 1;
        }
        proof {
            lemma_find_root_none(self@.roots, id as int);
        }
        None
    }

    /// Allocates `size` zero bytes as a new root allocation and writes its id
    /// through `data`. Fails with `WFS_ERR_INVALID_POINTER` on a null output
    /// slot, with `WFS_ERR_OUT_OF_MEMORY` when the bytes do not fit under the
    /// quota, and leaves the heap untouched on every failure.
    pub fn allocate_buffer(&mut self, size: usize, flags: u32, data: &mut OutPtr) -> (r: i32)
        requires
            old(self).inv(),
        ensures
            final(self).inv(),
            !old(data).valid ==> r == WFS_ERR_INVALID_POINTER && *final(self) == *old(self)
                && *final(data) == *old(data),
            old(data).valid ==> {
                &&& final(self)@ == spec_allocate(old(self)@, size as int, flags).0
                &&& r == spec_allocate(old(self)@, size as int, flags).1
                &&& r == WFS_SUCCESS ==> *final(data) == (OutPtr {
                    valid: true,
                    value: spec_allocate(old(self)@, size as int, flags).2 as u64,
                })
                &&& r != WFS_SUCCESS ==> *final(data) == *old(data)
            },
    {
        if !data.valid {
            return WFS_ERR_INVALID_POINTER;
        }
        if size > MAX_HEAP_SIZE - self.total_bytes {
            return WFS_ERR_OUT_OF_MEMORY;
        }
        if self.next_id == u64::MAX {
            return WFS_ERR_INTERNAL_ERROR;
        }
        let id = self.next_id;
        let buffer = zero_buffer(size);
        let alloc = Allocation { id, flags, buffer, children: Vec::new(), subtree_bytes: size };
        proof {
            assert(alloc@.children =~= Seq::<ChildModel>::empty());
            lemma_heap_sum_push(self@.roots, alloc@);
        }
        let ghost old_model = self@;
        self.roots.push(alloc);
        self.total_bytes = self.total_bytes + size;
        self.next_id = id + 1;
        *data = OutPtr { valid: true, value: id };
        proof {
            assert(self@.roots =~= old_model.roots.push(alloc@));
            assert(self@ == spec_allocate(old_model, size as int, flags).0);
            assert forall|i: int| 0 <= i < self.roots@.len() implies root_wf(
                #[trigger] self@.roots[i],
                self@.next_id,
            ) by {
                if i < self.roots@.len() - 1 {
                    assert(root_wf(old_model.roots[i], old_model.next_id));
                }
            }
        }
        WFS_SUCCESS
    }

    /// Allocates `size` zero bytes as a child of the live root named by
    /// `original` and writes the child's id through `data`. Fails with
    /// `WFS_ERR_INVALID_POINTER` on a null output slot, a zero `original`, or
    /// an output slot already holding `original`; with
    /// `WFS_ERR_INVALID_BUFFER` when `original` is not a live root; and with
    /// `WFS_ERR_OUT_OF_MEMORY` when the bytes do not fit under the quota. The
    /// heap is untouched on every failure.
    pub fn allocate_more(&mut self, size: usize, original: u64, data: &mut OutPtr) -> (r: i32)
        requires
            old(self).inv(),
        ensures
            final(self).inv(),
            (!old(data).valid || original == 0 || old(data).value == original) ==> r
                == WFS_ERR_INVALID_POINTER && *final(self) == *old(self) && *final(data) == *old(
                data,
            ),
            (old(data).valid && original != 0 && old(data).value != original) ==> {
                &&& final(self)@ == spec_allocate_more(old(self)@, size as int, original as int).0
                &&& r == spec_allocate_more(old(self)@, size as int, original as int).1
                &&& r == WFS_SUCCESS ==> *final(data) == (OutPtr {
                    valid: true,
                    value: spec_allocate_more(old(self)@, size as int, original as int).2 as u64,
                })
                &&& r != WFS_SUCCESS ==> *final(data) == *old(data)
            },
    {
        if !data.valid || original == 0 {
            return WFS_ERR_INVALID_POINTER;
        }
        if data.value == original {
            return WFS_ERR_INVALID_POINTER;
        }
        proof {
            lemma_find_root_props(self@.roots, original as int);
        }
        let idx = match self.find_index(original) {
            Some(idx) => idx,
            None => {
                return WFS_ERR_INVALID_BUFFER;
            },
        };
        if size > MAX_HEAP_SIZE - self.total_bytes {
            return WFS_ERR_OUT_OF_MEMORY;
        }
        if self.next_id == u64::MAX {
            return WFS_ERR_INTERNAL_ERROR;
        }
        let id = self.next_id;
        let buffer = zero_buffer(size);
        let child = ChildAlloc { id, buffer };
        let ghost old_model = self@;
        proof {
            lemma_root_bytes_le_heap_sum(old_model.roots, idx as int);
            lemma_child_sum_nonneg(old_model.roots[idx as int].children);
        }
        let mut parent = self.roots.remove(idx);
        proof {
            lemma_child_sum_push(parent@.children, child@);
        }
        parent.children.push(child);
        parent.subtree_bytes = parent.subtree_bytes + size;
        self.roots.insert(idx, parent);
        self.total_bytes = self.total_bytes + size;
        self.next_id = id + 1;
        *data = OutPtr { valid: true, value: id };
        proof {
            let parent2 = spec_allocate_more(old_model, size as int, original as int).0.roots[idx as int];
            assert(parent@.children =~= old_model.roots[idx as int].children.push(child@));
            assert(parent@ == parent2);
            assert(self@.roots =~= old_model.roots.update(idx as int, parent@));
            lemma_heap_sum_update(old_model.roots, idx as int, parent@);
            assert(self@ == spec_allocate_more(old_model, size as int, original as int).0);
            assert forall|i: int| 0 <= i < self.roots@.len() implies root_wf(
                #[trigger] self@.roots[i],
                self@.next_id,
            ) by {
                assert(root_wf(old_model.roots[i], old_model.next_id));
            }
        }
        WFS_SUCCESS
    }

    /// Frees the live root named by `data`, releasing its bytes and the bytes
    /// of all its children back to the shared counter. Fails with
    /// `WFS_ERR_INVALID_POINTER` on a zero id and with
    /// `WFS_ERR_INVALID_BUFFER` on anything that is not a live root — in
    /// particular on a child id and on an id already freed.
    pub fn deallocate(&mut self, data: u64) -> (r: i32)
        requires
            old(self).inv(),
        ensures
            final(self).inv(),
            data == 0 ==> r == WFS_ERR_INVALID_POINTER && *final(self) == *old(self),
            data != 0 ==> final(self)@ == spec_free(old(self)@, data as int).0 && r == spec_free(
                old(self)@,
                data as int,
            ).1,
    {
        if data == 0 {
            return WFS_ERR_INVALID_POINTER;
        }
        let idx = match self.find_index(data) {
            Some(idx) => idx,
            None => {
                return WFS_ERR_INVALID_BUFFER;
            },
        };
        let ghost old_model = self@;
        proof {
            lemma_find_root_props(old_model.roots, data as int);
            lemma_root_bytes_le_heap_sum(old_model.roots, idx as int);
            lemma_heap_sum_remove(old_model.roots, idx as int);
            lemma_child_sum_nonneg(old_model.roots[idx as int].children);
        }
        let root = self.roots.remove(idx);
        self.total_bytes = self.total_bytes - root.subtree_bytes;
        proof {
            assert(self@.roots =~= old_model.roots.remove(idx as int));
            assert(self@ == spec_free(old_model, data as int).0);
            assert forall|i: int| 0 <= i < self.roots@.len() implies root_wf(
                #[trigger] self@.roots[i],
                self@.next_id,
            ) by {
                old_model.roots.remove_ensures(idx as int);
                if i < idx as int {
                    assert(root_wf(old_model.roots[i], old_model.next_id));
                } else {
                    assert(root_wf(old_model.roots[i + 1], old_model.next_id));
                }
            }
            assert forall|i: int, j: int, k: int|
                0 <= i < self@.roots.len() && 0 <= j < self@.roots.len() && 0 <= k
                    < self@.roots[i].children.len() implies (
            #[trigger] self@.roots[i].children[k]).id != (#[trigger] self@.roots[j]).id by {
                old_model.roots.remove_ensures(idx as int);
                let i0 = if i < idx as int { i } else { i + 1 };
                let j0 = if j < idx as int { j } else { j + 1 };
                assert(self@.roots[i] == old_model.roots[i0]);
                assert(self@.roots[j] == old_model.roots[j0]);
            }
        }
        WFS_SUCCESS
    }

    /// Reads one byte of the live root named by `data`; `None` when `data` is
    /// not a live root or the index is out of its buffer.
    pub fn read_byte(&self, data: u64, index: usize) -> (r: Option<u8>)
        ensures
            ({
                let i = find_root(self@.roots, data as int);
                if i == -1 || index as int >= self@.roots[i].bytes.len() {
                    r is None
                } else {
                    r == Some(self@.roots[i].bytes[index as int])
                }
            }),
    {
        proof {
            lemma_find_root_props(self@.roots, data as int);
        }
        match self.find_index(data) {
            Some(idx) => {
                if index < self.roots[idx].buffer.len() {
                    Some(self.roots[idx].buffer[index])
                } else {
                    None
                }
            },
            None => None,
        }
    }
}

/// Frees a buffer of the heap: the root named by `data` together with all its
/// children.
pub fn free_buffer(heap: &mut Heap, data: u64) -> (r: i32)
    requires
        old(heap).inv(),
    ensures
        final(heap).inv(),
        data == 0 ==> r == WFS_ERR_INVALID_POINTER && *final(heap) == *old(heap),
        data != 0 ==> final(heap)@ == spec_free(old(heap)@, data as int).0 && r == spec_free(
            old(heap)@,
            data as int,
        ).1,
{
    heap.deallocate(data)
}

/// Once every root allocation has been freed, the shared byte counter is back
/// to zero.
pub proof fn lemma_counter_zero_when_empty(m: HeapModel)
    requires
        m.wf(),
        m.roots.len() == 0,
    ensures
        m.total == 0,
{
}

/// Freeing a child allocation directly always fails with
/// `WFS_ERR_INVALID_BUFFER` and leaves the heap unchanged.
pub proof fn lemma_free_child_fails(m: HeapModel, id: int)
    requires
        m.wf(),
        is_child(m, id),
    ensures
        spec_free(m, id) == (m, WFS_ERR_INVALID_BUFFER),
{
    assert forall|j: int| 0 <= j < m.roots.len() implies (#[trigger] m.roots[j]).id != id by {
        let (i, k) = choose|i: int, k: int|
            0 <= i < m.roots.len() && 0 <= k < m.roots[i].children.len() && (
            #[trigger] m.roots[i].children[k]).id == id;
        assert(m.roots[i].children[k].id != m.roots[j].id);
    }
    lemma_find_root_none(m.roots, id);
}

/// An allocation whose size would push the counter over the quota fails with
/// `WFS_ERR_OUT_OF_MEMORY` and leaves the counter — and the whole heap —
/// unchanged.
pub proof fn lemma_over_quota_unchanged(m: HeapModel, size: int, flags: u32, original: int)
    requires
        m.total + size > MAX_HEAP_SIZE as int,
    ensures
        spec_allocate(m, size, flags) == (m, WFS_ERR_OUT_OF_MEMORY, 0int),
        is_root(m, original) ==> spec_allocate_more(m, size, original) == (
            m,
            WFS_ERR_OUT_OF_MEMORY,
            0int,
        ),
{
}

/// Freeing the same id twice fails the second time with
/// `WFS_ERR_INVALID_BUFFER`: a successful free removes the id for good.
pub proof fn lemma_free_twice_fails(m: HeapModel, id: int)
    requires
        m.wf(),
        spec_free(m, id).1 == WFS_SUCCESS,
    ensures
        spec_free(spec_free(m, id).0, id).1 == WFS_ERR_INVALID_BUFFER,
        spec_free(spec_free(m, id).0, id).0 == spec_free(m, id).0,
{
    let i = find_root(m.roots, id);
    lemma_find_root_props(m.roots, id);
    let rs2 = m.roots.remove(i);
    assert forall|j: int| 0 <= j < rs2.len() implies (#[trigger] rs2[j]).id != id by {
        m.roots.remove_ensures(i);
        if j < i {
            assert(rs2[j] == m.roots[j]);
        } else {
            assert(rs2[j] == m.roots[j + 1]);
        }
    }
    lemma_find_root_none(rs2, id);
}

} // verus!
