use xfs_mgr::errors::{
    WFS_ERR_INVALID_BUFFER, WFS_ERR_INVALID_POINTER, WFS_ERR_OUT_OF_MEMORY, WFS_MEM_ZEROINIT,
    WFS_SUCCESS,
};
use xfs_mgr::heap::{free_buffer, Heap, MAX_HEAP_SIZE};
use xfs_mgr::outptr::OutPtr;

#[test]
fn heap_test_allocate() {
    let mut heap = Heap::new();
    assert_eq!(heap.allocate_buffer(10, 0, &mut OutPtr::new()), WFS_SUCCESS);
    assert_eq!(heap.allocate_buffer(100, 0, &mut OutPtr::new()), WFS_SUCCESS);
    assert_eq!(heap.allocate_buffer(1000, 0, &mut OutPtr::new()), WFS_SUCCESS);
    assert_eq!(heap.allocate_buffer(10000, 0, &mut OutPtr::new()), WFS_SUCCESS);
    assert_eq!(heap.allocate_buffer(100000, 0, &mut OutPtr::new()), WFS_SUCCESS);
    assert_eq!(heap.allocate_buffer(1000000, 0, &mut OutPtr::new()), WFS_SUCCESS);
}

#[test]
fn test_allocate_more() {
    let mut heap = Heap::new();
    let mut ptr = OutPtr::new();
    assert_eq!(heap.allocate_buffer(10, 0, &mut ptr), WFS_SUCCESS);
    assert_eq!(heap.allocate_more(100, ptr.value, &mut OutPtr::new()), WFS_SUCCESS);
    assert_eq!(heap.allocate_more(1000, ptr.value, &mut OutPtr::new()), WFS_SUCCESS);
    assert_eq!(heap.allocate_more(10000, ptr.value, &mut OutPtr::new()), WFS_SUCCESS);
    assert_eq!(heap.allocate_more(100000, ptr.value, &mut OutPtr::new()), WFS_SUCCESS);
    assert_eq!(heap.allocate_more(1000000, ptr.value, &mut OutPtr::new()), WFS_SUCCESS);
}

#[test]
fn test_free() {
    let mut heap = Heap::new();
    let mut ptr = OutPtr::new();
    assert_eq!(heap.allocate_buffer(10, 0, &mut ptr), WFS_SUCCESS);
    assert_eq!(heap.deallocate(ptr.value), WFS_SUCCESS);
    assert_eq!(heap.deallocate(ptr.value), WFS_ERR_INVALID_BUFFER);

    assert_eq!(heap.allocate_buffer(100, 0, &mut ptr), WFS_SUCCESS);
    assert_eq!(heap.deallocate(ptr.value), WFS_SUCCESS);
    assert_eq!(heap.deallocate(ptr.value), WFS_ERR_INVALID_BUFFER);

    assert_eq!(heap.allocate_buffer(1000, 0, &mut ptr), WFS_SUCCESS);
    assert_eq!(heap.deallocate(ptr.value), WFS_SUCCESS);
    assert_eq!(heap.deallocate(ptr.value), WFS_ERR_INVALID_BUFFER);

    assert_eq!(heap.allocate_buffer(10000, 0, &mut ptr), WFS_SUCCESS);
    assert_eq!(heap.deallocate(ptr.value), WFS_SUCCESS);
    assert_eq!(heap.deallocate(ptr.value), WFS_ERR_INVALID_BUFFER);

    assert_eq!(heap.allocate_buffer(100000, 0, &mut ptr), WFS_SUCCESS);
    assert_eq!(heap.deallocate(ptr.value), WFS_SUCCESS);
    assert_eq!(heap.deallocate(ptr.value), WFS_ERR_INVALID_BUFFER);

    assert_eq!(heap.allocate_buffer(1000000, 0, &mut ptr), WFS_SUCCESS);
    assert_eq!(heap.deallocate(ptr.value), WFS_SUCCESS);
    assert_eq!(heap.deallocate(ptr.value), WFS_ERR_INVALID_BUFFER);
}

#[test]
fn free_child_first() {
    let mut heap = Heap::new();
    let mut parent = OutPtr::new();
    let mut child = OutPtr::new();
    assert_eq!(heap.allocate_buffer(10, 0, &mut parent), WFS_SUCCESS);
    assert_eq!(heap.allocate_more(10, parent.value, &mut child), WFS_SUCCESS);
    assert_eq!(heap.deallocate(child.value), WFS_ERR_INVALID_BUFFER);
    assert_eq!(heap.deallocate(parent.value), WFS_SUCCESS);
    assert_eq!(heap.deallocate(child.value), WFS_ERR_INVALID_BUFFER);
}

#[test]
fn free_parent_first() {
    let mut heap = Heap::new();
    let mut parent = OutPtr::new();
    let mut child = OutPtr::new();
    assert_eq!(heap.allocate_buffer(10, 0, &mut parent), WFS_SUCCESS);
    assert_eq!(heap.allocate_more(10, parent.value, &mut child), WFS_SUCCESS);
    assert_eq!(heap.deallocate(parent.value), WFS_SUCCESS);
    assert_eq!(heap.deallocate(parent.value), WFS_ERR_INVALID_BUFFER);
    assert_eq!(heap.deallocate(child.value), WFS_ERR_INVALID_BUFFER);
}

#[test]
fn test_allocate_invalid_ptr() {
    let mut heap = Heap::new();
    assert_eq!(
        heap.allocate_buffer(20, WFS_MEM_ZEROINIT, &mut OutPtr::null()),
        WFS_ERR_INVALID_POINTER
    );
}

#[test]
fn test_allocate_oom() {
    let mut heap = Heap::new();
    assert_eq!(
        heap.allocate_buffer(MAX_HEAP_SIZE + 1, WFS_MEM_ZEROINIT, &mut OutPtr::new()),
        WFS_ERR_OUT_OF_MEMORY
    );
}

#[test]
fn test_allocate_more_oom() {
    let mut heap = Heap::new();
    let mut data = OutPtr::new();
    assert_eq!(
        heap.allocate_buffer(MAX_HEAP_SIZE / 2, WFS_MEM_ZEROINIT, &mut data),
        WFS_SUCCESS
    );
    assert_eq!(
        heap.allocate_more(MAX_HEAP_SIZE, data.value, &mut OutPtr::new()),
        WFS_ERR_OUT_OF_MEMORY
    );
}

#[test]
fn test_allocate_more_invalid_ptr() {
    let mut heap = Heap::new();
    let mut data = OutPtr::new();
    assert_eq!(heap.allocate_buffer(20, 0, &mut data), WFS_SUCCESS);
    let parent = data.value;
    assert_eq!(heap.allocate_more(20, parent, &mut data), WFS_ERR_INVALID_POINTER);
    assert_eq!(heap.allocate_more(10, 0, &mut OutPtr::null()), WFS_ERR_INVALID_POINTER);
    assert_eq!(heap.allocate_more(10, 9999, &mut OutPtr::new()), WFS_ERR_INVALID_BUFFER);
}

#[test]
fn supp_test_allocate() {
    let mut heap = Heap::new();
    for _ in 0..100000 {
        let mut parent = OutPtr::new();
        let mut child = OutPtr::new();
        assert_eq!(heap.allocate_buffer(10, WFS_MEM_ZEROINIT, &mut parent), WFS_SUCCESS);
        assert_eq!(
            heap.allocate_more(MAX_HEAP_SIZE + 1, parent.value, &mut child),
            WFS_ERR_OUT_OF_MEMORY
        );
        assert_eq!(heap.allocate_more(10, parent.value, &mut child), WFS_SUCCESS);
        assert_ne!(parent.value, 0);
        assert_ne!(child.value, 0);
        assert_eq!(free_buffer(&mut heap, child.value), WFS_ERR_INVALID_BUFFER);
        assert_eq!(free_buffer(&mut heap, parent.value), WFS_SUCCESS);
        assert_eq!(free_buffer(&mut heap, parent.value), WFS_ERR_INVALID_BUFFER);
    }
    assert_eq!(heap.allocation_count(), 0);
    assert_eq!(heap.outstanding_bytes(), 0);
}

#[test]
fn test_allocate_fail() {
    let mut heap = Heap::new();
    assert_eq!(
        heap.allocate_buffer(20, WFS_MEM_ZEROINIT, &mut OutPtr::null()),
        WFS_ERR_INVALID_POINTER
    );
}

#[test]
fn test_allocate_fail_oom() {
    let mut heap = Heap::new();
    let mut buffer = OutPtr::new();
    assert_eq!(
        heap.allocate_buffer(MAX_HEAP_SIZE + 1, WFS_MEM_ZEROINIT, &mut buffer),
        WFS_ERR_OUT_OF_MEMORY
    );
}

#[test]
fn test_allocate_more_fail() {
    let mut heap = Heap::new();
    assert_eq!(heap.allocate_more(10, 0, &mut OutPtr::null()), WFS_ERR_INVALID_POINTER);
    assert_eq!(heap.allocate_more(10, 1, &mut OutPtr::new()), WFS_ERR_INVALID_BUFFER);
}

#[test]
fn zero_init_parent_child_lifecycle() {
    let mut heap = Heap::new();
    let mut parent = OutPtr::new();
    assert_eq!(heap.allocate_buffer(10, WFS_MEM_ZEROINIT, &mut parent), WFS_SUCCESS);
    assert_ne!(parent.value, 0);
    for i in 0..10 {
        assert_eq!(heap.read_byte(parent.value, i), Some(0));
    }
    assert_eq!(heap.read_byte(parent.value, 10), None);

    let mut child = OutPtr::new();
    assert_eq!(
        heap.allocate_more(MAX_HEAP_SIZE + 1, parent.value, &mut child),
        WFS_ERR_OUT_OF_MEMORY
    );
    assert_eq!(heap.allocate_more(10, parent.value, &mut child), WFS_SUCCESS);
    assert_eq!(heap.deallocate(child.value), WFS_ERR_INVALID_BUFFER);
    assert_eq!(heap.deallocate(parent.value), WFS_SUCCESS);
    assert_eq!(heap.deallocate(parent.value), WFS_ERR_INVALID_BUFFER);
}

#[test]
fn counter_returns_to_zero() {
    let mut heap = Heap::new();
    let mut a = OutPtr::new();
    let mut b = OutPtr::new();
    let mut c = OutPtr::new();
    assert_eq!(heap.allocate_buffer(100, 0, &mut a), WFS_SUCCESS);
    assert_eq!(heap.allocate_buffer(200, 0, &mut b), WFS_SUCCESS);
    assert_eq!(heap.allocate_more(50, a.value, &mut c), WFS_SUCCESS);
    assert_eq!(heap.outstanding_bytes(), 350);
    assert_eq!(heap.deallocate(b.value), WFS_SUCCESS);
    assert_eq!(heap.outstanding_bytes(), 150);
    assert_eq!(heap.deallocate(a.value), WFS_SUCCESS);
    assert_eq!(heap.outstanding_bytes(), 0);
    assert_eq!(heap.allocation_count(), 0);
}

#[test]
fn failed_allocation_leaves_counter_unchanged() {
    let mut heap = Heap::new();
    let mut a = OutPtr::new();
    assert_eq!(heap.allocate_buffer(1000, 0, &mut a), WFS_SUCCESS);
    let before = heap.outstanding_bytes();
    assert_eq!(
        heap.allocate_buffer(MAX_HEAP_SIZE, 0, &mut OutPtr::new()),
        WFS_ERR_OUT_OF_MEMORY
    );
    assert_eq!(heap.outstanding_bytes(), before);
    assert_eq!(
        heap.allocate_more(MAX_HEAP_SIZE, a.value, &mut OutPtr::new()),
        WFS_ERR_OUT_OF_MEMORY
    );
    assert_eq!(heap.outstanding_bytes(), before);
}
