use std::mem::size_of;

use heapvec::HeapVec;
use heapvec::Unique;

#[test]
fn size_ok() {
    assert_eq!(size_of::<&u8>(), size_of::<HeapVec<u8>>());
}

#[test]
fn insert_test() {
    let mut hv: HeapVec<u8> = HeapVec::new();
    assert_eq!(hv.len(), 0);
    hv.push(0);
    assert_eq!(hv.len(), 1);

    hv.push(1);
    assert_eq!(hv.len(), 2);

    assert_eq!(*hv.get(0), 0);
    assert_eq!(*hv.get(1), 1);

    assert_eq!(hv.pop(), Some(1));
    assert_eq!(hv.len(), 1);
    assert_eq!(hv.pop(), Some(0));
    assert_eq!(hv.len(), 0);
    assert_eq!(hv.pop(), None)
}

struct DropPanic {
    #[allow(dead_code)]
    test: u8,
}

impl Drop for DropPanic {
    fn drop(&mut self) {
        panic!("droppanic.drop()");
    }
}

#[test]
#[should_panic(expected = "droppanic.drop()")]
fn test_drop_panic() {
    // This test should only panic once, and not double panic,
    // which would mean a double drop
    let mut v = HeapVec::new();
    v.push(DropPanic { test: 0 });
}

#[test]
fn pushes_keep_order() {
    let mut v: HeapVec<u32> = HeapVec::new();
    let vals = [3u32, 1, 4, 1, 5];
    for (i, val) in vals.iter().enumerate() {
        v.push(*val);
        assert_eq!(v.len(), i + 1);
    }
    for (i, val) in vals.iter().enumerate() {
        assert_eq!(*v.get(i), *val);
    }
}

#[test]
fn push_then_pop_is_identity() {
    let mut v: HeapVec<u8> = HeapVec::new();
    v.push(10);
    v.push(20);
    let before = v.len();
    v.push(30);
    assert_eq!(v.pop(), Some(30));
    assert_eq!(v.len(), before);
    assert_eq!(*v.get(0), 10);
    assert_eq!(*v.get(1), 20);
}

#[test]
fn pop_on_fresh_is_none() {
    let mut v: HeapVec<u8> = HeapVec::new();
    assert_eq!(v.pop(), None);
    assert_eq!(v.len(), 0);
}

#[test]
fn insert_at_front_and_at_length() {
    let mut v: HeapVec<u8> = HeapVec::new();
    v.push(1);
    v.push(2);
    v.push(3);
    v.insert(0, 7);
    assert_eq!(v.len(), 4);
    assert_eq!(*v.get(0), 7);
    assert_eq!(*v.get(1), 1);
    assert_eq!(*v.get(2), 2);
    assert_eq!(*v.get(3), 3);

    let mut w: HeapVec<u8> = HeapVec::new();
    w.push(1);
    w.push(2);
    w.push(3);
    w.insert(3, 7);
    assert_eq!(w.len(), 4);
    assert_eq!(*w.get(0), 1);
    assert_eq!(*w.get(1), 2);
    assert_eq!(*w.get(2), 3);
    assert_eq!(*w.get(3), 7);
}

#[test]
fn remove_middle_and_last() {
    let mut v: HeapVec<u8> = HeapVec::new();
    v.push(1);
    v.push(2);
    v.push(3);
    assert_eq!(v.remove(1), 2);
    assert_eq!(v.len(), 2);
    assert_eq!(*v.get(0), 1);
    assert_eq!(*v.get(1), 3);

    let mut w: HeapVec<u8> = HeapVec::new();
    w.push(1);
    w.push(2);
    w.push(3);
    assert_eq!(w.remove(2), 3);
    assert_eq!(w.len(), 2);
}

#[test]
fn growth_doubles_capacity() {
    let mut v: HeapVec<u8> = HeapVec::new();
    assert_eq!(v.capacity(), 0);
    let expected = [1usize, 2, 4, 4, 8, 8, 8, 8, 16];
    for k in 0..expected.len() {
        v.push(k as u8);
        assert_eq!(v.len(), k + 1);
        assert_eq!(v.capacity(), expected[k]);
    }
}

struct CountsDrops {
    counter: std::rc::Rc<std::cell::Cell<u32>>,
}

impl Drop for CountsDrops {
    fn drop(&mut self) {
        self.counter.set(self.counter.get() + 1);
    }
}

#[test]
fn drops_each_element_exactly_once() {
    let counter = std::rc::Rc::new(std::cell::Cell::new(0));
    let mut v: HeapVec<CountsDrops> = HeapVec::new();
    for _ in 0..3 {
        v.push(CountsDrops { counter: counter.clone() });
    }
    assert_eq!(counter.get(), 0);
    drop(v);
    assert_eq!(counter.get(), 3);
}

#[test]
fn set_overwrites_one_slot() {
    let mut v: HeapVec<u8> = HeapVec::new();
    v.push(1);
    v.push(2);
    v.push(3);
    v.set(1, 9);
    assert_eq!(v.len(), 3);
    assert_eq!(*v.get(0), 1);
    assert_eq!(*v.get(1), 9);
    assert_eq!(*v.get(2), 3);
}

#[test]
fn data_region_follows_contents() {
    let mut v: HeapVec<u16> = HeapVec::new();
    assert!(v.data_ptr().is_none());
    v.push(10);
    v.push(11);
    let region = v.data_ptr().unwrap();
    assert_eq!(region.len(), 2);
    assert_eq!(region[0], 10);
    assert_eq!(region[1], 11);
}

#[test]
fn header_offsets() {
    let two_words = 2 * size_of::<usize>();
    // Every alignment below divides two words, so no padding is needed.
    assert_eq!(HeapVec::<u8>::get_offset(), two_words);
    assert_eq!(HeapVec::<u16>::get_offset(), two_words);
    assert_eq!(HeapVec::<u64>::get_offset(), two_words);
    assert_eq!(
        HeapVec::<u64>::get_offset_of(3),
        two_words + 3 * size_of::<u64>()
    );
    assert_eq!(HeapVec::<u8>::get_offset_of(5), two_words + 5);
}

#[test]
fn handle_null_and_target() {
    let u: Unique<u32> = Unique::new(None);
    assert!(u.is_null());
    assert!(u.as_ptr().is_none());

    let mut u2: Unique<u32> = Unique::new(Some(Box::new(5)));
    assert!(!u2.is_null());
    assert_eq!(*u2.as_ptr().unwrap(), 5);

    let taken = u2.take();
    assert!(u2.is_null());
    assert_eq!(*taken.unwrap(), 5);
}
