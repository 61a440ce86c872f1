use navrs::atomic::{buffer, Flag, Index, Queue, Sync};

#[test]
fn flag_set_get_toggle() {
    let mut f = Flag::new(false);
    assert!(!f.get());
    f.set(true);
    assert!(f.get());
    assert_eq!(f.toggle(), false);
    assert!(!f.get());
    assert_eq!(f.toggle(), true);
}

#[test]
fn index_inc_dec() {
    let mut i = Index::new(3);
    assert_eq!(i.get(), 3);
    assert_eq!(i.inc(4), 7);
    assert_eq!(i.get(), 7);
    assert_eq!(i.dec(2), 5);
    i.set(0);
    assert_eq!(i.get(), 0);
}

#[test]
fn sync_get_set_inspect() {
    let mut s = Sync::new(vec![1u32, 2]);
    assert_eq!(s.get(), vec![1, 2]);
    s.set(vec![9]);
    assert_eq!(s.get(), vec![9]);
    assert_eq!(s.inspect(|v| v.len()), 1);
    assert_eq!(*s.borrow(), vec![9]);
}

#[test]
fn queue_enqueue_at_keeps_current() {
    let mut q = Queue::new(vec!['a', 'b', 'c']);
    q.set_index(1);
    assert_eq!(q.current(), Some('b'));
    q.enqueue_at(0, 'x');
    assert_eq!(q.view(), vec!['x', 'a', 'b', 'c']);
    assert_eq!(q.index(), 2);
    assert_eq!(q.current(), Some('b'));
    q.enqueue_at(10, 'z');
    assert_eq!(q.view(), vec!['x', 'a', 'b', 'c', 'z']);
    assert_eq!(q.current(), Some('b'));
}

#[test]
fn queue_enqueue_past_finished_end_becomes_current() {
    let mut q = Queue::new(vec!['a']);
    q.advance();
    assert_eq!(q.current(), None);
    q.enqueue_next('n');
    assert_eq!(q.view(), vec!['a', 'n']);
    assert_eq!(q.current(), Some('n'));
}

#[test]
fn queue_enqueue_appends_and_next_inserts_after_cursor() {
    let mut q = Queue::new(vec![1, 2, 3]);
    q.enqueue(4);
    assert_eq!(q.view(), vec![1, 2, 3, 4]);
    q.enqueue_next(9);
    assert_eq!(q.view(), vec![1, 9, 2, 3, 4]);
    assert_eq!(q.current(), Some(1));
    q.advance();
    assert_eq!(q.current(), Some(9));
}

#[test]
fn queue_dequeue_keeps_current_and_removes_current() {
    let mut q = Queue::new(vec![1, 2, 3, 4]);
    q.set_index(2);
    q.dequeue(0);
    assert_eq!(q.view(), vec![2, 3, 4]);
    assert_eq!(q.index(), 1);
    assert_eq!(q.current(), Some(3));
    q.dequeue(2);
    assert_eq!(q.current(), Some(3));
    q.dequeue(1);
    assert_eq!(q.view(), vec![2]);
    assert_eq!(q.index(), 1);
    assert_eq!(q.current(), None);
    q.dequeue(7);
    assert_eq!(q.view(), vec![2]);
}

#[test]
fn queue_remove_undoes_insert() {
    let mut q = Queue::new(vec![1, 2, 3]);
    q.set_index(2);
    q.enqueue_at(1, 7);
    q.dequeue(1);
    assert_eq!(q.view(), vec![1, 2, 3]);
    assert_eq!(q.index(), 2);
}

#[test]
fn queue_set_and_get() {
    let mut q = Queue::new(vec![1, 2]);
    q.advance();
    q.set(vec![5, 6, 7]);
    assert_eq!(q.index(), 0);
    assert_eq!(q.len(), 3);
    assert_eq!(q.get(2), Some(7));
    assert_eq!(q.get(3), None);
}

#[test]
fn buffer_reads_and_flatlines() {
    let mut b = buffer::<u32>();
    assert_eq!(b.len(), 0);
    assert_eq!(b.read(2), vec![0, 0]);
    b.set(vec![1, 2, 3, 4, 5]);
    assert_eq!(b.pos(), 0);
    assert_eq!(b.read(2), vec![1, 2]);
    assert_eq!(b.pos(), 2);
    assert_eq!(b.read(2), vec![3, 4]);
    assert_eq!(b.read(1), vec![0]);
    assert_eq!(b.pos(), 5);
    b.seek(1);
    assert_eq!(b.read(5), vec![0, 0, 0, 0, 0]);
    assert_eq!(b.pos(), 5);
}
