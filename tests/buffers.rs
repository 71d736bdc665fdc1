use thorium::buffer::{allocate, required_capacity, trim_filled, try_allocate, TwoCallError};
use thorium::win_types::GlobalBuffer;

#[test]
fn query_128_fill_96_keeps_first_96_bytes() {
    let cap = required_capacity::<u32>(Ok(128)).expect("size query");
    assert_eq!(cap, 128);
    let mut buf = allocate(cap, 0u8);
    assert_eq!(buf.len(), 128);
    for (i, b) in buf.iter_mut().enumerate() {
        *b = i as u8;
    }
    let kept = trim_filled::<u8, u32>(buf, Ok(96)).expect("fill");
    assert_eq!(kept.len(), 96);
    for (i, b) in kept.iter().enumerate() {
        assert_eq!(*b, i as u8);
    }
    assert!(kept.get(96).is_none());
}

#[test]
fn fill_of_whole_buffer_keeps_everything() {
    let buf = vec![1u16, 2, 3];
    let kept = trim_filled::<u16, ()>(buf, Ok(3)).unwrap();
    assert_eq!(kept, vec![1, 2, 3]);
}

#[test]
fn fill_of_nothing_keeps_nothing() {
    let buf = allocate(4, 9u8);
    assert_eq!(buf, vec![9, 9, 9, 9]);
    let kept = trim_filled::<u8, ()>(buf, Ok(0)).unwrap();
    assert!(kept.is_empty());
}

#[test]
fn query_failure_is_reported_as_query_error() {
    assert_eq!(required_capacity::<u32>(Err(5)), Err(TwoCallError::Query(5)));
}

#[test]
fn fill_failure_is_reported_as_fill_error() {
    let r = trim_filled::<u8, u32>(vec![0; 8], Err(122));
    assert_eq!(r, Err(TwoCallError::Fill(122)));
}

#[test]
fn fill_larger_than_buffer_is_a_size_mismatch() {
    let r = trim_filled::<u8, u32>(vec![0; 8], Ok(9));
    assert_eq!(r, Err(TwoCallError::SizeMismatch { capacity: 8, written: 9 }));
}

#[test]
fn global_buffer_is_zeroed_and_word_sized() {
    let b = GlobalBuffer::new(13).expect("buffer");
    assert_eq!(b.len(), 13);
    assert_eq!(b.words().len(), 2);
    assert!(b.words().iter().all(|x| *x == 0));
    let exact = GlobalBuffer::new(16).unwrap();
    assert_eq!(exact.words().len(), 2);
    let empty = GlobalBuffer::new(0).unwrap();
    assert_eq!(empty.len(), 0);
    assert!(empty.words().is_empty());
}

#[test]
fn global_buffer_words_can_be_written() {
    let mut b = GlobalBuffer::new(8).unwrap();
    b.words_mut()[0] = 0x0102;
    assert_eq!(b.words(), &[0x0102]);
    assert_eq!(b.len(), 8);
}

#[test]
fn allocation_failure_is_its_own_error() {
    assert_eq!(try_allocate::<u64, u32>(3, 7), Ok(vec![7, 7, 7]));
    assert_eq!(try_allocate::<u64, u32>(usize::MAX, 0), Err(TwoCallError::Allocation { capacity: usize::MAX }));
    assert!(GlobalBuffer::new(usize::MAX).is_none());
}
