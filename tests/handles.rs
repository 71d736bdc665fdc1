use thorium::gl::{Program, Shader, Texture};
use thorium::handle::OwnedHandle;

fn count_releases(h: &mut OwnedHandle, attempts: usize) -> usize {
    let mut n = 0;
    for _ in 0..attempts {
        if h.take_release().is_some() {
            n += 1;
        }
    }
    n
}

#[test]
fn constructed_handle_is_released_exactly_once() {
    let mut h = OwnedHandle::acquire(42).expect("non-zero handle");
    assert!(h.is_live());
    assert_eq!(h.raw(), 42);
    assert_eq!(h.take_release(), Some(42));
    assert!(!h.is_live());
    assert_eq!(count_releases(&mut h, 5), 0);
}

#[test]
fn moved_handle_is_still_released_once() {
    let h = OwnedHandle::acquire(7).expect("non-zero handle");
    let boxed = Box::new(h);
    let mut moved = *boxed;
    assert_eq!(count_releases(&mut moved, 3), 1);
}

#[test]
fn zero_handle_fails_construction() {
    assert!(OwnedHandle::acquire(0).is_none());
}

#[test]
fn gl_objects_release_their_names_once() {
    let mut p = Program::from_name(3).expect("program");
    assert_eq!(p.name(), 3);
    assert_eq!(p.take_release(), Some(3));
    assert_eq!(p.take_release(), None);
    let mut s = Shader::from_name(9).expect("shader");
    assert_eq!(s.take_release(), Some(9));
    assert_eq!(s.take_release(), None);
    let mut t = Texture::from_name(11).expect("texture");
    assert_eq!(t.name(), 11);
    assert_eq!(t.take_release(), Some(11));
    assert_eq!(t.take_release(), None);
}

#[test]
fn gl_objects_reject_the_zero_name() {
    assert!(Program::from_name(0).is_none());
    assert!(Shader::from_name(0).is_none());
    assert!(Texture::from_name(0).is_none());
}
