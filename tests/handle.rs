use gdcef::handle::NativeHandle;

#[test]
fn owned_handle_is_released_once() {
    let h = NativeHandle::from_handle(0x10, Some(0x20));
    assert!(h.is_valid());
    assert!(h.is_owned());
    assert_eq!(h.as_handle(), 0x20);
    assert_eq!(h.release(), Some(0x20));
}

#[test]
fn borrowed_handle_is_never_released() {
    let h = NativeHandle::borrowed(0x33);
    assert!(h.is_valid());
    assert!(!h.is_owned());
    assert_eq!(h.release(), None);
}

#[test]
fn failed_duplicate_falls_back_to_borrowing() {
    let h = NativeHandle::from_handle(0x10, None);
    assert_eq!(h.as_handle(), 0x10);
    assert!(!h.is_owned());
    assert_eq!(h.release(), None);
    let z = NativeHandle::from_handle(0x10, Some(0));
    assert_eq!(z.as_handle(), 0x10);
    assert!(!z.is_owned());
}

#[test]
fn null_source_gives_invalid_handle() {
    let h = NativeHandle::from_handle(0, Some(0x20));
    assert!(!h.is_valid());
    assert!(!h.is_owned());
    assert_eq!(h.release(), None);
    let d = NativeHandle::default();
    assert!(!d.is_valid());
    assert_eq!(NativeHandle::invalid().as_handle(), 0);
}

#[test]
fn clone_of_owned_handle_owns_its_duplicate() {
    let original = NativeHandle::from_handle(0x10, Some(0x20));
    let clone = original.clone_with(Some(0x30));
    assert!(clone.is_owned());
    assert_eq!(clone.as_handle(), 0x30);
    let a = original.release();
    let b = clone.release();
    assert_eq!(a, Some(0x20));
    assert_eq!(b, Some(0x30));
    assert_ne!(a, b);
}

#[test]
fn clone_without_duplicate_aliases_unowned() {
    let original = NativeHandle::from_handle(0x10, Some(0x20));
    let clone = original.clone_with(None);
    assert_eq!(clone.as_handle(), 0x20);
    assert!(!clone.is_owned());
    assert_eq!(clone.release(), None);
    assert_eq!(original.release(), Some(0x20));
    let invalid = NativeHandle::invalid().clone_with(Some(0x40));
    assert!(!invalid.is_valid());
}
