use wasui_memory::preview1::{check_range, GuestError, GuestPtr, Memory, MemoryMut};

#[test]
fn read_and_write_u32() {
    let mut memory = vec![0u8; 8];
    let ptr = GuestPtr::<u32>::new(0);

    memory.write(ptr, 0x12345678).expect("write should succeed");
    let value = memory.read(ptr).expect("read should succeed");

    assert_eq!(value, 0x12345678);
}

#[test]
fn out_of_bounds_fails() {
    let memory = vec![0u8; 4];
    let ptr = GuestPtr::<u32>::new(2);

    assert!(memory.read(ptr).is_err());
}

#[test]
fn check_range_accepts_what_fits() {
    assert_eq!(check_range(&GuestPtr::<[u8]>::new((0, 0)), 0), Ok(()));
    assert_eq!(check_range(&GuestPtr::<[u8]>::new((0, 4)), 4), Ok(()));
    assert_eq!(check_range(&GuestPtr::<[u8]>::new((3, 1)), 4), Ok(()));
    assert_eq!(
        check_range(&GuestPtr::<[u8]>::new((3, 2)), 4),
        Err(GuestError::InvalidPointer)
    );
    assert_eq!(
        check_range(&GuestPtr::<[u8]>::new((5, 0)), 4),
        Err(GuestError::InvalidPointer)
    );
    assert_eq!(
        check_range(&GuestPtr::<[u8]>::new((0xFFFF_FFFF, 0xFFFF_FFFF)), 0xFFFF_FFFF),
        Err(GuestError::InvalidPointer)
    );
}
