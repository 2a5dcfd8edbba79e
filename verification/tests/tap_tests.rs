use jailer::tap::Error;
use jailer::tap::IFACE_NAME_MAX_LEN;
use jailer::tap::Tap;
use jailer::tap::build_terminated_if_name;

#[test]
fn test_tap_name() {
    // The buffer is always exactly the kernel's bound.
    assert_eq!(IFACE_NAME_MAX_LEN, 16);

    // An empty requested name leaves the whole buffer NUL; the kernel then
    // picks a name (`tap0`), which `from_kernel` stores as returned.
    let empty = build_terminated_if_name("").unwrap();
    assert_eq!(empty, vec![0u8; 16]);
    let tap = Tap::from_kernel(3, b"tap0\0\0\0\0\0\0\0\0\0\0\0\0".to_vec());
    assert_eq!(b"tap0\0\0\0\0\0\0\0\0\0\0\0\0", tap.if_name_bytes().as_slice());
    assert_eq!("tap0", tap.if_name_as_str());

    // 16 characters - too long.
    let name = "a123456789abcdef";
    match build_terminated_if_name(name) {
        Err(Error::InvalidIfname) => (),
        _ => panic!("Expected Error::InvalidIfname"),
    };

    // 15 characters - OK.
    let name = "a123456789abcde";
    let built = build_terminated_if_name(name).unwrap();
    assert_eq!(&format!("{}\0", name).as_bytes(), &built.as_slice());
    let tap = Tap::new_named(3, name).unwrap();
    assert_eq!(name, tap.if_name_as_str());
    assert_eq!(tap.as_raw_fd(), 3);
}

#[test]
fn test_tap_name_boundaries() {
    // 15 bytes succeed, 16 bytes fail.
    assert!(Tap::new_named(0, &"x".repeat(15)).is_ok());
    assert_eq!(Tap::new_named(0, &"x".repeat(16)).unwrap_err(), Error::InvalidIfname);
    // The stored buffer is NUL-padded to exactly 16 bytes.
    let tap = Tap::new_named(0, "exclusivetap").unwrap();
    assert_eq!(tap.if_name_bytes().len(), 16);
    assert_eq!(tap.if_name_bytes().as_slice(), b"exclusivetap\0\0\0\0");
    assert_eq!(tap.if_name_as_str(), "exclusivetap");
}

#[test]
fn test_kernel_name_prefix() {
    // Reading the name back takes what stands before the first NUL, even
    // when later bytes are not NUL.
    let mut bytes = b"vtap1\0".to_vec();
    bytes.extend_from_slice(&[7u8; 10]);
    let tap = Tap::from_kernel(5, bytes);
    assert_eq!(tap.if_name_as_str(), "vtap1");

    // A buffer that does not decode yields the empty name.
    let mut bad = vec![0xffu8, 0xfe];
    bad.resize(16, 0);
    let tap = Tap::from_kernel(5, bad);
    assert_eq!(tap.if_name_as_str(), "");
}
