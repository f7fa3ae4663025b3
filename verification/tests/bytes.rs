use vmm::bytes::{InnerBytes, NetworkBytes, NetworkBytesMut};

#[test]
#[should_panic]
fn test_htons_unchecked() {
    let mut a = vec![u8::default(); std::mem::size_of::<u16>()];
    a.htons_unchecked(1, u16::default());
}

#[test]
#[should_panic]
fn test_htonl_unchecked() {
    let mut a = vec![u8::default(); std::mem::size_of::<u32>()];
    a.htonl_unchecked(1, u32::default());
}

#[test]
fn test_network_bytes() {
    let mut buf = vec![0u8; 1000];

    {
        let a = &mut buf;

        a.htons_unchecked(1, 123);
        a.htonl_unchecked(100, 1234);

        assert_eq!(a.ntohs_unchecked(1), 123);
        assert_eq!(a.ntohl_unchecked(100), 1234);

        a.shrink_unchecked(500);

        assert_eq!(a.len(), 500);
        assert_eq!(a.ntohs_unchecked(1), 123);
        assert_eq!(a.ntohl_unchecked(100), 1234);
    }

    {
        let mut b = buf.as_slice();
        b.shrink_unchecked(500);

        assert_eq!(NetworkBytes::len(&b), 500);
        assert_eq!(b.ntohs_unchecked(1), 123);
        assert_eq!(b.ntohl_unchecked(100), 1234);
    }
}

#[test]
fn test_network_byte_order() {
    // Big-endian layout: most significant byte first.
    let mut a = vec![0u8; 8];
    a.htons_unchecked(0, 0x1234);
    assert_eq!(a[0], 0x12);
    assert_eq!(a[1], 0x34);
    a.htonl_unchecked(2, 0xdead_beef);
    assert_eq!(a[2], 0xde);
    assert_eq!(a[3], 0xad);
    assert_eq!(a[4], 0xbe);
    assert_eq!(a[5], 0xef);
    assert_eq!(a.ntohs_unchecked(0), 0x1234);
    assert_eq!(a.ntohl_unchecked(2), 0xdead_beef);
}

#[test]
fn test_inner_bytes() {
    let mut inner = InnerBytes::new(vec![0u8; 16]);
    inner.htons_unchecked(3, 4567);
    inner.htonl_unchecked(8, 89_012_345);
    assert_eq!(inner.len(), 16);
    assert_eq!(inner.ntohs_unchecked(3), 4567);
    assert_eq!(inner.ntohl_unchecked(8), 89_012_345);
    inner.shrink_unchecked(12);
    assert_eq!(inner.len(), 12);
    assert_eq!(inner.ntohs_unchecked(3), 4567);
}
