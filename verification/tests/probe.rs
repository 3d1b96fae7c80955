use opensk_flash::probe::{is_page_erased, test_address, test_index};

#[test]
fn erased_page_detection() {
    assert!(is_page_erased(&vec![0xff; 2048]));
    assert!(is_page_erased(&Vec::new()));
    let mut page = vec![0xff; 2048];
    page[1000] = 0x00;
    assert!(!is_page_erased(&page));
}

#[test]
fn probe_by_index() {
    // Storage pages of 512 words. Word 0x1F840 lies 64 words into the
    // storage area: page 0, byte 256, at address 0xBE100.
    let spot = test_index(0x1F840, 2, 512);
    assert_eq!(spot.addr, 0xBE100);
    assert_eq!(spot.page, 0);
    assert_eq!(spot.byte, 256);
    assert_eq!(spot.data, vec![0xC3; 8]);
    // One full page further: page 1, byte 0.
    let spot = test_index(0x1F800 + 512, 1, 512);
    assert_eq!(spot.page, 1);
    assert_eq!(spot.byte, 0);
    assert_eq!(spot.addr, (0x1F800 + 512) * 4 + 0x40000);
}

#[test]
fn probe_by_address() {
    let spot = test_address(0xBE000, 1, 512);
    assert_eq!(spot.addr, 0xBE000);
    assert_eq!(spot.page, 0);
    assert_eq!(spot.byte, 0);
    assert_eq!(spot.data, vec![0xC3; 4]);
    let spot = test_address(0xBE100, 16, 512);
    assert_eq!(spot.addr, 0xBE100);
    assert_eq!(spot.page, 0);
    assert_eq!(spot.byte, 256);
    assert_eq!(spot.data.len(), 64);
}
