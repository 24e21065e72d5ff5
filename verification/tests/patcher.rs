use axel::patcher::{
    get_suitable_regions, padded_static_url, parse_hex_usize, parse_maps_line, read_public_key, reversed_bytes,
    scan_outcome, search_byte_sequence, split_whitespace, str_to_utf16_bytes, MapsLine, MemoryRegion, PatchTally, ScanOutcome,
};

fn region(start: usize, end: usize, perms: &str) -> MemoryRegion {
    MemoryRegion {
        start,
        end,
        offset: 0,
        perms: perms.to_string(),
        inode: "0".to_string(),
        dev: "00:00".to_string(),
        pathname: None,
    }
}

#[test]
fn region_size() {
    assert_eq!(region(0x1000, 0x3000, "rw-p").size(), 0x2000);
    assert_eq!(region(5, 5, "r--p").size(), 0);
}

#[test]
fn maps_line_with_path() {
    let line = "7f0000000000-7f0000021000 rw-p 00001000 fd:01 1234   /system/lib64/libc.so (deleted)";
    match parse_maps_line(line) {
        MapsLine::Region(m) => {
            assert_eq!(m.start, 0x7f0000000000);
            assert_eq!(m.end, 0x7f0000021000);
            assert_eq!(m.offset, 0x1000);
            assert_eq!(m.perms, "rw-p");
            assert_eq!(m.dev, "fd:01");
            assert_eq!(m.inode, "1234");
            assert_eq!(m.pathname.as_deref(), Some("/system/lib64/libc.so (deleted)"));
        }
        other => panic!("unexpected {:?}", other),
    }
}

#[test]
fn maps_line_without_path() {
    match parse_maps_line("00400000-00401000 r-xp 00000000 00:00 0") {
        MapsLine::Region(m) => {
            assert_eq!((m.start, m.end), (0x400000, 0x401000));
            assert_eq!(m.pathname, None);
        }
        other => panic!("unexpected {:?}", other),
    }
}

#[test]
fn maps_line_short_or_broken() {
    assert!(matches!(parse_maps_line("00400000-00401000 r-xp 0"), MapsLine::Skip));
    assert!(matches!(parse_maps_line(""), MapsLine::Skip));
    assert!(matches!(parse_maps_line("00400000 r-xp 0 0 0"), MapsLine::Malformed));
    assert!(matches!(parse_maps_line("0040000g-00401000 r-xp 0 0 0"), MapsLine::Malformed));
}

#[test]
fn hex_usize_reads_like_from_str_radix() {
    for s in ["ff", "+1A", "0", "ffffffffffffffff", "10000000000000000", "", "+", "-1", "x1"] {
        assert_eq!(parse_hex_usize(s), usize::from_str_radix(s, 16).ok(), "{s}");
    }
}

#[test]
fn whitespace_split_like_std() {
    for s in ["  a  b\tc\n", "", "   ", "one", "a\u{3000}b"] {
        let expected: Vec<String> = s.split_whitespace().map(|w| w.to_string()).collect();
        assert_eq!(split_whitespace(s), expected);
    }
}

#[test]
fn only_writable_regions_are_searched() {
    let regions = vec![region(0, 1, "r--p"), region(1, 2, "rw-p"), region(2, 3, "r-xp"), region(3, 4, "-w-s")];
    let kept = get_suitable_regions(regions);
    assert_eq!(kept.iter().map(|m| m.start).collect::<Vec<_>>(), vec![1, 3]);
}

#[test]
fn search_finds_non_overlapping_matches() {
    assert_eq!(search_byte_sequence(b"aaaa", b"aa"), vec![0, 2]);
    assert_eq!(search_byte_sequence(b"xabcabx", b"ab"), vec![1, 4]);
    assert_eq!(search_byte_sequence(b"xyz", b"ab"), Vec::<usize>::new());
    assert_eq!(search_byte_sequence(b"ab", b"ab"), vec![0]);
}

#[test]
fn utf16_big_endian() {
    assert_eq!(str_to_utf16_bytes("hi"), vec![0, b'h', 0, b'i']);
    assert_eq!(str_to_utf16_bytes("é"), vec![0x00, 0xe9]);
    assert_eq!(str_to_utf16_bytes("😀"), vec![0xd8, 0x3d, 0xde, 0x00]);
    let expected: Vec<u8> = "https://a/".encode_utf16().flat_map(|w| w.to_be_bytes()).collect();
    assert_eq!(str_to_utf16_bytes("https://a/"), expected);
}

#[test]
fn static_url_is_padded_with_slashes() {
    let padded = padded_static_url("https://static.example.dev/").unwrap();
    assert_eq!(padded.len(), "https://static-prd-wonder.sesisoft.com/".len());
    assert_eq!(padded, "https://static.example.dev/////////////");
    assert_eq!(padded_static_url("https://static-prd-wonder.sesisoft.com/").as_deref(), Some("https://static-prd-wonder.sesisoft.com/"));
    assert_eq!(padded_static_url("https://a-much-longer-static-server.example.com/"), None);
}

#[test]
fn keys_are_searched_reversed() {
    assert_eq!(reversed_bytes(&[1, 2, 3]), vec![3, 2, 1]);
    assert_eq!(reversed_bytes(&[]), Vec::<u8>::new());
}

#[test]
fn scan_outcome_prefers_replacement() {
    assert_eq!(scan_outcome(2, 5), ScanOutcome::Replaced(2));
    assert_eq!(scan_outcome(0, 5), ScanOutcome::AlreadyPatched(5));
    assert_eq!(scan_outcome(0, 0), ScanOutcome::NotFound);
}

#[test]
fn public_key_modulus_from_pem() {
    let rsa = openssl::rsa::Rsa::generate(1024).unwrap();
    let public = rsa.public_key_to_pem().unwrap();
    let private = rsa.private_key_to_pem().unwrap();
    assert_eq!(read_public_key(&public), Some(rsa.n().to_vec()));
    assert_eq!(read_public_key(&private), Some(rsa.n().to_vec()));
    assert_eq!(read_public_key(b"not a key"), None);
}

#[test]
fn a_tally_reports_replacements_before_patched_finds() {
    let mut t = PatchTally::new();
    assert_eq!(t.outcome(), ScanOutcome::NotFound);
    t.count_patched(2);
    assert_eq!(t.outcome(), ScanOutcome::AlreadyPatched(2));
    t.count_replaced();
    t.count_replaced();
    assert_eq!(t.outcome(), ScanOutcome::Replaced(2));
    assert_eq!((t.found_original, t.found_patched), (2, 2));
}
