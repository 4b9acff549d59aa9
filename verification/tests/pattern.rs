use file_magic::pattern::{Check, Magic};

#[test]
fn null_pattern_matches_everything() {
    let null = Check::default();
    assert!(null.matches_start(&[]));
    assert!(null.matches_end(&[]));
    assert!(null.matches_start(&[1, 2, 3]));
    assert!(null.matches_end(&[1, 2, 3]));
}

#[test]
fn start_pattern_matches_prefix() {
    let c = Check::new(&[0xff, 0xd8]);
    assert!(c.matches_start(&[0xff, 0xd8]));
    assert!(c.matches_start(&[0xff, 0xd8, 0x00]));
    assert!(!c.matches_start(&[0xff, 0xd9]));
    assert!(!c.matches_start(&[0xff]));
    assert!(!c.matches_start(&[]));
}

#[test]
fn start_pattern_with_offset_skips_leading_bytes() {
    let c = Check::new_with_offset(2, &[0xaa, 0xbb]);
    assert!(c.matches_start(&[0x00, 0x01, 0xaa, 0xbb]));
    assert!(c.matches_start(&[0x00, 0x01, 0xaa, 0xbb, 0xcc]));
    assert!(!c.matches_start(&[0xaa, 0xbb]));
    assert!(!c.matches_start(&[0x00, 0x01, 0xaa]));
}

#[test]
fn out_of_range_offset_fails_quietly() {
    let c = Check::new_with_offset(100, &[0x01]);
    assert!(!c.matches_start(&[0x01, 0x02, 0x03]));
    assert!(!c.matches_end(&[0x01, 0x02, 0x03]));
}

#[test]
fn end_pattern_matches_suffix() {
    let m = Magic::ends_with(&[0xcc, 0xdd]);
    assert!(m.matches(&[0xaa, 0xbb, 0xcc, 0xdd]));
    assert!(m.matches(&[0xcc, 0xdd]));
    assert!(!m.matches(&[0xcc, 0xdd, 0xee]));
    assert!(!m.matches(&[0xdd]));
    assert!(!m.matches(&[]));
}

#[test]
fn rule_with_both_anchors_needs_both() {
    let m = Magic {
        start: Check::new(&[0x10]),
        end: Check::new(&[0x20]),
    };
    assert!(m.matches(&[0x10, 0x00, 0x20]));
    assert!(m.matches(&[0x10, 0x20]));
    assert!(!m.matches(&[0x10, 0x00]));
    assert!(!m.matches(&[0x00, 0x20]));
}

#[test]
fn start_only_rule_ignores_the_tail() {
    let m = Magic::starts_with(&[0x42, 0x4d]);
    assert!(m.matches(&[0x42, 0x4d, 0x99, 0x98]));
    assert!(!m.matches(&[0x42]));
}

#[test]
fn offset_rule_reads_from_the_given_position() {
    let m = Magic::starts_with_offset(3, &[0x55]);
    assert!(m.matches(&[0, 0, 0, 0x55]));
    assert!(!m.matches(&[0x55, 0, 0, 0]));
}
