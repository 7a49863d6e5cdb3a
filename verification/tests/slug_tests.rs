use trawler::slug::MAX_SLUGGABLE_ID;
use trawler::slug::id_to_slug;
use trawler::slug::slug_to_id;

#[test]
fn slug_of_zero() {
    assert_eq!(&id_to_slug(0), b"000000");
}

#[test]
fn slug_of_one() {
    assert_eq!(&id_to_slug(1), b"000001");
}

#[test]
fn slug_of_thirty_five() {
    assert_eq!(&id_to_slug(35), b"00000z");
}

#[test]
fn slug_of_thirty_six() {
    assert_eq!(&id_to_slug(36), b"000010");
}

#[test]
fn slug_of_largest() {
    assert_eq!(MAX_SLUGGABLE_ID, 2_176_782_336);
    assert_eq!(&id_to_slug(2_176_782_335), b"zzzzzz");
}

#[test]
fn slug_round_trips() {
    for id in [0u32, 1, 35, 36, 1295, 1296, 46_655, 46_656, 123_456_789, 2_176_782_335] {
        let s = id_to_slug(id);
        assert_eq!(slug_to_id(&s), Some(id));
        for b in s {
            assert!(b.is_ascii_digit() || b.is_ascii_lowercase());
        }
    }
}

#[test]
fn slug_rejects_bad_bytes() {
    assert_eq!(slug_to_id(b"00000A"), None);
    assert_eq!(slug_to_id(b"      "), None);
    assert_eq!(slug_to_id(b"0000-0"), None);
}

#[test]
fn slug_decodes_mixed() {
    // "000z10" = 35 * 36^2 + 1 * 36 = 45396
    assert_eq!(slug_to_id(b"000z10"), Some(35 * 36 * 36 + 36));
}
