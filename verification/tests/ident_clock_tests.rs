use shadow_core::clock::{now, now_unix, unix_seconds_or_zero};
use shadow_core::ident::new_id;

fn is_v4_text(s: &str) -> bool {
    let b: Vec<char> = s.chars().collect();
    b.len() == 36
        && b.iter().enumerate().all(|(i, c)| {
            if [8, 13, 18, 23].contains(&i) {
                *c == '-'
            } else {
                c.is_ascii_digit() || ('a'..='f').contains(c)
            }
        })
        && b[14] == '4'
        && "89ab".contains(b[19])
}

#[test]
fn new_id_is_hyphenated_v4_uuid() {
    for _ in 0..50 {
        let id = new_id();
        assert!(is_v4_text(&id), "{id}");
    }
}

#[test]
fn new_ids_differ() {
    assert_ne!(new_id(), new_id());
}

#[test]
fn unix_seconds_or_zero_rule() {
    assert_eq!(unix_seconds_or_zero(None), 0);
    assert_eq!(unix_seconds_or_zero(Some(1_725_029_869)), 1_725_029_869);
    assert_eq!(unix_seconds_or_zero(Some(u64::MAX)), -1);
    assert_eq!(unix_seconds_or_zero(Some(1u64 << 63)), i64::MIN);
}

#[test]
fn now_is_after_2020() {
    assert!(now_unix() > 1_577_836_800);
    assert!(now() >= 1_577_836_800);
}
