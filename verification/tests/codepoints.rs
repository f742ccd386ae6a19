use uax_14::codepoints::{format_codepoints, merge_adjacent};
use uax_14::squish;

#[test]
fn adjacent_code_points_become_a_range() {
    let out = squish(vec![(0x41, None), (0x42, None), (0x43, None)]);
    assert_eq!(out, vec!["41...0x43".to_string()]);
}

#[test]
fn code_points_apart_stay_apart() {
    let out = squish(vec![(0x41, None), (0x43, None), (0x300, None)]);
    assert_eq!(out, vec!["41".to_string(), "43".to_string(), "300".to_string()]);
}

#[test]
fn ranges_and_code_points_merge() {
    let out = squish(vec![
        (0x0E01, Some(0x0E30)),
        (0x0E31, None),
        (0x0E32, Some(0x0E33)),
        (0x0E34, Some(0x0E3A)),
        (0x0E40, Some(0x0E45)),
        (0x0E46, None),
        (0x0E50, None),
        (0x0E51, Some(0x0E59)),
        (0x1F1E6, Some(0x1F1FF)),
    ]);
    assert_eq!(
        out,
        vec![
            "E01...0xE3A".to_string(),
            "E40...0xE46".to_string(),
            "E50...0xE59".to_string(),
            "1F1E6...0x1F1FF".to_string(),
        ]
    );
}

#[test]
fn one_entry_is_kept_as_it_is() {
    assert_eq!(squish(vec![(0, None)]), vec!["0".to_string()]);
    assert_eq!(squish(vec![(0xA, Some(0xF))]), vec!["A...0xF".to_string()]);
    assert_eq!(squish(vec![(7, Some(7))]), vec!["7...0x7".to_string()]);
}

#[test]
fn nothing_gives_nothing() {
    assert_eq!(squish(Vec::new()), Vec::<String>::new());
    assert_eq!(merge_adjacent(&Vec::new()), Vec::new());
}

#[test]
fn merging_keeps_the_numbers() {
    let merged = merge_adjacent(&vec![(1, None), (2, None), (4, Some(9)), (10, None), (12, None)]);
    assert_eq!(merged, vec![(1, Some(2)), (4, Some(10)), (12, None)]);
}

#[test]
fn an_entry_at_zero_is_adjacent_to_nothing_before_it() {
    let merged = merge_adjacent(&vec![(u32::MAX, None), (0, None), (1, None)]);
    assert_eq!(merged, vec![(u32::MAX, None), (0, Some(1))]);
}

#[test]
fn merging_twice_changes_nothing_more() {
    let once = merge_adjacent(&vec![(1, None), (2, Some(5)), (6, None), (9, None), (10, None)]);
    assert_eq!(merge_adjacent(&once), once);
}

#[test]
fn hexadecimal_text() {
    assert_eq!(format_codepoints(0, None), "0");
    assert_eq!(format_codepoints(0xABCDEF, None), "ABCDEF");
    assert_eq!(format_codepoints(0x10, None), "10");
    assert_eq!(format_codepoints(u32::MAX, None), "FFFFFFFF");
    assert_eq!(format_codepoints(0x1F000, Some(0x1FFFD)), "1F000...0x1FFFD");
    assert_eq!(format_codepoints(0x9, Some(0x1234567)), format!("{:X}...0x{:X}", 9, 0x1234567));
}
