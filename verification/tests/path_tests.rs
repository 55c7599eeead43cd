use asset_import::path::decompose_location;
use asset_import::path::split_segments;

#[test]
fn decompose_three_segments() {
    let parts = decompose_location("DC1/Room2/RackA");
    assert_eq!(parts.ancestor_tabbed, "DC1\tRoom2");
    assert_eq!(parts.leaf, "RackA");
}

#[test]
fn decompose_two_segments() {
    let parts = decompose_location("DC1/RoomA");
    assert_eq!(parts.ancestor_tabbed, "DC1");
    assert_eq!(parts.leaf, "RoomA");
}

#[test]
fn decompose_single_segment_has_empty_ancestor() {
    let parts = decompose_location("DC1");
    assert_eq!(parts.ancestor_tabbed, "");
    assert_eq!(parts.leaf, "DC1");
}

#[test]
fn decompose_empty_string_is_one_empty_segment() {
    let parts = decompose_location("");
    assert_eq!(parts.ancestor_tabbed, "");
    assert_eq!(parts.leaf, "");
}

#[test]
fn decompose_trailing_slash_gives_empty_leaf() {
    let parts = decompose_location("DC1/RoomA/");
    assert_eq!(parts.ancestor_tabbed, "DC1\tRoomA");
    assert_eq!(parts.leaf, "");
}

#[test]
fn split_keeps_empty_segments() {
    let segs = split_segments("a//b", '/');
    assert_eq!(segs, vec!["a".to_string(), "".to_string(), "b".to_string()]);
}

#[test]
fn split_no_separator_is_whole_string() {
    let segs = split_segments("alone", '/');
    assert_eq!(segs, vec!["alone".to_string()]);
}
