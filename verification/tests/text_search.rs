use stratum::filesystem::VirtualPath;
use stratum::search::{search_lines, SearchWalk};

#[test]
fn matches_report_line_numbers_and_byte_offsets() {
    let found = search_lines("alpha\nbeta gamma\nno\ngamma", "gamma", 10, 0);
    assert_eq!(found.len(), 2);
    assert_eq!(found[0].line_number, 2);
    assert_eq!(found[0].line_text, "beta gamma");
    assert_eq!((found[0].match_start, found[0].match_end), (5, 10));
    assert_eq!(found[1].line_number, 4);
    assert_eq!((found[1].match_start, found[1].match_end), (0, 5));
}

#[test]
fn byte_offsets_count_multibyte_characters() {
    let found = search_lines("é x", "x", 10, 0);
    assert_eq!(found.len(), 1);
    assert_eq!((found[0].match_start, found[0].match_end), (3, 4));
}

#[test]
fn results_stop_at_the_remaining_room() {
    let text = "x\nx\nx\nx";
    assert_eq!(search_lines(text, "x", 3, 0).len(), 3);
    assert_eq!(search_lines(text, "x", 3, 2).len(), 1);
    assert_eq!(search_lines(text, "x", 3, 5).len(), 0);
    assert_eq!(search_lines(text, "y", 3, 0).len(), 0);
}

#[test]
fn the_walk_visits_entries_in_listing_order_depth_first() {
    let path = |p: &str| VirtualPath::parse(p).unwrap();
    let mut walk = SearchWalk::new(path("/"));
    let root = walk.next(0, 10).unwrap();
    assert_eq!(root.as_str(), "/");
    walk.enter(vec![path("/a"), path("/b")]);
    assert_eq!(walk.next(0, 10).unwrap().as_str(), "/a");
    walk.enter(vec![path("/a/x")]);
    assert_eq!(walk.next(0, 10).unwrap().as_str(), "/a/x");
    assert_eq!(walk.next(0, 10).unwrap().as_str(), "/b");
    assert!(walk.next(0, 10).is_none());
}

#[test]
fn the_walk_stops_once_enough_matches_are_found() {
    let mut walk = SearchWalk::new(VirtualPath::parse("/").unwrap());
    assert!(walk.next(5, 5).is_none());
}
