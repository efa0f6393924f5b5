use terafirma::listing::{EntryKind, Listing};

#[test]
fn missing_root_lists_nothing() {
    let mut listing = Listing::new(EntryKind::Other);
    assert_eq!(listing.next_directory(), None);
    assert!(listing.finish().is_empty());
}

#[test]
fn root_directory_is_read_first() {
    let mut listing = Listing::new(EntryKind::Directory);
    assert_eq!(listing.next_directory(), Some(String::new()));
    assert_eq!(listing.next_directory(), None);
}

#[test]
fn files_are_reported_relative_to_the_root() {
    let mut listing = Listing::new(EntryKind::Directory);
    let root = listing.next_directory().unwrap();
    listing.visit(&root, "style.css", EntryKind::File);
    listing.visit(&root, "img", EntryKind::Directory);
    listing.visit(&root, "socket", EntryKind::Other);
    let img = listing.next_directory().unwrap();
    assert_eq!(img, "img");
    listing.visit(&img, "emoticon.png", EntryKind::File);
    listing.visit(&img, "icons", EntryKind::Directory);
    let icons = listing.next_directory().unwrap();
    assert_eq!(icons, "img/icons");
    listing.visit(&icons, "a.svg", EntryKind::File);
    assert_eq!(listing.next_directory(), None);
    assert_eq!(listing.finish(), vec!["style.css", "img/emoticon.png", "img/icons/a.svg"]);
}

#[test]
fn directory_seen_last_is_read_next() {
    let mut listing = Listing::new(EntryKind::Directory);
    let root = listing.next_directory().unwrap();
    listing.visit(&root, "a", EntryKind::Directory);
    listing.visit(&root, "b", EntryKind::Directory);
    assert_eq!(listing.next_directory(), Some(String::from("b")));
    assert_eq!(listing.next_directory(), Some(String::from("a")));
    assert_eq!(listing.next_directory(), None);
}

#[test]
fn other_entries_are_passed_over() {
    let mut listing = Listing::new(EntryKind::Directory);
    let root = listing.next_directory().unwrap();
    listing.visit(&root, "link", EntryKind::Other);
    assert_eq!(listing.next_directory(), None);
    assert!(listing.finish().is_empty());
}
