use lineshell::FileKind;
use lineshell::ListingEntry;
use lineshell::Placement;
use lineshell::classify;
use lineshell::layout_listing;

fn chars(s: &str) -> Vec<char> {
    s.chars().collect()
}

fn text_of(v: &[char]) -> String {
    v.iter().collect()
}

fn entry(name: &str, is_directory: bool) -> ListingEntry {
    ListingEntry { name: chars(name), is_directory, is_hidden: false }
}

#[test]
fn names_wrap_at_the_terminal_width() {
    let entries = vec![entry("aaaa", false), entry("bbbb", false), entry("cc", false)];
    let items = layout_listing(&entries, 10, false);
    assert_eq!(items.len(), 3);
    assert_eq!(text_of(&items[0].name), "aaaa");
    assert_eq!(items[0].placement, Placement::Inline);
    assert_eq!(items[1].placement, Placement::NewRow);
    assert_eq!(items[2].placement, Placement::Inline);
}

#[test]
fn a_name_ending_the_row_exactly_closes_it() {
    let entries = vec![entry("aaaa", false), entry("b", false), entry("c", false)];
    let items = layout_listing(&entries, 8, false);
    assert_eq!(items[0].placement, Placement::Inline);
    assert_eq!(items[1].placement, Placement::RowEnd);
    assert_eq!(items[2].placement, Placement::Inline);
}

#[test]
fn hidden_entries_are_withheld_yet_still_take_columns() {
    let entries = vec![entry(".hh", false), entry("x", false)];
    let items = layout_listing(&entries, 6, false);
    assert_eq!(items.len(), 1);
    assert_eq!(text_of(&items[0].name), "x");
    assert_eq!(items[0].placement, Placement::NewRow);
}

#[test]
fn listing_hidden_entries_shows_them() {
    let entries = vec![
        entry(".config", true),
        ListingEntry { name: chars("secret"), is_directory: false, is_hidden: true },
        entry("plain", false),
    ];
    let shown = layout_listing(&entries, 100, true);
    assert_eq!(shown.len(), 3);
    let withheld = layout_listing(&entries, 100, false);
    assert_eq!(withheld.len(), 1);
    assert_eq!(text_of(&withheld[0].name), "plain");
}

#[test]
fn colour_classes_follow_name_and_kind() {
    assert_eq!(classify(&chars("Documents"), true), FileKind::Directory);
    assert_eq!(classify(&chars("game.lnk"), false), FileKind::Shortcut);
    assert_eq!(classify(&chars("notes.txt"), false), FileKind::Plain);
    assert_eq!(classify(&chars("lnk"), false), FileKind::Plain);
    assert_eq!(classify(&chars(".lnk"), false), FileKind::Shortcut);
}
