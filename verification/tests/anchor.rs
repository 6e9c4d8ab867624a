use gfm_table::anchor::hyphenate;
use gfm_table::GFMFormatter;

#[test]
fn hyphenate_replaces_every_space() {
    assert_eq!(hyphenate("a b  c "), "a-b--c-");
    assert_eq!(hyphenate(""), "");
    assert_eq!(hyphenate("NoSpaces"), "NoSpaces");
    assert_eq!(hyphenate("tab\tstays"), "tab\tstays");
}

#[test]
fn anchor_replaces_spaces_and_lowercases() {
    assert_eq!(GFMFormatter::encode_link("Benchmark Results"), "benchmark-results");
    assert_eq!(GFMFormatter::encode_link("Table of Contents"), "table-of-contents");
}

#[test]
fn anchor_is_the_same_on_every_call() {
    let first = GFMFormatter::encode_link("Fibonacci Numbers");
    let second = GFMFormatter::encode_link("Fibonacci Numbers");
    assert_eq!(first, second);
    assert_eq!(first, "fibonacci-numbers");
}

#[test]
fn anchor_without_spaces_is_the_lowercased_text() {
    assert_eq!(GFMFormatter::encode_link("Fibonacci"), "fibonacci");
    assert_eq!(GFMFormatter::encode_link("MiXeD"), "mixed");
}

#[test]
fn anchor_normalizes_nothing_else() {
    assert_eq!(GFMFormatter::encode_link("C++ (fast!)"), "c++-(fast!)");
    assert_eq!(GFMFormatter::encode_link("Émile Zola"), "émile-zola");
    assert_eq!(GFMFormatter::encode_link("already-lower_1"), "already-lower_1");
}

#[test]
fn anchor_lowercases_character_by_character() {
    // A capital sigma at the end of a word becomes the plain small sigma.
    assert_eq!(GFMFormatter::encode_link("ΟΔΟΣ"), "οδοσ");
}

#[test]
fn toc_link_shows_the_entry_and_links_to_the_anchor() {
    let mut buffer = String::new();
    GFMFormatter::write_toc_link(&mut buffer, "My Section", "somewhere", false);
    assert_eq!(buffer, "- [My Section](#somewhere)\n");
}

#[test]
fn toc_link_indents_by_four_spaces() {
    let mut buffer = String::from("x\n");
    GFMFormatter::write_toc_link(&mut buffer, "T", "t", true);
    assert_eq!(buffer, "x\n    - [T](#t)\n");
}

#[test]
fn toc_entry_derives_the_anchor() {
    let mut buffer = String::new();
    GFMFormatter::write_toc_entry(&mut buffer, "Benchmark Results", false);
    assert_eq!(buffer, "- [Benchmark Results](#benchmark-results)\n");
}

#[test]
fn toc_entry_of_a_table_is_indented() {
    let mut buffer = String::new();
    GFMFormatter::write_toc_entry(&mut buffer, "Fibonacci", true);
    assert_eq!(buffer, "    - [Fibonacci](#fibonacci)\n");
}
