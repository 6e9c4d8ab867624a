use gfm_table::comparison::Comparison;
use gfm_table::table::ColumnInfo;
use gfm_table::GFMFormatter;

fn ratio(value: f64) -> Comparison {
    Comparison::from_bits(value.to_bits())
}

fn column(name: &str, max_width: usize) -> ColumnInfo {
    ColumnInfo { name: name.to_string(), max_width }
}

fn bars(line: &str) -> Vec<usize> {
    line.chars().enumerate().filter(|(_, ch)| *ch == '|').map(|(at, _)| at).collect()
}

#[test]
fn used_column_with_a_rocket_is_bold() {
    let mut buffer = String::new();
    GFMFormatter.used_column(&mut buffer, "15 ns", "8.00x faster", ratio(8.0), 17);
    assert_eq!(buffer, "| `15 ns` (🚀 **8.00x faster**) ");
    assert_eq!(buffer.chars().count(), 17 + 11 + 3);
}

#[test]
fn used_column_with_a_check_is_bold() {
    let mut buffer = String::new();
    GFMFormatter.used_column(&mut buffer, "120 ns", "1.00x", ratio(1.0), 11);
    assert_eq!(buffer, "| `120 ns` (✅ **1.00x**) ");
}

#[test]
fn used_column_with_a_cross_is_italic() {
    let mut buffer = String::new();
    GFMFormatter.used_column(&mut buffer, "2 s", "2.00x slower", ratio(0.5), 15);
    assert_eq!(buffer, "| `2 s` (❌ *2.00x slower*)   ");
    assert_eq!(buffer.chars().count(), 15 + 11 + 3);
}

#[test]
fn used_column_at_the_even_point_is_plain() {
    let mut buffer = String::new();
    GFMFormatter.used_column(&mut buffer, "1 s", "0.90x", ratio(0.9), 8);
    assert_eq!(buffer, "| `1 s` (0.90x)       ");
    assert_eq!(buffer.chars().count(), 8 + 11 + 3);
}

#[test]
fn used_column_pads_to_the_column() {
    let mut buffer = String::new();
    GFMFormatter.used_column(&mut buffer, "1", "2", ratio(2.0), 10);
    assert_eq!(buffer, "| `1` (🚀 **2**)         ");
    assert_eq!(buffer.chars().count(), 10 + 11 + 3);
}

#[test]
fn used_column_that_is_one_over_the_width_gets_no_padding() {
    let mut buffer = String::new();
    GFMFormatter.used_column(&mut buffer, "12", "34", ratio(2.0), 3);
    assert_eq!(buffer, "| `12` (🚀 **34**)");
    assert_eq!(buffer.chars().count(), 3 + 11 + 3);
}

#[test]
fn used_column_appends_to_what_is_there() {
    let mut buffer = String::from("| **`row`** ");
    GFMFormatter.used_column(&mut buffer, "1 s", "1.00x", ratio(1.0), 8);
    assert_eq!(buffer, "| **`row`** | `1 s` (✅ **1.00x**) ");
}

#[test]
fn unused_column_is_the_placeholder_and_padding() {
    let mut buffer = String::new();
    GFMFormatter.unused_column(&mut buffer, 3);
    assert_eq!(buffer, "| `N/A`          ");
    assert_eq!(buffer.chars().count(), 3 + 11 + 3);
    assert!(!buffer.contains('('));
}

#[test]
fn unused_column_of_zero_width() {
    let mut buffer = String::new();
    GFMFormatter.unused_column(&mut buffer, 0);
    assert_eq!(buffer, "| `N/A`       ");
}

#[test]
fn start_row_wraps_the_label_in_a_bold_code_span() {
    let mut buffer = String::new();
    GFMFormatter.start_row(&mut buffer, "fib_20", 6);
    assert_eq!(buffer, "| **`fib_20`** ");
}

#[test]
fn start_row_pads_a_short_label() {
    let mut buffer = String::new();
    GFMFormatter.start_row(&mut buffer, "a", 4);
    assert_eq!(buffer, "| **`a`**    ");
    assert_eq!(buffer.chars().count(), 4 + 6 + 3);
}

#[test]
fn start_row_without_a_label_is_the_marker_and_padding() {
    let mut buffer = String::new();
    GFMFormatter.start_row(&mut buffer, "", 4);
    assert_eq!(buffer, "|            ");
    assert_eq!(buffer.chars().count(), 4 + 6 + 3);
    assert!(!buffer.contains('`'));
    assert!(!buffer.contains('*'));
}

#[test]
fn start_row_counts_characters_not_bytes() {
    let mut buffer = String::new();
    GFMFormatter.start_row(&mut buffer, "żółw", 5);
    assert_eq!(buffer, "| **`żółw`**  ");
    assert_eq!(buffer.chars().count(), 5 + 6 + 3);
}

#[test]
fn end_row_closes_the_line() {
    let mut buffer = String::from("x");
    GFMFormatter.end_row(&mut buffer);
    assert_eq!(buffer, "x |\n");
}

#[test]
fn end_table_is_a_blank_line() {
    let mut buffer = String::from("x |\n");
    GFMFormatter.end_table(&mut buffer);
    assert_eq!(buffer, "x |\n\n");
}

#[test]
fn start_table_with_the_label_column_alone() {
    let mut buffer = String::new();
    GFMFormatter.start_table(&mut buffer, "T", None, &[column("", 2)]);
    assert_eq!(buffer, "### T\n\n|           |\n|:--------- |\n");
}

#[test]
fn start_table_writes_title_header_and_delimiter() {
    let mut buffer = String::new();
    let columns = [column("", 0), column("naive", 5), column("memo", 4)];
    GFMFormatter.start_table(&mut buffer, "Fibonacci", None, &columns);
    let expected = concat_lines(&[
        "### Fibonacci",
        "",
        "|        | `naive`          | `memo`           |",
        "|:-------|:-----------------|:---------------- |",
    ]);
    assert_eq!(buffer, expected);
}

fn concat_lines(lines: &[&str]) -> String {
    let mut text = String::new();
    for line in lines {
        text.push_str(line);
        text.push('\n');
    }
    text
}

#[test]
fn start_table_writes_the_comment_on_its_own_line() {
    let mut buffer = String::new();
    GFMFormatter.start_table(&mut buffer, "T", Some("About T."), &[column("", 0)]);
    assert_eq!(buffer, "### T\n\nAbout T.\n|         |\n|:------- |\n");
}

#[test]
fn start_table_header_that_is_one_over_the_width() {
    let mut buffer = String::new();
    let columns = [column("", 0), column("0123456789", 0)];
    GFMFormatter.start_table(&mut buffer, "T", None, &columns);
    assert_eq!(
        buffer,
        "### T\n\n|        | `0123456789` |\n|:-------|:------------ |\n"
    );
}

#[test]
fn round_trip_of_one_table() {
    // Widths as a builder of the data computes them: the widest label, and
    // the widest time and ratio of each column.
    let mut formatter = GFMFormatter;
    let mut buffer = String::new();
    let columns = [column("", 6), column("naive", 11), column("memo", 10)];
    formatter.start_table(&mut buffer, "Fibonacci", None, &columns);
    formatter.start_row(&mut buffer, "fib_20", 6);
    formatter.used_column(&mut buffer, "120 ns", "1.00x", ratio(1.0), 11);
    formatter.used_column(&mut buffer, "15 ns", "8.00x", ratio(8.0), 10);
    formatter.end_row(&mut buffer);
    formatter.end_table(&mut buffer);

    let expected = concat_lines(&[
        "### Fibonacci",
        "",
        "|              | `naive`                | `memo`                 |",
        "|:-------------|:-----------------------|:---------------------- |",
        "| **`fib_20`** | `120 ns` (✅ **1.00x**) | `15 ns` (🚀 **8.00x**)  |",
        "",
    ]);
    assert_eq!(buffer, expected);

    let lines: Vec<&str> = buffer.lines().collect();
    assert!(lines[2].contains("`naive`"));
    assert!(lines[2].contains("`memo`"));
    assert_eq!(lines[2].chars().count(), lines[3].chars().count());
    assert_eq!(lines[2].chars().count(), lines[4].chars().count());
    assert_eq!(bars(lines[2]), bars(lines[3]));
    assert_eq!(bars(lines[2]), bars(lines[4]));
    assert!(lines[4].contains("(✅ **1.00x**)"));
    assert!(lines[4].contains("(🚀 **8.00x**)"));
}

#[test]
fn round_trip_with_the_widths_of_the_scenario() {
    // The widths that the scenario names are those of the column names; the
    // cells hold values that fit them.
    let mut formatter = GFMFormatter;
    let mut buffer = String::new();
    let columns = [column("", 0), column("naive", 5), column("memo", 4)];
    formatter.start_table(&mut buffer, "Fibonacci", None, &columns);
    formatter.start_row(&mut buffer, "", 0);
    formatter.used_column(&mut buffer, "1s", "1x", ratio(1.0), 5);
    formatter.used_column(&mut buffer, "1s", "8x", ratio(8.0), 4);
    formatter.end_row(&mut buffer);
    formatter.end_table(&mut buffer);
    let expected = concat_lines(&[
        "### Fibonacci",
        "",
        "|        | `naive`          | `memo`           |",
        "|:-------|:-----------------|:---------------- |",
        "|        | `1s` (✅ **1x**)  | `1s` (🚀 **8x**)  |",
        "",
    ]);
    assert_eq!(buffer, expected);
}

#[test]
fn column_boundaries_are_at_the_same_offsets_on_every_line() {
    let mut formatter = GFMFormatter;
    let mut buffer = String::new();
    let columns = [column("", 9), column("first", 12), column("second one", 14), column("x", 3)];
    formatter.start_table(&mut buffer, "Mixed", Some("Cells of many lengths."), &columns);

    formatter.start_row(&mut buffer, "long_name", 9);
    formatter.used_column(&mut buffer, "1.00 s", "1.00x", ratio(1.0), 12);
    formatter.used_column(&mut buffer, "12.50 ms", "80.00x", ratio(80.0), 14);
    formatter.unused_column(&mut buffer, 3);
    formatter.end_row(&mut buffer);

    formatter.start_row(&mut buffer, "", 9);
    formatter.used_column(&mut buffer, "2 s", "0.50x", ratio(0.5), 12);
    formatter.used_column(&mut buffer, "9 s", "0.90x", ratio(0.9), 14);
    formatter.used_column(&mut buffer, "1", "2", ratio(1.9), 3);
    formatter.end_row(&mut buffer);

    formatter.start_row(&mut buffer, "b", 9);
    formatter.unused_column(&mut buffer, 12);
    formatter.unused_column(&mut buffer, 14);
    formatter.used_column(&mut buffer, "12", "34", ratio(0.1), 3);
    formatter.end_row(&mut buffer);
    formatter.end_table(&mut buffer);

    let lines: Vec<&str> = buffer.lines().collect();
    assert_eq!(lines.len(), 9);
    let header = bars(lines[3]);
    assert_eq!(header, vec![0, 9 + 9, 9 + 9 + 12 + 14, 9 + 9 + 12 + 14 + 14 + 14, 9 + 9 + 12 + 14 + 14 + 14 + 3 + 14 + 1]);
    for line in &lines[4..8] {
        assert_eq!(bars(line), header);
        assert_eq!(line.chars().count(), lines[3].chars().count());
    }
    assert_eq!(lines[8], "");
}
