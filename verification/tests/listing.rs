use hop::listing::{column_width, list_shortcuts, render_row};
use hop::output::{text_of_line, Span, Style};
use hop::store::{Shortcut, Store};

fn listing_store(entries: &[(&str, &str)]) -> Store {
    let mut store = Store::new();
    for (name, path) in entries {
        store.set(String::from(*name), String::from(*path));
    }
    store
}

fn listing_texts(lines: &Vec<Vec<Span>>) -> Vec<String> {
    let mut texts = Vec::new();
    for line in lines {
        texts.push(text_of_line(line));
    }
    texts
}

#[test]
fn the_empty_store_is_listed_as_a_hint() {
    let lines = list_shortcuts(&Store::new());
    assert_eq!(
        lines,
        vec![vec![Span {
            text: String::from("No shortcuts yet. Use `hop add <name>` to add one."),
            style: Style::Plain,
        }]]
    );
}

#[test]
fn each_shortcut_is_listed_with_its_name_filled_up() {
    let store = listing_store(&[("work", "/srv/work"), ("p", "~/code/proj"), ("api", "~/api")]);
    let lines = list_shortcuts(&store);
    assert_eq!(
        listing_texts(&lines),
        vec!["api  -> ~/api", "p    -> ~/code/proj", "work -> /srv/work"]
    );
}

#[test]
fn the_parts_of_a_listed_line_have_their_roles() {
    let store = listing_store(&[("work", "/srv/work"), ("p", "~/code/proj")]);
    let lines = list_shortcuts(&store);
    assert_eq!(
        lines[0],
        vec![
            Span { text: String::from("p   "), style: Style::Name },
            Span { text: String::from(" -> "), style: Style::Plain },
            Span { text: String::from("~/code/proj"), style: Style::Path },
        ]
    );
}

#[test]
fn a_single_shortcut_is_listed_without_filling() {
    let store = listing_store(&[("proj", "~/code/proj")]);
    assert_eq!(listing_texts(&list_shortcuts(&store)), vec!["proj -> ~/code/proj"]);
}

#[test]
fn the_width_is_counted_in_bytes_and_filled_in_characters() {
    let shortcuts = vec![
        Shortcut { name: String::from("ab"), path: String::from("/a") },
        Shortcut { name: String::from("éé"), path: String::from("/e") },
        Shortcut { name: String::from("x"), path: String::from("/x") },
    ];
    assert_eq!(column_width(&shortcuts), 4);
    assert_eq!(column_width(&Vec::new()), 0);
    let store = listing_store(&[("ab", "/a"), ("éé", "/e"), ("x", "/x")]);
    assert_eq!(
        listing_texts(&list_shortcuts(&store)),
        vec!["ab   -> /a", "x    -> /x", "éé   -> /e"]
    );
}

#[test]
fn render_row_does_not_cut_a_long_name() {
    let shortcut = Shortcut { name: String::from("project"), path: String::from("/p") };
    assert_eq!(text_of_line(&render_row(&shortcut, 3)), "project -> /p");
    assert_eq!(text_of_line(&render_row(&shortcut, 9)), "project   -> /p");
}
