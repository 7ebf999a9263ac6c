use mpris_presence::errors::AppError;
use mpris_presence::metadata::{value_to_string, MetaValue, Metadata};
use mpris_presence::template::{find_placeholder, render, replace_all};

fn md(pairs: &[(&str, MetaValue)]) -> Metadata {
    let mut m = Metadata::new();
    for (k, v) in pairs {
        m.insert(k.to_string(), v.clone());
    }
    m
}

#[test]
fn renders_single_field_template() {
    let metadata = md(&[("xesam:title", MetaValue::Str("Song".to_string()))]);
    let templates = vec!["Playing {title}".to_string()];
    let rows = render(&templates, &metadata).unwrap();
    assert_eq!(rows, vec!["Playing Song".to_string(), String::new(), String::new()]);
}

#[test]
fn missing_field_aborts_whole_render() {
    let metadata = md(&[("xesam:artist", MetaValue::Str("Band".to_string()))]);
    let templates = vec!["by {artist}".to_string(), "Playing {title}".to_string()];
    let e = render(&templates, &metadata).unwrap_err();
    assert_eq!(e, AppError::FieldNotFound("title".to_string()));
}

#[test]
fn list_value_joins_with_comma_space() {
    let v = MetaValue::List(vec!["A".to_string(), "B".to_string()]);
    assert_eq!(value_to_string(&v), "A, B");
}

#[test]
fn unsupported_value_renders_placeholder() {
    assert_eq!(value_to_string(&MetaValue::Other), "<unsupported>");
    let metadata = md(&[("xesam:autoRating", MetaValue::Other)]);
    let templates = vec!["rated {autoRating}".to_string()];
    let rows = render(&templates, &metadata).unwrap();
    assert_eq!(rows[0], "rated <unsupported>");
}

#[test]
fn template_without_brackets_looks_up_empty_field() {
    let metadata = md(&[("xesam:title", MetaValue::Str("Song".to_string()))]);
    let templates = vec!["no field here".to_string()];
    let e = render(&templates, &metadata).unwrap_err();
    assert_eq!(e, AppError::FieldNotFound(String::new()));
}

#[test]
fn only_first_three_templates_are_rendered() {
    let metadata = md(&[("xesam:title", MetaValue::Str("S".to_string()))]);
    let templates = vec![
        "{title}".to_string(),
        "{title}!".to_string(),
        "{title}?".to_string(),
        "{missing}".to_string(),
    ];
    let rows = render(&templates, &metadata).unwrap();
    assert_eq!(rows, vec!["S".to_string(), "S!".to_string(), "S?".to_string()]);
}

#[test]
fn surrounding_text_is_preserved_and_all_occurrences_substituted() {
    let metadata = md(&[("xesam:t", MetaValue::Str("x".to_string()))]);
    let templates = vec!["<{t}> and {t} again".to_string()];
    let rows = render(&templates, &metadata).unwrap();
    assert_eq!(rows[0], "<x> and x again");
}

#[test]
fn placeholder_search_skips_empty_brackets() {
    assert_eq!(find_placeholder("a{}b{y}"), Some((4, 6)));
    assert_eq!(find_placeholder("plain"), None);
    assert_eq!(find_placeholder("{a{b}"), Some((0, 4)));
    assert_eq!(find_placeholder("open {only"), None);
}

#[test]
fn replace_all_is_leftmost_non_overlapping() {
    assert_eq!(replace_all("aaa", "aa", "b"), "ba");
    assert_eq!(replace_all("{t}{t}", "{t}", "."), "..");
    assert_eq!(replace_all("nothing", "{t}", "."), "nothing");
}
