use markstx::error::ProcessorErrorType;
use markstx::frontmatter::{FrontMatter, PageOrientation, PageSize};
use markstx::preamble::Preamble;
use markstx::yaml::{find, parse_yaml, text_of_scalar, YamlNode};

fn text(value: &str) -> YamlNode {
    YamlNode::Text(value.to_string())
}

fn mapping(entries: Vec<(&str, YamlNode)>) -> YamlNode {
    YamlNode::Mapping(entries.into_iter().map(|(key, value)| (text(key), value)).collect())
}

fn complaint(yaml: &str) -> String {
    Preamble::from_yaml_str(yaml).unwrap_err()
}

fn settings(yaml: &str) -> FrontMatter {
    FrontMatter::from_yaml_str(yaml).unwrap()
}

#[test]
fn yaml_scalars_are_read() {
    assert!(matches!(parse_yaml("").unwrap(), YamlNode::Null));
    assert!(matches!(parse_yaml("~").unwrap(), YamlNode::Null));
    assert!(matches!(parse_yaml("true").unwrap(), YamlNode::Bool(true)));
    assert!(matches!(parse_yaml("12").unwrap(), YamlNode::Number(number) if number == "12"));
    assert!(matches!(parse_yaml("-3").unwrap(), YamlNode::Number(number) if number == "-3"));
    assert!(matches!(parse_yaml("1.5").unwrap(), YamlNode::Number(number) if number == "1.5"));
    assert!(matches!(parse_yaml("word").unwrap(), YamlNode::Text(word) if word == "word"));
    assert!(matches!(parse_yaml("\"12\"").unwrap(), YamlNode::Text(word) if word == "12"));
}

#[test]
fn yaml_collections_are_read() {
    match parse_yaml("- a\n- 1\n- [b]\n").unwrap() {
        YamlNode::Sequence(items) => {
            assert_eq!(items.len(), 3);
            assert!(matches!(&items[0], YamlNode::Text(word) if word == "a"));
            assert!(matches!(&items[1], YamlNode::Number(number) if number == "1"));
            assert!(matches!(&items[2], YamlNode::Sequence(inner) if inner.len() == 1));
        }
        other => panic!("not a sequence: {other:?}"),
    }
    match parse_yaml("b: 1\na:\n  c: d\n").unwrap() {
        YamlNode::Mapping(entries) => {
            assert_eq!(entries.len(), 2);
            assert!(matches!(&entries[0].0, YamlNode::Text(key) if key == "b"));
            assert!(matches!(&entries[1].0, YamlNode::Text(key) if key == "a"));
            assert!(matches!(&entries[1].1, YamlNode::Mapping(inner) if inner.len() == 1));
        }
        other => panic!("not a mapping: {other:?}"),
    }
    match parse_yaml("!unit 3cm").unwrap() {
        YamlNode::Tagged(tag, inner) => {
            assert_eq!(tag, "!unit");
            assert!(matches!(*inner, YamlNode::Text(word) if word == "3cm"));
        }
        other => panic!("not a tagged value: {other:?}"),
    }
}

#[test]
fn yaml_that_is_broken_is_refused() {
    assert!(parse_yaml("a: [1, 2").is_err());
    assert!(parse_yaml("a: b: c").is_err());
    assert!(parse_yaml("--- a\n--- b\n").is_err());
}

#[test]
fn entries_are_found_by_their_key() {
    let entries = match mapping(vec![("a", text("1")), ("b", text("2")), ("a", text("3"))]) {
        YamlNode::Mapping(entries) => entries,
        _ => unreachable!(),
    };
    assert!(matches!(find(&entries, "a"), Some(YamlNode::Text(value)) if value == "1"));
    assert!(matches!(find(&entries, "b"), Some(YamlNode::Text(value)) if value == "2"));
    assert!(find(&entries, "c").is_none());
    assert!(find(&Vec::new(), "a").is_none());
    let numbered = vec![(YamlNode::Number("1".to_string()), text("x"))];
    assert!(find(&numbered, "1").is_none());
}

#[test]
fn scalars_have_a_text() {
    assert_eq!(text_of_scalar(&text("a")), Some("a".to_string()));
    assert_eq!(text_of_scalar(&YamlNode::Number("2024".to_string())), Some("2024".to_string()));
    assert_eq!(text_of_scalar(&YamlNode::Bool(true)), Some("true".to_string()));
    assert_eq!(text_of_scalar(&YamlNode::Bool(false)), Some("false".to_string()));
    assert_eq!(text_of_scalar(&YamlNode::Null), None);
    assert_eq!(text_of_scalar(&YamlNode::Sequence(Vec::new())), None);
    assert_eq!(text_of_scalar(&YamlNode::Mapping(Vec::new())), None);
    assert_eq!(text_of_scalar(&YamlNode::Tagged("!t".to_string(), Box::new(text("a")))), None);
}

#[test]
fn empty_preamble_text_gives_the_defaults() {
    for yaml in ["", "\n", "# nothing\n", "{}", "document:\npage:\n", "page:\n  margin:\n  size:\n"] {
        let given = settings(yaml);
        assert_eq!(given.document.title, "Untitled Document");
        assert_eq!(given.page.margin.top, "0.75in");
        assert_eq!(given.page.margin.right, "0.75in");
        assert_eq!(given.page.margin.bottom, "0.75in");
        assert_eq!(given.page.margin.left, "0.75in");
        match given.page.size {
            PageSize::Named { name, orientation } => {
                assert_eq!(name, "A4");
                assert_eq!(orientation, PageOrientation::Portrait);
            }
            PageSize::Explicit { .. } => panic!("the default page size is a named one"),
        }
    }
}

#[test]
fn full_preamble_is_read() {
    let given = settings(
        "document:\n  title: Annual Report\npage:\n  size:\n    name: Letter\n    orientation: landscape\n  margin:\n    top: 1in\n    right: 2in\n    bottom: 3in\n    left: 4in\n",
    );
    assert_eq!(given.document.title, "Annual Report");
    assert_eq!(given.page.margin.top, "1in");
    assert_eq!(given.page.margin.right, "2in");
    assert_eq!(given.page.margin.bottom, "3in");
    assert_eq!(given.page.margin.left, "4in");
    match given.page.size {
        PageSize::Named { name, orientation } => {
            assert_eq!(name, "Letter");
            assert_eq!(orientation, PageOrientation::Landscape);
        }
        PageSize::Explicit { .. } => panic!("the page size was named"),
    }
}

#[test]
fn partial_preamble_falls_back_to_the_defaults() {
    let given = settings("page:\n  margin:\n    left: 1cm\n");
    assert_eq!(given.document.title, "Untitled Document");
    assert_eq!(given.page.margin.left, "1cm");
    assert_eq!(given.page.margin.top, "0.75in");
    assert!(matches!(given.page.size, PageSize::Named { .. }));
    let given = settings("document:\n  title: Only a title\n");
    assert_eq!(given.document.title, "Only a title");
    assert_eq!(given.page.margin.bottom, "0.75in");
}

#[test]
fn explicit_page_size_is_read() {
    let given = settings("page: {size: {width: 10cm, height: 20cm}}");
    match given.page.size {
        PageSize::Explicit { width, height } => {
            assert_eq!(width, "10cm");
            assert_eq!(height, "20cm");
        }
        PageSize::Named { .. } => panic!("the page size was given by its sides"),
    }
}

#[test]
fn named_page_size_comes_before_an_explicit_one() {
    let given = settings("page: {size: {width: 1, height: 2, name: A5, orientation: portrait}}");
    assert!(matches!(given.page.size, PageSize::Named { name, .. } if name == "A5"));
    let given = settings("page: {size: {width: 1, height: 2, name: A5, orientation: upright}}");
    assert!(matches!(given.page.size, PageSize::Explicit { width, height } if width == "1" && height == "2"));
}

#[test]
fn numbers_and_truth_values_are_texts() {
    let given = settings("document: {title: 2024}\npage: {margin: {top: 1.5, left: true}}");
    assert_eq!(given.document.title, "2024");
    assert_eq!(given.page.margin.top, "1.5");
    assert_eq!(given.page.margin.left, "true");
}

#[test]
fn other_keys_are_passed_over() {
    let given = settings("author: me\ndocument:\n  title: T\n  subtitle: S\nextra: [1, 2]\n");
    assert_eq!(given.document.title, "T");
}

#[test]
fn preamble_that_is_no_mapping_is_refused() {
    assert_eq!(complaint("- a\n- b\n"), "preamble: expected a mapping");
    assert_eq!(complaint("just a text"), "preamble: expected a mapping");
    assert_eq!(complaint("12"), "preamble: expected a mapping");
}

#[test]
fn sections_that_are_no_mappings_are_refused() {
    assert_eq!(complaint("document: a title"), "document: expected a mapping");
    assert_eq!(complaint("page: [a4]"), "page: expected a mapping");
    assert_eq!(complaint("page: {margin: 1in}"), "page.margin: expected a mapping");
}

#[test]
fn settings_of_the_wrong_type_are_refused() {
    assert_eq!(complaint("document: {title: [a, b]}"), "document.title: expected a text");
    assert_eq!(complaint("document: {title: {a: b}}"), "document.title: expected a text");
    assert_eq!(complaint("page: {margin: {top: [1]}}"), "page.margin.top: expected a text");
    assert_eq!(complaint("page: {margin: {right: {}}}"), "page.margin.right: expected a text");
    assert_eq!(complaint("page: {margin: {bottom: !x 1}}"), "page.margin.bottom: expected a text");
    assert_eq!(complaint("page: {margin: {left: []}}"), "page.margin.left: expected a text");
}

#[test]
fn page_sizes_of_no_shape_are_refused() {
    let words = "page.size: expected name and orientation, or width and height";
    assert_eq!(complaint("page: {size: A4}"), words);
    assert_eq!(complaint("page: {size: {name: A4}}"), words);
    assert_eq!(complaint("page: {size: {name: A4, orientation: sideways}}"), words);
    assert_eq!(complaint("page: {size: {name: A4, orientation: 1}}"), words);
    assert_eq!(complaint("page: {size: {width: 10cm}}"), words);
    assert_eq!(complaint("page: {size: {width: 10cm, height: [1]}}"), words);
    assert_eq!(complaint("page: {size: {}}"), words);
    assert_eq!(complaint("page: {size: [10cm, 20cm]}"), words);
}

#[test]
fn first_complaint_wins() {
    assert_eq!(
        complaint("document: {title: []}\npage: {size: A4}"),
        "document.title: expected a text"
    );
    assert_eq!(
        complaint("page: {size: A4, margin: 3}"),
        "page.size: expected name and orientation, or width and height"
    );
    assert_eq!(
        complaint("page: {margin: {left: [], top: []}}"),
        "page.margin.top: expected a text"
    );
}

#[test]
fn broken_yaml_is_a_malformed_preamble() {
    let failed = FrontMatter::from_yaml_str("document: [").unwrap_err();
    assert!(matches!(failed.error, ProcessorErrorType::MalformedPreamble(_)));
    assert!(failed.message().starts_with("frontmatter invalid: "));
    let failed = FrontMatter::from_yaml_str("page: 3").unwrap_err();
    assert!(matches!(&failed.error, ProcessorErrorType::MalformedPreamble(words) if words == "page: expected a mapping"));
    assert_eq!(failed.message(), "frontmatter invalid: page: expected a mapping");
}

#[test]
fn preamble_from_a_tree() {
    let tree = mapping(vec![
        ("document", mapping(vec![("title", text("T"))])),
        ("page", mapping(vec![("margin", mapping(vec![("top", YamlNode::Number("1".to_string()))]))])),
    ]);
    let preamble = Preamble::from_tree(&tree).unwrap();
    assert_eq!(preamble.document.unwrap().title, Some("T".to_string()));
    let page = preamble.page.unwrap();
    assert!(page.size.is_none());
    let margin = page.margin.unwrap();
    assert_eq!(margin.top, Some("1".to_string()));
    assert_eq!(margin.right, None);
    let preamble = Preamble::from_tree(&YamlNode::Null).unwrap();
    assert!(preamble.document.is_none() && preamble.page.is_none());
    assert_eq!(
        Preamble::from_tree(&YamlNode::Bool(true)).unwrap_err(),
        "preamble: expected a mapping"
    );
}
