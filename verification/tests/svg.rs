use scrapbot::utils::svg::{load_xml, svg_outline, ShapeKind, SvgError};

const LEVEL: &str = r#"<svg width="10">
  <title>First level</title>
  <g id="layer">
    <path id="wall" d="M 0 0 L 1 1"/>
    <!-- a note -->
    <g><ellipse id="spawn" cx="1" cy="2" rx="3" ry="4"/></g>
  </g>
  <rect id="exit" x="0" y="0" width="1" height="1"/>
  <circle id="turret" cx="5" cy="5" r="1"/>
  <text>ignored</text>
</svg>"#;

#[test]
fn load_xml_keeps_elements_attributes_and_text() {
    let root = load_xml(LEVEL.as_bytes()).unwrap();
    assert_eq!(root.name, "svg");
    assert_eq!(root.get_attr("width").unwrap(), "10");
    let names: Vec<&str> = root.elements.iter().map(|e| e.name.as_str()).collect();
    assert_eq!(names, vec!["title", "g", "rect", "circle", "text"]);
    assert_eq!(root.elements[0].content.as_deref(), Some("First level"));
    assert_eq!(root.elements[1].content, None);
    assert_eq!(root.elements[1].elements.len(), 2);
    assert_eq!(root.elements[2].get_attr("width").unwrap(), "1");
}

#[test]
fn load_xml_takes_first_text_as_content() {
    let root = load_xml(b"<a>one<b/>two</a>").unwrap();
    assert_eq!(root.content.as_deref(), Some("one"));
    assert_eq!(root.elements.len(), 1);
    assert_eq!(root.elements[0].name, "b");
}

#[test]
fn load_xml_refuses_malformed_text() {
    assert!(load_xml(b"<svg><g></svg>").is_err());
    assert!(load_xml(b"").is_err());
}

#[test]
fn get_attr_names_missing_attribute() {
    let root = load_xml(LEVEL.as_bytes()).unwrap();
    let rect = &root.elements[2];
    assert_eq!(rect.get_attr("id").unwrap(), "exit");
    assert_eq!(
        rect.get_attr("cx").unwrap_err(),
        "No such attribute: cx in rect".to_string()
    );
}

#[test]
fn outline_lists_shapes_in_document_order() {
    let root = load_xml(LEVEL.as_bytes()).unwrap();
    let outline = svg_outline(&root).unwrap();
    let shapes: Vec<(ShapeKind, &str)> = outline
        .shapes
        .iter()
        .map(|(k, e)| (*k, e.get_attr("id").unwrap()))
        .collect();
    assert_eq!(
        shapes,
        vec![
            (ShapeKind::Path, "wall"),
            (ShapeKind::Ellipse, "spawn"),
            (ShapeKind::Rect, "exit"),
            (ShapeKind::Circle, "turret"),
        ]
    );
    assert_eq!(outline.title.as_deref(), Some("First level"));
}

#[test]
fn outline_takes_last_title() {
    let root = load_xml(b"<svg><title>a</title><g><title>b</title></g><path d=\"M 0 0\"/></svg>").unwrap();
    let outline = svg_outline(&root).unwrap();
    assert_eq!(outline.title.as_deref(), Some("b"));
    assert_eq!(outline.shapes.len(), 1);
    let root = load_xml(b"<svg><title>a</title><title/><rect/></svg>").unwrap();
    assert_eq!(svg_outline(&root).unwrap().title, None);
}

#[test]
fn outline_of_empty_svg_is_an_error() {
    let root = load_xml(b"<svg><title>t</title><g><text>x</text></g></svg>").unwrap();
    assert!(matches!(svg_outline(&root), Err(SvgError::Empty)));
}
