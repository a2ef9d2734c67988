use vstd::prelude::*;
use crate::utils::text::push_str;

verus! {

#[verifier::external_type_specification]
#[verifier::external_body]
pub struct ExXmlElement(xmltree::Element);

/// An element as the XML reader hands it over: its name, its attributes
/// (each name once) and all its children.
pub struct RawElement {
    pub name: String,
    pub attributes: Vec<(String, String)>,
    pub children: Vec<RawNode>,
}

/// A child of an element, as the XML reader hands it over.
pub enum RawNode {
    Element(RawElement),
    Comment(String),
    CData(String),
    Text(String),
    Instruction(String, Option<String>),
}

/// What a parsed element is, attributes taken as a map.
pub struct XmlView {
    pub name: Seq<char>,
    pub attributes: Map<Seq<char>, Seq<char>>,
    pub children: Seq<XmlNodeView>,
}

/// What a child of a parsed element is.
pub enum XmlNodeView {
    Element(XmlView),
    Comment(Seq<char>),
    CData(Seq<char>),
    Text(Seq<char>),
    Instruction(Seq<char>, Option<Seq<char>>),
}

/// Attributes as a map; of two entries with one name the first counts.
pub open spec fn attr_map(attrs: Seq<(String, String)>) -> Map<Seq<char>, Seq<char>>
    decreases attrs.len(),
{
    if attrs.len() == 0 {
        Map::empty()
    } else {
        attr_map(attrs.drop_first()).insert(attrs[0].0@, attrs[0].1@)
    }
}

pub open spec fn raw_view(e: RawElement) -> XmlView
    decreases e,
{
    XmlView { name: e.name@, attributes: attr_map(e.attributes@), children: raw_nodes_view(e.children@) }
}

pub open spec fn raw_nodes_view(ns: Seq<RawNode>) -> Seq<XmlNodeView>
    decreases ns,
{
    if ns.len() == 0 {
        Seq::empty()
    } else {
        raw_nodes_view(ns.drop_last()).push(raw_node_view(ns.last()))
    }
}

pub open spec fn raw_node_view(n: RawNode) -> XmlNodeView
    decreases n,
{
    match n {
        RawNode::Element(e) => XmlNodeView::Element(raw_view(e)),
        RawNode::Comment(s) => XmlNodeView::Comment(s@),
        RawNode::CData(s) => XmlNodeView::CData(s@),
        RawNode::Text(s) => XmlNodeView::Text(s@),
        RawNode::Instruction(a, b) => XmlNodeView::Instruction(
            a@,
            match b {
                Some(s) => Some(s@),
                None => None,
            },
        ),
    }
}

/// Outcome of xmltree's `Element::parse` on some bytes: the root element,
/// or the parser's error message.
pub uninterp spec fn xml_parse(bytes: Seq<u8>) -> Result<XmlView, Seq<char>>;

/// Parses XML with xmltree's `Element::parse` and hands the root element
/// over node for node, or the parse error's message. The contract claims
/// only that this outcome, attributes taken as a map (xmltree keeps them in
/// a hash map, whose order is not fixed), is a function of the bytes.
#[verifier::external_body]
fn parse_xml(file: &[u8]) -> (r: Result<RawElement, String>)
    ensures
        match r {
            Ok(e) => xml_parse(file@) == Ok::<XmlView, Seq<char>>(raw_view(e)),
            Err(m) => xml_parse(file@) == Err::<XmlView, Seq<char>>(m@),
        },
{
    match xmltree::Element::parse(file) {
        Ok(e) => Ok(raw_element(&e)),
        Err(error) => Err(format!("{}", error)),
    }
}

/// Hands an xmltree element over field for field, its children node for
/// node (the conversion step of `parse_xml`).
#[verifier::external_body]
fn raw_element(e: &xmltree::Element) -> RawElement {
    RawElement {
        name: e.name.clone(),
        attributes: e.attributes.iter().map(|(k, v)| (k.clone(), v.clone())).collect(),
        children: e.children.iter().map(|n| match n {
            xmltree::XMLNode::Element(c) => RawNode::Element(raw_element(c)),
            xmltree::XMLNode::Comment(t) => RawNode::Comment(t.clone()),
            xmltree::XMLNode::CData(t) => RawNode::CData(t.clone()),
            xmltree::XMLNode::Text(t) => RawNode::Text(t.clone()),
            xmltree::XMLNode::ProcessingInstruction(a, b) => RawNode::Instruction(a.clone(), b.clone()),
        }).collect(),
    }
}

/// What an element of a document is to the rest of the library.
pub struct ElementView {
    pub name: Seq<char>,
    pub attrs: Map<Seq<char>, Seq<char>>,
    pub elements: Seq<ElementView>,
    pub content: Option<Seq<char>>,
}

/// A parsed element: its name, its attributes, its child elements in
/// document order, and the first piece of text directly inside it.
pub struct XmlElement {
    pub name: String,
    pub attrs: Vec<(String, String)>,
    pub elements: Vec<XmlElement>,
    pub content: Option<String>,
}

pub open spec fn text_view(t: Option<String>) -> Option<Seq<char>> {
    match t {
        Some(s) => Some(s@),
        None => None,
    }
}

pub open spec fn element_view(e: XmlElement) -> ElementView
    decreases e,
{
    ElementView {
        name: e.name@,
        attrs: attr_map(e.attrs@),
        elements: elements_view(e.elements@),
        content: text_view(e.content),
    }
}

pub open spec fn elements_view(es: Seq<XmlElement>) -> Seq<ElementView>
    decreases es,
{
    if es.len() == 0 {
        Seq::empty()
    } else {
        elements_view(es.drop_last()).push(element_view(es.last()))
    }
}

impl View for XmlElement {
    type V = ElementView;

    open spec fn view(&self) -> ElementView {
        element_view(*self)
    }
}

/// The element that a parsed node tree gives: child elements kept in
/// order, the first text child as its content.
pub open spec fn element_of(x: XmlView) -> ElementView
    decreases x,
{
    ElementView {
        name: x.name,
        attrs: x.attributes,
        elements: elements_of(x.children),
        content: first_text(x.children),
    }
}

pub open spec fn elements_of(ns: Seq<XmlNodeView>) -> Seq<ElementView>
    decreases ns,
{
    if ns.len() == 0 {
        Seq::empty()
    } else {
        let before = elements_of(ns.drop_last());
        match ns.last() {
            XmlNodeView::Element(x) => before.push(element_of(x)),
            _ => before,
        }
    }
}

/// The text of the first text node among `ns`.
pub open spec fn first_text(ns: Seq<XmlNodeView>) -> Option<Seq<char>>
    decreases ns.len(),
{
    if ns.len() == 0 {
        None
    } else {
        match first_text(ns.drop_last()) {
            Some(t) => Some(t),
            None => match ns.last() {
                XmlNodeView::Text(t) => Some(t),
                _ => None,
            },
        }
    }
}

fn clone_attrs(attrs: &Vec<(String, String)>) -> (r: Vec<(String, String)>)
    ensures
        r@ == attrs@,
{
    let mut r: Vec<(String, String)> = Vec::new();
    let mut i: usize = 0;
    while i < attrs.len()
        invariant
            i <= attrs.len(),
            r@ == attrs@.take(i as int),
        decreases attrs.len() - i,
    {
        let k = attrs[i].0.clone();
        let v = attrs[i].1.clone();
        r.push((k, v));
        proof {
            assert(attrs@.take(i + 1) =~= attrs@.take(i as int).push(attrs@[i as int]));
        }
        i += 1;
    }
    proof {
        assert(attrs@.take(attrs@.len() as int) =~= attrs@);
    }
    r
}

fn element_from_raw(raw: &RawElement) -> (r: XmlElement)
    ensures
        r@ == element_of(raw_view(*raw)),
    decreases raw,
{
    let mut elements: Vec<XmlElement> = Vec::new();
    let mut content: Option<String> = None;
    let mut i: usize = 0;
    while i < raw.children.len()
        invariant
            i <= raw.children.len(),
            elements_view(elements@) == elements_of(raw_nodes_view(raw.children@.take(i as int))),
            text_view(content) == first_text(raw_nodes_view(raw.children@.take(i as int))),
        decreases raw.children.len() - i,
    {
        let ghost done = raw_nodes_view(raw.children@.take(i as int));
        let ghost next = raw_nodes_view(raw.children@.take(i + 1));
        proof {
            assert(raw.children@.take(i + 1).drop_last() =~= raw.children@.take(i as int));
            assert(raw.children@.take(i + 1).last() == raw.children@[i as int]);
            assert(next == done.push(raw_node_view(raw.children@[i as int])));
            assert(next.drop_last() =~= done);
            assert(next.last() == raw_node_view(raw.children@[i as int]));
        }
        match &raw.children[i] {
            RawNode::Element(e) => {
                proof {
                    assert(decreases_to!(raw.children => raw.children[i as int]));
                }
                let x = element_from_raw(e);
                let ghost before = elements@;
                elements.push(x);
                proof {
                    assert(elements@.drop_last() =~= before);
                    assert(elements@.last() == x);
                    assert(elements_of(next) == elements_of(done).push(element_of(raw_view(*e))));
                }
            },
            RawNode::Text(t) => {
                if content.is_none() {
                    content = Some(t.clone());
                }
                proof {
                    assert(elements_of(next) == elements_of(done));
                }
            },
            _ => {
                proof {
                    assert(elements_of(next) == elements_of(done));
                }
            },
        }
        i += 1;
    }
    proof {
        assert(raw.children@.take(raw.children@.len() as int) =~= raw.children@);
    }
    XmlElement { name: raw.name.clone(), attrs: clone_attrs(&raw.attributes), elements, content }
}

/// Parses an XML document into its root element.
pub fn load_xml(file: &[u8]) -> (r: Result<XmlElement, String>)
    ensures
        match xml_parse(file@) {
            Ok(x) => r matches Ok(e) && e@ == element_of(x),
            Err(m) => r matches Err(s) && s@ == m,
        },
{
    match parse_xml(file) {
        Ok(raw) => Ok(element_from_raw(&raw)),
        Err(m) => Err(m),
    }
}


/// The first entry named `k` gives the value of `k`.
proof fn lemma_attr_map_first(attrs: Seq<(String, String)>, j: int, k: Seq<char>)
    requires
        0 <= j < attrs.len(),
        attrs[j].0@ == k,
        forall|i: int| 0 <= i < j ==> attrs[i].0@ != k,
    ensures
        attr_map(attrs).contains_key(k),
        attr_map(attrs)[k] == attrs[j].1@,
    decreases j,
{
    if j > 0 {
        let rest = attrs.drop_first();
        assert forall|i: int| 0 <= i < j - 1 implies rest[i].0@ != k by {
            assert(rest[i] == attrs[i + 1]);
        }
        assert(rest[j - 1] == attrs[j]);
        lemma_attr_map_first(rest, j - 1, k);
    }
}

/// A name that no entry has is not in the map.
proof fn lemma_attr_map_absent(attrs: Seq<(String, String)>, k: Seq<char>)
    requires
        forall|i: int| 0 <= i < attrs.len() ==> attrs[i].0@ != k,
    ensures
        !attr_map(attrs).contains_key(k),
    decreases attrs.len(),
{
    if attrs.len() > 0 {
        let rest = attrs.drop_first();
        assert forall|i: int| 0 <= i < rest.len() implies rest[i].0@ != k by {
            assert(rest[i] == attrs[i + 1]);
        }
        lemma_attr_map_absent(rest, k);
        assert(attrs[0].0@ != k);
    }
}

/// The message for an attribute that an element lacks.
pub open spec fn missing_attr_message(name: Seq<char>, element: Seq<char>) -> Seq<char> {
    "No such attribute: "@ + name + " in "@ + element
}

impl XmlElement {
    /// The value of attribute `name`.
    pub fn get_attr(&self, name: &str) -> (r: Result<&str, String>)
        ensures
            r is Ok <==> self@.attrs.contains_key(name@),
            r matches Ok(v) ==> v@ == self@.attrs[name@],
            r matches Err(m) ==> m@ == missing_attr_message(name@, self.name@),
    {
        let key = name.to_owned();
        let mut i: usize = 0;
        while i < self.attrs.len()
            invariant
                i <= self.attrs.len(),
                key@ == name@,
                forall|j: int| 0 <= j < i ==> self.attrs@[j].0@ != name@,
            decreases self.attrs.len() - i,
        {
            if self.attrs[i].0 == key {
                proof {
                    lemma_attr_map_first(self.attrs@, i as int, name@);
                }
                return Ok(self.attrs[i].1.as_str());
            }
            i += 1;
        }
        proof {
            lemma_attr_map_absent(self.attrs@, name@);
        }
        let mut m = String::new();
        push_str(&mut m, "No such attribute: ");
        push_str(&mut m, name);
        push_str(&mut m, " in ");
        push_str(&mut m, self.name.as_str());
        proof {
            assert(m@ =~= missing_attr_message(name@, self.name@));
        }
        Err(m)
    }
}


/// The kinds of drawing element that a level is made of.
#[derive(Clone, Copy, Debug, PartialEq, Eq, Structural)]
pub enum ShapeKind {
    Path,
    Rect,
    Circle,
    Ellipse,
}

/// The kind of drawing element that an element of this name is.
pub open spec fn shape_kind(name: Seq<char>) -> Option<ShapeKind> {
    if name == "path"@ {
        Some(ShapeKind::Path)
    } else if name == "rect"@ {
        Some(ShapeKind::Rect)
    } else if name == "circle"@ {
        Some(ShapeKind::Circle)
    } else if name == "ellipse"@ {
        Some(ShapeKind::Ellipse)
    } else {
        None
    }
}

/// The drawing elements among `es` and inside their groups, in document
/// order.
pub open spec fn shapes_in(es: Seq<ElementView>) -> Seq<(ShapeKind, ElementView)>
    decreases es,
{
    if es.len() == 0 {
        Seq::empty()
    } else {
        let e = es.last();
        let before = shapes_in(es.drop_last());
        if e.name == "g"@ {
            before + shapes_in(e.elements)
        } else {
            match shape_kind(e.name) {
                Some(k) => before.push((k, e)),
                None => before,
            }
        }
    }
}

/// The content of the last title among `es` and inside their groups, if
/// there is a title.
pub open spec fn title_in(es: Seq<ElementView>) -> Option<Option<Seq<char>>>
    decreases es,
{
    if es.len() == 0 {
        None
    } else {
        let e = es.last();
        let before = title_in(es.drop_last());
        if e.name == "g"@ {
            match title_in(e.elements) {
                Some(t) => Some(t),
                None => before,
            }
        } else if e.name == "title"@ {
            Some(e.content)
        } else {
            before
        }
    }
}

pub open spec fn shape_views(s: Seq<(ShapeKind, &XmlElement)>) -> Seq<(ShapeKind, ElementView)> {
    s.map_values(|p: (ShapeKind, &XmlElement)| (p.0, p.1@))
}

/// The drawing elements of a document, each with its kind, and its title.
pub struct SvgOutline<'a> {
    pub shapes: Vec<(ShapeKind, &'a XmlElement)>,
    pub title: Option<String>,
}

/// Why a document gives no level outline.
#[derive(Debug)]
pub enum SvgError {
    /// The bytes are not an XML document; the parser's message.
    Xml(String),
    /// The document holds no drawing element.
    Empty,
}

fn same_name(name: &String, word: &str) -> (r: bool)
    ensures
        r == (name@ == word@),
{
    let w = word.to_owned();
    *name == w
}

fn collect_shapes<'a>(
    el: &'a XmlElement,
    shapes: &mut Vec<(ShapeKind, &'a XmlElement)>,
    title: &mut Option<String>,
)
    ensures
        shape_views(final(shapes)@) == shape_views(old(shapes)@) + shapes_in(el@.elements),
        text_view(*final(title)) == match title_in(el@.elements) {
            Some(t) => t,
            None => text_view(*old(title)),
        },
    decreases el,
{
    let ghost start = shape_views(shapes@);
    let ghost title0 = text_view(*title);
    let mut i: usize = 0;
    while i < el.elements.len()
        invariant
            i <= el.elements.len(),
            shape_views(shapes@) == start + shapes_in(elements_view(el.elements@.take(i as int))),
            text_view(*title) == match title_in(elements_view(el.elements@.take(i as int))) {
                Some(t) => t,
                None => title0,
            },
        decreases el.elements.len() - i,
    {
        let e = &el.elements[i];
        let ghost done = elements_view(el.elements@.take(i as int));
        let ghost next = elements_view(el.elements@.take(i + 1));
        proof {
            assert(el.elements@.take(i + 1).drop_last() =~= el.elements@.take(i as int));
            assert(next == done.push(e@));
            assert(next.drop_last() =~= done);
            assert(next.last() == e@);
        }
        let ghost before = shape_views(shapes@);
        if same_name(&e.name, "g") {
            proof {
                assert(decreases_to!(el.elements => el.elements[i as int]));
            }
            collect_shapes(e, shapes, title);
            proof {
                assert(before + shapes_in(e@.elements) =~= start + shapes_in(next));
            }
        } else {
            let kind = if same_name(&e.name, "path") {
                Some(ShapeKind::Path)
            } else if same_name(&e.name, "rect") {
                Some(ShapeKind::Rect)
            } else if same_name(&e.name, "circle") {
                Some(ShapeKind::Circle)
            } else if same_name(&e.name, "ellipse") {
                Some(ShapeKind::Ellipse)
            } else {
                None
            };
            assert(kind == shape_kind(e@.name));
            match kind {
                Some(k) => {
                    shapes.push((k, e));
                    proof {
                        assert(shape_views(shapes@) =~= before.push((k, e@)));
                    }
                },
                None => {},
            }
            if same_name(&e.name, "title") {
                *title = match &e.content {
                    Some(t) => Some(t.clone()),
                    None => None,
                };
            }
        }
        i += 1;
    }
    proof {
        assert(el.elements@.take(el.elements@.len() as int) =~= el.elements@);
    }
}

/// The drawing elements of a document in document order, looking into
/// groups, and the content of its last title; an error where the document
/// holds no drawing element.
pub fn svg_outline(root: &XmlElement) -> (r: Result<SvgOutline<'_>, SvgError>)
    ensures
        shapes_in(root@.elements).len() == 0 <==> r matches Err(SvgError::Empty),
        r matches Ok(o) ==> shape_views(o.shapes@) == shapes_in(root@.elements) && text_view(o.title)
            == match title_in(root@.elements) {
            Some(t) => t,
            None => None,
        },
        !(r matches Err(SvgError::Xml(_))),
{
    let mut shapes: Vec<(ShapeKind, &XmlElement)> = Vec::new();
    let mut title: Option<String> = None;
    collect_shapes(root, &mut shapes, &mut title);
    proof {
        assert(shape_views(Seq::empty()) + shapes_in(root@.elements) =~= shapes_in(root@.elements));
    }
    if shapes.len() == 0 {
        Err(SvgError::Empty)
    } else {
        Ok(SvgOutline { shapes, title })
    }
}

} // verus!
