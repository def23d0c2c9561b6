use vstd::prelude::*;

verus! {

/// The element kinds the page is built from.
#[derive(Clone, Copy, PartialEq, Eq, Structural, Debug)]
pub enum Tag {
    Style,
    Script,
    Div,
    Nav,
    Span,
    A,
    Section,
    P,
    H1,
    H2,
    Footer,
}

/// The HTML name of each tag.
pub open spec fn tag_name(t: Tag) -> Seq<char> {
    match t {
        Tag::Style => "style"@,
        Tag::Script => "script"@,
        Tag::Div => "div"@,
        Tag::Nav => "nav"@,
        Tag::Span => "span"@,
        Tag::A => "a"@,
        Tag::Section => "section"@,
        Tag::P => "p"@,
        Tag::H1 => "h1"@,
        Tag::H2 => "h2"@,
        Tag::Footer => "footer"@,
    }
}

impl Tag {
    /// The name passed to `createElement` for this tag.
    pub fn name(&self) -> (r: &'static str)
        ensures
            r@ == tag_name(*self),
    {
        match self {
            Tag::Style => "style",
            Tag::Script => "script",
            Tag::Div => "div",
            Tag::Nav => "nav",
            Tag::Span => "span",
            Tag::A => "a",
            Tag::Section => "section",
            Tag::P => "p",
            Tag::H1 => "h1",
            Tag::H2 => "h2",
            Tag::Footer => "footer",
        }
    }
}

/// What an element holds besides its child elements.
pub enum Content {
    /// Nothing.
    Empty,
    /// Plain text, set as the element's text content.
    Text(String),
    /// A markup fragment, set as the element's inner HTML.
    Markup(String),
}

/// One element of the page, with the attributes the page uses and its
/// children in document order.
pub struct Node {
    pub tag: Tag,
    pub id: Option<String>,
    pub class: Option<String>,
    pub style: Option<String>,
    pub href: Option<String>,
    pub target: Option<String>,
    pub rel: Option<String>,
    pub content: Content,
    pub children: Vec<Node>,
}

/// The characters of an optional string.
pub open spec fn opt(o: Option<String>) -> Option<Seq<char>> {
    match o {
        Some(s) => Some(s@),
        None => None,
    }
}

/// `n` is a `tag` element with exactly the given `id`, `class` and `style`.
pub open spec fn has(
    n: Node,
    tag: Tag,
    id: Option<Seq<char>>,
    class: Option<Seq<char>>,
    style: Option<Seq<char>>,
) -> bool {
    &&& n.tag == tag
    &&& opt(n.id) == id
    &&& opt(n.class) == class
    &&& opt(n.style) == style
}

/// `n` carries no link attribute.
pub open spec fn no_link(n: Node) -> bool {
    &&& n.href is None
    &&& n.target is None
    &&& n.rel is None
}

/// `n` links to `url` in a new browsing context, without giving the opened
/// page a handle on this one.
pub open spec fn external_link(n: Node, url: Seq<char>) -> bool {
    &&& opt(n.href) == Some(url)
    &&& opt(n.target) == Some("_blank"@)
    &&& opt(n.rel) == Some("noopener"@)
}

/// `n` holds the plain text `t` and no child element.
pub open spec fn text_leaf(n: Node, t: Seq<char>) -> bool {
    &&& n.content matches Content::Text(s) && s@ == t
    &&& n.children@.len() == 0
}

/// `n` holds the markup fragment `m` and no child element.
pub open spec fn markup_leaf(n: Node, m: Seq<char>) -> bool {
    &&& n.content matches Content::Markup(s) && s@ == m
    &&& n.children@.len() == 0
}

/// `n` has neither content nor children.
pub open spec fn empty_leaf(n: Node) -> bool {
    &&& n.content is Empty
    &&& n.children@.len() == 0
}

/// A new element with no attribute, content or child.
pub fn element(tag: Tag) -> (n: Node)
    ensures
        has(n, tag, None, None, None),
        no_link(n),
        empty_leaf(n),
        links_safe(n),
{
    Node {
        tag,
        id: None,
        class: None,
        style: None,
        href: None,
        target: None,
        rel: None,
        content: Content::Empty,
        children: Vec::new(),
    }
}

/// A new element carrying only an inline style.
pub fn styled(tag: Tag, style: &str) -> (n: Node)
    ensures
        has(n, tag, None, None, Some(style@)),
        no_link(n),
        empty_leaf(n),
        links_safe(n),
{
    let mut n = element(tag);
    n.style = Some(style.to_owned());
    n
}

/// Every element in the tree that opens its link in a new browsing context
/// (`target="_blank"`) also carries `rel="noopener"`.
pub open spec fn links_safe(n: Node) -> bool
    decreases n,
{
    &&& (opt(n.target) == Some("_blank"@) ==> opt(n.rel) == Some("noopener"@))
    &&& forall|i: int| 0 <= i < n.children@.len() ==> #[trigger] links_safe(n.children@[i])
}

} // verus!
