//! The renderable tree: elements, leaves and their serialization.
//!
//! `Node` is the type-erased renderable value an `Element` owns as its child;
//! `node_rendered` and `element_rendered` are the mathematical models of
//! serialization. The `Render` capability ties every renderable type to the
//! exact text it emits, and the `render` driver materializes that text.

use vstd::prelude::*;
use crate::escaping::escape;
use crate::escaping::escaped;
use crate::escaping::push_char;
use crate::numerals::decimal_int;
use crate::numerals::decimal_nat;
use crate::numerals::push_decimal;
use crate::numerals::push_decimal_signed;

verus! {

/// The one internal failure kind: an error while appending to the output
/// buffer. In-memory appends cannot fail, and every `render` contract proves
/// it is never produced; it exists so composite renderables can state the
/// short-circuiting protocol.
#[derive(Clone, Copy, PartialEq, Eq, Debug)]
pub struct RenderError;

/// A type-erased renderable value: a leaf, an element, or an ordered pair of
/// renderables. Ownership flows strictly downward, so a tree is acyclic by
/// construction.
pub enum Node {
    /// A text leaf; escaped when rendered.
    Text(String),
    /// A signed integer leaf; rendered in canonical decimal form.
    Int(i64),
    /// An unsigned integer leaf; rendered in canonical decimal form.
    UInt(u64),
    /// The empty value; renders to nothing.
    Empty,
    /// Two renderables in order, left rendered first.
    Pair(Box<Node>, Box<Node>),
    /// A markup element.
    Elem(Element),
}

/// A tagged markup node: a name, already-escaped attribute text in insertion
/// order, and at most one owned child. A missing child means the element is
/// self-closing and never acquires a closing tag.
pub struct Element {
    pub name: &'static str,
    pub attrs: String,
    pub children: Option<Box<Node>>,
}

/// The attribute block of the open tag: nothing when there are no
/// attributes, otherwise one space followed by the attribute text.
pub open spec fn attrs_part(attrs: Seq<char>) -> Seq<char> {
    if attrs.len() == 0 {
        Seq::empty()
    } else {
        seq![' '] + attrs
    }
}

/// The open tag of an element.
pub open spec fn open_tag(e: Element) -> Seq<char> {
    seq!['<'] + e.name@ + attrs_part(e.attrs@) + seq!['>']
}

/// The close tag of an element.
pub open spec fn close_tag(e: Element) -> Seq<char> {
    seq!['<', '/'] + e.name@ + seq!['>']
}

/// The exact text a node serializes to.
pub open spec fn node_rendered(n: Node) -> Seq<char>
    decreases n,
{
    match n {
        Node::Text(s) => escaped(s@),
        Node::Int(i) => decimal_int(i as int),
        Node::UInt(u) => decimal_nat(u as nat),
        Node::Empty => Seq::empty(),
        Node::Pair(a, b) => node_rendered(*a) + node_rendered(*b),
        Node::Elem(e) => element_rendered(e),
    }
}

/// The exact text an element serializes to: the open tag, then, only if a
/// child exists, the child's text followed by the close tag.
pub open spec fn element_rendered(e: Element) -> Seq<char>
    decreases e,
{
    open_tag(e) + match e.children {
        Some(c) => node_rendered(*c) + close_tag(e),
        None => Seq::empty(),
    }
}

/// The text of an element's child: empty when it has none.
pub open spec fn child_rendered(e: Element) -> Seq<char> {
    match e.children {
        Some(c) => node_rendered(*c),
        None => Seq::empty(),
    }
}

/// The capability every value in a renderable tree implements: it knows the
/// exact text it serializes to, it can append that text to an output buffer,
/// and it can give itself up as a type-erased `Node` with the same text.
pub trait Render: Sized {
    /// The exact text this value serializes to.
    spec fn rendered(&self) -> Seq<char>;

    /// Appends the serialized form to the buffer, leaving earlier content
    /// untouched. In-memory appends cannot fail, so success is owed on every
    /// input; a failing member of a composite would short-circuit the rest.
    fn render(&self, buffer: &mut String) -> (r: Result<(), RenderError>)
        ensures
            r is Ok,
            final(buffer)@ == old(buffer)@ + self.rendered(),
    ;

    /// Converts this value into a `Node` with the same serialized form.
    fn into_node(self) -> (n: Node)
        ensures
            node_rendered(n) == self.rendered(),
    ;
}

/// Appends a node's serialized form to the buffer.
fn render_node(node: &Node, buffer: &mut String) -> (r: Result<(), RenderError>)
    ensures
        r is Ok,
        final(buffer)@ == old(buffer)@ + node_rendered(*node),
    decreases *node,
{
    match node {
        Node::Text(s) => {
            let piece = escape(s.as_str());
            buffer.append(piece.as_str());
        },
        Node::Int(i) => {
            push_decimal_signed(*i, buffer);
        },
        Node::UInt(u) => {
            push_decimal(*u, buffer);
        },
        Node::Empty => {},
        Node::Pair(a, b) => {
            render_node(&**a, buffer)?;
            render_node(&**b, buffer)?;
            proof {
                assert(buffer@ =~= old(buffer)@ + node_rendered(*node));
            }
        },
        Node::Elem(e) => {
            render_element(e, buffer)?;
        },
    }
    Ok(())
}

/// Appends an element's serialized form to the buffer.
fn render_element(element: &Element, buffer: &mut String) -> (r: Result<(), RenderError>)
    ensures
        r is Ok,
        final(buffer)@ == old(buffer)@ + element_rendered(*element),
    decreases *element,
{
    push_char(buffer, '<');
    buffer.append(element.name);
    if !element.attrs.as_str().is_empty() {
        push_char(buffer, ' ');
        buffer.append(element.attrs.as_str());
    }
    push_char(buffer, '>');
    match &element.children {
        Some(c) => {
            render_node(&**c, buffer)?;
            push_char(buffer, '<');
            push_char(buffer, '/');
            buffer.append(element.name);
            push_char(buffer, '>');
        },
        None => {},
    }
    proof {
        assert(buffer@ =~= old(buffer)@ + element_rendered(*element));
    }
    Ok(())
}

impl Render for Node {
    open spec fn rendered(&self) -> Seq<char> {
        node_rendered(*self)
    }

    fn render(&self, buffer: &mut String) -> (r: Result<(), RenderError>) {
        render_node(self, buffer)
    }

    fn into_node(self) -> (n: Node) {
        self
    }
}

impl Render for Element {
    open spec fn rendered(&self) -> Seq<char> {
        element_rendered(*self)
    }

    fn render(&self, buffer: &mut String) -> (r: Result<(), RenderError>) {
        render_element(self, buffer)
    }

    fn into_node(self) -> (n: Node) {
        Node::Elem(self)
    }
}

impl Render for String {
    open spec fn rendered(&self) -> Seq<char> {
        escaped(self@)
    }

    fn render(&self, buffer: &mut String) -> (r: Result<(), RenderError>) {
        let piece = escape(self.as_str());
        buffer.append(piece.as_str());
        Ok(())
    }

    fn into_node(self) -> (n: Node) {
        Node::Text(self)
    }
}

impl<'a> Render for &'a str {
    open spec fn rendered(&self) -> Seq<char> {
        escaped((*self)@)
    }

    fn render(&self, buffer: &mut String) -> (r: Result<(), RenderError>) {
        let piece = escape(*self);
        buffer.append(piece.as_str());
        Ok(())
    }

    fn into_node(self) -> (n: Node) {
        Node::Text(self.to_owned())
    }
}

impl Render for () {
    open spec fn rendered(&self) -> Seq<char> {
        Seq::empty()
    }

    fn render(&self, buffer: &mut String) -> (r: Result<(), RenderError>) {
        proof {
            assert(buffer@ =~= old(buffer)@ + self.rendered());
        }
        Ok(())
    }

    fn into_node(self) -> (n: Node) {
        Node::Empty
    }
}

impl Render for u16 {
    open spec fn rendered(&self) -> Seq<char> {
        decimal_nat(*self as nat)
    }

    fn render(&self, buffer: &mut String) -> (r: Result<(), RenderError>) {
        push_decimal(*self as u64, buffer);
        Ok(())
    }

    fn into_node(self) -> (n: Node) {
        Node::UInt(self as u64)
    }
}

impl Render for u32 {
    open spec fn rendered(&self) -> Seq<char> {
        decimal_nat(*self as nat)
    }

    fn render(&self, buffer: &mut String) -> (r: Result<(), RenderError>) {
        push_decimal(*self as u64, buffer);
        Ok(())
    }

    fn into_node(self) -> (n: Node) {
        Node::UInt(self as u64)
    }
}

impl Render for u64 {
    open spec fn rendered(&self) -> Seq<char> {
        decimal_nat(*self as nat)
    }

    fn render(&self, buffer: &mut String) -> (r: Result<(), RenderError>) {
        push_decimal(*self, buffer);
        Ok(())
    }

    fn into_node(self) -> (n: Node) {
        Node::UInt(self)
    }
}

impl Render for usize {
    open spec fn rendered(&self) -> Seq<char> {
        decimal_nat(*self as nat)
    }

    fn render(&self, buffer: &mut String) -> (r: Result<(), RenderError>) {
        push_decimal(*self as u64, buffer);
        Ok(())
    }

    fn into_node(self) -> (n: Node) {
        Node::UInt(self as u64)
    }
}

impl Render for i32 {
    open spec fn rendered(&self) -> Seq<char> {
        decimal_int(*self as int)
    }

    fn render(&self, buffer: &mut String) -> (r: Result<(), RenderError>) {
        push_decimal_signed(*self as i64, buffer);
        Ok(())
    }

    fn into_node(self) -> (n: Node) {
        Node::Int(self as i64)
    }
}

impl Render for i64 {
    open spec fn rendered(&self) -> Seq<char> {
        decimal_int(*self as int)
    }

    fn render(&self, buffer: &mut String) -> (r: Result<(), RenderError>) {
        push_decimal_signed(*self, buffer);
        Ok(())
    }

    fn into_node(self) -> (n: Node) {
        Node::Int(self)
    }
}

impl Render for isize {
    open spec fn rendered(&self) -> Seq<char> {
        decimal_int(*self as int)
    }

    fn render(&self, buffer: &mut String) -> (r: Result<(), RenderError>) {
        push_decimal_signed(*self as i64, buffer);
        Ok(())
    }

    fn into_node(self) -> (n: Node) {
        Node::Int(self as i64)
    }
}

impl Element {
    /// Builds an element with the given name, no attributes yet, and the
    /// given child slot; whether the element is self-closing is fixed here.
    pub fn new(name: &'static str, children: Option<Box<Node>>) -> (r: Element)
        ensures
            r.name == name,
            r.attrs@ == Seq::<char>::empty(),
            r.children == children,
    {
        Element { name, attrs: String::new(), children }
    }

    /// Appends one `name="value"` attribute fragment, escaping the value now;
    /// fragments stay in call order and duplicate names are all kept.
    pub fn attr(self, name: &'static str, value: &str) -> (r: Element)
        ensures
            r.name == self.name,
            r.children == self.children,
            r.attrs@ == with_attr(self.attrs@, attr_fragment(name@, value@)),
    {
        let Element { name: tag, mut attrs, children } = self;
        if !attrs.as_str().is_empty() {
            attrs.append(" ");
        }
        attrs.append(name);
        attrs.append("=\"");
        let piece = escape(value);
        attrs.append(piece.as_str());
        attrs.append("\"");
        proof {
            reveal_strlit(" ");
            reveal_strlit("=\"");
            reveal_strlit("\"");
            assert(attrs@ =~= with_attr(self.attrs@, attr_fragment(name@, value@)));
        }
        Element { name: tag, attrs, children }
    }

    /// Appends one bare boolean-flag fragment, in call order.
    pub fn bool_attr(self, name: &'static str) -> (r: Element)
        ensures
            r.name == self.name,
            r.children == self.children,
            r.attrs@ == with_attr(self.attrs@, name@),
    {
        let Element { name: tag, mut attrs, children } = self;
        if !attrs.as_str().is_empty() {
            attrs.append(" ");
        }
        attrs.append(name);
        proof {
            reveal_strlit(" ");
            assert(attrs@ =~= with_attr(self.attrs@, name@));
        }
        Element { name: tag, attrs, children }
    }
}

/// One valued attribute as it appears in the open tag.
pub open spec fn attr_fragment(name: Seq<char>, value: Seq<char>) -> Seq<char> {
    name + seq!['=', '"'] + escaped(value) + seq!['"']
}

/// The attribute text after one more fragment: a single space separates
/// fragments, and the first fragment gets no separator.
pub open spec fn with_attr(attrs: Seq<char>, fragment: Seq<char>) -> Seq<char> {
    if attrs.len() == 0 {
        fragment
    } else {
        attrs + seq![' '] + fragment
    }
}

/// Builds a container element: its child renders between the open tag and a
/// closing tag that is always emitted.
pub fn element<R: Render>(name: &'static str, children: R) -> (r: Element)
    ensures
        r.name == name,
        r.attrs@ == Seq::<char>::empty(),
        r.children is Some,
        child_rendered(r) == children.rendered(),
        element_rendered(r) == seq!['<'] + name@ + seq!['>'] + children.rendered() + seq!['<', '/']
            + name@ + seq!['>'],
{
    let node = children.into_node();
    let r = Element { name, attrs: String::new(), children: Some(Box::new(node)) };
    proof {
        assert(element_rendered(r) =~= seq!['<'] + name@ + seq!['>'] + children.rendered()
            + seq!['<', '/'] + name@ + seq!['>']);
    }
    r
}

/// Builds a self-closing element: it emits only its open tag and can never
/// acquire a child.
pub fn self_closing_element(name: &'static str) -> (r: Element)
    ensures
        r.name == name,
        r.attrs@ == Seq::<char>::empty(),
        r.children is None,
        element_rendered(r) == seq!['<'] + name@ + seq!['>'],
{
    let r = Element::new(name, None);
    proof {
        assert(element_rendered(r) =~= seq!['<'] + name@ + seq!['>']);
    }
    r
}

/// The doctype declaration, modeled as a childless pseudo-element whose name
/// is the literal declaration text.
pub fn doctype() -> (r: Element)
    ensures
        r.attrs@ == Seq::<char>::empty(),
        r.children is None,
        element_rendered(r) == seq!['<'] + "!DOCTYPE html"@ + seq!['>'],
{
    let r = Element::new("!DOCTYPE html", None);
    proof {
        assert(element_rendered(r) =~= seq!['<'] + "!DOCTYPE html"@ + seq!['>']);
    }
    r
}

/// Renders one renderable tree to its exact serialized text. Rendering into
/// memory cannot fail, so no error path is exposed to the caller.
pub fn render<R: Render>(renderable: R) -> (r: String)
    ensures
        r@ == renderable.rendered(),
{
    let mut buffer = String::new();
    let result = renderable.render(&mut buffer);
    match result {
        Ok(_) => buffer,
        Err(_) => vstd::pervasive::unreached(),
    }
}

} // verus!
