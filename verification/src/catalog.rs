//! Named convenience constructors: a small catalog of common elements and
//! attributes, each delegating to the generic constructors with a fixed
//! literal name. The catalog is mechanical; the contracts all come from
//! `element`, `self_closing_element`, `attr` and `bool_attr`.

use vstd::prelude::*;
use crate::markup::Element;
use crate::markup::Render;
use crate::markup::attr_fragment;
use crate::markup::element;
use crate::markup::element_rendered;
use crate::markup::self_closing_element;
use crate::markup::with_attr;

verus! {

/// An `html` element wrapping the given child.
pub fn html<R: Render>(children: R) -> (r: Element)
    ensures
        r.attrs@ == Seq::<char>::empty(),
        r.children is Some,
        element_rendered(r) == seq!['<'] + "html"@ + seq!['>'] + children.rendered() + seq![
            '<',
            '/',
        ] + "html"@ + seq!['>'],
{
    element("html", children)
}

/// A `head` element wrapping the given child.
pub fn head<R: Render>(children: R) -> (r: Element)
    ensures
        r.attrs@ == Seq::<char>::empty(),
        r.children is Some,
        element_rendered(r) == seq!['<'] + "head"@ + seq!['>'] + children.rendered() + seq![
            '<',
            '/',
        ] + "head"@ + seq!['>'],
{
    element("head", children)
}

/// A `title` element wrapping the given child.
pub fn title<R: Render>(children: R) -> (r: Element)
    ensures
        r.attrs@ == Seq::<char>::empty(),
        r.children is Some,
        element_rendered(r) == seq!['<'] + "title"@ + seq!['>'] + children.rendered() + seq![
            '<',
            '/',
        ] + "title"@ + seq!['>'],
{
    element("title", children)
}

/// A `body` element wrapping the given child.
pub fn body<R: Render>(children: R) -> (r: Element)
    ensures
        r.attrs@ == Seq::<char>::empty(),
        r.children is Some,
        element_rendered(r) == seq!['<'] + "body"@ + seq!['>'] + children.rendered() + seq![
            '<',
            '/',
        ] + "body"@ + seq!['>'],
{
    element("body", children)
}

/// A `div` element wrapping the given child.
pub fn div<R: Render>(children: R) -> (r: Element)
    ensures
        r.attrs@ == Seq::<char>::empty(),
        r.children is Some,
        element_rendered(r) == seq!['<'] + "div"@ + seq!['>'] + children.rendered() + seq![
            '<',
            '/',
        ] + "div"@ + seq!['>'],
{
    element("div", children)
}

/// A self-closing `meta` element.
pub fn meta() -> (r: Element)
    ensures
        r.attrs@ == Seq::<char>::empty(),
        r.children is None,
        element_rendered(r) == seq!['<'] + "meta"@ + seq!['>'],
{
    self_closing_element("meta")
}

/// A self-closing `input` element.
pub fn input() -> (r: Element)
    ensures
        r.attrs@ == Seq::<char>::empty(),
        r.children is None,
        element_rendered(r) == seq!['<'] + "input"@ + seq!['>'],
{
    self_closing_element("input")
}

/// A self-closing `br` element.
pub fn br() -> (r: Element)
    ensures
        r.attrs@ == Seq::<char>::empty(),
        r.children is None,
        element_rendered(r) == seq!['<'] + "br"@ + seq!['>'],
{
    self_closing_element("br")
}

impl Element {
    /// Sets an `id` attribute.
    pub fn id(self, value: &str) -> (r: Element)
        ensures
            r.name == self.name,
            r.children == self.children,
            r.attrs@ == with_attr(self.attrs@, attr_fragment("id"@, value@)),
    {
        self.attr("id", value)
    }

    /// Sets a `charset` attribute.
    pub fn charset(self, value: &str) -> (r: Element)
        ensures
            r.name == self.name,
            r.children == self.children,
            r.attrs@ == with_attr(self.attrs@, attr_fragment("charset"@, value@)),
    {
        self.attr("charset", value)
    }

    /// Sets a `type` attribute; the attribute name is a keyword, so the
    /// method carries a trailing underscore.
    pub fn type_(self, value: &str) -> (r: Element)
        ensures
            r.name == self.name,
            r.children == self.children,
            r.attrs@ == with_attr(self.attrs@, attr_fragment("type"@, value@)),
    {
        self.attr("type", value)
    }

    /// Sets an `aria-label` attribute; the hyphen cannot appear in a method
    /// name, so the method spells it with an underscore.
    pub fn aria_label(self, value: &str) -> (r: Element)
        ensures
            r.name == self.name,
            r.children == self.children,
            r.attrs@ == with_attr(self.attrs@, attr_fragment("aria-label"@, value@)),
    {
        self.attr("aria-label", value)
    }

    /// Sets a bare `checked` flag.
    pub fn checked(self) -> (r: Element)
        ensures
            r.name == self.name,
            r.children == self.children,
            r.attrs@ == with_attr(self.attrs@, "checked"@),
    {
        self.bool_attr("checked")
    }
}

} // verus!
