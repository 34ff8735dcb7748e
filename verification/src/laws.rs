//! Laws of the builder and of element serialization, stated over the same
//! models the operation contracts use.

use vstd::prelude::*;
use crate::markup::Element;
use crate::markup::attr_fragment;
use crate::markup::child_rendered;
use crate::markup::close_tag;
use crate::markup::element_rendered;
use crate::markup::open_tag;
use crate::markup::with_attr;

verus! {

/// The attribute text after a whole sequence of attribute-set calls, each
/// appending its fragment through `with_attr`.
pub open spec fn attrs_after(fragments: Seq<Seq<char>>) -> Seq<char>
    decreases fragments.len(),
{
    if fragments.len() == 0 {
        Seq::empty()
    } else {
        with_attr(attrs_after(fragments.drop_last()), fragments.last())
    }
}

/// The fragments joined by single spaces, in the given order.
pub open spec fn space_joined(fragments: Seq<Seq<char>>) -> Seq<char>
    decreases fragments.len(),
{
    if fragments.len() == 0 {
        Seq::empty()
    } else if fragments.len() == 1 {
        fragments.last()
    } else {
        space_joined(fragments.drop_last()) + seq![' '] + fragments.last()
    }
}

/// A valued attribute fragment is never empty.
pub proof fn lemma_attr_fragment_nonempty(name: Seq<char>, value: Seq<char>)
    ensures
        attr_fragment(name, value).len() > 0,
{
}

/// Attribute order preservation: for any sequence of attribute-set calls
/// with non-empty fragments, the attribute text is exactly the fragments in
/// call order, joined by single spaces — duplicates are kept, never merged.
pub proof fn lemma_attribute_order(fragments: Seq<Seq<char>>)
    requires
        forall|i: int| 0 <= i < fragments.len() ==> fragments[i].len() > 0,
    ensures
        attrs_after(fragments) == space_joined(fragments),
    decreases fragments.len(),
{
    if fragments.len() == 0 {
    } else if fragments.len() == 1 {
        assert(fragments.drop_last().len() == 0);
        assert(attrs_after(fragments.drop_last()) == Seq::<char>::empty());
    } else {
        lemma_attribute_order(fragments.drop_last());
        lemma_space_joined_len(fragments.drop_last());
        assert(attrs_after(fragments.drop_last()).len() > 0);
    }
}

/// Joining non-empty fragments yields non-empty text.
proof fn lemma_space_joined_len(fragments: Seq<Seq<char>>)
    requires
        fragments.len() > 0,
        forall|i: int| 0 <= i < fragments.len() ==> fragments[i].len() > 0,
    ensures
        space_joined(fragments).len() > 0,
    decreases fragments.len(),
{
}

/// Empty-child pairing: an element built with a child emits both its open
/// and its close tag even when the child renders to nothing.
pub proof fn lemma_empty_child_pairing(e: Element)
    requires
        e.children is Some,
        child_rendered(e) == Seq::<char>::empty(),
    ensures
        element_rendered(e) == open_tag(e) + close_tag(e),
{
    assert(element_rendered(e) =~= open_tag(e) + close_tag(e));
}

/// Self-closing elements emit no closing tag: an element built without a
/// child serializes to its open tag alone.
pub proof fn lemma_self_closing_open_tag_only(e: Element)
    requires
        e.children is None,
    ensures
        element_rendered(e) == open_tag(e),
{
    assert(element_rendered(e) =~= open_tag(e));
}

} // verus!
