//! Composition of fixed-arity heterogeneous sequences of renderables.
//!
//! A tuple renders its members in positional order, left to right, and would
//! short-circuit on the first failing member. Each arity up to the fixed
//! ceiling of 32 carries the same contract: the tuple's text is the
//! concatenation of its members' texts.

use vstd::prelude::*;
use crate::markup::Node;
use crate::markup::Render;
use crate::markup::RenderError;
use crate::markup::node_rendered;

verus! {

/// Concatenation of texts is associative.
proof fn lemma_concat_assoc(a: Seq<char>, b: Seq<char>, c: Seq<char>)
    ensures
        (a + b) + c == a + (b + c),
{
    assert((a + b) + c =~= a + (b + c));
}

/// Joins two nodes into one that renders both in order.
fn pair(a: Node, b: Node) -> (n: Node)
    ensures
        node_rendered(n) == node_rendered(a) + node_rendered(b),
{
    let n = Node::Pair(Box::new(a), Box::new(b));
    proof {
        assert(node_rendered(n) =~= node_rendered(a) + node_rendered(b));
    }
    n
}

impl<T0: Render> Render for (T0,) {
    open spec fn rendered(&self) -> Seq<char> {
        self.0.rendered()
    }

    fn render(&self, buffer: &mut String) -> (r: Result<(), RenderError>) {
        self.0.render(buffer)?;
        Ok(())
    }

    fn into_node(self) -> (n: Node) {
        self.0.into_node()
    }
}

impl<T0: Render, T1: Render> Render for (T0,T1,) {
    open spec fn rendered(&self) -> Seq<char> {
        self.0.rendered() + self.1.rendered()
    }

    fn render(&self, buffer: &mut String) -> (r: Result<(), RenderError>) {
        self.0.render(buffer)?;
        let ghost mut acc: Seq<char> = self.0.rendered();
        self.1.render(buffer)?;
        proof {
            lemma_concat_assoc(old(buffer)@, acc, self.1.rendered());
            acc = acc + self.1.rendered();
        }
        Ok(())
    }

    fn into_node(self) -> (n: Node) {
        pair(self.0.into_node(), self.1.into_node())
    }
}

impl<T0: Render, T1: Render, T2: Render> Render for (T0,T1,T2,) {
    open spec fn rendered(&self) -> Seq<char> {
        self.0.rendered() + self.1.rendered() + self.2.rendered()
    }

    fn render(&self, buffer: &mut String) -> (r: Result<(), RenderError>) {
        self.0.render(buffer)?;
        let ghost mut acc: Seq<char> = self.0.rendered();
        self.1.render(buffer)?;
        proof {
            lemma_concat_assoc(old(buffer)@, acc, self.1.rendered());
            acc = acc + self.1.rendered();
        }
        self.2.render(buffer)?;
        proof {
            lemma_concat_assoc(old(buffer)@, acc, self.2.rendered());
            acc = acc + self.2.rendered();
        }
        Ok(())
    }

    fn into_node(self) -> (n: Node) {
        pair(pair(self.0.into_node(), self.1.into_node()), self.2.into_node())
    }
}

impl<T0: Render, T1: Render, T2: Render, T3: Render> Render for (T0,T1,T2,T3,) {
    open spec fn rendered(&self) -> Seq<char> {
        self.0.rendered() + self.1.rendered() + self.2.rendered() + self.3.rendered()
    }

    fn render(&self, buffer: &mut String) -> (r: Result<(), RenderError>) {
        self.0.render(buffer)?;
        let ghost mut acc: Seq<char> = self.0.rendered();
        self.1.render(buffer)?;
        proof {
            lemma_concat_assoc(old(buffer)@, acc, self.1.rendered());
            acc = acc + self.1.rendered();
        }
        self.2.render(buffer)?;
        proof {
            lemma_concat_assoc(old(buffer)@, acc, self.2.rendered());
            acc = acc + self.2.rendered();
        }
        self.3.render(buffer)?;
        proof {
            lemma_concat_assoc(old(buffer)@, acc, self.3.rendered());
            acc = acc + self.3.rendered();
        }
        Ok(())
    }

    fn into_node(self) -> (n: Node) {
        pair(pair(pair(self.0.into_node(), self.1.into_node()), self.2.into_node()), self.3.into_node())
    }
}

impl<T0: Render, T1: Render, T2: Render, T3: Render, T4: Render> Render for (T0,T1,T2,T3,T4,) {
    open spec fn rendered(&self) -> Seq<char> {
        self.0.rendered() + self.1.rendered() + self.2.rendered() + self.3.rendered() + self.4.rendered()
    }

    fn render(&self, buffer: &mut String) -> (r: Result<(), RenderError>) {
        self.0.render(buffer)?;
        let ghost mut acc: Seq<char> = self.0.rendered();
        self.1.render(buffer)?;
        proof {
            lemma_concat_assoc(old(buffer)@, acc, self.1.rendered());
            acc = acc + self.1.rendered();
        }
        self.2.render(buffer)?;
        proof {
            lemma_concat_assoc(old(buffer)@, acc, self.2.rendered());
            acc = acc + self.2.rendered();
        }
        self.3.render(buffer)?;
        proof {
            lemma_concat_assoc(old(buffer)@, acc, self.3.rendered());
            acc = acc + self.3.rendered();
        }
        self.4.render(buffer)?;
        proof {
            lemma_concat_assoc(old(buffer)@, acc, self.4.rendered());
            acc = acc + self.4.rendered();
        }
        Ok(())
    }

    fn into_node(self) -> (n: Node) {
        pair(pair(pair(pair(self.0.into_node(), self.1.into_node()), self.2.into_node()), self.3.into_node()), self.4.into_node())
    }
}

impl<T0: Render, T1: Render, T2: Render, T3: Render, T4: Render, T5: Render> Render for (T0,T1,T2,T3,T4,T5,) {
    open spec fn rendered(&self) -> Seq<char> {
        self.0.rendered() + self.1.rendered() + self.2.rendered() + self.3.rendered() + self.4.rendered() + self.5.rendered()
    }

    fn render(&self, buffer: &mut String) -> (r: Result<(), RenderError>) {
        self.0.render(buffer)?;
        let ghost mut acc: Seq<char> = self.0.rendered();
        self.1.render(buffer)?;
        proof {
            lemma_concat_assoc(old(buffer)@, acc, self.1.rendered());
            acc = acc + self.1.rendered();
        }
        self.2.render(buffer)?;
        proof {
            lemma_concat_assoc(old(buffer)@, acc, self.2.rendered());
            acc = acc + self.2.rendered();
        }
        self.3.render(buffer)?;
        proof {
            lemma_concat_assoc(old(buffer)@, acc, self.3.rendered());
            acc = acc + self.3.rendered();
        }
        self.4.render(buffer)?;
        proof {
            lemma_concat_assoc(old(buffer)@, acc, self.4.rendered());
            acc = acc + self.4.rendered();
        }
        self.5.render(buffer)?;
        proof {
            lemma_concat_assoc(old(buffer)@, acc, self.5.rendered());
            acc = acc + self.5.rendered();
        }
        Ok(())
    }

    fn into_node(self) -> (n: Node) {
        pair(pair(pair(pair(pair(self.0.into_node(), self.1.into_node()), self.2.into_node()), self.3.into_node()), self.4.into_node()), self.5.into_node())
    }
}

impl<T0: Render, T1: Render, T2: Render, T3: Render, T4: Render, T5: Render, T6: Render> Render for (T0,T1,T2,T3,T4,T5,T6,) {
    open spec fn rendered(&self) -> Seq<char> {
        self.0.rendered() + self.1.rendered() + self.2.rendered() + self.3.rendered() + self.4.rendered() + self.5.rendered() + self.6.rendered()
    }

    fn render(&self, buffer: &mut String) -> (r: Result<(), RenderError>) {
        self.0.render(buffer)?;
        let ghost mut acc: Seq<char> = self.0.rendered();
        self.1.render(buffer)?;
        proof {
            lemma_concat_assoc(old(buffer)@, acc, self.1.rendered());
            acc = acc + self.1.rendered();
        }
        self.2.render(buffer)?;
        proof {
            lemma_concat_assoc(old(buffer)@, acc, self.2.rendered());
            acc = acc + self.2.rendered();
        }
        self.3.render(buffer)?;
        proof {
            lemma_concat_assoc(old(buffer)@, acc, self.3.rendered());
            acc = acc + self.3.rendered();
        }
        self.4.render(buffer)?;
        proof {
            lemma_concat_assoc(old(buffer)@, acc, self.4.rendered());
            acc = acc + self.4.rendered();
        }
        self.5.render(buffer)?;
        proof {
            lemma_concat_assoc(old(buffer)@, acc, self.5.rendered());
            acc = acc + self.5.rendered();
        }
        self.6.render(buffer)?;
        proof {
            lemma_concat_assoc(old(buffer)@, acc, self.6.rendered());
            acc = acc + self.6.rendered();
        }
        Ok(())
    }

    fn into_node(self) -> (n: Node) {
        pair(pair(pair(pair(pair(pair(self.0.into_node(), self.1.into_node()), self.2.into_node()), self.3.into_node()), self.4.into_node()), self.5.into_node()), self.6.into_node())
    }
}

impl<T0: Render, T1: Render, T2: Render, T3: Render, T4: Render, T5: Render, T6: Render, T7: Render> Render for (T0,T1,T2,T3,T4,T5,T6,T7,) {
    open spec fn rendered(&self) -> Seq<char> {
        self.0.rendered() + self.1.rendered() + self.2.rendered() + self.3.rendered() + self.4.rendered() + self.5.rendered() + self.6.rendered() + self.7.rendered()
    }

    fn render(&self, buffer: &mut String) -> (r: Result<(), RenderError>) {
        self.0.render(buffer)?;
        let ghost mut acc: Seq<char> = self.0.rendered();
        self.1.render(buffer)?;
        proof {
            lemma_concat_assoc(old(buffer)@, acc, self.1.rendered());
            acc = acc + self.1.rendered();
        }
        self.2.render(buffer)?;
        proof {
            lemma_concat_assoc(old(buffer)@, acc, self.2.rendered());
            acc = acc + self.2.rendered();
        }
        self.3.render(buffer)?;
        proof {
            lemma_concat_assoc(old(buffer)@, acc, self.3.rendered());
            acc = acc + self.3.rendered();
        }
        self.4.render(buffer)?;
        proof {
            lemma_concat_assoc(old(buffer)@, acc, self.4.rendered());
            acc = acc + self.4.rendered();
        }
        self.5.render(buffer)?;
        proof {
            lemma_concat_assoc(old(buffer)@, acc, self.5.rendered());
            acc = acc + self.5.rendered();
        }
        self.6.render(buffer)?;
        proof {
            lemma_concat_assoc(old(buffer)@, acc, self.6.rendered());
            acc = acc + self.6.rendered();
        }
        self.7.render(buffer)?;
        proof {
            lemma_concat_assoc(old(buffer)@, acc, self.7.rendered());
            acc = acc + self.7.rendered();
        }
        Ok(())
    }

    fn into_node(self) -> (n: Node) {
        pair(pair(pair(pair(pair(pair(pair(self.0.into_node(), self.1.into_node()), self.2.into_node()), self.3.into_node()), self.4.into_node()), self.5.into_node()), self.6.into_node()), self.7.into_node())
    }
}

impl<T0: Render, T1: Render, T2: Render, T3: Render, T4: Render, T5: Render, T6: Render, T7: Render, T8: Render> Render for (T0,T1,T2,T3,T4,T5,T6,T7,T8,) {
    open spec fn rendered(&self) -> Seq<char> {
        self.0.rendered() + self.1.rendered() + self.2.rendered() + self.3.rendered() + self.4.rendered() + self.5.rendered() + self.6.rendered() + self.7.rendered() + self.8.rendered()
    }

    fn render(&self, buffer: &mut String) -> (r: Result<(), RenderError>) {
        self.0.render(buffer)?;
        let ghost mut acc: Seq<char> = self.0.rendered();
        self.1.render(buffer)?;
        proof {
            lemma_concat_assoc(old(buffer)@, acc, self.1.rendered());
            acc = acc + self.1.rendered();
        }
        self.2.render(buffer)?;
        proof {
            lemma_concat_assoc(old(buffer)@, acc, self.2.rendered());
            acc = acc + self.2.rendered();
        }
        self.3.render(buffer)?;
        proof {
            lemma_concat_assoc(old(buffer)@, acc, self.3.rendered());
            acc = acc + self.3.rendered();
        }
        self.4.render(buffer)?;
        proof {
            lemma_concat_assoc(old(buffer)@, acc, self.4.rendered());
            acc = acc + self.4.rendered();
        }
        self.5.render(buffer)?;
        proof {
            lemma_concat_assoc(old(buffer)@, acc, self.5.rendered());
            acc = acc + self.5.rendered();
        }
        self.6.render(buffer)?;
        proof {
            lemma_concat_assoc(old(buffer)@, acc, self.6.rendered());
            acc = acc + self.6.rendered();
        }
        self.7.render(buffer)?;
        proof {
            lemma_concat_assoc(old(buffer)@, acc, self.7.rendered());
            acc = acc + self.7.rendered();
        }
        self.8.render(buffer)?;
        proof {
            lemma_concat_assoc(old(buffer)@, acc, self.8.rendered());
            acc = acc + self.8.rendered();
        }
        Ok(())
    }

    fn into_node(self) -> (n: Node) {
        pair(pair(pair(pair(pair(pair(pair(pair(self.0.into_node(), self.1.into_node()), self.2.into_node()), self.3.into_node()), self.4.into_node()), self.5.into_node()), self.6.into_node()), self.7.into_node()), self.8.into_node())
    }
}

impl<T0: Render, T1: Render, T2: Render, T3: Render, T4: Render, T5: Render, T6: Render, T7: Render, T8: Render, T9: Render> Render for (T0,T1,T2,T3,T4,T5,T6,T7,T8,T9,) {
    open spec fn rendered(&self) -> Seq<char> {
        self.0.rendered() + self.1.rendered() + self.2.rendered() + self.3.rendered() + self.4.rendered() + self.5.rendered() + self.6.rendered() + self.7.rendered() + self.8.rendered() + self.9.rendered()
    }

    fn render(&self, buffer: &mut String) -> (r: Result<(), RenderError>) {
        self.0.render(buffer)?;
        let ghost mut acc: Seq<char> = self.0.rendered();
        self.1.render(buffer)?;
        proof {
            lemma_concat_assoc(old(buffer)@, acc, self.1.rendered());
            acc = acc + self.1.rendered();
        }
        self.2.render(buffer)?;
        proof {
            lemma_concat_assoc(old(buffer)@, acc, self.2.rendered());
            acc = acc + self.2.rendered();
        }
        self.3.render(buffer)?;
        proof {
            lemma_concat_assoc(old(buffer)@, acc, self.3.rendered());
            acc = acc + self.3.rendered();
        }
        self.4.render(buffer)?;
        proof {
            lemma_concat_assoc(old(buffer)@, acc, self.4.rendered());
            acc = acc + self.4.rendered();
        }
        self.5.render(buffer)?;
        proof {
            lemma_concat_assoc(old(buffer)@, acc, self.5.rendered());
            acc = acc + self.5.rendered();
        }
        self.6.render(buffer)?;
        proof {
            lemma_concat_assoc(old(buffer)@, acc, self.6.rendered());
            acc = acc + self.6.rendered();
        }
        self.7.render(buffer)?;
        proof {
            lemma_concat_assoc(old(buffer)@, acc, self.7.rendered());
            acc = acc + self.7.rendered();
        }
        self.8.render(buffer)?;
        proof {
            lemma_concat_assoc(old(buffer)@, acc, self.8.rendered());
            acc = acc + self.8.rendered();
        }
        self.9.render(buffer)?;
        proof {
            lemma_concat_assoc(old(buffer)@, acc, self.9.rendered());
            acc = acc + self.9.rendered();
        }
        Ok(())
    }

    fn into_node(self) -> (n: Node) {
        pair(pair(pair(pair(pair(pair(pair(pair(pair(self.0.into_node(), self.1.into_node()), self.2.into_node()), self.3.into_node()), self.4.into_node()), self.5.into_node()), self.6.into_node()), self.7.into_node()), self.8.into_node()), self.9.into_node())
    }
}

impl<T0: Render, T1: Render, T2: Render, T3: Render, T4: Render, T5: Render, T6: Render, T7: Render, T8: Render, T9: Render, T10: Render> Render for (T0,T1,T2,T3,T4,T5,T6,T7,T8,T9,T10,) {
    open spec fn rendered(&self) -> Seq<char> {
        self.0.rendered() + self.1.rendered() + self.2.rendered() + self.3.rendered() + self.4.rendered() + self.5.rendered() + self.6.rendered() + self.7.rendered() + self.8.rendered() + self.9.rendered() + self.10.rendered()
    }

    fn render(&self, buffer: &mut String) -> (r: Result<(), RenderError>) {
        self.0.render(buffer)?;
        let ghost mut acc: Seq<char> = self.0.rendered();
        self.1.render(buffer)?;
        proof {
            lemma_concat_assoc(old(buffer)@, acc, self.1.rendered());
            acc = acc + self.1.rendered();
        }
        self.2.render(buffer)?;
        proof {
            lemma_concat_assoc(old(buffer)@, acc, self.2.rendered());
            acc = acc + self.2.rendered();
        }
        self.3.render(buffer)?;
        proof {
            lemma_concat_assoc(old(buffer)@, acc, self.3.rendered());
            acc = acc + self.3.rendered();
        }
        self.4.render(buffer)?;
        proof {
            lemma_concat_assoc(old(buffer)@, acc, self.4.rendered());
            acc = acc + self.4.rendered();
        }
        self.5.render(buffer)?;
        proof {
            lemma_concat_assoc(old(buffer)@, acc, self.5.rendered());
            acc = acc + self.5.rendered();
        }
        self.6.render(buffer)?;
        proof {
            lemma_concat_assoc(old(buffer)@, acc, self.6.rendered());
            acc = acc + self.6.rendered();
        }
        self.7.render(buffer)?;
        proof {
            lemma_concat_assoc(old(buffer)@, acc, self.7.rendered());
            acc = acc + self.7.rendered();
        }
        self.8.render(buffer)?;
        proof {
            lemma_concat_assoc(old(buffer)@, acc, self.8.rendered());
            acc = acc + self.8.rendered();
        }
        self.9.render(buffer)?;
        proof {
            lemma_concat_assoc(old(buffer)@, acc, self.9.rendered());
            acc = acc + self.9.rendered();
        }
        self.10.render(buffer)?;
        proof {
            lemma_concat_assoc(old(buffer)@, acc, self.10.rendered());
            acc = acc + self.10.rendered();
        }
        Ok(())
    }

    fn into_node(self) -> (n: Node) {
        pair(pair(pair(pair(pair(pair(pair(pair(pair(pair(self.0.into_node(), self.1.into_node()), self.2.into_node()), self.3.into_node()), self.4.into_node()), self.5.into_node()), self.6.into_node()), self.7.into_node()), self.8.into_node()), self.9.into_node()), self.10.into_node())
    }
}

impl<T0: Render, T1: Render, T2: Render, T3: Render, T4: Render, T5: Render, T6: Render, T7: Render, T8: Render, T9: Render, T10: Render, T11: Render> Render for (T0,T1,T2,T3,T4,T5,T6,T7,T8,T9,T10,T11,) {
    open spec fn rendered(&self) -> Seq<char> {
        self.0.rendered() + self.1.rendered() + self.2.rendered() + self.3.rendered() + self.4.rendered() + self.5.rendered() + self.6.rendered() + self.7.rendered() + self.8.rendered() + self.9.rendered() + self.10.rendered() + self.11.rendered()
    }

    fn render(&self, buffer: &mut String) -> (r: Result<(), RenderError>) {
        self.0.render(buffer)?;
        let ghost mut acc: Seq<char> = self.0.rendered();
        self.1.render(buffer)?;
        proof {
            lemma_concat_assoc(old(buffer)@, acc, self.1.rendered());
            acc = acc + self.1.rendered();
        }
        self.2.render(buffer)?;
        proof {
            lemma_concat_assoc(old(buffer)@, acc, self.2.rendered());
            acc = acc + self.2.rendered();
        }
        self.3.render(buffer)?;
        proof {
            lemma_concat_assoc(old(buffer)@, acc, self.3.rendered());
            acc = acc + self.3.rendered();
        }
        self.4.render(buffer)?;
        proof {
            lemma_concat_assoc(old(buffer)@, acc, self.4.rendered());
            acc = acc + self.4.rendered();
        }
        self.5.render(buffer)?;
        proof {
            lemma_concat_assoc(old(buffer)@, acc, self.5.rendered());
            acc = acc + self.5.rendered();
        }
        self.6.render(buffer)?;
        proof {
            lemma_concat_assoc(old(buffer)@, acc, self.6.rendered());
            acc = acc + self.6.rendered();
        }
        self.7.render(buffer)?;
        proof {
            lemma_concat_assoc(old(buffer)@, acc, self.7.rendered());
            acc = acc + self.7.rendered();
        }
        self.8.render(buffer)?;
        proof {
            lemma_concat_assoc(old(buffer)@, acc, self.8.rendered());
            acc = acc + self.8.rendered();
        }
        self.9.render(buffer)?;
        proof {
            lemma_concat_assoc(old(buffer)@, acc, self.9.rendered());
            acc = acc + self.9.rendered();
        }
        self.10.render(buffer)?;
        proof {
            lemma_concat_assoc(old(buffer)@, acc, self.10.rendered());
            acc = acc + self.10.rendered();
        }
        self.11.render(buffer)?;
        proof {
            lemma_concat_assoc(old(buffer)@, acc, self.11.rendered());
            acc = acc + self.11.rendered();
        }
        Ok(())
    }

    fn into_node(self) -> (n: Node) {
        pair(pair(pair(pair(pair(pair(pair(pair(pair(pair(pair(self.0.into_node(), self.1.into_node()), self.2.into_node()), self.3.into_node()), self.4.into_node()), self.5.into_node()), self.6.into_node()), self.7.into_node()), self.8.into_node()), self.9.into_node()), self.10.into_node()), self.11.into_node())
    }
}

impl<T0: Render, T1: Render, T2: Render, T3: Render, T4: Render, T5: Render, T6: Render, T7: Render, T8: Render, T9: Render, T10: Render, T11: Render, T12: Render> Render for (T0,T1,T2,T3,T4,T5,T6,T7,T8,T9,T10,T11,T12,) {
    open spec fn rendered(&self) -> Seq<char> {
        self.0.rendered() + self.1.rendered() + self.2.rendered() + self.3.rendered() + self.4.rendered() + self.5.rendered() + self.6.rendered() + self.7.rendered() + self.8.rendered() + self.9.rendered() + self.10.rendered() + self.11.rendered() + self.12.rendered()
    }

    fn render(&self, buffer: &mut String) -> (r: Result<(), RenderError>) {
        self.0.render(buffer)?;
        let ghost mut acc: Seq<char> = self.0.rendered();
        self.1.render(buffer)?;
        proof {
            lemma_concat_assoc(old(buffer)@, acc, self.1.rendered());
            acc = acc + self.1.rendered();
        }
        self.2.render(buffer)?;
        proof {
            lemma_concat_assoc(old(buffer)@, acc, self.2.rendered());
            acc = acc + self.2.rendered();
        }
        self.3.render(buffer)?;
        proof {
            lemma_concat_assoc(old(buffer)@, acc, self.3.rendered());
            acc = acc + self.3.rendered();
        }
        self.4.render(buffer)?;
        proof {
            lemma_concat_assoc(old(buffer)@, acc, self.4.rendered());
            acc = acc + self.4.rendered();
        }
        self.5.render(buffer)?;
        proof {
            lemma_concat_assoc(old(buffer)@, acc, self.5.rendered());
            acc = acc + self.5.rendered();
        }
        self.6.render(buffer)?;
        proof {
            lemma_concat_assoc(old(buffer)@, acc, self.6.rendered());
            acc = acc + self.6.rendered();
        }
        self.7.render(buffer)?;
        proof {
            lemma_concat_assoc(old(buffer)@, acc, self.7.rendered());
            acc = acc + self.7.rendered();
        }
        self.8.render(buffer)?;
        proof {
            lemma_concat_assoc(old(buffer)@, acc, self.8.rendered());
            acc = acc + self.8.rendered();
        }
        self.9.render(buffer)?;
        proof {
            lemma_concat_assoc(old(buffer)@, acc, self.9.rendered());
            acc = acc + self.9.rendered();
        }
        self.10.render(buffer)?;
        proof {
            lemma_concat_assoc(old(buffer)@, acc, self.10.rendered());
            acc = acc + self.10.rendered();
        }
        self.11.render(buffer)?;
        proof {
            lemma_concat_assoc(old(buffer)@, acc, self.11.rendered());
            acc = acc + self.11.rendered();
        }
        self.12.render(buffer)?;
        proof {
            lemma_concat_assoc(old(buffer)@, acc, self.12.rendered());
            acc = acc + self.12.rendered();
        }
        Ok(())
    }

    fn into_node(self) -> (n: Node) {
        pair(pair(pair(pair(pair(pair(pair(pair(pair(pair(pair(pair(self.0.into_node(), self.1.into_node()), self.2.into_node()), self.3.into_node()), self.4.into_node()), self.5.into_node()), self.6.into_node()), self.7.into_node()), self.8.into_node()), self.9.into_node()), self.10.into_node()), self.11.into_node()), self.12.into_node())
    }
}

impl<T0: Render, T1: Render, T2: Render, T3: Render, T4: Render, T5: Render, T6: Render, T7: Render, T8: Render, T9: Render, T10: Render, T11: Render, T12: Render, T13: Render> Render for (T0,T1,T2,T3,T4,T5,T6,T7,T8,T9,T10,T11,T12,T13,) {
    open spec fn rendered(&self) -> Seq<char> {
        self.0.rendered() + self.1.rendered() + self.2.rendered() + self.3.rendered() + self.4.rendered() + self.5.rendered() + self.6.rendered() + self.7.rendered() + self.8.rendered() + self.9.rendered() + self.10.rendered() + self.11.rendered() + self.12.rendered() + self.13.rendered()
    }

    fn render(&self, buffer: &mut String) -> (r: Result<(), RenderError>) {
        self.0.render(buffer)?;
        let ghost mut acc: Seq<char> = self.0.rendered();
        self.1.render(buffer)?;
        proof {
            lemma_concat_assoc(old(buffer)@, acc, self.1.rendered());
            acc = acc + self.1.rendered();
        }
        self.2.render(buffer)?;
        proof {
            lemma_concat_assoc(old(buffer)@, acc, self.2.rendered());
            acc = acc + self.2.rendered();
        }
        self.3.render(buffer)?;
        proof {
            lemma_concat_assoc(old(buffer)@, acc, self.3.rendered());
            acc = acc + self.3.rendered();
        }
        self.4.render(buffer)?;
        proof {
            lemma_concat_assoc(old(buffer)@, acc, self.4.rendered());
            acc = acc + self.4.rendered();
        }
        self.5.render(buffer)?;
        proof {
            lemma_concat_assoc(old(buffer)@, acc, self.5.rendered());
            acc = acc + self.5.rendered();
        }
        self.6.render(buffer)?;
        proof {
            lemma_concat_assoc(old(buffer)@, acc, self.6.rendered());
            acc = acc + self.6.rendered();
        }
        self.7.render(buffer)?;
        proof {
            lemma_concat_assoc(old(buffer)@, acc, self.7.rendered());
            acc = acc + self.7.rendered();
        }
        self.8.render(buffer)?;
        proof {
            lemma_concat_assoc(old(buffer)@, acc, self.8.rendered());
            acc = acc + self.8.rendered();
        }
        self.9.render(buffer)?;
        proof {
            lemma_concat_assoc(old(buffer)@, acc, self.9.rendered());
            acc = acc + self.9.rendered();
        }
        self.10.render(buffer)?;
        proof {
            lemma_concat_assoc(old(buffer)@, acc, self.10.rendered());
            acc = acc + self.10.rendered();
        }
        self.11.render(buffer)?;
        proof {
            lemma_concat_assoc(old(buffer)@, acc, self.11.rendered());
            acc = acc + self.11.rendered();
        }
        self.12.render(buffer)?;
        proof {
            lemma_concat_assoc(old(buffer)@, acc, self.12.rendered());
            acc = acc + self.12.rendered();
        }
        self.13.render(buffer)?;
        proof {
            lemma_concat_assoc(old(buffer)@, acc, self.13.rendered());
            acc = acc + self.13.rendered();
        }
        Ok(())
    }

    fn into_node(self) -> (n: Node) {
        pair(pair(pair(pair(pair(pair(pair(pair(pair(pair(pair(pair(pair(self.0.into_node(), self.1.into_node()), self.2.into_node()), self.3.into_node()), self.4.into_node()), self.5.into_node()), self.6.into_node()), self.7.into_node()), self.8.into_node()), self.9.into_node()), self.10.into_node()), self.11.into_node()), self.12.into_node()), self.13.into_node())
    }
}

impl<T0: Render, T1: Render, T2: Render, T3: Render, T4: Render, T5: Render, T6: Render, T7: Render, T8: Render, T9: Render, T10: Render, T11: Render, T12: Render, T13: Render, T14: Render> Render for (T0,T1,T2,T3,T4,T5,T6,T7,T8,T9,T10,T11,T12,T13,T14,) {
    open spec fn rendered(&self) -> Seq<char> {
        self.0.rendered() + self.1.rendered() + self.2.rendered() + self.3.rendered() + self.4.rendered() + self.5.rendered() + self.6.rendered() + self.7.rendered() + self.8.rendered() + self.9.rendered() + self.10.rendered() + self.11.rendered() + self.12.rendered() + self.13.rendered() + self.14.rendered()
    }

    fn render(&self, buffer: &mut String) -> (r: Result<(), RenderError>) {
        self.0.render(buffer)?;
        let ghost mut acc: Seq<char> = self.0.rendered();
        self.1.render(buffer)?;
        proof {
            lemma_concat_assoc(old(buffer)@, acc, self.1.rendered());
            acc = acc + self.1.rendered();
        }
        self.2.render(buffer)?;
        proof {
            lemma_concat_assoc(old(buffer)@, acc, self.2.rendered());
            acc = acc + self.2.rendered();
        }
        self.3.render(buffer)?;
        proof {
            lemma_concat_assoc(old(buffer)@, acc, self.3.rendered());
            acc = acc + self.3.rendered();
        }
        self.4.render(buffer)?;
        proof {
            lemma_concat_assoc(old(buffer)@, acc, self.4.rendered());
            acc = acc + self.4.rendered();
        }
        self.5.render(buffer)?;
        proof {
            lemma_concat_assoc(old(buffer)@, acc, self.5.rendered());
            acc = acc + self.5.rendered();
        }
        self.6.render(buffer)?;
        proof {
            lemma_concat_assoc(old(buffer)@, acc, self.6.rendered());
            acc = acc + self.6.rendered();
        }
        self.7.render(buffer)?;
        proof {
            lemma_concat_assoc(old(buffer)@, acc, self.7.rendered());
            acc = acc + self.7.rendered();
        }
        self.8.render(buffer)?;
        proof {
            lemma_concat_assoc(old(buffer)@, acc, self.8.rendered());
            acc = acc + self.8.rendered();
        }
        self.9.render(buffer)?;
        proof {
            lemma_concat_assoc(old(buffer)@, acc, self.9.rendered());
            acc = acc + self.9.rendered();
        }
        self.10.render(buffer)?;
        proof {
            lemma_concat_assoc(old(buffer)@, acc, self.10.rendered());
            acc = acc + self.10.rendered();
        }
        self.11.render(buffer)?;
        proof {
            lemma_concat_assoc(old(buffer)@, acc, self.11.rendered());
            acc = acc + self.11.rendered();
        }
        self.12.render(buffer)?;
        proof {
            lemma_concat_assoc(old(buffer)@, acc, self.12.rendered());
            acc = acc + self.12.rendered();
        }
        self.13.render(buffer)?;
        proof {
            lemma_concat_assoc(old(buffer)@, acc, self.13.rendered());
            acc = acc + self.13.rendered();
        }
        self.14.render(buffer)?;
        proof {
            lemma_concat_assoc(old(buffer)@, acc, self.14.rendered());
            acc = acc + self.14.rendered();
        }
        Ok(())
    }

    fn into_node(self) -> (n: Node) {
        pair(pair(pair(pair(pair(pair(pair(pair(pair(pair(pair(pair(pair(pair(self.0.into_node(), self.1.into_node()), self.2.into_node()), self.3.into_node()), self.4.into_node()), self.5.into_node()), self.6.into_node()), self.7.into_node()), self.8.into_node()), self.9.into_node()), self.10.into_node()), self.11.into_node()), self.12.into_node()), self.13.into_node()), self.14.into_node())
    }
}

impl<T0: Render, T1: Render, T2: Render, T3: Render, T4: Render, T5: Render, T6: Render, T7: Render, T8: Render, T9: Render, T10: Render, T11: Render, T12: Render, T13: Render, T14: Render, T15: Render> Render for (T0,T1,T2,T3,T4,T5,T6,T7,T8,T9,T10,T11,T12,T13,T14,T15,) {
    open spec fn rendered(&self) -> Seq<char> {
        self.0.rendered() + self.1.rendered() + self.2.rendered() + self.3.rendered() + self.4.rendered() + self.5.rendered() + self.6.rendered() + self.7.rendered() + self.8.rendered() + self.9.rendered() + self.10.rendered() + self.11.rendered() + self.12.rendered() + self.13.rendered() + self.14.rendered() + self.15.rendered()
    }

    fn render(&self, buffer: &mut String) -> (r: Result<(), RenderError>) {
        self.0.render(buffer)?;
        let ghost mut acc: Seq<char> = self.0.rendered();
        self.1.render(buffer)?;
        proof {
            lemma_concat_assoc(old(buffer)@, acc, self.1.rendered());
            acc = acc + self.1.rendered();
        }
        self.2.render(buffer)?;
        proof {
            lemma_concat_assoc(old(buffer)@, acc, self.2.rendered());
            acc = acc + self.2.rendered();
        }
        self.3.render(buffer)?;
        proof {
            lemma_concat_assoc(old(buffer)@, acc, self.3.rendered());
            acc = acc + self.3.rendered();
        }
        self.4.render(buffer)?;
        proof {
            lemma_concat_assoc(old(buffer)@, acc, self.4.rendered());
            acc = acc + self.4.rendered();
        }
        self.5.render(buffer)?;
        proof {
            lemma_concat_assoc(old(buffer)@, acc, self.5.rendered());
            acc = acc + self.5.rendered();
        }
        self.6.render(buffer)?;
        proof {
            lemma_concat_assoc(old(buffer)@, acc, self.6.rendered());
            acc = acc + self.6.rendered();
        }
        self.7.render(buffer)?;
        proof {
            lemma_concat_assoc(old(buffer)@, acc, self.7.rendered());
            acc = acc + self.7.rendered();
        }
        self.8.render(buffer)?;
        proof {
            lemma_concat_assoc(old(buffer)@, acc, self.8.rendered());
            acc = acc + self.8.rendered();
        }
        self.9.render(buffer)?;
        proof {
            lemma_concat_assoc(old(buffer)@, acc, self.9.rendered());
            acc = acc + self.9.rendered();
        }
        self.10.render(buffer)?;
        proof {
            lemma_concat_assoc(old(buffer)@, acc, self.10.rendered());
            acc = acc + self.10.rendered();
        }
        self.11.render(buffer)?;
        proof {
            lemma_concat_assoc(old(buffer)@, acc, self.11.rendered());
            acc = acc + self.11.rendered();
        }
        self.12.render(buffer)?;
        proof {
            lemma_concat_assoc(old(buffer)@, acc, self.12.rendered());
            acc = acc + self.12.rendered();
        }
        self.13.render(buffer)?;
        proof {
            lemma_concat_assoc(old(buffer)@, acc, self.13.rendered());
            acc = acc + self.13.rendered();
        }
        self.14.render(buffer)?;
        proof {
            lemma_concat_assoc(old(buffer)@, acc, self.14.rendered());
            acc = acc + self.14.rendered();
        }
        self.15.render(buffer)?;
        proof {
            lemma_concat_assoc(old(buffer)@, acc, self.15.rendered());
            acc = acc + self.15.rendered();
        }
        Ok(())
    }

    fn into_node(self) -> (n: Node) {
        pair(pair(pair(pair(pair(pair(pair(pair(pair(pair(pair(pair(pair(pair(pair(self.0.into_node(), self.1.into_node()), self.2.into_node()), self.3.into_node()), self.4.into_node()), self.5.into_node()), self.6.into_node()), self.7.into_node()), self.8.into_node()), self.9.into_node()), self.10.into_node()), self.11.into_node()), self.12.into_node()), self.13.into_node()), self.14.into_node()), self.15.into_node())
    }
}

impl<T0: Render, T1: Render, T2: Render, T3: Render, T4: Render, T5: Render, T6: Render, T7: Render, T8: Render, T9: Render, T10: Render, T11: Render, T12: Render, T13: Render, T14: Render, T15: Render, T16: Render> Render for (T0,T1,T2,T3,T4,T5,T6,T7,T8,T9,T10,T11,T12,T13,T14,T15,T16,) {
    open spec fn rendered(&self) -> Seq<char> {
        self.0.rendered() + self.1.rendered() + self.2.rendered() + self.3.rendered() + self.4.rendered() + self.5.rendered() + self.6.rendered() + self.7.rendered() + self.8.rendered() + self.9.rendered() + self.10.rendered() + self.11.rendered() + self.12.rendered() + self.13.rendered() + self.14.rendered() + self.15.rendered() + self.16.rendered()
    }

    fn render(&self, buffer: &mut String) -> (r: Result<(), RenderError>) {
        self.0.render(buffer)?;
        let ghost mut acc: Seq<char> = self.0.rendered();
        self.1.render(buffer)?;
        proof {
            lemma_concat_assoc(old(buffer)@, acc, self.1.rendered());
            acc = acc + self.1.rendered();
        }
        self.2.render(buffer)?;
        proof {
            lemma_concat_assoc(old(buffer)@, acc, self.2.rendered());
            acc = acc + self.2.rendered();
        }
        self.3.render(buffer)?;
        proof {
            lemma_concat_assoc(old(buffer)@, acc, self.3.rendered());
            acc = acc + self.3.rendered();
        }
        self.4.render(buffer)?;
        proof {
            lemma_concat_assoc(old(buffer)@, acc, self.4.rendered());
            acc = acc + self.4.rendered();
        }
        self.5.render(buffer)?;
        proof {
            lemma_concat_assoc(old(buffer)@, acc, self.5.rendered());
            acc = acc + self.5.rendered();
        }
        self.6.render(buffer)?;
        proof {
            lemma_concat_assoc(old(buffer)@, acc, self.6.rendered());
            acc = acc + self.6.rendered();
        }
        self.7.render(buffer)?;
        proof {
            lemma_concat_assoc(old(buffer)@, acc, self.7.rendered());
            acc = acc + self.7.rendered();
        }
        self.8.render(buffer)?;
        proof {
            lemma_concat_assoc(old(buffer)@, acc, self.8.rendered());
            acc = acc + self.8.rendered();
        }
        self.9.render(buffer)?;
        proof {
            lemma_concat_assoc(old(buffer)@, acc, self.9.rendered());
            acc = acc + self.9.rendered();
        }
        self.10.render(buffer)?;
        proof {
            lemma_concat_assoc(old(buffer)@, acc, self.10.rendered());
            acc = acc + self.10.rendered();
        }
        self.11.render(buffer)?;
        proof {
            lemma_concat_assoc(old(buffer)@, acc, self.11.rendered());
            acc = acc + self.11.rendered();
        }
        self.12.render(buffer)?;
        proof {
            lemma_concat_assoc(old(buffer)@, acc, self.12.rendered());
            acc = acc + self.12.rendered();
        }
        self.13.render(buffer)?;
        proof {
            lemma_concat_assoc(old(buffer)@, acc, self.13.rendered());
            acc = acc + self.13.rendered();
        }
        self.14.render(buffer)?;
        proof {
            lemma_concat_assoc(old(buffer)@, acc, self.14.rendered());
            acc = acc + self.14.rendered();
        }
        self.15.render(buffer)?;
        proof {
            lemma_concat_assoc(old(buffer)@, acc, self.15.rendered());
            acc = acc + self.15.rendered();
        }
        self.16.render(buffer)?;
        proof {
            lemma_concat_assoc(old(buffer)@, acc, self.16.rendered());
            acc = acc + self.16.rendered();
        }
        Ok(())
    }

    fn into_node(self) -> (n: Node) {
        pair(pair(pair(pair(pair(pair(pair(pair(pair(pair(pair(pair(pair(pair(pair(pair(self.0.into_node(), self.1.into_node()), self.2.into_node()), self.3.into_node()), self.4.into_node()), self.5.into_node()), self.6.into_node()), self.7.into_node()), self.8.into_node()), self.9.into_node()), self.10.into_node()), self.11.into_node()), self.12.into_node()), self.13.into_node()), self.14.into_node()), self.15.into_node()), self.16.into_node())
    }
}

impl<T0: Render, T1: Render, T2: Render, T3: Render, T4: Render, T5: Render, T6: Render, T7: Render, T8: Render, T9: Render, T10: Render, T11: Render, T12: Render, T13: Render, T14: Render, T15: Render, T16: Render, T17: Render> Render for (T0,T1,T2,T3,T4,T5,T6,T7,T8,T9,T10,T11,T12,T13,T14,T15,T16,T17,) {
    open spec fn rendered(&self) -> Seq<char> {
        self.0.rendered() + self.1.rendered() + self.2.rendered() + self.3.rendered() + self.4.rendered() + self.5.rendered() + self.6.rendered() + self.7.rendered() + self.8.rendered() + self.9.rendered() + self.10.rendered() + self.11.rendered() + self.12.rendered() + self.13.rendered() + self.14.rendered() + self.15.rendered() + self.16.rendered() + self.17.rendered()
    }

    fn render(&self, buffer: &mut String) -> (r: Result<(), RenderError>) {
        self.0.render(buffer)?;
        let ghost mut acc: Seq<char> = self.0.rendered();
        self.1.render(buffer)?;
        proof {
            lemma_concat_assoc(old(buffer)@, acc, self.1.rendered());
            acc = acc + self.1.rendered();
        }
        self.2.render(buffer)?;
        proof {
            lemma_concat_assoc(old(buffer)@, acc, self.2.rendered());
            acc = acc + self.2.rendered();
        }
        self.3.render(buffer)?;
        proof {
            lemma_concat_assoc(old(buffer)@, acc, self.3.rendered());
            acc = acc + self.3.rendered();
        }
        self.4.render(buffer)?;
        proof {
            lemma_concat_assoc(old(buffer)@, acc, self.4.rendered());
            acc = acc + self.4.rendered();
        }
        self.5.render(buffer)?;
        proof {
            lemma_concat_assoc(old(buffer)@, acc, self.5.rendered());
            acc = acc + self.5.rendered();
        }
        self.6.render(buffer)?;
        proof {
            lemma_concat_assoc(old(buffer)@, acc, self.6.rendered());
            acc = acc + self.6.rendered();
        }
        self.7.render(buffer)?;
        proof {
            lemma_concat_assoc(old(buffer)@, acc, self.7.rendered());
            acc = acc + self.7.rendered();
        }
        self.8.render(buffer)?;
        proof {
            lemma_concat_assoc(old(buffer)@, acc, self.8.rendered());
            acc = acc + self.8.rendered();
        }
        self.9.render(buffer)?;
        proof {
            lemma_concat_assoc(old(buffer)@, acc, self.9.rendered());
            acc = acc + self.9.rendered();
        }
        self.10.render(buffer)?;
        proof {
            lemma_concat_assoc(old(buffer)@, acc, self.10.rendered());
            acc = acc + self.10.rendered();
        }
        self.11.render(buffer)?;
        proof {
            lemma_concat_assoc(old(buffer)@, acc, self.11.rendered());
            acc = acc + self.11.rendered();
        }
        self.12.render(buffer)?;
        proof {
            lemma_concat_assoc(old(buffer)@, acc, self.12.rendered());
            acc = acc + self.12.rendered();
        }
        self.13.render(buffer)?;
        proof {
            lemma_concat_assoc(old(buffer)@, acc, self.13.rendered());
            acc = acc + self.13.rendered();
        }
        self.14.render(buffer)?;
        proof {
            lemma_concat_assoc(old(buffer)@, acc, self.14.rendered());
            acc = acc + self.14.rendered();
        }
        self.15.render(buffer)?;
        proof {
            lemma_concat_assoc(old(buffer)@, acc, self.15.rendered());
            acc = acc + self.15.rendered();
        }
        self.16.render(buffer)?;
        proof {
            lemma_concat_assoc(old(buffer)@, acc, self.16.rendered());
            acc = acc + self.16.rendered();
        }
        self.17.render(buffer)?;
        proof {
            lemma_concat_assoc(old(buffer)@, acc, self.17.rendered());
            acc = acc + self.17.rendered();
        }
        Ok(())
    }

    fn into_node(self) -> (n: Node) {
        pair(pair(pair(pair(pair(pair(pair(pair(pair(pair(pair(pair(pair(pair(pair(pair(pair(self.0.into_node(), self.1.into_node()), self.2.into_node()), self.3.into_node()), self.4.into_node()), self.5.into_node()), self.6.into_node()), self.7.into_node()), self.8.into_node()), self.9.into_node()), self.10.into_node()), self.11.into_node()), self.12.into_node()), self.13.into_node()), self.14.into_node()), self.15.into_node()), self.16.into_node()), self.17.into_node())
    }
}

impl<T0: Render, T1: Render, T2: Render, T3: Render, T4: Render, T5: Render, T6: Render, T7: Render, T8: Render, T9: Render, T10: Render, T11: Render, T12: Render, T13: Render, T14: Render, T15: Render, T16: Render, T17: Render, T18: Render> Render for (T0,T1,T2,T3,T4,T5,T6,T7,T8,T9,T10,T11,T12,T13,T14,T15,T16,T17,T18,) {
    open spec fn rendered(&self) -> Seq<char> {
        self.0.rendered() + self.1.rendered() + self.2.rendered() + self.3.rendered() + self.4.rendered() + self.5.rendered() + self.6.rendered() + self.7.rendered() + self.8.rendered() + self.9.rendered() + self.10.rendered() + self.11.rendered() + self.12.rendered() + self.13.rendered() + self.14.rendered() + self.15.rendered() + self.16.rendered() + self.17.rendered() + self.18.rendered()
    }

    fn render(&self, buffer: &mut String) -> (r: Result<(), RenderError>) {
        self.0.render(buffer)?;
        let ghost mut acc: Seq<char> = self.0.rendered();
        self.1.render(buffer)?;
        proof {
            lemma_concat_assoc(old(buffer)@, acc, self.1.rendered());
            acc = acc + self.1.rendered();
        }
        self.2.render(buffer)?;
        proof {
            lemma_concat_assoc(old(buffer)@, acc, self.2.rendered());
            acc = acc + self.2.rendered();
        }
        self.3.render(buffer)?;
        proof {
            lemma_concat_assoc(old(buffer)@, acc, self.3.rendered());
            acc = acc + self.3.rendered();
        }
        self.4.render(buffer)?;
        proof {
            lemma_concat_assoc(old(buffer)@, acc, self.4.rendered());
            acc = acc + self.4.rendered();
        }
        self.5.render(buffer)?;
        proof {
            lemma_concat_assoc(old(buffer)@, acc, self.5.rendered());
            acc = acc + self.5.rendered();
        }
        self.6.render(buffer)?;
        proof {
            lemma_concat_assoc(old(buffer)@, acc, self.6.rendered());
            acc = acc + self.6.rendered();
        }
        self.7.render(buffer)?;
        proof {
            lemma_concat_assoc(old(buffer)@, acc, self.7.rendered());
            acc = acc + self.7.rendered();
        }
        self.8.render(buffer)?;
        proof {
            lemma_concat_assoc(old(buffer)@, acc, self.8.rendered());
            acc = acc + self.8.rendered();
        }
        self.9.render(buffer)?;
        proof {
            lemma_concat_assoc(old(buffer)@, acc, self.9.rendered());
            acc = acc + self.9.rendered();
        }
        self.10.render(buffer)?;
        proof {
            lemma_concat_assoc(old(buffer)@, acc, self.10.rendered());
            acc = acc + self.10.rendered();
        }
        self.11.render(buffer)?;
        proof {
            lemma_concat_assoc(old(buffer)@, acc, self.11.rendered());
            acc = acc + self.11.rendered();
        }
        self.12.render(buffer)?;
        proof {
            lemma_concat_assoc(old(buffer)@, acc, self.12.rendered());
            acc = acc + self.12.rendered();
        }
        self.13.render(buffer)?;
        proof {
            lemma_concat_assoc(old(buffer)@, acc, self.13.rendered());
            acc = acc + self.13.rendered();
        }
        self.14.render(buffer)?;
        proof {
            lemma_concat_assoc(old(buffer)@, acc, self.14.rendered());
            acc = acc + self.14.rendered();
        }
        self.15.render(buffer)?;
        proof {
            lemma_concat_assoc(old(buffer)@, acc, self.15.rendered());
            acc = acc + self.15.rendered();
        }
        self.16.render(buffer)?;
        proof {
            lemma_concat_assoc(old(buffer)@, acc, self.16.rendered());
            acc = acc + self.16.rendered();
        }
        self.17.render(buffer)?;
        proof {
            lemma_concat_assoc(old(buffer)@, acc, self.17.rendered());
            acc = acc + self.17.rendered();
        }
        self.18.render(buffer)?;
        proof {
            lemma_concat_assoc(old(buffer)@, acc, self.18.rendered());
            acc = acc + self.18.rendered();
        }
        Ok(())
    }

    fn into_node(self) -> (n: Node) {
        pair(pair(pair(pair(pair(pair(pair(pair(pair(pair(pair(pair(pair(pair(pair(pair(pair(pair(self.0.into_node(), self.1.into_node()), self.2.into_node()), self.3.into_node()), self.4.into_node()), self.5.into_node()), self.6.into_node()), self.7.into_node()), self.8.into_node()), self.9.into_node()), self.10.into_node()), self.11.into_node()), self.12.into_node()), self.13.into_node()), self.14.into_node()), self.15.into_node()), self.16.into_node()), self.17.into_node()), self.18.into_node())
    }
}

impl<T0: Render, T1: Render, T2: Render, T3: Render, T4: Render, T5: Render, T6: Render, T7: Render, T8: Render, T9: Render, T10: Render, T11: Render, T12: Render, T13: Render, T14: Render, T15: Render, T16: Render, T17: Render, T18: Render, T19: Render> Render for (T0,T1,T2,T3,T4,T5,T6,T7,T8,T9,T10,T11,T12,T13,T14,T15,T16,T17,T18,T19,) {
    open spec fn rendered(&self) -> Seq<char> {
        self.0.rendered() + self.1.rendered() + self.2.rendered() + self.3.rendered() + self.4.rendered() + self.5.rendered() + self.6.rendered() + self.7.rendered() + self.8.rendered() + self.9.rendered() + self.10.rendered() + self.11.rendered() + self.12.rendered() + self.13.rendered() + self.14.rendered() + self.15.rendered() + self.16.rendered() + self.17.rendered() + self.18.rendered() + self.19.rendered()
    }

    fn render(&self, buffer: &mut String) -> (r: Result<(), RenderError>) {
        self.0.render(buffer)?;
        let ghost mut acc: Seq<char> = self.0.rendered();
        self.1.render(buffer)?;
        proof {
            lemma_concat_assoc(old(buffer)@, acc, self.1.rendered());
            acc = acc + self.1.rendered();
        }
        self.2.render(buffer)?;
        proof {
            lemma_concat_assoc(old(buffer)@, acc, self.2.rendered());
            acc = acc + self.2.rendered();
        }
        self.3.render(buffer)?;
        proof {
            lemma_concat_assoc(old(buffer)@, acc, self.3.rendered());
            acc = acc + self.3.rendered();
        }
        self.4.render(buffer)?;
        proof {
            lemma_concat_assoc(old(buffer)@, acc, self.4.rendered());
            acc = acc + self.4.rendered();
        }
        self.5.render(buffer)?;
        proof {
            lemma_concat_assoc(old(buffer)@, acc, self.5.rendered());
            acc = acc + self.5.rendered();
        }
        self.6.render(buffer)?;
        proof {
            lemma_concat_assoc(old(buffer)@, acc, self.6.rendered());
            acc = acc + self.6.rendered();
        }
        self.7.render(buffer)?;
        proof {
            lemma_concat_assoc(old(buffer)@, acc, self.7.rendered());
            acc = acc + self.7.rendered();
        }
        self.8.render(buffer)?;
        proof {
            lemma_concat_assoc(old(buffer)@, acc, self.8.rendered());
            acc = acc + self.8.rendered();
        }
        self.9.render(buffer)?;
        proof {
            lemma_concat_assoc(old(buffer)@, acc, self.9.rendered());
            acc = acc + self.9.rendered();
        }
        self.10.render(buffer)?;
        proof {
            lemma_concat_assoc(old(buffer)@, acc, self.10.rendered());
            acc = acc + self.10.rendered();
        }
        self.11.render(buffer)?;
        proof {
            lemma_concat_assoc(old(buffer)@, acc, self.11.rendered());
            acc = acc + self.11.rendered();
        }
        self.12.render(buffer)?;
        proof {
            lemma_concat_assoc(old(buffer)@, acc, self.12.rendered());
            acc = acc + self.12.rendered();
        }
        self.13.render(buffer)?;
        proof {
            lemma_concat_assoc(old(buffer)@, acc, self.13.rendered());
            acc = acc + self.13.rendered();
        }
        self.14.render(buffer)?;
        proof {
            lemma_concat_assoc(old(buffer)@, acc, self.14.rendered());
            acc = acc + self.14.rendered();
        }
        self.15.render(buffer)?;
        proof {
            lemma_concat_assoc(old(buffer)@, acc, self.15.rendered());
            acc = acc + self.15.rendered();
        }
        self.16.render(buffer)?;
        proof {
            lemma_concat_assoc(old(buffer)@, acc, self.16.rendered());
            acc = acc + self.16.rendered();
        }
        self.17.render(buffer)?;
        proof {
            lemma_concat_assoc(old(buffer)@, acc, self.17.rendered());
            acc = acc + self.17.rendered();
        }
        self.18.render(buffer)?;
        proof {
            lemma_concat_assoc(old(buffer)@, acc, self.18.rendered());
            acc = acc + self.18.rendered();
        }
        self.19.render(buffer)?;
        proof {
            lemma_concat_assoc(old(buffer)@, acc, self.19.rendered());
            acc = acc + self.19.rendered();
        }
        Ok(())
    }

    fn into_node(self) -> (n: Node) {
        pair(pair(pair(pair(pair(pair(pair(pair(pair(pair(pair(pair(pair(pair(pair(pair(pair(pair(pair(self.0.into_node(), self.1.into_node()), self.2.into_node()), self.3.into_node()), self.4.into_node()), self.5.into_node()), self.6.into_node()), self.7.into_node()), self.8.into_node()), self.9.into_node()), self.10.into_node()), self.11.into_node()), self.12.into_node()), self.13.into_node()), self.14.into_node()), self.15.into_node()), self.16.into_node()), self.17.into_node()), self.18.into_node()), self.19.into_node())
    }
}

impl<T0: Render, T1: Render, T2: Render, T3: Render, T4: Render, T5: Render, T6: Render, T7: Render, T8: Render, T9: Render, T10: Render, T11: Render, T12: Render, T13: Render, T14: Render, T15: Render, T16: Render, T17: Render, T18: Render, T19: Render, T20: Render> Render for (T0,T1,T2,T3,T4,T5,T6,T7,T8,T9,T10,T11,T12,T13,T14,T15,T16,T17,T18,T19,T20,) {
    open spec fn rendered(&self) -> Seq<char> {
        self.0.rendered() + self.1.rendered() + self.2.rendered() + self.3.rendered() + self.4.rendered() + self.5.rendered() + self.6.rendered() + self.7.rendered() + self.8.rendered() + self.9.rendered() + self.10.rendered() + self.11.rendered() + self.12.rendered() + self.13.rendered() + self.14.rendered() + self.15.rendered() + self.16.rendered() + self.17.rendered() + self.18.rendered() + self.19.rendered() + self.20.rendered()
    }

    fn render(&self, buffer: &mut String) -> (r: Result<(), RenderError>) {
        self.0.render(buffer)?;
        let ghost mut acc: Seq<char> = self.0.rendered();
        self.1.render(buffer)?;
        proof {
            lemma_concat_assoc(old(buffer)@, acc, self.1.rendered());
            acc = acc + self.1.rendered();
        }
        self.2.render(buffer)?;
        proof {
            lemma_concat_assoc(old(buffer)@, acc, self.2.rendered());
            acc = acc + self.2.rendered();
        }
        self.3.render(buffer)?;
        proof {
            lemma_concat_assoc(old(buffer)@, acc, self.3.rendered());
            acc = acc + self.3.rendered();
        }
        self.4.render(buffer)?;
        proof {
            lemma_concat_assoc(old(buffer)@, acc, self.4.rendered());
            acc = acc + self.4.rendered();
        }
        self.5.render(buffer)?;
        proof {
            lemma_concat_assoc(old(buffer)@, acc, self.5.rendered());
            acc = acc + self.5.rendered();
        }
        self.6.render(buffer)?;
        proof {
            lemma_concat_assoc(old(buffer)@, acc, self.6.rendered());
            acc = acc + self.6.rendered();
        }
        self.7.render(buffer)?;
        proof {
            lemma_concat_assoc(old(buffer)@, acc, self.7.rendered());
            acc = acc + self.7.rendered();
        }
        self.8.render(buffer)?;
        proof {
            lemma_concat_assoc(old(buffer)@, acc, self.8.rendered());
            acc = acc + self.8.rendered();
        }
        self.9.render(buffer)?;
        proof {
            lemma_concat_assoc(old(buffer)@, acc, self.9.rendered());
            acc = acc + self.9.rendered();
        }
        self.10.render(buffer)?;
        proof {
            lemma_concat_assoc(old(buffer)@, acc, self.10.rendered());
            acc = acc + self.10.rendered();
        }
        self.11.render(buffer)?;
        proof {
            lemma_concat_assoc(old(buffer)@, acc, self.11.rendered());
            acc = acc + self.11.rendered();
        }
        self.12.render(buffer)?;
        proof {
            lemma_concat_assoc(old(buffer)@, acc, self.12.rendered());
            acc = acc + self.12.rendered();
        }
        self.13.render(buffer)?;
        proof {
            lemma_concat_assoc(old(buffer)@, acc, self.13.rendered());
            acc = acc + self.13.rendered();
        }
        self.14.render(buffer)?;
        proof {
            lemma_concat_assoc(old(buffer)@, acc, self.14.rendered());
            acc = acc + self.14.rendered();
        }
        self.15.render(buffer)?;
        proof {
            lemma_concat_assoc(old(buffer)@, acc, self.15.rendered());
            acc = acc + self.15.rendered();
        }
        self.16.render(buffer)?;
        proof {
            lemma_concat_assoc(old(buffer)@, acc, self.16.rendered());
            acc = acc + self.16.rendered();
        }
        self.17.render(buffer)?;
        proof {
            lemma_concat_assoc(old(buffer)@, acc, self.17.rendered());
            acc = acc + self.17.rendered();
        }
        self.18.render(buffer)?;
        proof {
            lemma_concat_assoc(old(buffer)@, acc, self.18.rendered());
            acc = acc + self.18.rendered();
        }
        self.19.render(buffer)?;
        proof {
            lemma_concat_assoc(old(buffer)@, acc, self.19.rendered());
            acc = acc + self.19.rendered();
        }
        self.20.render(buffer)?;
        proof {
            lemma_concat_assoc(old(buffer)@, acc, self.20.rendered());
            acc = acc + self.20.rendered();
        }
        Ok(())
    }

    fn into_node(self) -> (n: Node) {
        pair(pair(pair(pair(pair(pair(pair(pair(pair(pair(pair(pair(pair(pair(pair(pair(pair(pair(pair(pair(self.0.into_node(), self.1.into_node()), self.2.into_node()), self.3.into_node()), self.4.into_node()), self.5.into_node()), self.6.into_node()), self.7.into_node()), self.8.into_node()), self.9.into_node()), self.10.into_node()), self.11.into_node()), self.12.into_node()), self.13.into_node()), self.14.into_node()), self.15.into_node()), self.16.into_node()), self.17.into_node()), self.18.into_node()), self.19.into_node()), self.20.into_node())
    }
}

impl<T0: Render, T1: Render, T2: Render, T3: Render, T4: Render, T5: Render, T6: Render, T7: Render, T8: Render, T9: Render, T10: Render, T11: Render, T12: Render, T13: Render, T14: Render, T15: Render, T16: Render, T17: Render, T18: Render, T19: Render, T20: Render, T21: Render> Render for (T0,T1,T2,T3,T4,T5,T6,T7,T8,T9,T10,T11,T12,T13,T14,T15,T16,T17,T18,T19,T20,T21,) {
    open spec fn rendered(&self) -> Seq<char> {
        self.0.rendered() + self.1.rendered() + self.2.rendered() + self.3.rendered() + self.4.rendered() + self.5.rendered() + self.6.rendered() + self.7.rendered() + self.8.rendered() + self.9.rendered() + self.10.rendered() + self.11.rendered() + self.12.rendered() + self.13.rendered() + self.14.rendered() + self.15.rendered() + self.16.rendered() + self.17.rendered() + self.18.rendered() + self.19.rendered() + self.20.rendered() + self.21.rendered()
    }

    fn render(&self, buffer: &mut String) -> (r: Result<(), RenderError>) {
        self.0.render(buffer)?;
        let ghost mut acc: Seq<char> = self.0.rendered();
        self.1.render(buffer)?;
        proof {
            lemma_concat_assoc(old(buffer)@, acc, self.1.rendered());
            acc = acc + self.1.rendered();
        }
        self.2.render(buffer)?;
        proof {
            lemma_concat_assoc(old(buffer)@, acc, self.2.rendered());
            acc = acc + self.2.rendered();
        }
        self.3.render(buffer)?;
        proof {
            lemma_concat_assoc(old(buffer)@, acc, self.3.rendered());
            acc = acc + self.3.rendered();
        }
        self.4.render(buffer)?;
        proof {
            lemma_concat_assoc(old(buffer)@, acc, self.4.rendered());
            acc = acc + self.4.rendered();
        }
        self.5.render(buffer)?;
        proof {
            lemma_concat_assoc(old(buffer)@, acc, self.5.rendered());
            acc = acc + self.5.rendered();
        }
        self.6.render(buffer)?;
        proof {
            lemma_concat_assoc(old(buffer)@, acc, self.6.rendered());
            acc = acc + self.6.rendered();
        }
        self.7.render(buffer)?;
        proof {
            lemma_concat_assoc(old(buffer)@, acc, self.7.rendered());
            acc = acc + self.7.rendered();
        }
        self.8.render(buffer)?;
        proof {
            lemma_concat_assoc(old(buffer)@, acc, self.8.rendered());
            acc = acc + self.8.rendered();
        }
        self.9.render(buffer)?;
        proof {
            lemma_concat_assoc(old(buffer)@, acc, self.9.rendered());
            acc = acc + self.9.rendered();
        }
        self.10.render(buffer)?;
        proof {
            lemma_concat_assoc(old(buffer)@, acc, self.10.rendered());
            acc = acc + self.10.rendered();
        }
        self.11.render(buffer)?;
        proof {
            lemma_concat_assoc(old(buffer)@, acc, self.11.rendered());
            acc = acc + self.11.rendered();
        }
        self.12.render(buffer)?;
        proof {
            lemma_concat_assoc(old(buffer)@, acc, self.12.rendered());
            acc = acc + self.12.rendered();
        }
        self.13.render(buffer)?;
        proof {
            lemma_concat_assoc(old(buffer)@, acc, self.13.rendered());
            acc = acc + self.13.rendered();
        }
        self.14.render(buffer)?;
        proof {
            lemma_concat_assoc(old(buffer)@, acc, self.14.rendered());
            acc = acc + self.14.rendered();
        }
        self.15.render(buffer)?;
        proof {
            lemma_concat_assoc(old(buffer)@, acc, self.15.rendered());
            acc = acc + self.15.rendered();
        }
        self.16.render(buffer)?;
        proof {
            lemma_concat_assoc(old(buffer)@, acc, self.16.rendered());
            acc = acc + self.16.rendered();
        }
        self.17.render(buffer)?;
        proof {
            lemma_concat_assoc(old(buffer)@, acc, self.17.rendered());
            acc = acc + self.17.rendered();
        }
        self.18.render(buffer)?;
        proof {
            lemma_concat_assoc(old(buffer)@, acc, self.18.rendered());
            acc = acc + self.18.rendered();
        }
        self.19.render(buffer)?;
        proof {
            lemma_concat_assoc(old(buffer)@, acc, self.19.rendered());
            acc = acc + self.19.rendered();
        }
        self.20.render(buffer)?;
        proof {
            lemma_concat_assoc(old(buffer)@, acc, self.20.rendered());
            acc = acc + self.20.rendered();
        }
        self.21.render(buffer)?;
        proof {
            lemma_concat_assoc(old(buffer)@, acc, self.21.rendered());
            acc = acc + self.21.rendered();
        }
        Ok(())
    }

    fn into_node(self) -> (n: Node) {
        pair(pair(pair(pair(pair(pair(pair(pair(pair(pair(pair(pair(pair(pair(pair(pair(pair(pair(pair(pair(pair(self.0.into_node(), self.1.into_node()), self.2.into_node()), self.3.into_node()), self.4.into_node()), self.5.into_node()), self.6.into_node()), self.7.into_node()), self.8.into_node()), self.9.into_node()), self.10.into_node()), self.11.into_node()), self.12.into_node()), self.13.into_node()), self.14.into_node()), self.15.into_node()), self.16.into_node()), self.17.into_node()), self.18.into_node()), self.19.into_node()), self.20.into_node()), self.21.into_node())
    }
}

impl<T0: Render, T1: Render, T2: Render, T3: Render, T4: Render, T5: Render, T6: Render, T7: Render, T8: Render, T9: Render, T10: Render, T11: Render, T12: Render, T13: Render, T14: Render, T15: Render, T16: Render, T17: Render, T18: Render, T19: Render, T20: Render, T21: Render, T22: Render> Render for (T0,T1,T2,T3,T4,T5,T6,T7,T8,T9,T10,T11,T12,T13,T14,T15,T16,T17,T18,T19,T20,T21,T22,) {
    open spec fn rendered(&self) -> Seq<char> {
        self.0.rendered() + self.1.rendered() + self.2.rendered() + self.3.rendered() + self.4.rendered() + self.5.rendered() + self.6.rendered() + self.7.rendered() + self.8.rendered() + self.9.rendered() + self.10.rendered() + self.11.rendered() + self.12.rendered() + self.13.rendered() + self.14.rendered() + self.15.rendered() + self.16.rendered() + self.17.rendered() + self.18.rendered() + self.19.rendered() + self.20.rendered() + self.21.rendered() + self.22.rendered()
    }

    fn render(&self, buffer: &mut String) -> (r: Result<(), RenderError>) {
        self.0.render(buffer)?;
        let ghost mut acc: Seq<char> = self.0.rendered();
        self.1.render(buffer)?;
        proof {
            lemma_concat_assoc(old(buffer)@, acc, self.1.rendered());
            acc = acc + self.1.rendered();
        }
        self.2.render(buffer)?;
        proof {
            lemma_concat_assoc(old(buffer)@, acc, self.2.rendered());
            acc = acc + self.2.rendered();
        }
        self.3.render(buffer)?;
        proof {
            lemma_concat_assoc(old(buffer)@, acc, self.3.rendered());
            acc = acc + self.3.rendered();
        }
        self.4.render(buffer)?;
        proof {
            lemma_concat_assoc(old(buffer)@, acc, self.4.rendered());
            acc = acc + self.4.rendered();
        }
        self.5.render(buffer)?;
        proof {
            lemma_concat_assoc(old(buffer)@, acc, self.5.rendered());
            acc = acc + self.5.rendered();
        }
        self.6.render(buffer)?;
        proof {
            lemma_concat_assoc(old(buffer)@, acc, self.6.rendered());
            acc = acc + self.6.rendered();
        }
        self.7.render(buffer)?;
        proof {
            lemma_concat_assoc(old(buffer)@, acc, self.7.rendered());
            acc = acc + self.7.rendered();
        }
        self.8.render(buffer)?;
        proof {
            lemma_concat_assoc(old(buffer)@, acc, self.8.rendered());
            acc = acc + self.8.rendered();
        }
        self.9.render(buffer)?;
        proof {
            lemma_concat_assoc(old(buffer)@, acc, self.9.rendered());
            acc = acc + self.9.rendered();
        }
        self.10.render(buffer)?;
        proof {
            lemma_concat_assoc(old(buffer)@, acc, self.10.rendered());
            acc = acc + self.10.rendered();
        }
        self.11.render(buffer)?;
        proof {
            lemma_concat_assoc(old(buffer)@, acc, self.11.rendered());
            acc = acc + self.11.rendered();
        }
        self.12.render(buffer)?;
        proof {
            lemma_concat_assoc(old(buffer)@, acc, self.12.rendered());
            acc = acc + self.12.rendered();
        }
        self.13.render(buffer)?;
        proof {
            lemma_concat_assoc(old(buffer)@, acc, self.13.rendered());
            acc = acc + self.13.rendered();
        }
        self.14.render(buffer)?;
        proof {
            lemma_concat_assoc(old(buffer)@, acc, self.14.rendered());
            acc = acc + self.14.rendered();
        }
        self.15.render(buffer)?;
        proof {
            lemma_concat_assoc(old(buffer)@, acc, self.15.rendered());
            acc = acc + self.15.rendered();
        }
        self.16.render(buffer)?;
        proof {
            lemma_concat_assoc(old(buffer)@, acc, self.16.rendered());
            acc = acc + self.16.rendered();
        }
        self.17.render(buffer)?;
        proof {
            lemma_concat_assoc(old(buffer)@, acc, self.17.rendered());
            acc = acc + self.17.rendered();
        }
        self.18.render(buffer)?;
        proof {
            lemma_concat_assoc(old(buffer)@, acc, self.18.rendered());
            acc = acc + self.18.rendered();
        }
        self.19.render(buffer)?;
        proof {
            lemma_concat_assoc(old(buffer)@, acc, self.19.rendered());
            acc = acc + self.19.rendered();
        }
        self.20.render(buffer)?;
        proof {
            lemma_concat_assoc(old(buffer)@, acc, self.20.rendered());
            acc = acc + self.20.rendered();
        }
        self.21.render(buffer)?;
        proof {
            lemma_concat_assoc(old(buffer)@, acc, self.21.rendered());
            acc = acc + self.21.rendered();
        }
        self.22.render(buffer)?;
        proof {
            lemma_concat_assoc(old(buffer)@, acc, self.22.rendered());
            acc = acc + self.22.rendered();
        }
        Ok(())
    }

    fn into_node(self) -> (n: Node) {
        pair(pair(pair(pair(pair(pair(pair(pair(pair(pair(pair(pair(pair(pair(pair(pair(pair(pair(pair(pair(pair(pair(self.0.into_node(), self.1.into_node()), self.2.into_node()), self.3.into_node()), self.4.into_node()), self.5.into_node()), self.6.into_node()), self.7.into_node()), self.8.into_node()), self.9.into_node()), self.10.into_node()), self.11.into_node()), self.12.into_node()), self.13.into_node()), self.14.into_node()), self.15.into_node()), self.16.into_node()), self.17.into_node()), self.18.into_node()), self.19.into_node()), self.20.into_node()), self.21.into_node()), self.22.into_node())
    }
}

impl<T0: Render, T1: Render, T2: Render, T3: Render, T4: Render, T5: Render, T6: Render, T7: Render, T8: Render, T9: Render, T10: Render, T11: Render, T12: Render, T13: Render, T14: Render, T15: Render, T16: Render, T17: Render, T18: Render, T19: Render, T20: Render, T21: Render, T22: Render, T23: Render> Render for (T0,T1,T2,T3,T4,T5,T6,T7,T8,T9,T10,T11,T12,T13,T14,T15,T16,T17,T18,T19,T20,T21,T22,T23,) {
    open spec fn rendered(&self) -> Seq<char> {
        self.0.rendered() + self.1.rendered() + self.2.rendered() + self.3.rendered() + self.4.rendered() + self.5.rendered() + self.6.rendered() + self.7.rendered() + self.8.rendered() + self.9.rendered() + self.10.rendered() + self.11.rendered() + self.12.rendered() + self.13.rendered() + self.14.rendered() + self.15.rendered() + self.16.rendered() + self.17.rendered() + self.18.rendered() + self.19.rendered() + self.20.rendered() + self.21.rendered() + self.22.rendered() + self.23.rendered()
    }

    fn render(&self, buffer: &mut String) -> (r: Result<(), RenderError>) {
        self.0.render(buffer)?;
        let ghost mut acc: Seq<char> = self.0.rendered();
        self.1.render(buffer)?;
        proof {
            lemma_concat_assoc(old(buffer)@, acc, self.1.rendered());
            acc = acc + self.1.rendered();
        }
        self.2.render(buffer)?;
        proof {
            lemma_concat_assoc(old(buffer)@, acc, self.2.rendered());
            acc = acc + self.2.rendered();
        }
        self.3.render(buffer)?;
        proof {
            lemma_concat_assoc(old(buffer)@, acc, self.3.rendered());
            acc = acc + self.3.rendered();
        }
        self.4.render(buffer)?;
        proof {
            lemma_concat_assoc(old(buffer)@, acc, self.4.rendered());
            acc = acc + self.4.rendered();
        }
        self.5.render(buffer)?;
        proof {
            lemma_concat_assoc(old(buffer)@, acc, self.5.rendered());
            acc = acc + self.5.rendered();
        }
        self.6.render(buffer)?;
        proof {
            lemma_concat_assoc(old(buffer)@, acc, self.6.rendered());
            acc = acc + self.6.rendered();
        }
        self.7.render(buffer)?;
        proof {
            lemma_concat_assoc(old(buffer)@, acc, self.7.rendered());
            acc = acc + self.7.rendered();
        }
        self.8.render(buffer)?;
        proof {
            lemma_concat_assoc(old(buffer)@, acc, self.8.rendered());
            acc = acc + self.8.rendered();
        }
        self.9.render(buffer)?;
        proof {
            lemma_concat_assoc(old(buffer)@, acc, self.9.rendered());
            acc = acc + self.9.rendered();
        }
        self.10.render(buffer)?;
        proof {
            lemma_concat_assoc(old(buffer)@, acc, self.10.rendered());
            acc = acc + self.10.rendered();
        }
        self.11.render(buffer)?;
        proof {
            lemma_concat_assoc(old(buffer)@, acc, self.11.rendered());
            acc = acc + self.11.rendered();
        }
        self.12.render(buffer)?;
        proof {
            lemma_concat_assoc(old(buffer)@, acc, self.12.rendered());
            acc = acc + self.12.rendered();
        }
        self.13.render(buffer)?;
        proof {
            lemma_concat_assoc(old(buffer)@, acc, self.13.rendered());
            acc = acc + self.13.rendered();
        }
        self.14.render(buffer)?;
        proof {
            lemma_concat_assoc(old(buffer)@, acc, self.14.rendered());
            acc = acc + self.14.rendered();
        }
        self.15.render(buffer)?;
        proof {
            lemma_concat_assoc(old(buffer)@, acc, self.15.rendered());
            acc = acc + self.15.rendered();
        }
        self.16.render(buffer)?;
        proof {
            lemma_concat_assoc(old(buffer)@, acc, self.16.rendered());
            acc = acc + self.16.rendered();
        }
        self.17.render(buffer)?;
        proof {
            lemma_concat_assoc(old(buffer)@, acc, self.17.rendered());
            acc = acc + self.17.rendered();
        }
        self.18.render(buffer)?;
        proof {
            lemma_concat_assoc(old(buffer)@, acc, self.18.rendered());
            acc = acc + self.18.rendered();
        }
        self.19.render(buffer)?;
        proof {
            lemma_concat_assoc(old(buffer)@, acc, self.19.rendered());
            acc = acc + self.19.rendered();
        }
        self.20.render(buffer)?;
        proof {
            lemma_concat_assoc(old(buffer)@, acc, self.20.rendered());
            acc = acc + self.20.rendered();
        }
        self.21.render(buffer)?;
        proof {
            lemma_concat_assoc(old(buffer)@, acc, self.21.rendered());
            acc = acc + self.21.rendered();
        }
        self.22.render(buffer)?;
        proof {
            lemma_concat_assoc(old(buffer)@, acc, self.22.rendered());
            acc = acc + self.22.rendered();
        }
        self.23.render(buffer)?;
        proof {
            lemma_concat_assoc(old(buffer)@, acc, self.23.rendered());
            acc = acc + self.23.rendered();
        }
        Ok(())
    }

    fn into_node(self) -> (n: Node) {
        pair(pair(pair(pair(pair(pair(pair(pair(pair(pair(pair(pair(pair(pair(pair(pair(pair(pair(pair(pair(pair(pair(pair(self.0.into_node(), self.1.into_node()), self.2.into_node()), self.3.into_node()), self.4.into_node()), self.5.into_node()), self.6.into_node()), self.7.into_node()), self.8.into_node()), self.9.into_node()), self.10.into_node()), self.11.into_node()), self.12.into_node()), self.13.into_node()), self.14.into_node()), self.15.into_node()), self.16.into_node()), self.17.into_node()), self.18.into_node()), self.19.into_node()), self.20.into_node()), self.21.into_node()), self.22.into_node()), self.23.into_node())
    }
}

impl<T0: Render, T1: Render, T2: Render, T3: Render, T4: Render, T5: Render, T6: Render, T7: Render, T8: Render, T9: Render, T10: Render, T11: Render, T12: Render, T13: Render, T14: Render, T15: Render, T16: Render, T17: Render, T18: Render, T19: Render, T20: Render, T21: Render, T22: Render, T23: Render, T24: Render> Render for (T0,T1,T2,T3,T4,T5,T6,T7,T8,T9,T10,T11,T12,T13,T14,T15,T16,T17,T18,T19,T20,T21,T22,T23,T24,) {
    open spec fn rendered(&self) -> Seq<char> {
        self.0.rendered() + self.1.rendered() + self.2.rendered() + self.3.rendered() + self.4.rendered() + self.5.rendered() + self.6.rendered() + self.7.rendered() + self.8.rendered() + self.9.rendered() + self.10.rendered() + self.11.rendered() + self.12.rendered() + self.13.rendered() + self.14.rendered() + self.15.rendered() + self.16.rendered() + self.17.rendered() + self.18.rendered() + self.19.rendered() + self.20.rendered() + self.21.rendered() + self.22.rendered() + self.23.rendered() + self.24.rendered()
    }

    fn render(&self, buffer: &mut String) -> (r: Result<(), RenderError>) {
        self.0.render(buffer)?;
        let ghost mut acc: Seq<char> = self.0.rendered();
        self.1.render(buffer)?;
        proof {
            lemma_concat_assoc(old(buffer)@, acc, self.1.rendered());
            acc = acc + self.1.rendered();
        }
        self.2.render(buffer)?;
        proof {
            lemma_concat_assoc(old(buffer)@, acc, self.2.rendered());
            acc = acc + self.2.rendered();
        }
        self.3.render(buffer)?;
        proof {
            lemma_concat_assoc(old(buffer)@, acc, self.3.rendered());
            acc = acc + self.3.rendered();
        }
        self.4.render(buffer)?;
        proof {
            lemma_concat_assoc(old(buffer)@, acc, self.4.rendered());
            acc = acc + self.4.rendered();
        }
        self.5.render(buffer)?;
        proof {
            lemma_concat_assoc(old(buffer)@, acc, self.5.rendered());
            acc = acc + self.5.rendered();
        }
        self.6.render(buffer)?;
        proof {
            lemma_concat_assoc(old(buffer)@, acc, self.6.rendered());
            acc = acc + self.6.rendered();
        }
        self.7.render(buffer)?;
        proof {
            lemma_concat_assoc(old(buffer)@, acc, self.7.rendered());
            acc = acc + self.7.rendered();
        }
        self.8.render(buffer)?;
        proof {
            lemma_concat_assoc(old(buffer)@, acc, self.8.rendered());
            acc = acc + self.8.rendered();
        }
        self.9.render(buffer)?;
        proof {
            lemma_concat_assoc(old(buffer)@, acc, self.9.rendered());
            acc = acc + self.9.rendered();
        }
        self.10.render(buffer)?;
        proof {
            lemma_concat_assoc(old(buffer)@, acc, self.10.rendered());
            acc = acc + self.10.rendered();
        }
        self.11.render(buffer)?;
        proof {
            lemma_concat_assoc(old(buffer)@, acc, self.11.rendered());
            acc = acc + self.11.rendered();
        }
        self.12.render(buffer)?;
        proof {
            lemma_concat_assoc(old(buffer)@, acc, self.12.rendered());
            acc = acc + self.12.rendered();
        }
        self.13.render(buffer)?;
        proof {
            lemma_concat_assoc(old(buffer)@, acc, self.13.rendered());
            acc = acc + self.13.rendered();
        }
        self.14.render(buffer)?;
        proof {
            lemma_concat_assoc(old(buffer)@, acc, self.14.rendered());
            acc = acc + self.14.rendered();
        }
        self.15.render(buffer)?;
        proof {
            lemma_concat_assoc(old(buffer)@, acc, self.15.rendered());
            acc = acc + self.15.rendered();
        }
        self.16.render(buffer)?;
        proof {
            lemma_concat_assoc(old(buffer)@, acc, self.16.rendered());
            acc = acc + self.16.rendered();
        }
        self.17.render(buffer)?;
        proof {
            lemma_concat_assoc(old(buffer)@, acc, self.17.rendered());
            acc = acc + self.17.rendered();
        }
        self.18.render(buffer)?;
        proof {
            lemma_concat_assoc(old(buffer)@, acc, self.18.rendered());
            acc = acc + self.18.rendered();
        }
        self.19.render(buffer)?;
        proof {
            lemma_concat_assoc(old(buffer)@, acc, self.19.rendered());
            acc = acc + self.19.rendered();
        }
        self.20.render(buffer)?;
        proof {
            lemma_concat_assoc(old(buffer)@, acc, self.20.rendered());
            acc = acc + self.20.rendered();
        }
        self.21.render(buffer)?;
        proof {
            lemma_concat_assoc(old(buffer)@, acc, self.21.rendered());
            acc = acc + self.21.rendered();
        }
        self.22.render(buffer)?;
        proof {
            lemma_concat_assoc(old(buffer)@, acc, self.22.rendered());
            acc = acc + self.22.rendered();
        }
        self.23.render(buffer)?;
        proof {
            lemma_concat_assoc(old(buffer)@, acc, self.23.rendered());
            acc = acc + self.23.rendered();
        }
        self.24.render(buffer)?;
        proof {
            lemma_concat_assoc(old(buffer)@, acc, self.24.rendered());
            acc = acc + self.24.rendered();
        }
        Ok(())
    }

    fn into_node(self) -> (n: Node) {
        pair(pair(pair(pair(pair(pair(pair(pair(pair(pair(pair(pair(pair(pair(pair(pair(pair(pair(pair(pair(pair(pair(pair(pair(self.0.into_node(), self.1.into_node()), self.2.into_node()), self.3.into_node()), self.4.into_node()), self.5.into_node()), self.6.into_node()), self.7.into_node()), self.8.into_node()), self.9.into_node()), self.10.into_node()), self.11.into_node()), self.12.into_node()), self.13.into_node()), self.14.into_node()), self.15.into_node()), self.16.into_node()), self.17.into_node()), self.18.into_node()), self.19.into_node()), self.20.into_node()), self.21.into_node()), self.22.into_node()), self.23.into_node()), self.24.into_node())
    }
}

impl<T0: Render, T1: Render, T2: Render, T3: Render, T4: Render, T5: Render, T6: Render, T7: Render, T8: Render, T9: Render, T10: Render, T11: Render, T12: Render, T13: Render, T14: Render, T15: Render, T16: Render, T17: Render, T18: Render, T19: Render, T20: Render, T21: Render, T22: Render, T23: Render, T24: Render, T25: Render> Render for (T0,T1,T2,T3,T4,T5,T6,T7,T8,T9,T10,T11,T12,T13,T14,T15,T16,T17,T18,T19,T20,T21,T22,T23,T24,T25,) {
    open spec fn rendered(&self) -> Seq<char> {
        self.0.rendered() + self.1.rendered() + self.2.rendered() + self.3.rendered() + self.4.rendered() + self.5.rendered() + self.6.rendered() + self.7.rendered() + self.8.rendered() + self.9.rendered() + self.10.rendered() + self.11.rendered() + self.12.rendered() + self.13.rendered() + self.14.rendered() + self.15.rendered() + self.16.rendered() + self.17.rendered() + self.18.rendered() + self.19.rendered() + self.20.rendered() + self.21.rendered() + self.22.rendered() + self.23.rendered() + self.24.rendered() + self.25.rendered()
    }

    fn render(&self, buffer: &mut String) -> (r: Result<(), RenderError>) {
        self.0.render(buffer)?;
        let ghost mut acc: Seq<char> = self.0.rendered();
        self.1.render(buffer)?;
        proof {
            lemma_concat_assoc(old(buffer)@, acc, self.1.rendered());
            acc = acc + self.1.rendered();
        }
        self.2.render(buffer)?;
        proof {
            lemma_concat_assoc(old(buffer)@, acc, self.2.rendered());
            acc = acc + self.2.rendered();
        }
        self.3.render(buffer)?;
        proof {
            lemma_concat_assoc(old(buffer)@, acc, self.3.rendered());
            acc = acc + self.3.rendered();
        }
        self.4.render(buffer)?;
        proof {
            lemma_concat_assoc(old(buffer)@, acc, self.4.rendered());
            acc = acc + self.4.rendered();
        }
        self.5.render(buffer)?;
        proof {
            lemma_concat_assoc(old(buffer)@, acc, self.5.rendered());
            acc = acc + self.5.rendered();
        }
        self.6.render(buffer)?;
        proof {
            lemma_concat_assoc(old(buffer)@, acc, self.6.rendered());
            acc = acc + self.6.rendered();
        }
        self.7.render(buffer)?;
        proof {
            lemma_concat_assoc(old(buffer)@, acc, self.7.rendered());
            acc = acc + self.7.rendered();
        }
        self.8.render(buffer)?;
        proof {
            lemma_concat_assoc(old(buffer)@, acc, self.8.rendered());
            acc = acc + self.8.rendered();
        }
        self.9.render(buffer)?;
        proof {
            lemma_concat_assoc(old(buffer)@, acc, self.9.rendered());
            acc = acc + self.9.rendered();
        }
        self.10.render(buffer)?;
        proof {
            lemma_concat_assoc(old(buffer)@, acc, self.10.rendered());
            acc = acc + self.10.rendered();
        }
        self.11.render(buffer)?;
        proof {
            lemma_concat_assoc(old(buffer)@, acc, self.11.rendered());
            acc = acc + self.11.rendered();
        }
        self.12.render(buffer)?;
        proof {
            lemma_concat_assoc(old(buffer)@, acc, self.12.rendered());
            acc = acc + self.12.rendered();
        }
        self.13.render(buffer)?;
        proof {
            lemma_concat_assoc(old(buffer)@, acc, self.13.rendered());
            acc = acc + self.13.rendered();
        }
        self.14.render(buffer)?;
        proof {
            lemma_concat_assoc(old(buffer)@, acc, self.14.rendered());
            acc = acc + self.14.rendered();
        }
        self.15.render(buffer)?;
        proof {
            lemma_concat_assoc(old(buffer)@, acc, self.15.rendered());
            acc = acc + self.15.rendered();
        }
        self.16.render(buffer)?;
        proof {
            lemma_concat_assoc(old(buffer)@, acc, self.16.rendered());
            acc = acc + self.16.rendered();
        }
        self.17.render(buffer)?;
        proof {
            lemma_concat_assoc(old(buffer)@, acc, self.17.rendered());
            acc = acc + self.17.rendered();
        }
        self.18.render(buffer)?;
        proof {
            lemma_concat_assoc(old(buffer)@, acc, self.18.rendered());
            acc = acc + self.18.rendered();
        }
        self.19.render(buffer)?;
        proof {
            lemma_concat_assoc(old(buffer)@, acc, self.19.rendered());
            acc = acc + self.19.rendered();
        }
        self.20.render(buffer)?;
        proof {
            lemma_concat_assoc(old(buffer)@, acc, self.20.rendered());
            acc = acc + self.20.rendered();
        }
        self.21.render(buffer)?;
        proof {
            lemma_concat_assoc(old(buffer)@, acc, self.21.rendered());
            acc = acc + self.21.rendered();
        }
        self.22.render(buffer)?;
        proof {
            lemma_concat_assoc(old(buffer)@, acc, self.22.rendered());
            acc = acc + self.22.rendered();
        }
        self.23.render(buffer)?;
        proof {
            lemma_concat_assoc(old(buffer)@, acc, self.23.rendered());
            acc = acc + self.23.rendered();
        }
        self.24.render(buffer)?;
        proof {
            lemma_concat_assoc(old(buffer)@, acc, self.24.rendered());
            acc = acc + self.24.rendered();
        }
        self.25.render(buffer)?;
        proof {
            lemma_concat_assoc(old(buffer)@, acc, self.25.rendered());
            acc = acc + self.25.rendered();
        }
        Ok(())
    }

    fn into_node(self) -> (n: Node) {
        pair(pair(pair(pair(pair(pair(pair(pair(pair(pair(pair(pair(pair(pair(pair(pair(pair(pair(pair(pair(pair(pair(pair(pair(pair(self.0.into_node(), self.1.into_node()), self.2.into_node()), self.3.into_node()), self.4.into_node()), self.5.into_node()), self.6.into_node()), self.7.into_node()), self.8.into_node()), self.9.into_node()), self.10.into_node()), self.11.into_node()), self.12.into_node()), self.13.into_node()), self.14.into_node()), self.15.into_node()), self.16.into_node()), self.17.into_node()), self.18.into_node()), self.19.into_node()), self.20.into_node()), self.21.into_node()), self.22.into_node()), self.23.into_node()), self.24.into_node()), self.25.into_node())
    }
}

impl<T0: Render, T1: Render, T2: Render, T3: Render, T4: Render, T5: Render, T6: Render, T7: Render, T8: Render, T9: Render, T10: Render, T11: Render, T12: Render, T13: Render, T14: Render, T15: Render, T16: Render, T17: Render, T18: Render, T19: Render, T20: Render, T21: Render, T22: Render, T23: Render, T24: Render, T25: Render, T26: Render> Render for (T0,T1,T2,T3,T4,T5,T6,T7,T8,T9,T10,T11,T12,T13,T14,T15,T16,T17,T18,T19,T20,T21,T22,T23,T24,T25,T26,) {
    open spec fn rendered(&self) -> Seq<char> {
        self.0.rendered() + self.1.rendered() + self.2.rendered() + self.3.rendered() + self.4.rendered() + self.5.rendered() + self.6.rendered() + self.7.rendered() + self.8.rendered() + self.9.rendered() + self.10.rendered() + self.11.rendered() + self.12.rendered() + self.13.rendered() + self.14.rendered() + self.15.rendered() + self.16.rendered() + self.17.rendered() + self.18.rendered() + self.19.rendered() + self.20.rendered() + self.21.rendered() + self.22.rendered() + self.23.rendered() + self.24.rendered() + self.25.rendered() + self.26.rendered()
    }

    fn render(&self, buffer: &mut String) -> (r: Result<(), RenderError>) {
        self.0.render(buffer)?;
        let ghost mut acc: Seq<char> = self.0.rendered();
        self.1.render(buffer)?;
        proof {
            lemma_concat_assoc(old(buffer)@, acc, self.1.rendered());
            acc = acc + self.1.rendered();
        }
        self.2.render(buffer)?;
        proof {
            lemma_concat_assoc(old(buffer)@, acc, self.2.rendered());
            acc = acc + self.2.rendered();
        }
        self.3.render(buffer)?;
        proof {
            lemma_concat_assoc(old(buffer)@, acc, self.3.rendered());
            acc = acc + self.3.rendered();
        }
        self.4.render(buffer)?;
        proof {
            lemma_concat_assoc(old(buffer)@, acc, self.4.rendered());
            acc = acc + self.4.rendered();
        }
        self.5.render(buffer)?;
        proof {
            lemma_concat_assoc(old(buffer)@, acc, self.5.rendered());
            acc = acc + self.5.rendered();
        }
        self.6.render(buffer)?;
        proof {
            lemma_concat_assoc(old(buffer)@, acc, self.6.rendered());
            acc = acc + self.6.rendered();
        }
        self.7.render(buffer)?;
        proof {
            lemma_concat_assoc(old(buffer)@, acc, self.7.rendered());
            acc = acc + self.7.rendered();
        }
        self.8.render(buffer)?;
        proof {
            lemma_concat_assoc(old(buffer)@, acc, self.8.rendered());
            acc = acc + self.8.rendered();
        }
        self.9.render(buffer)?;
        proof {
            lemma_concat_assoc(old(buffer)@, acc, self.9.rendered());
            acc = acc + self.9.rendered();
        }
        self.10.render(buffer)?;
        proof {
            lemma_concat_assoc(old(buffer)@, acc, self.10.rendered());
            acc = acc + self.10.rendered();
        }
        self.11.render(buffer)?;
        proof {
            lemma_concat_assoc(old(buffer)@, acc, self.11.rendered());
            acc = acc + self.11.rendered();
        }
        self.12.render(buffer)?;
        proof {
            lemma_concat_assoc(old(buffer)@, acc, self.12.rendered());
            acc = acc + self.12.rendered();
        }
        self.13.render(buffer)?;
        proof {
            lemma_concat_assoc(old(buffer)@, acc, self.13.rendered());
            acc = acc + self.13.rendered();
        }
        self.14.render(buffer)?;
        proof {
            lemma_concat_assoc(old(buffer)@, acc, self.14.rendered());
            acc = acc + self.14.rendered();
        }
        self.15.render(buffer)?;
        proof {
            lemma_concat_assoc(old(buffer)@, acc, self.15.rendered());
            acc = acc + self.15.rendered();
        }
        self.16.render(buffer)?;
        proof {
            lemma_concat_assoc(old(buffer)@, acc, self.16.rendered());
            acc = acc + self.16.rendered();
        }
        self.17.render(buffer)?;
        proof {
            lemma_concat_assoc(old(buffer)@, acc, self.17.rendered());
            acc = acc + self.17.rendered();
        }
        self.18.render(buffer)?;
        proof {
            lemma_concat_assoc(old(buffer)@, acc, self.18.rendered());
            acc = acc + self.18.rendered();
        }
        self.19.render(buffer)?;
        proof {
            lemma_concat_assoc(old(buffer)@, acc, self.19.rendered());
            acc = acc + self.19.rendered();
        }
        self.20.render(buffer)?;
        proof {
            lemma_concat_assoc(old(buffer)@, acc, self.20.rendered());
            acc = acc + self.20.rendered();
        }
        self.21.render(buffer)?;
        proof {
            lemma_concat_assoc(old(buffer)@, acc, self.21.rendered());
            acc = acc + self.21.rendered();
        }
        self.22.render(buffer)?;
        proof {
            lemma_concat_assoc(old(buffer)@, acc, self.22.rendered());
            acc = acc + self.22.rendered();
        }
        self.23.render(buffer)?;
        proof {
            lemma_concat_assoc(old(buffer)@, acc, self.23.rendered());
            acc = acc + self.23.rendered();
        }
        self.24.render(buffer)?;
        proof {
            lemma_concat_assoc(old(buffer)@, acc, self.24.rendered());
            acc = acc + self.24.rendered();
        }
        self.25.render(buffer)?;
        proof {
            lemma_concat_assoc(old(buffer)@, acc, self.25.rendered());
            acc = acc + self.25.rendered();
        }
        self.26.render(buffer)?;
        proof {
            lemma_concat_assoc(old(buffer)@, acc, self.26.rendered());
            acc = acc + self.26.rendered();
        }
        Ok(())
    }

    fn into_node(self) -> (n: Node) {
        pair(pair(pair(pair(pair(pair(pair(pair(pair(pair(pair(pair(pair(pair(pair(pair(pair(pair(pair(pair(pair(pair(pair(pair(pair(pair(self.0.into_node(), self.1.into_node()), self.2.into_node()), self.3.into_node()), self.4.into_node()), self.5.into_node()), self.6.into_node()), self.7.into_node()), self.8.into_node()), self.9.into_node()), self.10.into_node()), self.11.into_node()), self.12.into_node()), self.13.into_node()), self.14.into_node()), self.15.into_node()), self.16.into_node()), self.17.into_node()), self.18.into_node()), self.19.into_node()), self.20.into_node()), self.21.into_node()), self.22.into_node()), self.23.into_node()), self.24.into_node()), self.25.into_node()), self.26.into_node())
    }
}

impl<T0: Render, T1: Render, T2: Render, T3: Render, T4: Render, T5: Render, T6: Render, T7: Render, T8: Render, T9: Render, T10: Render, T11: Render, T12: Render, T13: Render, T14: Render, T15: Render, T16: Render, T17: Render, T18: Render, T19: Render, T20: Render, T21: Render, T22: Render, T23: Render, T24: Render, T25: Render, T26: Render, T27: Render> Render for (T0,T1,T2,T3,T4,T5,T6,T7,T8,T9,T10,T11,T12,T13,T14,T15,T16,T17,T18,T19,T20,T21,T22,T23,T24,T25,T26,T27,) {
    open spec fn rendered(&self) -> Seq<char> {
        self.0.rendered() + self.1.rendered() + self.2.rendered() + self.3.rendered() + self.4.rendered() + self.5.rendered() + self.6.rendered() + self.7.rendered() + self.8.rendered() + self.9.rendered() + self.10.rendered() + self.11.rendered() + self.12.rendered() + self.13.rendered() + self.14.rendered() + self.15.rendered() + self.16.rendered() + self.17.rendered() + self.18.rendered() + self.19.rendered() + self.20.rendered() + self.21.rendered() + self.22.rendered() + self.23.rendered() + self.24.rendered() + self.25.rendered() + self.26.rendered() + self.27.rendered()
    }

    fn render(&self, buffer: &mut String) -> (r: Result<(), RenderError>) {
        self.0.render(buffer)?;
        let ghost mut acc: Seq<char> = self.0.rendered();
        self.1.render(buffer)?;
        proof {
            lemma_concat_assoc(old(buffer)@, acc, self.1.rendered());
            acc = acc + self.1.rendered();
        }
        self.2.render(buffer)?;
        proof {
            lemma_concat_assoc(old(buffer)@, acc, self.2.rendered());
            acc = acc + self.2.rendered();
        }
        self.3.render(buffer)?;
        proof {
            lemma_concat_assoc(old(buffer)@, acc, self.3.rendered());
            acc = acc + self.3.rendered();
        }
        self.4.render(buffer)?;
        proof {
            lemma_concat_assoc(old(buffer)@, acc, self.4.rendered());
            acc = acc + self.4.rendered();
        }
        self.5.render(buffer)?;
        proof {
            lemma_concat_assoc(old(buffer)@, acc, self.5.rendered());
            acc = acc + self.5.rendered();
        }
        self.6.render(buffer)?;
        proof {
            lemma_concat_assoc(old(buffer)@, acc, self.6.rendered());
            acc = acc + self.6.rendered();
        }
        self.7.render(buffer)?;
        proof {
            lemma_concat_assoc(old(buffer)@, acc, self.7.rendered());
            acc = acc + self.7.rendered();
        }
        self.8.render(buffer)?;
        proof {
            lemma_concat_assoc(old(buffer)@, acc, self.8.rendered());
            acc = acc + self.8.rendered();
        }
        self.9.render(buffer)?;
        proof {
            lemma_concat_assoc(old(buffer)@, acc, self.9.rendered());
            acc = acc + self.9.rendered();
        }
        self.10.render(buffer)?;
        proof {
            lemma_concat_assoc(old(buffer)@, acc, self.10.rendered());
            acc = acc + self.10.rendered();
        }
        self.11.render(buffer)?;
        proof {
            lemma_concat_assoc(old(buffer)@, acc, self.11.rendered());
            acc = acc + self.11.rendered();
        }
        self.12.render(buffer)?;
        proof {
            lemma_concat_assoc(old(buffer)@, acc, self.12.rendered());
            acc = acc + self.12.rendered();
        }
        self.13.render(buffer)?;
        proof {
            lemma_concat_assoc(old(buffer)@, acc, self.13.rendered());
            acc = acc + self.13.rendered();
        }
        self.14.render(buffer)?;
        proof {
            lemma_concat_assoc(old(buffer)@, acc, self.14.rendered());
            acc = acc + self.14.rendered();
        }
        self.15.render(buffer)?;
        proof {
            lemma_concat_assoc(old(buffer)@, acc, self.15.rendered());
            acc = acc + self.15.rendered();
        }
        self.16.render(buffer)?;
        proof {
            lemma_concat_assoc(old(buffer)@, acc, self.16.rendered());
            acc = acc + self.16.rendered();
        }
        self.17.render(buffer)?;
        proof {
            lemma_concat_assoc(old(buffer)@, acc, self.17.rendered());
            acc = acc + self.17.rendered();
        }
        self.18.render(buffer)?;
        proof {
            lemma_concat_assoc(old(buffer)@, acc, self.18.rendered());
            acc = acc + self.18.rendered();
        }
        self.19.render(buffer)?;
        proof {
            lemma_concat_assoc(old(buffer)@, acc, self.19.rendered());
            acc = acc + self.19.rendered();
        }
        self.20.render(buffer)?;
        proof {
            lemma_concat_assoc(old(buffer)@, acc, self.20.rendered());
            acc = acc + self.20.rendered();
        }
        self.21.render(buffer)?;
        proof {
            lemma_concat_assoc(old(buffer)@, acc, self.21.rendered());
            acc = acc + self.21.rendered();
        }
        self.22.render(buffer)?;
        proof {
            lemma_concat_assoc(old(buffer)@, acc, self.22.rendered());
            acc = acc + self.22.rendered();
        }
        self.23.render(buffer)?;
        proof {
            lemma_concat_assoc(old(buffer)@, acc, self.23.rendered());
            acc = acc + self.23.rendered();
        }
        self.24.render(buffer)?;
        proof {
            lemma_concat_assoc(old(buffer)@, acc, self.24.rendered());
            acc = acc + self.24.rendered();
        }
        self.25.render(buffer)?;
        proof {
            lemma_concat_assoc(old(buffer)@, acc, self.25.rendered());
            acc = acc + self.25.rendered();
        }
        self.26.render(buffer)?;
        proof {
            lemma_concat_assoc(old(buffer)@, acc, self.26.rendered());
            acc = acc + self.26.rendered();
        }
        self.27.render(buffer)?;
        proof {
            lemma_concat_assoc(old(buffer)@, acc, self.27.rendered());
            acc = acc + self.27.rendered();
        }
        Ok(())
    }

    fn into_node(self) -> (n: Node) {
        pair(pair(pair(pair(pair(pair(pair(pair(pair(pair(pair(pair(pair(pair(pair(pair(pair(pair(pair(pair(pair(pair(pair(pair(pair(pair(pair(self.0.into_node(), self.1.into_node()), self.2.into_node()), self.3.into_node()), self.4.into_node()), self.5.into_node()), self.6.into_node()), self.7.into_node()), self.8.into_node()), self.9.into_node()), self.10.into_node()), self.11.into_node()), self.12.into_node()), self.13.into_node()), self.14.into_node()), self.15.into_node()), self.16.into_node()), self.17.into_node()), self.18.into_node()), self.19.into_node()), self.20.into_node()), self.21.into_node()), self.22.into_node()), self.23.into_node()), self.24.into_node()), self.25.into_node()), self.26.into_node()), self.27.into_node())
    }
}

impl<T0: Render, T1: Render, T2: Render, T3: Render, T4: Render, T5: Render, T6: Render, T7: Render, T8: Render, T9: Render, T10: Render, T11: Render, T12: Render, T13: Render, T14: Render, T15: Render, T16: Render, T17: Render, T18: Render, T19: Render, T20: Render, T21: Render, T22: Render, T23: Render, T24: Render, T25: Render, T26: Render, T27: Render, T28: Render> Render for (T0,T1,T2,T3,T4,T5,T6,T7,T8,T9,T10,T11,T12,T13,T14,T15,T16,T17,T18,T19,T20,T21,T22,T23,T24,T25,T26,T27,T28,) {
    open spec fn rendered(&self) -> Seq<char> {
        self.0.rendered() + self.1.rendered() + self.2.rendered() + self.3.rendered() + self.4.rendered() + self.5.rendered() + self.6.rendered() + self.7.rendered() + self.8.rendered() + self.9.rendered() + self.10.rendered() + self.11.rendered() + self.12.rendered() + self.13.rendered() + self.14.rendered() + self.15.rendered() + self.16.rendered() + self.17.rendered() + self.18.rendered() + self.19.rendered() + self.20.rendered() + self.21.rendered() + self.22.rendered() + self.23.rendered() + self.24.rendered() + self.25.rendered() + self.26.rendered() + self.27.rendered() + self.28.rendered()
    }

    fn render(&self, buffer: &mut String) -> (r: Result<(), RenderError>) {
        self.0.render(buffer)?;
        let ghost mut acc: Seq<char> = self.0.rendered();
        self.1.render(buffer)?;
        proof {
            lemma_concat_assoc(old(buffer)@, acc, self.1.rendered());
            acc = acc + self.1.rendered();
        }
        self.2.render(buffer)?;
        proof {
            lemma_concat_assoc(old(buffer)@, acc, self.2.rendered());
            acc = acc + self.2.rendered();
        }
        self.3.render(buffer)?;
        proof {
            lemma_concat_assoc(old(buffer)@, acc, self.3.rendered());
            acc = acc + self.3.rendered();
        }
        self.4.render(buffer)?;
        proof {
            lemma_concat_assoc(old(buffer)@, acc, self.4.rendered());
            acc = acc + self.4.rendered();
        }
        self.5.render(buffer)?;
        proof {
            lemma_concat_assoc(old(buffer)@, acc, self.5.rendered());
            acc = acc + self.5.rendered();
        }
        self.6.render(buffer)?;
        proof {
            lemma_concat_assoc(old(buffer)@, acc, self.6.rendered());
            acc = acc + self.6.rendered();
        }
        self.7.render(buffer)?;
        proof {
            lemma_concat_assoc(old(buffer)@, acc, self.7.rendered());
            acc = acc + self.7.rendered();
        }
        self.8.render(buffer)?;
        proof {
            lemma_concat_assoc(old(buffer)@, acc, self.8.rendered());
            acc = acc + self.8.rendered();
        }
        self.9.render(buffer)?;
        proof {
            lemma_concat_assoc(old(buffer)@, acc, self.9.rendered());
            acc = acc + self.9.rendered();
        }
        self.10.render(buffer)?;
        proof {
            lemma_concat_assoc(old(buffer)@, acc, self.10.rendered());
            acc = acc + self.10.rendered();
        }
        self.11.render(buffer)?;
        proof {
            lemma_concat_assoc(old(buffer)@, acc, self.11.rendered());
            acc = acc + self.11.rendered();
        }
        self.12.render(buffer)?;
        proof {
            lemma_concat_assoc(old(buffer)@, acc, self.12.rendered());
            acc = acc + self.12.rendered();
        }
        self.13.render(buffer)?;
        proof {
            lemma_concat_assoc(old(buffer)@, acc, self.13.rendered());
            acc = acc + self.13.rendered();
        }
        self.14.render(buffer)?;
        proof {
            lemma_concat_assoc(old(buffer)@, acc, self.14.rendered());
            acc = acc + self.14.rendered();
        }
        self.15.render(buffer)?;
        proof {
            lemma_concat_assoc(old(buffer)@, acc, self.15.rendered());
            acc = acc + self.15.rendered();
        }
        self.16.render(buffer)?;
        proof {
            lemma_concat_assoc(old(buffer)@, acc, self.16.rendered());
            acc = acc + self.16.rendered();
        }
        self.17.render(buffer)?;
        proof {
            lemma_concat_assoc(old(buffer)@, acc, self.17.rendered());
            acc = acc + self.17.rendered();
        }
        self.18.render(buffer)?;
        proof {
            lemma_concat_assoc(old(buffer)@, acc, self.18.rendered());
            acc = acc + self.18.rendered();
        }
        self.19.render(buffer)?;
        proof {
            lemma_concat_assoc(old(buffer)@, acc, self.19.rendered());
            acc = acc + self.19.rendered();
        }
        self.20.render(buffer)?;
        proof {
            lemma_concat_assoc(old(buffer)@, acc, self.20.rendered());
            acc = acc + self.20.rendered();
        }
        self.21.render(buffer)?;
        proof {
            lemma_concat_assoc(old(buffer)@, acc, self.21.rendered());
            acc = acc + self.21.rendered();
        }
        self.22.render(buffer)?;
        proof {
            lemma_concat_assoc(old(buffer)@, acc, self.22.rendered());
            acc = acc + self.22.rendered();
        }
        self.23.render(buffer)?;
        proof {
            lemma_concat_assoc(old(buffer)@, acc, self.23.rendered());
            acc = acc + self.23.rendered();
        }
        self.24.render(buffer)?;
        proof {
            lemma_concat_assoc(old(buffer)@, acc, self.24.rendered());
            acc = acc + self.24.rendered();
        }
        self.25.render(buffer)?;
        proof {
            lemma_concat_assoc(old(buffer)@, acc, self.25.rendered());
            acc = acc + self.25.rendered();
        }
        self.26.render(buffer)?;
        proof {
            lemma_concat_assoc(old(buffer)@, acc, self.26.rendered());
            acc = acc + self.26.rendered();
        }
        self.27.render(buffer)?;
        proof {
            lemma_concat_assoc(old(buffer)@, acc, self.27.rendered());
            acc = acc + self.27.rendered();
        }
        self.28.render(buffer)?;
        proof {
            lemma_concat_assoc(old(buffer)@, acc, self.28.rendered());
            acc = acc + self.28.rendered();
        }
        Ok(())
    }

    fn into_node(self) -> (n: Node) {
        pair(pair(pair(pair(pair(pair(pair(pair(pair(pair(pair(pair(pair(pair(pair(pair(pair(pair(pair(pair(pair(pair(pair(pair(pair(pair(pair(pair(self.0.into_node(), self.1.into_node()), self.2.into_node()), self.3.into_node()), self.4.into_node()), self.5.into_node()), self.6.into_node()), self.7.into_node()), self.8.into_node()), self.9.into_node()), self.10.into_node()), self.11.into_node()), self.12.into_node()), self.13.into_node()), self.14.into_node()), self.15.into_node()), self.16.into_node()), self.17.into_node()), self.18.into_node()), self.19.into_node()), self.20.into_node()), self.21.into_node()), self.22.into_node()), self.23.into_node()), self.24.into_node()), self.25.into_node()), self.26.into_node()), self.27.into_node()), self.28.into_node())
    }
}

impl<T0: Render, T1: Render, T2: Render, T3: Render, T4: Render, T5: Render, T6: Render, T7: Render, T8: Render, T9: Render, T10: Render, T11: Render, T12: Render, T13: Render, T14: Render, T15: Render, T16: Render, T17: Render, T18: Render, T19: Render, T20: Render, T21: Render, T22: Render, T23: Render, T24: Render, T25: Render, T26: Render, T27: Render, T28: Render, T29: Render> Render for (T0,T1,T2,T3,T4,T5,T6,T7,T8,T9,T10,T11,T12,T13,T14,T15,T16,T17,T18,T19,T20,T21,T22,T23,T24,T25,T26,T27,T28,T29,) {
    open spec fn rendered(&self) -> Seq<char> {
        self.0.rendered() + self.1.rendered() + self.2.rendered() + self.3.rendered() + self.4.rendered() + self.5.rendered() + self.6.rendered() + self.7.rendered() + self.8.rendered() + self.9.rendered() + self.10.rendered() + self.11.rendered() + self.12.rendered() + self.13.rendered() + self.14.rendered() + self.15.rendered() + self.16.rendered() + self.17.rendered() + self.18.rendered() + self.19.rendered() + self.20.rendered() + self.21.rendered() + self.22.rendered() + self.23.rendered() + self.24.rendered() + self.25.rendered() + self.26.rendered() + self.27.rendered() + self.28.rendered() + self.29.rendered()
    }

    fn render(&self, buffer: &mut String) -> (r: Result<(), RenderError>) {
        self.0.render(buffer)?;
        let ghost mut acc: Seq<char> = self.0.rendered();
        self.1.render(buffer)?;
        proof {
            lemma_concat_assoc(old(buffer)@, acc, self.1.rendered());
            acc = acc + self.1.rendered();
        }
        self.2.render(buffer)?;
        proof {
            lemma_concat_assoc(old(buffer)@, acc, self.2.rendered());
            acc = acc + self.2.rendered();
        }
        self.3.render(buffer)?;
        proof {
            lemma_concat_assoc(old(buffer)@, acc, self.3.rendered());
            acc = acc + self.3.rendered();
        }
        self.4.render(buffer)?;
        proof {
            lemma_concat_assoc(old(buffer)@, acc, self.4.rendered());
            acc = acc + self.4.rendered();
        }
        self.5.render(buffer)?;
        proof {
            lemma_concat_assoc(old(buffer)@, acc, self.5.rendered());
            acc = acc + self.5.rendered();
        }
        self.6.render(buffer)?;
        proof {
            lemma_concat_assoc(old(buffer)@, acc, self.6.rendered());
            acc = acc + self.6.rendered();
        }
        self.7.render(buffer)?;
        proof {
            lemma_concat_assoc(old(buffer)@, acc, self.7.rendered());
            acc = acc + self.7.rendered();
        }
        self.8.render(buffer)?;
        proof {
            lemma_concat_assoc(old(buffer)@, acc, self.8.rendered());
            acc = acc + self.8.rendered();
        }
        self.9.render(buffer)?;
        proof {
            lemma_concat_assoc(old(buffer)@, acc, self.9.rendered());
            acc = acc + self.9.rendered();
        }
        self.10.render(buffer)?;
        proof {
            lemma_concat_assoc(old(buffer)@, acc, self.10.rendered());
            acc = acc + self.10.rendered();
        }
        self.11.render(buffer)?;
        proof {
            lemma_concat_assoc(old(buffer)@, acc, self.11.rendered());
            acc = acc + self.11.rendered();
        }
        self.12.render(buffer)?;
        proof {
            lemma_concat_assoc(old(buffer)@, acc, self.12.rendered());
            acc = acc + self.12.rendered();
        }
        self.13.render(buffer)?;
        proof {
            lemma_concat_assoc(old(buffer)@, acc, self.13.rendered());
            acc = acc + self.13.rendered();
        }
        self.14.render(buffer)?;
        proof {
            lemma_concat_assoc(old(buffer)@, acc, self.14.rendered());
            acc = acc + self.14.rendered();
        }
        self.15.render(buffer)?;
        proof {
            lemma_concat_assoc(old(buffer)@, acc, self.15.rendered());
            acc = acc + self.15.rendered();
        }
        self.16.render(buffer)?;
        proof {
            lemma_concat_assoc(old(buffer)@, acc, self.16.rendered());
            acc = acc + self.16.rendered();
        }
        self.17.render(buffer)?;
        proof {
            lemma_concat_assoc(old(buffer)@, acc, self.17.rendered());
            acc = acc + self.17.rendered();
        }
        self.18.render(buffer)?;
        proof {
            lemma_concat_assoc(old(buffer)@, acc, self.18.rendered());
            acc = acc + self.18.rendered();
        }
        self.19.render(buffer)?;
        proof {
            lemma_concat_assoc(old(buffer)@, acc, self.19.rendered());
            acc = acc + self.19.rendered();
        }
        self.20.render(buffer)?;
        proof {
            lemma_concat_assoc(old(buffer)@, acc, self.20.rendered());
            acc = acc + self.20.rendered();
        }
        self.21.render(buffer)?;
        proof {
            lemma_concat_assoc(old(buffer)@, acc, self.21.rendered());
            acc = acc + self.21.rendered();
        }
        self.22.render(buffer)?;
        proof {
            lemma_concat_assoc(old(buffer)@, acc, self.22.rendered());
            acc = acc + self.22.rendered();
        }
        self.23.render(buffer)?;
        proof {
            lemma_concat_assoc(old(buffer)@, acc, self.23.rendered());
            acc = acc + self.23.rendered();
        }
        self.24.render(buffer)?;
        proof {
            lemma_concat_assoc(old(buffer)@, acc, self.24.rendered());
            acc = acc + self.24.rendered();
        }
        self.25.render(buffer)?;
        proof {
            lemma_concat_assoc(old(buffer)@, acc, self.25.rendered());
            acc = acc + self.25.rendered();
        }
        self.26.render(buffer)?;
        proof {
            lemma_concat_assoc(old(buffer)@, acc, self.26.rendered());
            acc = acc + self.26.rendered();
        }
        self.27.render(buffer)?;
        proof {
            lemma_concat_assoc(old(buffer)@, acc, self.27.rendered());
            acc = acc + self.27.rendered();
        }
        self.28.render(buffer)?;
        proof {
            lemma_concat_assoc(old(buffer)@, acc, self.28.rendered());
            acc = acc + self.28.rendered();
        }
        self.29.render(buffer)?;
        proof {
            lemma_concat_assoc(old(buffer)@, acc, self.29.rendered());
            acc = acc + self.29.rendered();
        }
        Ok(())
    }

    fn into_node(self) -> (n: Node) {
        pair(pair(pair(pair(pair(pair(pair(pair(pair(pair(pair(pair(pair(pair(pair(pair(pair(pair(pair(pair(pair(pair(pair(pair(pair(pair(pair(pair(pair(self.0.into_node(), self.1.into_node()), self.2.into_node()), self.3.into_node()), self.4.into_node()), self.5.into_node()), self.6.into_node()), self.7.into_node()), self.8.into_node()), self.9.into_node()), self.10.into_node()), self.11.into_node()), self.12.into_node()), self.13.into_node()), self.14.into_node()), self.15.into_node()), self.16.into_node()), self.17.into_node()), self.18.into_node()), self.19.into_node()), self.20.into_node()), self.21.into_node()), self.22.into_node()), self.23.into_node()), self.24.into_node()), self.25.into_node()), self.26.into_node()), self.27.into_node()), self.28.into_node()), self.29.into_node())
    }
}

impl<T0: Render, T1: Render, T2: Render, T3: Render, T4: Render, T5: Render, T6: Render, T7: Render, T8: Render, T9: Render, T10: Render, T11: Render, T12: Render, T13: Render, T14: Render, T15: Render, T16: Render, T17: Render, T18: Render, T19: Render, T20: Render, T21: Render, T22: Render, T23: Render, T24: Render, T25: Render, T26: Render, T27: Render, T28: Render, T29: Render, T30: Render> Render for (T0,T1,T2,T3,T4,T5,T6,T7,T8,T9,T10,T11,T12,T13,T14,T15,T16,T17,T18,T19,T20,T21,T22,T23,T24,T25,T26,T27,T28,T29,T30,) {
    open spec fn rendered(&self) -> Seq<char> {
        self.0.rendered() + self.1.rendered() + self.2.rendered() + self.3.rendered() + self.4.rendered() + self.5.rendered() + self.6.rendered() + self.7.rendered() + self.8.rendered() + self.9.rendered() + self.10.rendered() + self.11.rendered() + self.12.rendered() + self.13.rendered() + self.14.rendered() + self.15.rendered() + self.16.rendered() + self.17.rendered() + self.18.rendered() + self.19.rendered() + self.20.rendered() + self.21.rendered() + self.22.rendered() + self.23.rendered() + self.24.rendered() + self.25.rendered() + self.26.rendered() + self.27.rendered() + self.28.rendered() + self.29.rendered() + self.30.rendered()
    }

    fn render(&self, buffer: &mut String) -> (r: Result<(), RenderError>) {
        self.0.render(buffer)?;
        let ghost mut acc: Seq<char> = self.0.rendered();
        self.1.render(buffer)?;
        proof {
            lemma_concat_assoc(old(buffer)@, acc, self.1.rendered());
            acc = acc + self.1.rendered();
        }
        self.2.render(buffer)?;
        proof {
            lemma_concat_assoc(old(buffer)@, acc, self.2.rendered());
            acc = acc + self.2.rendered();
        }
        self.3.render(buffer)?;
        proof {
            lemma_concat_assoc(old(buffer)@, acc, self.3.rendered());
            acc = acc + self.3.rendered();
        }
        self.4.render(buffer)?;
        proof {
            lemma_concat_assoc(old(buffer)@, acc, self.4.rendered());
            acc = acc + self.4.rendered();
        }
        self.5.render(buffer)?;
        proof {
            lemma_concat_assoc(old(buffer)@, acc, self.5.rendered());
            acc = acc + self.5.rendered();
        }
        self.6.render(buffer)?;
        proof {
            lemma_concat_assoc(old(buffer)@, acc, self.6.rendered());
            acc = acc + self.6.rendered();
        }
        self.7.render(buffer)?;
        proof {
            lemma_concat_assoc(old(buffer)@, acc, self.7.rendered());
            acc = acc + self.7.rendered();
        }
        self.8.render(buffer)?;
        proof {
            lemma_concat_assoc(old(buffer)@, acc, self.8.rendered());
            acc = acc + self.8.rendered();
        }
        self.9.render(buffer)?;
        proof {
            lemma_concat_assoc(old(buffer)@, acc, self.9.rendered());
            acc = acc + self.9.rendered();
        }
        self.10.render(buffer)?;
        proof {
            lemma_concat_assoc(old(buffer)@, acc, self.10.rendered());
            acc = acc + self.10.rendered();
        }
        self.11.render(buffer)?;
        proof {
            lemma_concat_assoc(old(buffer)@, acc, self.11.rendered());
            acc = acc + self.11.rendered();
        }
        self.12.render(buffer)?;
        proof {
            lemma_concat_assoc(old(buffer)@, acc, self.12.rendered());
            acc = acc + self.12.rendered();
        }
        self.13.render(buffer)?;
        proof {
            lemma_concat_assoc(old(buffer)@, acc, self.13.rendered());
            acc = acc + self.13.rendered();
        }
        self.14.render(buffer)?;
        proof {
            lemma_concat_assoc(old(buffer)@, acc, self.14.rendered());
            acc = acc + self.14.rendered();
        }
        self.15.render(buffer)?;
        proof {
            lemma_concat_assoc(old(buffer)@, acc, self.15.rendered());
            acc = acc + self.15.rendered();
        }
        self.16.render(buffer)?;
        proof {
            lemma_concat_assoc(old(buffer)@, acc, self.16.rendered());
            acc = acc + self.16.rendered();
        }
        self.17.render(buffer)?;
        proof {
            lemma_concat_assoc(old(buffer)@, acc, self.17.rendered());
            acc = acc + self.17.rendered();
        }
        self.18.render(buffer)?;
        proof {
            lemma_concat_assoc(old(buffer)@, acc, self.18.rendered());
            acc = acc + self.18.rendered();
        }
        self.19.render(buffer)?;
        proof {
            lemma_concat_assoc(old(buffer)@, acc, self.19.rendered());
            acc = acc + self.19.rendered();
        }
        self.20.render(buffer)?;
        proof {
            lemma_concat_assoc(old(buffer)@, acc, self.20.rendered());
            acc = acc + self.20.rendered();
        }
        self.21.render(buffer)?;
        proof {
            lemma_concat_assoc(old(buffer)@, acc, self.21.rendered());
            acc = acc + self.21.rendered();
        }
        self.22.render(buffer)?;
        proof {
            lemma_concat_assoc(old(buffer)@, acc, self.22.rendered());
            acc = acc + self.22.rendered();
        }
        self.23.render(buffer)?;
        proof {
            lemma_concat_assoc(old(buffer)@, acc, self.23.rendered());
            acc = acc + self.23.rendered();
        }
        self.24.render(buffer)?;
        proof {
            lemma_concat_assoc(old(buffer)@, acc, self.24.rendered());
            acc = acc + self.24.rendered();
        }
        self.25.render(buffer)?;
        proof {
            lemma_concat_assoc(old(buffer)@, acc, self.25.rendered());
            acc = acc + self.25.rendered();
        }
        self.26.render(buffer)?;
        proof {
            lemma_concat_assoc(old(buffer)@, acc, self.26.rendered());
            acc = acc + self.26.rendered();
        }
        self.27.render(buffer)?;
        proof {
            lemma_concat_assoc(old(buffer)@, acc, self.27.rendered());
            acc = acc + self.27.rendered();
        }
        self.28.render(buffer)?;
        proof {
            lemma_concat_assoc(old(buffer)@, acc, self.28.rendered());
            acc = acc + self.28.rendered();
        }
        self.29.render(buffer)?;
        proof {
            lemma_concat_assoc(old(buffer)@, acc, self.29.rendered());
            acc = acc + self.29.rendered();
        }
        self.30.render(buffer)?;
        proof {
            lemma_concat_assoc(old(buffer)@, acc, self.30.rendered());
            acc = acc + self.30.rendered();
        }
        Ok(())
    }

    fn into_node(self) -> (n: Node) {
        pair(pair(pair(pair(pair(pair(pair(pair(pair(pair(pair(pair(pair(pair(pair(pair(pair(pair(pair(pair(pair(pair(pair(pair(pair(pair(pair(pair(pair(pair(self.0.into_node(), self.1.into_node()), self.2.into_node()), self.3.into_node()), self.4.into_node()), self.5.into_node()), self.6.into_node()), self.7.into_node()), self.8.into_node()), self.9.into_node()), self.10.into_node()), self.11.into_node()), self.12.into_node()), self.13.into_node()), self.14.into_node()), self.15.into_node()), self.16.into_node()), self.17.into_node()), self.18.into_node()), self.19.into_node()), self.20.into_node()), self.21.into_node()), self.22.into_node()), self.23.into_node()), self.24.into_node()), self.25.into_node()), self.26.into_node()), self.27.into_node()), self.28.into_node()), self.29.into_node()), self.30.into_node())
    }
}

impl<T0: Render, T1: Render, T2: Render, T3: Render, T4: Render, T5: Render, T6: Render, T7: Render, T8: Render, T9: Render, T10: Render, T11: Render, T12: Render, T13: Render, T14: Render, T15: Render, T16: Render, T17: Render, T18: Render, T19: Render, T20: Render, T21: Render, T22: Render, T23: Render, T24: Render, T25: Render, T26: Render, T27: Render, T28: Render, T29: Render, T30: Render, T31: Render> Render for (T0,T1,T2,T3,T4,T5,T6,T7,T8,T9,T10,T11,T12,T13,T14,T15,T16,T17,T18,T19,T20,T21,T22,T23,T24,T25,T26,T27,T28,T29,T30,T31,) {
    open spec fn rendered(&self) -> Seq<char> {
        self.0.rendered() + self.1.rendered() + self.2.rendered() + self.3.rendered() + self.4.rendered() + self.5.rendered() + self.6.rendered() + self.7.rendered() + self.8.rendered() + self.9.rendered() + self.10.rendered() + self.11.rendered() + self.12.rendered() + self.13.rendered() + self.14.rendered() + self.15.rendered() + self.16.rendered() + self.17.rendered() + self.18.rendered() + self.19.rendered() + self.20.rendered() + self.21.rendered() + self.22.rendered() + self.23.rendered() + self.24.rendered() + self.25.rendered() + self.26.rendered() + self.27.rendered() + self.28.rendered() + self.29.rendered() + self.30.rendered() + self.31.rendered()
    }

    fn render(&self, buffer: &mut String) -> (r: Result<(), RenderError>) {
        self.0.render(buffer)?;
        let ghost mut acc: Seq<char> = self.0.rendered();
        self.1.render(buffer)?;
        proof {
            lemma_concat_assoc(old(buffer)@, acc, self.1.rendered());
            acc = acc + self.1.rendered();
        }
        self.2.render(buffer)?;
        proof {
            lemma_concat_assoc(old(buffer)@, acc, self.2.rendered());
            acc = acc + self.2.rendered();
        }
        self.3.render(buffer)?;
        proof {
            lemma_concat_assoc(old(buffer)@, acc, self.3.rendered());
            acc = acc + self.3.rendered();
        }
        self.4.render(buffer)?;
        proof {
            lemma_concat_assoc(old(buffer)@, acc, self.4.rendered());
            acc = acc + self.4.rendered();
        }
        self.5.render(buffer)?;
        proof {
            lemma_concat_assoc(old(buffer)@, acc, self.5.rendered());
            acc = acc + self.5.rendered();
        }
        self.6.render(buffer)?;
        proof {
            lemma_concat_assoc(old(buffer)@, acc, self.6.rendered());
            acc = acc + self.6.rendered();
        }
        self.7.render(buffer)?;
        proof {
            lemma_concat_assoc(old(buffer)@, acc, self.7.rendered());
            acc = acc + self.7.rendered();
        }
        self.8.render(buffer)?;
        proof {
            lemma_concat_assoc(old(buffer)@, acc, self.8.rendered());
            acc = acc + self.8.rendered();
        }
        self.9.render(buffer)?;
        proof {
            lemma_concat_assoc(old(buffer)@, acc, self.9.rendered());
            acc = acc + self.9.rendered();
        }
        self.10.render(buffer)?;
        proof {
            lemma_concat_assoc(old(buffer)@, acc, self.10.rendered());
            acc = acc + self.10.rendered();
        }
        self.11.render(buffer)?;
        proof {
            lemma_concat_assoc(old(buffer)@, acc, self.11.rendered());
            acc = acc + self.11.rendered();
        }
        self.12.render(buffer)?;
        proof {
            lemma_concat_assoc(old(buffer)@, acc, self.12.rendered());
            acc = acc + self.12.rendered();
        }
        self.13.render(buffer)?;
        proof {
            lemma_concat_assoc(old(buffer)@, acc, self.13.rendered());
            acc = acc + self.13.rendered();
        }
        self.14.render(buffer)?;
        proof {
            lemma_concat_assoc(old(buffer)@, acc, self.14.rendered());
            acc = acc + self.14.rendered();
        }
        self.15.render(buffer)?;
        proof {
            lemma_concat_assoc(old(buffer)@, acc, self.15.rendered());
            acc = acc + self.15.rendered();
        }
        self.16.render(buffer)?;
        proof {
            lemma_concat_assoc(old(buffer)@, acc, self.16.rendered());
            acc = acc + self.16.rendered();
        }
        self.17.render(buffer)?;
        proof {
            lemma_concat_assoc(old(buffer)@, acc, self.17.rendered());
            acc = acc + self.17.rendered();
        }
        self.18.render(buffer)?;
        proof {
            lemma_concat_assoc(old(buffer)@, acc, self.18.rendered());
            acc = acc + self.18.rendered();
        }
        self.19.render(buffer)?;
        proof {
            lemma_concat_assoc(old(buffer)@, acc, self.19.rendered());
            acc = acc + self.19.rendered();
        }
        self.20.render(buffer)?;
        proof {
            lemma_concat_assoc(old(buffer)@, acc, self.20.rendered());
            acc = acc + self.20.rendered();
        }
        self.21.render(buffer)?;
        proof {
            lemma_concat_assoc(old(buffer)@, acc, self.21.rendered());
            acc = acc + self.21.rendered();
        }
        self.22.render(buffer)?;
        proof {
            lemma_concat_assoc(old(buffer)@, acc, self.22.rendered());
            acc = acc + self.22.rendered();
        }
        self.23.render(buffer)?;
        proof {
            lemma_concat_assoc(old(buffer)@, acc, self.23.rendered());
            acc = acc + self.23.rendered();
        }
        self.24.render(buffer)?;
        proof {
            lemma_concat_assoc(old(buffer)@, acc, self.24.rendered());
            acc = acc + self.24.rendered();
        }
        self.25.render(buffer)?;
        proof {
            lemma_concat_assoc(old(buffer)@, acc, self.25.rendered());
            acc = acc + self.25.rendered();
        }
        self.26.render(buffer)?;
        proof {
            lemma_concat_assoc(old(buffer)@, acc, self.26.rendered());
            acc = acc + self.26.rendered();
        }
        self.27.render(buffer)?;
        proof {
            lemma_concat_assoc(old(buffer)@, acc, self.27.rendered());
            acc = acc + self.27.rendered();
        }
        self.28.render(buffer)?;
        proof {
            lemma_concat_assoc(old(buffer)@, acc, self.28.rendered());
            acc = acc + self.28.rendered();
        }
        self.29.render(buffer)?;
        proof {
            lemma_concat_assoc(old(buffer)@, acc, self.29.rendered());
            acc = acc + self.29.rendered();
        }
        self.30.render(buffer)?;
        proof {
            lemma_concat_assoc(old(buffer)@, acc, self.30.rendered());
            acc = acc + self.30.rendered();
        }
        self.31.render(buffer)?;
        proof {
            lemma_concat_assoc(old(buffer)@, acc, self.31.rendered());
            acc = acc + self.31.rendered();
        }
        Ok(())
    }

    fn into_node(self) -> (n: Node) {
        pair(pair(pair(pair(pair(pair(pair(pair(pair(pair(pair(pair(pair(pair(pair(pair(pair(pair(pair(pair(pair(pair(pair(pair(pair(pair(pair(pair(pair(pair(pair(self.0.into_node(), self.1.into_node()), self.2.into_node()), self.3.into_node()), self.4.into_node()), self.5.into_node()), self.6.into_node()), self.7.into_node()), self.8.into_node()), self.9.into_node()), self.10.into_node()), self.11.into_node()), self.12.into_node()), self.13.into_node()), self.14.into_node()), self.15.into_node()), self.16.into_node()), self.17.into_node()), self.18.into_node()), self.19.into_node()), self.20.into_node()), self.21.into_node()), self.22.into_node()), self.23.into_node()), self.24.into_node()), self.25.into_node()), self.26.into_node()), self.27.into_node()), self.28.into_node()), self.29.into_node()), self.30.into_node()), self.31.into_node())
    }
}

} // verus!
