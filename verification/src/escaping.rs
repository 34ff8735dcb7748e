//! Escaping of the five reserved markup characters.
//!
//! `escaped` is the mathematical model: a single left-to-right pass that maps
//! each character to its entity (or to itself), so entities introduced by the
//! substitution are never themselves rescanned. `escape` is the executable
//! form, proved to produce exactly `escaped` of its input.

use vstd::prelude::*;

verus! {

/// Appends one character to a `String`.
///
/// Relies on `String::push` of std: "Appends the given char to the end of
/// this String."
#[verifier::external_body]
pub(crate) fn push_char(s: &mut String, c: char)
    ensures
        final(s)@ == old(s)@ + seq![c],
{
    s.push(c);
}

/// The five characters that markup escaping replaces.
pub open spec fn is_reserved_char(c: char) -> bool {
    c == '&' || c == '<' || c == '>' || c == '"' || c == '\''
}

/// What one character becomes: its entity if reserved, itself otherwise.
pub open spec fn escape_char(c: char) -> Seq<char> {
    if c == '&' {
        seq!['&', 'a', 'm', 'p', ';']
    } else if c == '<' {
        seq!['&', 'l', 't', ';']
    } else if c == '>' {
        seq!['&', 'g', 't', ';']
    } else if c == '"' {
        seq!['&', 'q', 'u', 'o', 't', ';']
    } else if c == '\'' {
        seq!['&', '#', '3', '9', ';']
    } else {
        seq![c]
    }
}

/// The escaped form of a text: every character replaced in one pass.
pub open spec fn escaped(s: Seq<char>) -> Seq<char>
    decreases s.len(),
{
    if s.len() == 0 {
        Seq::empty()
    } else {
        escape_char(s[0]) + escaped(s.drop_first())
    }
}

/// Escaping distributes over concatenation.
pub proof fn lemma_escaped_append(a: Seq<char>, b: Seq<char>)
    ensures
        escaped(a + b) == escaped(a) + escaped(b),
    decreases a.len(),
{
    if a.len() == 0 {
        assert(a + b =~= b);
        assert(escaped(a) + escaped(b) =~= escaped(b));
    } else {
        assert((a + b).drop_first() =~= a.drop_first() + b);
        lemma_escaped_append(a.drop_first(), b);
        assert(escaped(a + b) =~= escaped(a) + escaped(b));
    }
}

/// Escaping a text extended by one character appends that character's entity.
pub proof fn lemma_escaped_push(s: Seq<char>, c: char)
    ensures
        escaped(s.push(c)) == escaped(s) + escape_char(c),
{
    assert(s.push(c) =~= s + seq![c]);
    lemma_escaped_append(s, seq![c]);
    assert(seq![c].drop_first() =~= Seq::<char>::empty());
    assert(escaped(Seq::<char>::empty()) =~= Seq::<char>::empty());
    assert(escaped(seq![c]) =~= escape_char(c));
}

/// Escaping leaves a text without reserved characters exactly as it is.
pub proof fn lemma_escape_safe_text(s: Seq<char>)
    requires
        forall|i: int| 0 <= i < s.len() ==> !is_reserved_char(s[i]),
    ensures
        escaped(s) == s,
    decreases s.len(),
{
    if s.len() == 0 {
        assert(escaped(s) =~= s);
    } else {
        assert(!is_reserved_char(s[0]));
        lemma_escape_safe_text(s.drop_first());
        assert(escaped(s) =~= s);
    }
}

/// Escaping never shrinks a text.
pub proof fn lemma_escaped_len_ge(s: Seq<char>)
    ensures
        escaped(s).len() >= s.len(),
    decreases s.len(),
{
    if s.len() > 0 {
        lemma_escaped_len_ge(s.drop_first());
    }
}

/// Escaping a text that holds a reserved character strictly lengthens it.
pub proof fn lemma_escaped_longer_when_reserved(s: Seq<char>)
    requires
        exists|i: int| 0 <= i < s.len() && is_reserved_char(s[i]),
    ensures
        escaped(s).len() > s.len(),
{
    let k = choose|i: int| 0 <= i < s.len() && is_reserved_char(s[i]);
    let front = s.take(k);
    let back = s.skip(k + 1);
    assert(s =~= front + (seq![s[k]] + back));
    lemma_escaped_append(front, seq![s[k]] + back);
    lemma_escaped_append(seq![s[k]], back);
    assert(seq![s[k]].drop_first() =~= Seq::<char>::empty());
    assert(escaped(Seq::<char>::empty()) =~= Seq::<char>::empty());
    assert(escaped(seq![s[k]]) =~= escape_char(s[k]));
    lemma_escaped_len_ge(front);
    lemma_escaped_len_ge(back);
    assert(escape_char(s[k]).len() >= 4);
}

/// Every reserved character's entity begins with an ampersand, so escaping a
/// text with a reserved character leaves an ampersand in the output.
pub proof fn lemma_escaped_has_ampersand(s: Seq<char>)
    requires
        exists|i: int| 0 <= i < s.len() && is_reserved_char(s[i]),
    ensures
        exists|j: int| 0 <= j < escaped(s).len() && escaped(s)[j] == '&',
{
    let k = choose|i: int| 0 <= i < s.len() && is_reserved_char(s[i]);
    let front = s.take(k);
    let back = s.skip(k + 1);
    assert(s =~= front + (seq![s[k]] + back));
    lemma_escaped_append(front, seq![s[k]] + back);
    lemma_escaped_append(seq![s[k]], back);
    assert(seq![s[k]].drop_first() =~= Seq::<char>::empty());
    assert(escaped(Seq::<char>::empty()) =~= Seq::<char>::empty());
    assert(escaped(seq![s[k]]) =~= escape_char(s[k]));
    let j = escaped(front).len() as int;
    assert(escaped(s)[j] == escape_char(s[k])[0]);
    assert(escape_char(s[k])[0] == '&');
}

/// Escaped text is safe for inclusion in markup: of the five reserved
/// characters only `&` can appear in it, and only as the head of an entity
/// that the pass itself wrote.
pub proof fn lemma_escaped_leaves_no_raw_reserved(s: Seq<char>)
    ensures
        forall|j: int|
            0 <= j < escaped(s).len() ==> (escaped(s)[j] == '&' || !is_reserved_char(
                escaped(s)[j],
            )),
    decreases s.len(),
{
    if s.len() > 0 {
        lemma_escaped_leaves_no_raw_reserved(s.drop_first());
        assert forall|j: int| 0 <= j < escaped(s).len() implies (escaped(s)[j] == '&'
            || !is_reserved_char(escaped(s)[j])) by {
            if j < escape_char(s[0]).len() {
                assert(escaped(s)[j] == escape_char(s[0])[j]);
            } else {
                assert(escaped(s)[j] == escaped(s.drop_first())[j - escape_char(s[0]).len()]);
            }
        }
    }
}

/// Escaping is not idempotent: escaping a text that held any reserved
/// character, and then escaping the result, re-escapes the ampersands that
/// the first pass introduced, so the second pass changes the text again.
pub proof fn lemma_escape_not_idempotent(s: Seq<char>)
    requires
        exists|i: int| 0 <= i < s.len() && is_reserved_char(s[i]),
    ensures
        escaped(escaped(s)) != escaped(s),
{
    lemma_escaped_has_ampersand(s);
    let j = choose|j: int| 0 <= j < escaped(s).len() && escaped(s)[j] == '&';
    assert(is_reserved_char(escaped(s)[j]));
    lemma_escaped_longer_when_reserved(escaped(s));
}

/// Escapes a text for inclusion in markup: `&`, `<`, `>`, `"` and `'` become
/// `&amp;`, `&lt;`, `&gt;`, `&quot;` and `&#39;`; nothing else is altered.
pub fn escape(text: &str) -> (r: String)
    ensures
        r@ == escaped(text@),
{
    let len = text.unicode_len();
    let mut out = String::new();
    let mut i: usize = 0;
    while i < len
        invariant
            len == text@.len(),
            i <= len,
            out@ == escaped(text@.take(i as int)),
        decreases len - i,
    {
        let c = text.get_char(i);
        if c == '&' {
            out.append("&amp;");
        } else if c == '<' {
            out.append("&lt;");
        } else if c == '>' {
            out.append("&gt;");
        } else if c == '"' {
            out.append("&quot;");
        } else if c == '\'' {
            out.append("&#39;");
        } else {
            push_char(&mut out, c);
        }
        proof {
            reveal_strlit("&amp;");
            reveal_strlit("&lt;");
            reveal_strlit("&gt;");
            reveal_strlit("&quot;");
            reveal_strlit("&#39;");
            assert(text@.take(i + 1 as int) =~= text@.take(i as int).push(text@[i as int]));
            lemma_escaped_push(text@.take(i as int), text@[i as int]);
            assert("&amp;"@ =~= escape_char('&'));
            assert("&lt;"@ =~= escape_char('<'));
            assert("&gt;"@ =~= escape_char('>'));
            assert("&quot;"@ =~= escape_char('"'));
            assert("&#39;"@ =~= escape_char('\''));
        }
        i = i + 1;
    }
    proof {
        assert(text@.take(len as int) =~= text@);
    }
    out
}

} // verus!
