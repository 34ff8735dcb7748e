use hyped::Render;
use hyped::body;
use hyped::br;
use hyped::div;
use hyped::render;
use hyped::self_closing_element;

#[test]
fn renders_unsigned_numbers() {
    assert_eq!(render(65535u16), "65535");
    assert_eq!(render(7u32), "7");
    assert_eq!(render(u64::MAX), "18446744073709551615");
    assert_eq!(render(42usize), "42");
}

#[test]
fn renders_signed_numbers() {
    assert_eq!(render(0i32), "0");
    assert_eq!(render(-42i64), "-42");
    assert_eq!(render(i64::MIN), "-9223372036854775808");
    assert_eq!(render(-7isize), "-7");
}

#[test]
fn duplicate_attributes_kept_in_call_order() {
    let html = render(div("x").attr("id", "a").attr("id", "b"));
    assert_eq!(html, "<div id=\"a\" id=\"b\">x</div>");
}

#[test]
fn attribute_values_are_escaped_when_added() {
    let html = render(div("x").attr("title", "a\"b&c"));
    assert_eq!(html, "<div title=\"a&quot;b&amp;c\">x</div>");
}

#[test]
fn empty_child_still_emits_both_tags() {
    assert_eq!(render(body("")), "<body></body>");
    assert_eq!(render(div(())), "<div></div>");
}

#[test]
fn self_closing_element_has_no_closing_tag() {
    assert_eq!(render(br()), "<br>");
    assert_eq!(render(self_closing_element("hr")), "<hr>");
}

#[test]
fn erased_nodes_render_like_their_sources() {
    let node = ("a&b", 5u64).into_node();
    assert_eq!(render(node), "a&amp;b5");
}

#[test]
fn single_member_tuple_renders_its_member() {
    assert_eq!(render(("only",)), "only");
}

#[test]
fn empty_value_renders_nothing() {
    assert_eq!(render(()), "");
}
