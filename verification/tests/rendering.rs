use hyped::Element;
use hyped::Render;
use hyped::body;
use hyped::br;
use hyped::div;
use hyped::doctype;
use hyped::head;
use hyped::html;
use hyped::input;
use hyped::meta;
use hyped::render;
use hyped::self_closing_element;
use hyped::title;

fn turbo_frame(children: impl Render + 'static) -> Element {
    hyped::element("turbo-frame", children)
}

fn hx_close() -> Element {
    self_closing_element("hx-close")
}

fn render_to_string(element: Element) -> String {
    render((
        doctype(),
        html((
            head((title("title"), meta().charset("utf-8"))),
            body(element),
        )),
    ))
}

#[test]
fn it_works() {
    let html = render((doctype(), html((head(()), body(())))));
    assert_eq!(
        "<!DOCTYPE html><html><head></head><body></body></html>",
        html
    );
}

#[test]
fn it_works_with_numbers() {
    let html = render((doctype(), html((head(()), body(0)))));
    assert_eq!(
        "<!DOCTYPE html><html><head></head><body>0</body></html>",
        html
    );
}

#[test]
fn it_escapes_correctly() {
    let html = render((doctype(), html((head(()), body("<div />")))));
    assert_eq!(
        html,
        "<!DOCTYPE html><html><head></head><body>&lt;div /&gt;</body></html>",
    );
}

#[test]
fn it_escapes_more() {
    let html = render((
        doctype(),
        html((head(()), body("<script>alert('hello')</script>"))),
    ));
    assert_eq!(
        html,
        "<!DOCTYPE html><html><head></head><body>&lt;script&gt;alert(&#39;hello&#39;)&lt;/script&gt;</body></html>",
    );
}

#[test]
fn it_renders_attributes() {
    let html = render((doctype(), html((head(()), body(div("hello").id("hello"))))));
    assert_eq!(
        "<!DOCTYPE html><html><head></head><body><div id=\"hello\">hello</div></body></html>",
        html
    );
}

#[test]
fn it_renders_custom_elements() {
    let html = render(turbo_frame(div("inside turbo frame")).id("id"));
    assert_eq!(
        "<turbo-frame id=\"id\"><div>inside turbo frame</div></turbo-frame>",
        html
    );
}

#[test]
fn it_renders_custom_self_closing_elements() {
    let html = render(hx_close().id("id"));
    assert_eq!("<hx-close id=\"id\">", html);
}

#[test]
fn readme_works() {
    assert_eq!(
        render_to_string(div("hyped")),
        "<!DOCTYPE html><html><head><title>title</title><meta charset=\"utf-8\"></head><body><div>hyped</div></body></html>"
    )
}

#[test]
fn max_tuples_works() {
    let elements = (
        br().id("0"),
        br().id("1"),
        br().id("2"),
        br().id("3"),
        br().id("4"),
        br().id("5"),
        br().id("6"),
        br().id("7"),
        br().id("8"),
        br().id("9"),
        br().id("10"),
        br().id("11"),
        br().id("12"),
        br().id("13"),
        br().id("14"),
        br().id("15"),
        br().id("16"),
        br().id("17"),
        br().id("18"),
        br().id("19"),
        br().id("20"),
        br().id("21"),
        br().id("22"),
        br().id("23"),
        br().id("24"),
        br().id("25"),
        br().id("26"),
        br().id("27"),
        br().id("28"),
        br().id("29"),
        br().id("30"),
        br().id("31"),
    );

    assert_eq!(render(elements),
        "<br id=\"0\"><br id=\"1\"><br id=\"2\"><br id=\"3\"><br id=\"4\"><br id=\"5\"><br id=\"6\"><br id=\"7\"><br id=\"8\"><br id=\"9\"><br id=\"10\"><br id=\"11\"><br id=\"12\"><br id=\"13\"><br id=\"14\"><br id=\"15\"><br id=\"16\"><br id=\"17\"><br id=\"18\"><br id=\"19\"><br id=\"20\"><br id=\"21\"><br id=\"22\"><br id=\"23\"><br id=\"24\"><br id=\"25\"><br id=\"26\"><br id=\"27\"><br id=\"28\"><br id=\"29\"><br id=\"30\"><br id=\"31\">"
    )
}

#[test]
fn bool_attr_works() {
    let html = render(input().type_("checkbox").checked());

    assert_eq!(html, r#"<input type="checkbox" checked>"#)
}

#[test]
fn multiple_attrs_spaced_correctly() {
    let html = render(input().type_("checkbox").checked().aria_label("label"));

    assert_eq!(
        html,
        r#"<input type="checkbox" checked aria-label="label">"#
    )
}
