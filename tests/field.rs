use zero2prod::field::{Response, ResponseWithData, TitleField};
use zero2prod::routes::greet;

#[test]
fn parse_rejects_empty_title() {
    let r = TitleField::parse(String::new());
    assert_eq!(r.err(), Some(" is not a valid subscriber name.".to_string()));
}

#[test]
fn parse_rejects_whitespace_titles() {
    for s in [" ", "   ", "\t\n", "\r\u{b}\u{c}", "\u{a0}\u{3000}", "\u{2003} \u{85}"] {
        let r = TitleField::parse(s.to_string());
        assert_eq!(r.err(), Some(format!("{} is not a valid subscriber name.", s)));
    }
}

#[test]
fn parse_keeps_text_untrimmed() {
    for s in ["a", "  padded  ", "\tx\n", "caf\u{e9}", "\u{200b}"] {
        let t = TitleField::parse(s.to_string()).ok().expect("accepted");
        assert_eq!(t.inner_ref(), s);
        assert_eq!(t.inner(), s.to_string());
    }
}

#[test]
fn inner_mut_writes_through() {
    let mut t = TitleField::parse("shop".to_string()).ok().expect("accepted");
    t.inner_mut().make_ascii_uppercase();
    assert_eq!(t.inner_ref(), "SHOP");
}

#[test]
fn envelopes_carry_their_status() {
    let b: Response = Response::bad_request("title cannot be null");
    assert_eq!(b.status, "Bad Request");
    assert_eq!(b.message, "title cannot be null");
    let n = Response::not_found("gone".to_string());
    assert_eq!(n.status, "Not Found");
    assert_eq!(n.message, "gone");
    let s = ResponseWithData::success(7u8);
    assert_eq!(s.status, "Success");
    assert_eq!(s.message, "Success");
    assert_eq!(s.data, 7u8);
}

#[test]
fn greet_names_or_world() {
    assert_eq!(greet(Some("Ada")), "Hello Ada!");
    assert_eq!(greet(None), "Hello World!");
}
