use pdf_renderer::browser::containers::tab::stage_file_name;
use pdf_renderer::browser::ticket::{RenderTicket, ID_LENGTH};
use pdf_renderer::page_props::{Inches, PageMargin, PageProperties, PagePropertiesBuilder};

fn letter() -> PageProperties {
    let mut builder = PagePropertiesBuilder::from_size(
        Inches::from_bits(8.5f64.to_bits()),
        Inches::from_bits(11.0f64.to_bits()),
    );
    builder.set_margin(PageMargin::Top, Inches::from_bits(0.5f64.to_bits()));
    builder.build()
}

#[test]
fn id_length_is_ten() {
    assert_eq!(ID_LENGTH, 10);
}

#[test]
fn new_ticket_has_an_id_of_ten_letters_and_digits() {
    for _ in 0..200 {
        let ticket = RenderTicket::new("<p>hi</p>", letter());
        let id = ticket.get_id();
        assert_eq!(id.len(), 10);
        assert!(id.bytes().all(|byte| byte.is_ascii_alphanumeric()));
    }
}

#[test]
fn new_ticket_keeps_document_and_layout() {
    let ticket = RenderTicket::new("<h1>Title</h1>", letter());
    assert_eq!(ticket.get_html(), "<h1>Title</h1>");
    assert_eq!(*ticket.get_page_properties(), letter());
    let empty = RenderTicket::new("", PageProperties::builder().build());
    assert_eq!(empty.get_html(), "");
    assert_eq!(*empty.get_page_properties(), PageProperties::builder().build());
}

#[test]
fn tickets_from_identical_input_are_not_equal() {
    let one = RenderTicket::new("<p>hi</p>", letter());
    let other = RenderTicket::new("<p>hi</p>", letter());
    assert!(one != other);
    assert!(!(one == other));
    assert!(one == one);
    assert!(other == other);
    assert_ne!(one.get_id(), other.get_id());
}

#[test]
fn tickets_with_the_same_id_are_still_not_equal() {
    let one = RenderTicket::with_id(b"abcdefghij".to_vec(), "<p>hi</p>", letter()).unwrap();
    let other = RenderTicket::with_id(b"abcdefghij".to_vec(), "<p>hi</p>", letter()).unwrap();
    assert_eq!(one.get_id(), other.get_id());
    assert!(one != other);
    assert!(one == one);
}

#[test]
fn many_tickets_have_ids_of_their_own() {
    let mut ids: Vec<String> = Vec::new();
    for _ in 0..500 {
        ids.push(RenderTicket::new("<p>hi</p>", letter()).get_id());
    }
    ids.sort();
    ids.dedup();
    assert_eq!(ids.len(), 500);
}

#[test]
fn with_id_takes_ten_letters_and_digits() {
    let ticket = RenderTicket::with_id(b"a1B2c3D4e5".to_vec(), "<p>x</p>", letter()).unwrap();
    assert_eq!(ticket.get_id(), "a1B2c3D4e5");
    assert_eq!(ticket.get_html(), "<p>x</p>");
    assert_eq!(*ticket.get_page_properties(), letter());
    assert!(RenderTicket::with_id(b"0000000000".to_vec(), "", letter()).is_some());
    assert!(RenderTicket::with_id(b"zzzzzzzzzz".to_vec(), "", letter()).is_some());
    assert!(RenderTicket::with_id(b"AZaz09AZaz".to_vec(), "", letter()).is_some());
}

#[test]
fn with_id_refuses_other_bytes() {
    assert!(RenderTicket::with_id(Vec::new(), "", letter()).is_none());
    assert!(RenderTicket::with_id(b"abcdefghi".to_vec(), "", letter()).is_none());
    assert!(RenderTicket::with_id(b"abcdefghijk".to_vec(), "", letter()).is_none());
    assert!(RenderTicket::with_id(b"abcde ghij".to_vec(), "", letter()).is_none());
    assert!(RenderTicket::with_id(b"abcdefghi/".to_vec(), "", letter()).is_none());
    assert!(RenderTicket::with_id(b"abcdefghi:".to_vec(), "", letter()).is_none());
    assert!(RenderTicket::with_id(b"@bcdefghij".to_vec(), "", letter()).is_none());
    assert!(RenderTicket::with_id(b"[bcdefghij".to_vec(), "", letter()).is_none());
    assert!(RenderTicket::with_id(b"`bcdefghij".to_vec(), "", letter()).is_none());
    assert!(RenderTicket::with_id(b"{bcdefghij".to_vec(), "", letter()).is_none());
    assert!(RenderTicket::with_id(vec![0xC3, 0xA9, 97, 97, 97, 97, 97, 97, 97, 97], "", letter())
        .is_none());
}

#[test]
fn stage_file_is_named_after_the_id() {
    let ticket = RenderTicket::with_id(b"a1B2c3D4e5".to_vec(), "<p>x</p>", letter()).unwrap();
    assert_eq!(stage_file_name(&ticket), "page_a1B2c3D4e5.html");
    let drawn = RenderTicket::new("<p>x</p>", letter());
    assert_eq!(stage_file_name(&drawn), format!("page_{}.html", drawn.get_id()));
}
