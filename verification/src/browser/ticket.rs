//! Tickets: the description of one rendering job.

use vstd::prelude::*;
use rand::Rng;
use crate::page_props::PageProperties;
use crate::text::{all_ascii, ascii_text, utf8_lossy};

verus! {

/// Number of bytes in the id of a ticket.
pub const ID_LENGTH: usize = 10;

/// Whether the byte is an ASCII letter or digit.
pub open spec fn is_alphanumeric(byte: u8) -> bool {
    ||| 0x30 <= byte <= 0x39
    ||| 0x41 <= byte <= 0x5A
    ||| 0x61 <= byte <= 0x7A
}

/// Whether the bytes can serve as the id of a ticket: [`ID_LENGTH`] ASCII
/// letters and digits.
pub open spec fn valid_id(id: Seq<u8>) -> bool {
    &&& id.len() == ID_LENGTH
    &&& forall|i: int| 0 <= i < id.len() ==> is_alphanumeric(#[trigger] id[i])
}

/// An id is plain ASCII, so it reads as text byte for byte.
pub proof fn lemma_valid_id_is_ascii(id: Seq<u8>)
    requires
        valid_id(id),
    ensures
        all_ascii(id),
        ascii_text(id).len() == ID_LENGTH,
{
    assert forall|i: int| 0 <= i < id.len() implies #[trigger] id[i] < 128 by {
        assert(is_alphanumeric(id[i]));
    }
}

/// Random ASCII letters and digits, `length` of them.
///
/// Trusted: draws from `rand::thread_rng()` through `Rng::sample_iter` with
/// the distribution `rand::distributions::Alphanumeric`. The iterator never
/// ends and each item is one byte out of `A-Z`, `a-z` and `0-9`, so taking
/// `length` items yields exactly that many such bytes. Which bytes come is
/// left open: two calls may differ. The generator panics where the
/// operating system cannot seed it, whatever `length` is.
#[verifier::external_body]
fn random_alphanumeric(length: usize) -> (bytes: Vec<u8>)
    ensures
        bytes@.len() == length,
        forall|i: int| 0 <= i < bytes@.len() ==> is_alphanumeric(#[trigger] bytes@[i]),
{
    rand::thread_rng().sample_iter(&rand::distributions::Alphanumeric).take(length).collect()
}

/// The description of one rendering job: what to render and how to lay it
/// out, under an id of its own. A ticket never changes once made.
pub struct RenderTicket {
    id: Vec<u8>,
    html: String,
    page_properties: PageProperties,
}

/// The mathematical content of a [`RenderTicket`].
pub struct RenderTicketView {
    pub id: Seq<u8>,
    pub html: Seq<char>,
    pub page_properties: PageProperties,
}

impl View for RenderTicket {
    type V = RenderTicketView;

    closed spec fn view(&self) -> RenderTicketView {
        RenderTicketView {
            id: self.id@,
            html: self.html@,
            page_properties: self.page_properties,
        }
    }
}

/// Whether the two references lead to one and the same ticket.
///
/// Trusted: calls `std::ptr::eq` of the standard library, which compares the
/// addresses of the two tickets. Two references to one address lead to one
/// ticket, which holds what it holds. Where a ticket lies in memory is not
/// part of what it holds, so nothing is said of when the result is true.
#[verifier::external_body]
fn same_ticket(one: &RenderTicket, other: &RenderTicket) -> (same: bool)
    ensures
        same ==> one@ == other@,
{
    std::ptr::eq(one, other)
}

impl PartialEq for RenderTicket {
    /// A ticket equals itself and no other ticket, whatever the other holds.
    fn eq(&self, other: &Self) -> (equal: bool)
        ensures
            equal ==> self@ == other@,
    {
        same_ticket(self, other)
    }
}

/// Equality of tickets is by identity, which is no function of what the
/// tickets hold: nothing is claimed of `==` in contracts.
impl vstd::std_specs::cmp::PartialEqSpecImpl for RenderTicket {
    open spec fn obeys_eq_spec() -> bool {
        false
    }

    open spec fn eq_spec(&self, other: &Self) -> bool {
        false
    }
}

impl RenderTicket {
    #[verifier::type_invariant]
    spec fn inv(&self) -> bool {
        valid_id(self.id@)
    }

    /// A ticket for the given document under a freshly drawn id.
    pub fn new(html: &str, page_properties: PageProperties) -> (ticket: RenderTicket)
        ensures
            valid_id(ticket@.id),
            ticket@.html == html@,
            ticket@.page_properties == page_properties,
    {
        let id = random_alphanumeric(ID_LENGTH);
        RenderTicket { id, html: html.to_owned(), page_properties }
    }

    /// A ticket for the given document under the given id, if the bytes can
    /// serve as one.
    pub fn with_id(id: Vec<u8>, html: &str, page_properties: PageProperties) -> (made: Option<
        RenderTicket,
    >)
        ensures
            made is Some <==> valid_id(id@),
            made matches Some(ticket) ==> ticket@ == (RenderTicketView {
                id: id@,
                html: html@,
                page_properties,
            }),
    {
        if id.len() != ID_LENGTH {
            return None;
        }
        let mut at: usize = 0;
        while at < ID_LENGTH
            invariant
                at <= ID_LENGTH,
                id@.len() == ID_LENGTH,
                forall|i: int| 0 <= i < at ==> is_alphanumeric(#[trigger] id@[i]),
            decreases ID_LENGTH - at,
        {
            let byte: u8 = id[at];
            let digit = 0x30 <= byte && byte <= 0x39;
            let upper = 0x41 <= byte && byte <= 0x5A;
            let lower = 0x61 <= byte && byte <= 0x7A;
            if !(digit || upper || lower) {
                assert(!is_alphanumeric(id@[at as int]));
                return None;
            }
            at += 1;
        }
        Some(RenderTicket { id, html: html.to_owned(), page_properties })
    }

    /// The id of the ticket as text.
    pub fn get_id(&self) -> (id: String)
        ensures
            valid_id(self@.id),
            id@ == ascii_text(self@.id),
    {
        proof {
            use_type_invariant(self);
            lemma_valid_id_is_ascii(self.id@);
        }
        utf8_lossy(&self.id)
    }

    /// The document to render.
    pub fn get_html(&self) -> (html: &String)
        ensures
            html@ == self@.html,
    {
        &self.html
    }

    /// The layout of the rendered pages.
    pub fn get_page_properties(&self) -> (page_properties: &PageProperties)
        ensures
            *page_properties == self@.page_properties,
    {
        &self.page_properties
    }
}

} // verus!
