use vstd::prelude::*;

verus! {

/// One header line of a response, as text.
#[derive(Debug, Clone, PartialEq, Eq)]
pub struct Header {
    pub name: String,
    pub value: String,
}

impl View for Header {
    type V = (Seq<char>, Seq<char>);

    open spec fn view(&self) -> (Seq<char>, Seq<char>) {
        (self.name@, self.value@)
    }
}

impl Header {
    pub fn new(name: &str, value: &str) -> (h: Header)
        ensures
            h@ == (name@, value@),
    {
        Header { name: String::from_str(name), value: String::from_str(value) }
    }
}

/// What the edge decides of a response: its status, the headers it adds, in
/// order, and a plain-text body.
#[derive(Debug, Clone, PartialEq, Eq)]
pub struct ResponseHead {
    pub status: u16,
    pub headers: Vec<Header>,
    pub body: String,
}

pub struct ResponseView {
    pub status: u16,
    pub headers: Seq<(Seq<char>, Seq<char>)>,
    pub body: Seq<char>,
}

impl View for ResponseHead {
    type V = ResponseView;

    open spec fn view(&self) -> ResponseView {
        ResponseView {
            status: self.status,
            headers: self.headers@.map_values(|h: Header| h@),
            body: self.body@,
        }
    }
}

/// The response carries a header with this name and value.
pub open spec fn has_header(r: ResponseView, name: Seq<char>, value: Seq<char>) -> bool {
    exists|i: int| 0 <= i < r.headers.len() && #[trigger] r.headers[i] == (name, value)
}

impl ResponseHead {
    /// A response with the given status, no headers and an empty body.
    pub fn with_status(status: u16) -> (r: ResponseHead)
        ensures
            r@.status == status,
            r@.headers == Seq::<(Seq<char>, Seq<char>)>::empty(),
            r@.body == Seq::<char>::empty(),
    {
        let r = ResponseHead { status, headers: Vec::new(), body: String::new() };
        assert(r@.headers =~= Seq::<(Seq<char>, Seq<char>)>::empty());
        r
    }

    /// Appends one header after those already there.
    pub fn append(&mut self, header: Header)
        ensures
            final(self)@.status == old(self)@.status,
            final(self)@.body == old(self)@.body,
            final(self)@.headers == old(self)@.headers.push(header@),
    {
        self.headers.push(header);
        assert(self@.headers =~= old(self)@.headers.push(header@));
    }
}

} // verus!
