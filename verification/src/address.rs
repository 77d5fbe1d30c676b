//! Transport addresses in their canonical multiaddr text.

use vstd::prelude::*;
use vstd::string::*;

verus! {

/// What the multiaddr parser of the transport library makes of a text: `None`
/// where it rejects the text, else the text in which the library prints the
/// address that it read. The networking core takes two texts to name the same
/// address when this gives the same text for both.
pub uninterp spec fn canonical_multiaddr(text: Seq<char>) -> Option<Seq<char>>;

/// The view of an optional text.
pub open spec fn text_view(text: Option<String>) -> Option<Seq<char>> {
    match text {
        Some(t) => Some(t@),
        None => None,
    }
}

/// Calls `str::parse::<libp2p::Multiaddr>` (that is `Multiaddr::from_str`) on
/// `text` and, where the text is accepted, prints the address with its
/// `Display` impl. Trusted: the result is `canonical_multiaddr` of the text;
/// the parser returns an error, and never panics, on a text that it rejects.
#[verifier::external_body]
fn parse_multiaddr(text: &str) -> (canonical: Option<String>)
    ensures
        text_view(canonical) == canonical_multiaddr(text@),
{
    match text.parse::<libp2p::Multiaddr>() {
        Ok(address) => Some(address.to_string()),
        Err(_) => None,
    }
}

/// A transport address, held as its canonical multiaddr text.
#[derive(Debug)]
pub struct Address {
    text: String,
}

impl View for Address {
    type V = Seq<char>;

    closed spec fn view(&self) -> Seq<char> {
        self.text@
    }
}

impl Clone for Address {
    fn clone(&self) -> (copy: Self)
        ensures
            copy@ == self@,
    {
        Address { text: self.text.clone() }
    }
}

impl Address {
    /// Reads a multiaddr text such as `/ip4/127.0.0.1/tcp/34553`.
    pub fn parse(text: &str) -> (address: Option<Address>)
        ensures
            address_view(address) == canonical_multiaddr(text@),
    {
        match parse_multiaddr(text) {
            Some(canonical) => Some(Address { text: canonical }),
            None => None,
        }
    }

    /// The canonical text of the address.
    pub fn as_string(&self) -> (text: &String)
        ensures
            text@ == self@,
    {
        &self.text
    }

    /// The canonical text of the address, as an owned string.
    pub fn to_string(&self) -> (text: String)
        ensures
            text@ == self@,
    {
        self.text.clone()
    }

    /// Whether two addresses are the same address.
    pub fn same(&self, other: &Address) -> (equal: bool)
        ensures
            equal == (self@ == other@),
    {
        self.text == other.text
    }
}

/// The view of an optional address.
pub open spec fn address_view(address: Option<Address>) -> Option<Seq<char>> {
    match address {
        Some(a) => Some(a@),
        None => None,
    }
}

/// The number of characters of `text` that stand before its first colon: the
/// length of `text` where it holds none.
pub open spec fn segment_len(text: Seq<char>) -> nat
    decreases text.len(),
{
    if text.len() == 0 || text[0] == ':' {
        0
    } else {
        1 + segment_len(text.drop_first())
    }
}

/// The multiaddr text for a socket address `host:port`: the text before the
/// first colon becomes the IPv4 segment, the text between the first colon and
/// the second (or the end) the TCP port segment, and what follows a second
/// colon is dropped. A text without a colon has no port segment and gives
/// `None`.
pub open spec fn socket_multiaddr_text(address: Seq<char>) -> Option<Seq<char>> {
    let host_len = segment_len(address) as int;
    if host_len >= address.len() {
        None
    } else {
        let rest = address.skip(host_len + 1);
        Some(
            seq!['/', 'i', 'p', '4', '/'] + address.take(host_len) + seq!['/', 't', 'c', 'p', '/']
                + rest.take(segment_len(rest) as int),
        )
    }
}

/// The address that a socket address `host:port` names: `None` where the text
/// holds no colon or where the multiaddr parser rejects what is made of it.
pub open spec fn socket_multiaddr(address: Seq<char>) -> Option<Seq<char>> {
    match socket_multiaddr_text(address) {
        Some(text) => canonical_multiaddr(text),
        None => None,
    }
}

/// `segment_len` is the place of the first colon, or the length of a text
/// that holds none.
pub proof fn lemma_segment_len(text: Seq<char>, i: int)
    requires
        0 <= i <= text.len(),
        forall|j: int| 0 <= j < i ==> text[j] != ':',
        i == text.len() || text[i] == ':',
    ensures
        segment_len(text) == i,
    decreases text.len(),
{
    if i > 0 {
        let tail = text.drop_first();
        assert forall|j: int| 0 <= j < i - 1 implies tail[j] != ':' by {
            assert(tail[j] == text[j + 1]);
        }
        lemma_segment_len(tail, i - 1);
    }
}

/// The length of the segment of `text` that starts at `from` and ends before
/// the next colon.
fn segment_end(text: &str, from: usize, len: usize) -> (end: usize)
    requires
        len == text@.len(),
        from <= len,
    ensures
        from <= end <= len,
        end - from == segment_len(text@.skip(from as int)),
{
    let mut end: usize = from;
    while end < len && text.get_char(end) != ':'
        invariant
            len == text@.len(),
            from <= end <= len,
            forall|j: int| from <= j < end ==> text@[j] != ':',
        decreases len - end,
    {
        end += 1;
    }
    proof {
        lemma_segment_len(text@.skip(from as int), end - from);
    }
    end
}

/// Converts a socket address of the form `127.0.0.1:34553` into the address
/// `/ip4/127.0.0.1/tcp/34553`. Gives `None` where the text holds no colon or
/// where what is made of it is no multiaddr.
pub fn address_str_to_multiaddr(address: &str) -> (converted: Option<Address>)
    ensures
        address_view(converted) == socket_multiaddr(address@),
{
    let len = address.unicode_len();
    let host_end = segment_end(address, 0, len);
    assert(address@.skip(0) =~= address@);
    if host_end >= len {
        return None;
    }
    let port_start = host_end + 1;
    let port_end = segment_end(address, port_start, len);
    let mut text = String::from_str("/ip4/");
    text.append(address.substring_char(0, host_end));
    text.append("/tcp/");
    text.append(address.substring_char(port_start, port_end));
    proof {
        reveal_strlit("/ip4/");
        reveal_strlit("/tcp/");
        let rest = address@.skip(host_end + 1);
        assert("/ip4/"@ =~= seq!['/', 'i', 'p', '4', '/']);
        assert("/tcp/"@ =~= seq!['/', 't', 'c', 'p', '/']);
        assert(address@.subrange(0, host_end as int) =~= address@.take(host_end as int));
        assert(address@.subrange(port_start as int, port_end as int) =~= rest.take(
            segment_len(rest) as int,
        ));
        assert(socket_multiaddr_text(address@) == Some(text@));
    }
    Address::parse(text.as_str())
}

} // verus!
