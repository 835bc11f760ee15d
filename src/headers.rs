//! The header collection of an incoming request, as names and raw value bytes.
use vstd::prelude::*;

verus! {

/// The value under `name` in `entries`: that of the first entry with this name.
pub open spec fn lookup(entries: Seq<(String, Vec<u8>)>, name: Seq<char>) -> Option<Seq<u8>>
    decreases entries.len(),
{
    if entries.len() == 0 {
        None
    } else if entries[0].0@ == name {
        Some(entries[0].1@)
    } else {
        lookup(entries.drop_first(), name)
    }
}

/// A byte that a header value may hold and still read as text: visible ASCII or a tab.
pub open spec fn is_visible_ascii(b: u8) -> bool {
    (32 <= b && b < 127) || b == 9
}

/// Whether every byte of a header value is text.
pub open spec fn is_text(v: Seq<u8>) -> bool {
    forall|i: int| 0 <= i < v.len() ==> is_visible_ascii(#[trigger] v[i])
}

/// The characters that ASCII bytes stand for.
pub open spec fn chars_of(v: Seq<u8>) -> Seq<char> {
    Seq::new(v.len(), |i: int| v[i] as char)
}

/// Relies on `String::from_utf8`: ASCII bytes are valid UTF-8 and decode to the
/// characters with the same codes.
#[verifier::external_body]
fn ascii_string(v: &Vec<u8>) -> (r: Option<String>)
    ensures
        (forall|i: int| 0 <= i < v@.len() ==> #[trigger] v@[i] < 128) ==> r == Some(r->0)
            && r->0@ == chars_of(v@),
{
    String::from_utf8(v.clone()).ok()
}

/// Reads a header value as text: `None` when some byte is not visible ASCII or a tab.
pub fn header_text(v: &Vec<u8>) -> (r: Option<String>)
    ensures
        r.is_some() == is_text(v@),
        r.is_some() ==> r->0@ == chars_of(v@),
{
    let mut i: usize = 0;
    while i < v.len()
        invariant
            0 <= i <= v@.len(),
            forall|j: int| 0 <= j < i ==> is_visible_ascii(#[trigger] v@[j]),
        decreases v@.len() - i,
    {
        let b: u8 = v[i];
        if !((32 <= b && b < 127) || b == 9) {
            return None;
        }
        i = i + 1;
    }
    assert forall|j: int| 0 <= j < v@.len() implies #[trigger] v@[j] < 128 by {
        assert(is_visible_ascii(v@[j]));
    }
    ascii_string(v)
}

/// The headers of one request, in the order they arrived.
pub struct HeaderSet {
    pub entries: Vec<(String, Vec<u8>)>,
}

impl HeaderSet {
    /// The value that the request carries under `name`, if any.
    pub open spec fn value_of(&self, name: Seq<char>) -> Option<Seq<u8>> {
        lookup(self.entries@, name)
    }

    /// A request without headers.
    pub fn new() -> (r: HeaderSet)
        ensures
            r.entries@.len() == 0,
    {
        HeaderSet { entries: Vec::new() }
    }

    /// Adds a header after those already present.
    pub fn append(&mut self, name: &str, value: Vec<u8>)
        ensures
            final(self).entries@.len() == old(self).entries@.len() + 1,
            final(self).entries@.drop_last() == old(self).entries@,
            final(self).entries@.last().0@ == name@,
            final(self).entries@.last().1@ == value@,
    {
        self.entries.push((name.to_owned(), value));
        assert(self.entries@.drop_last() =~= old(self).entries@);
    }

    /// The value of the first header called `name`.
    pub fn get(&self, name: &str) -> (r: Option<Vec<u8>>)
        ensures
            r.is_some() == self.value_of(name@).is_some(),
            r.is_some() ==> self.value_of(name@) == Some(r->0@),
    {
        let key = name.to_owned();
        let n = self.entries.len();
        let mut i: usize = 0;
        assert(self.entries@.subrange(0, n as int) =~= self.entries@);
        while i < n
            invariant
                n == self.entries@.len(),
                0 <= i <= n,
                key@ == name@,
                lookup(self.entries@, name@) == lookup(self.entries@.subrange(i as int, n as int), name@),
            decreases n - i,
        {
            let ghost rest = self.entries@.subrange(i as int, n as int);
            assert(rest.drop_first() =~= self.entries@.subrange(i + 1, n as int));
            if self.entries[i].0 == key {
                return Some(self.entries[i].1.clone());
            }
            i = i + 1;
        }
        assert(self.entries@.subrange(n as int, n as int).len() == 0);
        None
    }
}

} // verus!
