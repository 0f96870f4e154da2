//! Short identifiers: the grammar accepted on lookup and the narrower
//! alphabet used when minting fresh identifiers.

use vstd::prelude::*;

verus! {

/// Characters that a freshly minted identifier may contain: `[0-9a-z]`.
pub open spec fn is_minted_char(c: char) -> bool {
    ('0' <= c && c <= '9') || ('a' <= c && c <= 'z')
}

/// Characters admissible in an identifier supplied on lookup: `[0-9a-z_-]`.
pub open spec fn is_id_char(c: char) -> bool {
    is_minted_char(c) || c == '-' || c == '_'
}

/// A path segment names an identifier when it is non-empty and every
/// character lies in `[0-9a-z_-]`.
pub open spec fn is_valid_id(s: Seq<char>) -> bool {
    s.len() >= 1 && forall|i: int| 0 <= i < s.len() ==> is_id_char(s[i])
}

/// Returns `true` exactly when `id` is a well-formed identifier:
/// non-empty, every character lowercase alphanumeric, dash, or underscore.
pub fn valid_id(id: &str) -> (r: bool)
    ensures
        r == is_valid_id(id@),
{
    let len = id.unicode_len();
    if len == 0 {
        return false;
    }
    let mut i: usize = 0;
    while i < len
        invariant
            len == id@.len(),
            0 <= i <= len,
            forall|j: int| 0 <= j < i ==> is_id_char(id@[j]),
        decreases len - i,
    {
        let c = id.get_char(i);
        let ok = ('0' <= c && c <= '9') || ('a' <= c && c <= 'z') || c == '-' || c == '_';
        if !ok {
            return false;
        }
        i = i + 1;
    }
    true
}

/// A short identifier naming a stored URL: non-empty, every character in
/// `[0-9a-z_-]`.
#[derive(Debug)]
pub struct Id {
    text: String,
}

impl View for Id {
    type V = Seq<char>;

    closed spec fn view(&self) -> Seq<char> {
        self.text@
    }
}

/// Relies on rand::random: a uniformly drawn 64-bit value. Nothing is
/// promised of the value.
#[verifier::external_body]
fn random_u64() -> u64 {
    rand::random::<u64>()
}

/// Relies on String::push: it appends exactly the given character.
#[verifier::external_body]
fn push_char(s: &mut String, c: char)
    ensures
        final(s)@ == old(s)@.push(c),
{
    s.push(c);
}

/// Returns the character of the 36-character alphabet `[0-9a-z]` at
/// position `d`.
fn base36_char(d: usize) -> (c: char)
    requires
        d < 36,
    ensures
        is_minted_char(c),
{
    if d < 10 {
        let b: u8 = 48 + (d as u8);
        b as char
    } else {
        let b: u8 = 97 + ((d - 10) as u8);
        b as char
    }
}

impl Id {
    /// A well-formed identifier: accepted by the lookup grammar.
    pub open spec fn wf(&self) -> bool {
        is_valid_id(self@)
    }

    /// Generates a probably unique identifier of `size` characters, each
    /// drawn from the 36-character alphabet `[0-9a-z]`.
    pub fn new(size: usize) -> (r: Id)
        requires
            size >= 1,
        ensures
            r@.len() == size,
            forall|i: int| 0 <= i < size ==> is_minted_char(r@[i]),
            r.wf(),
    {
        let mut text = String::new();
        let mut n: usize = 0;
        while n < size
            invariant
                0 <= n <= size,
                text@.len() == n,
                forall|i: int| 0 <= i < n ==> is_minted_char(text@[i]),
            decreases size - n,
        {
            let d = (random_u64() % 36) as usize;
            let c = base36_char(d);
            push_char(&mut text, c);
            n = n + 1;
        }
        Id { text }
    }

    /// Accepts a path segment as an identifier when it satisfies the
    /// lookup grammar, and hands the segment back otherwise.
    pub fn from_segment(segment: String) -> (r: Result<Id, String>)
        ensures
            is_valid_id(segment@) ==> (r matches Ok(id) && id@ == segment@ && id.wf()),
            !is_valid_id(segment@) ==> (r matches Err(s) && s@ == segment@),
    {
        if valid_id(segment.as_str()) {
            Ok(Id { text: segment })
        } else {
            Err(segment)
        }
    }

    /// The identifier's text.
    pub fn as_str(&self) -> (r: &str)
        ensures
            r@ == self@,
    {
        self.text.as_str()
    }
}

} // verus!
