//! Cursors: opaque position markers that round-trip losslessly through a
//! string rendering, used to bound a pagination request.

use vstd::prelude::*;

verus! {

/// A cursor type that can be rendered to and parsed back from a string.
///
/// `encoded` gives the mathematical string rendering of a cursor and
/// `decoded` the partial inverse: parsing. An implementation must prove
/// `lemma_round_trip`, so that every cursor it renders parses back to
/// itself; this is what makes the rendering lossless.
pub trait RelayCursor: Sized {
    /// The string rendering of this cursor.
    spec fn encoded(&self) -> Seq<char>;

    /// The cursor a string parses to, or `None` for a malformed string.
    spec fn decoded(s: Seq<char>) -> Option<Self>;

    /// The description of the parse failure for a malformed string.
    spec fn decode_err(s: Seq<char>) -> Seq<char>;

    /// Renders the cursor to its string form.
    fn to_cursor_string(&self) -> (r: String)
        ensures
            r@ == self.encoded(),
    ;

    /// Parses a string into a cursor; a malformed string yields an error
    /// message describing the parse failure.
    fn from_cursor_string(s: &str) -> (r: Result<Self, String>)
        ensures
            r matches Ok(c) ==> Self::decoded(s@) == Some(c),
            r is Err ==> Self::decoded(s@) is None,
            r matches Err(m) ==> m@ == Self::decode_err(s@),
    ;

    /// Rendering then parsing gives the cursor back.
    proof fn lemma_round_trip(&self)
        ensures
            Self::decoded(self.encoded()) == Some(*self),
    ;
}

/// Relies on `char`'s `ToString` impl: the rendered string holds exactly
/// the one character.
#[verifier::external_body]
fn char_to_string(c: char) -> (r: String)
    ensures
        r@ == seq![c],
{
    c.to_string()
}

/// A single character is the simplest cursor: it renders to the
/// one-character string and only such strings parse back.
impl RelayCursor for char {
    open spec fn encoded(&self) -> Seq<char> {
        seq![*self]
    }

    open spec fn decoded(s: Seq<char>) -> Option<char> {
        if s.len() == 1 {
            Some(s[0])
        } else {
            None
        }
    }

    open spec fn decode_err(s: Seq<char>) -> Seq<char> {
        "cursor must be a single character"@
    }

    fn to_cursor_string(&self) -> (r: String) {
        char_to_string(*self)
    }

    fn from_cursor_string(s: &str) -> (r: Result<char, String>) {
        let n = s.unicode_len();
        if n == 1 {
            Ok(s.get_char(0))
        } else {
            Err(String::from_str("cursor must be a single character"))
        }
    }

    proof fn lemma_round_trip(&self) {
    }
}

} // verus!
