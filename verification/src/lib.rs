//! Conversions from standard-library string-like values into owned strings.
//!
//! Every conversion yields the text the source value holds. A byte buffer
//! that is not valid UTF-8 is turned into a string of U+FFFD replacement
//! characters, one for each byte of the buffer.

use vstd::prelude::*;

verus! {

use std::borrow::Cow;
use vstd::utf8::valid_utf8;
use vstd::utf8::decode_utf8;

/// The sequence of `n` U+FFFD replacement characters.
pub open spec fn replacement_chars(n: nat) -> Seq<char> {
    Seq::new(n, |i: int| '\u{FFFD}')
}

/// The text a byte buffer converts to: its decoding when the whole buffer is
/// valid UTF-8, and one replacement character per byte otherwise.
pub open spec fn lossy_text(bytes: Seq<u8>) -> Seq<char> {
    if valid_utf8(bytes) {
        decode_utf8(bytes)
    } else {
        replacement_chars(bytes.len())
    }
}

/// A buffer of valid UTF-8 converts to text that encodes back to exactly
/// the original bytes; an invalid buffer converts to one replacement
/// character per byte.
pub proof fn lemma_lossy_text_round_trip(bytes: Seq<u8>)
    ensures
        valid_utf8(bytes) ==> vstd::utf8::encode_utf8(lossy_text(bytes)) == bytes,
        !valid_utf8(bytes) ==> lossy_text(bytes) == replacement_chars(bytes.len()),
{
    if valid_utf8(bytes) {
        vstd::utf8::decode_utf8_encode_utf8(bytes);
    }
}

/// Relies on `std::str::from_utf8`: it returns `Ok` exactly when the bytes
/// are valid UTF-8, and then the returned slice holds their decoding.
#[verifier::external_body]
fn utf8_to_str(x: &[u8]) -> (r: Option<&str>)
    ensures
        r is Some <==> valid_utf8(x@),
        r matches Some(s) ==> s@ == decode_utf8(x@),
{
    std::str::from_utf8(x).ok()
}

/// A string of `n` replacement characters.
fn replacement_string(n: usize) -> (r: String)
    ensures
        r@ == replacement_chars(n as nat),
{
    let fill = "\u{FFFD}";
    proof {
        reveal_strlit("\u{FFFD}");
    }
    let mut s = String::new();
    let mut i: usize = 0;
    while i < n
        invariant
            i <= n,
            fill@ =~= seq!['\u{FFFD}'],
            s@ =~= replacement_chars(i as nat),
        decreases n - i,
    {
        s.append(fill);
        i = i + 1;
    }
    s
}

/// Turns a byte buffer into a `String`: the decoded text when the buffer is
/// valid UTF-8, and a buffer-length run of replacement characters otherwise.
pub fn local_to_str(x: &[u8]) -> (r: String)
    ensures
        r@ == lossy_text(x@),
{
    match utf8_to_str(x) {
        Some(s) => s.to_owned(),
        None => replacement_string(x.len()),
    }
}

/// Converts something string-like from the standard library into an owned
/// `String`.
///
/// `text` is the text the conversion yields, so each implementation states
/// exactly which characters its `into_string` produces.
pub trait IntoString {
    /// The characters the conversion produces.
    spec fn text(self) -> Seq<char>;

    fn into_string(self) -> (r: String)
        ensures
            r@ == self.text(),
    ;
}

impl IntoString for String {
    open spec fn text(self) -> Seq<char> {
        self@
    }

    /// Hands the buffer back unchanged.
    fn into_string(self) -> String {
        self
    }
}

impl IntoString for &String {
    open spec fn text(self) -> Seq<char> {
        self@
    }

    fn into_string(self) -> String {
        self.clone()
    }
}

impl IntoString for &&String {
    open spec fn text(self) -> Seq<char> {
        self@
    }

    fn into_string(self) -> String {
        (*self).clone()
    }
}

impl IntoString for &&&String {
    open spec fn text(self) -> Seq<char> {
        self@
    }

    fn into_string(self) -> String {
        (**self).clone()
    }
}

impl IntoString for &&&&String {
    open spec fn text(self) -> Seq<char> {
        self@
    }

    fn into_string(self) -> String {
        (***self).clone()
    }
}

impl IntoString for &&&&&String {
    open spec fn text(self) -> Seq<char> {
        self@
    }

    fn into_string(self) -> String {
        (****self).clone()
    }
}

impl<'a> IntoString for &'a str {
    open spec fn text(self) -> Seq<char> {
        self@
    }

    fn into_string(self) -> String {
        self.to_owned()
    }
}

impl<'a> IntoString for &&'a str {
    open spec fn text(self) -> Seq<char> {
        self@
    }

    fn into_string(self) -> String {
        (*self).to_owned()
    }
}

impl<'a> IntoString for &&&'a str {
    open spec fn text(self) -> Seq<char> {
        self@
    }

    fn into_string(self) -> String {
        (**self).to_owned()
    }
}

impl<'a> IntoString for &&&&'a str {
    open spec fn text(self) -> Seq<char> {
        self@
    }

    fn into_string(self) -> String {
        (***self).to_owned()
    }
}

impl<'a> IntoString for &&&&&'a str {
    open spec fn text(self) -> Seq<char> {
        self@
    }

    fn into_string(self) -> String {
        (****self).to_owned()
    }
}

/// Copies the text a copy-on-write string holds, borrowed or owned.
fn cow_to_string(c: &Cow<'_, str>) -> (r: String)
    ensures
        r@ == c@,
{
    match c {
        Cow::Owned(x) => x.clone(),
        Cow::Borrowed(x) => (*x).to_owned(),
    }
}

impl<'a> IntoString for Cow<'a, str> {
    open spec fn text(self) -> Seq<char> {
        self@
    }

    /// Keeps the buffer when the value already owns one.
    fn into_string(self) -> String {
        match self {
            Cow::Owned(x) => x,
            Cow::Borrowed(x) => x.to_owned(),
        }
    }
}

impl<'a> IntoString for &Cow<'a, str> {
    open spec fn text(self) -> Seq<char> {
        self@
    }

    fn into_string(self) -> String {
        cow_to_string(self)
    }
}

impl<'a> IntoString for &&Cow<'a, str> {
    open spec fn text(self) -> Seq<char> {
        self@
    }

    fn into_string(self) -> String {
        cow_to_string(*self)
    }
}

impl<'a> IntoString for &&&Cow<'a, str> {
    open spec fn text(self) -> Seq<char> {
        self@
    }

    fn into_string(self) -> String {
        cow_to_string(**self)
    }
}

impl<'a> IntoString for &&&&Cow<'a, str> {
    open spec fn text(self) -> Seq<char> {
        self@
    }

    fn into_string(self) -> String {
        cow_to_string(***self)
    }
}

impl<'a> IntoString for &&&&&Cow<'a, str> {
    open spec fn text(self) -> Seq<char> {
        self@
    }

    fn into_string(self) -> String {
        cow_to_string(****self)
    }
}

} // verus!
