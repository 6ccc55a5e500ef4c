//! Shortened display forms of addresses and transaction hashes.
//!
//! Long identifiers are abbreviated to their first six characters, an
//! ellipsis, and a short tail; anything of twelve characters or fewer is
//! shown as it is. Printing to the console belongs to the calling
//! application.

use vstd::prelude::*;
use vstd::string::StringExecFns;
use vstd::string::StrSliceExecFns;

verus! {

/// The abbreviated form of `s` keeping a tail of `tail` characters.
pub open spec fn abbreviated_spec(s: Seq<char>, tail: nat) -> Seq<char> {
    if s.len() <= 12 {
        s
    } else {
        s.subrange(0, 6) + "..."@ + s.subrange(s.len() - tail, s.len() as int)
    }
}

fn abbreviate(s: &str, tail: usize) -> (r: String)
    requires
        1 <= tail <= 12,
    ensures
        r@ == abbreviated_spec(s@, tail as nat),
{
    let n = s.unicode_len();
    if n <= 12 {
        String::from_str(s)
    } else {
        let head = s.substring_char(0, 6);
        let tl = s.substring_char(n - tail, n);
        proof {
            reveal_strlit("...");
        }
        let r = String::from_str(head).concat("...").concat(tl);
        assert(r@ =~= abbreviated_spec(s@, tail as nat));
        r
    }
}

/// Formats account data for console rendering; the rendering itself is done
/// by the calling application.
pub struct DisplayFormatter;

impl DisplayFormatter {
    /// Creates a new formatter.
    pub fn new() -> (r: DisplayFormatter) {
        DisplayFormatter
    }

    /// Abbreviates an address, keeping a three-character tail.
    pub fn format_address(&self, address: &str) -> (r: String)
        ensures
            r@ == abbreviated_spec(address@, 3),
    {
        abbreviate(address, 3)
    }

    /// Abbreviates a transaction hash, keeping a six-character tail.
    pub fn format_hash(&self, hash: &str) -> (r: String)
        ensures
            r@ == abbreviated_spec(hash@, 6),
    {
        abbreviate(hash, 6)
    }
}

impl Default for DisplayFormatter {
    fn default() -> (r: Self)
        ensures
            r == DisplayFormatter,
    {
        Self::new()
    }
}

/// A value with a canonical display form.
pub trait Formattable {
    /// The characters `format` yields.
    spec fn format_spec(&self) -> Seq<char>;

    /// Renders the value for display.
    fn format(&self) -> (r: String)
        ensures
            r@ == self.format_spec(),
    ;
}

impl Formattable for String {
    open spec fn format_spec(&self) -> Seq<char> {
        abbreviated_spec(self@, 3)
    }

    fn format(&self) -> (r: String) {
        abbreviate(self.as_str(), 3)
    }
}

/// A piece of console text together with the color it should be shown in.
#[derive(Debug)]
pub struct ColoredOutput {
    pub text: String,
    pub color: OutputColor,
}

#[derive(Debug)]
pub enum OutputColor {
    Red,
    Green,
    Blue,
    Yellow,
    Default,
}

} // verus!
