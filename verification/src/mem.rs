//! The latest reading of the machine's memory.

use vstd::prelude::*;
use crate::usage::{ratio_hundredths, Usage};

verus! {

/// How many bytes of memory are in use, and how many there are.
#[derive(Clone, Copy, Debug, PartialEq, Eq, Structural)]
pub struct MemData {
    pub used: u64,
    pub total: u64,
}

/// The text that the `size` crate writes for a count of bytes in units of
/// powers of 1000.
pub uninterp spec fn base10_size_text(bytes: u64) -> Seq<char>;

/// `size::Size::from_bytes`, formatted with `Base::Base10` and the crate's
/// other defaults: a function of the count alone.
#[verifier::external_body]
fn base10_size(bytes: u64) -> (s: String)
    ensures
        s@ == base10_size_text(bytes),
{
    size::Size::from_bytes(bytes).format().with_base(size::Base::Base10).to_string()
}

/// `used`, a stroke, `total`.
pub open spec fn usage_text(used: Seq<char>, total: Seq<char>) -> Seq<char> {
    used + seq!['/'] + total
}

/// Joins the texts of the bytes in use and of all bytes into the text of
/// the memory bar.
pub fn join_usage_text(used: &str, total: &str) -> (s: String)
    ensures
        s@ == usage_text(used@, total@),
{
    proof {
        reveal_strlit("/");
    }
    let mut s = String::from_str(used);
    s.append("/");
    s.append(total);
    assert(s@ =~= usage_text(used@, total@));
    s
}

impl MemData {
    /// A reading of no memory at all, as it stands before the first one
    /// is taken.
    pub fn new() -> (m: Self)
        ensures
            m.used == 0,
            m.total == 0,
    {
        MemData { used: 0, total: 0 }
    }

    /// Puts a new reading in the place of the old one.
    pub fn record(&mut self, used: u64, total: u64)
        ensures
            final(self).used == used,
            final(self).total == total,
    {
        self.used = used;
        self.total = total;
    }

    /// The share of the memory that is in use.
    pub fn get_percent(&self) -> (u: Usage)
        ensures
            u@ == ratio_hundredths(self.used as int, self.total as int),
    {
        Usage::of_ratio(self.used, self.total)
    }

    /// The bytes of memory that there are.
    pub fn get_total(&self) -> (total: u64)
        ensures
            total == self.total,
    {
        self.total
    }

    /// The bytes of memory in use.
    pub fn get_used(&self) -> (used: u64)
        ensures
            used == self.used,
    {
        self.used
    }

    /// A count of bytes as people read it, in units of powers of 1000.
    pub fn bytes_to_string(&self, bytes: u64) -> (s: String)
        ensures
            s@ == base10_size_text(bytes),
    {
        base10_size(bytes)
    }

    /// The text of the memory bar: the bytes in use, a stroke, all bytes.
    pub fn usage_string(&self) -> (s: String)
        ensures
            s@ == usage_text(base10_size_text(self.used), base10_size_text(self.total)),
    {
        let used = self.bytes_to_string(self.used);
        let total = self.bytes_to_string(self.total);
        join_usage_text(used.as_str(), total.as_str())
    }
}

} // verus!
