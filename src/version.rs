use vstd::prelude::*;
use vstd::string::StringExecFns;
use vstd::string::StrSliceExecFns;

verus! {

/// The character of a decimal digit `d < 10`.
pub open spec fn digit_char(d: nat) -> char {
    if d == 0 { '0' }
    else if d == 1 { '1' }
    else if d == 2 { '2' }
    else if d == 3 { '3' }
    else if d == 4 { '4' }
    else if d == 5 { '5' }
    else if d == 6 { '6' }
    else if d == 7 { '7' }
    else if d == 8 { '8' }
    else { '9' }
}

/// The decimal digits of `n`, most significant first, with no leading zero.
pub open spec fn decimal(n: nat) -> Seq<char>
    decreases n,
{
    if n < 10 {
        seq![digit_char(n)]
    } else {
        decimal(n / 10).push(digit_char(n % 10))
    }
}

/// Relies on the `Display` of `u64` in std (through `ToString`): the integer
/// in decimal, with no sign, padding or leading zero.
#[verifier::external_body]
fn decimal_text(n: u64) -> (r: String)
    ensures
        r@ == decimal(n as nat),
{
    n.to_string()
}

/// A concrete semantic version: `major.minor.patch`, with an optional
/// pre-release part and optional build metadata (empty when absent).
pub struct Version {
    pub major: u64,
    pub minor: u64,
    pub patch: u64,
    pub pre: String,
    pub build: String,
}

impl Version {
    /// The canonical text of the version:
    /// `major.minor.patch`, then `-pre` if `pre` is not empty, then `+build`
    /// if `build` is not empty.
    pub open spec fn text(self) -> Seq<char> {
        decimal(self.major as nat) + seq!['.'] + decimal(self.minor as nat) + seq!['.']
            + decimal(self.patch as nat)
            + (if self.pre@.len() == 0 { Seq::empty() } else { seq!['-'] + self.pre@ })
            + (if self.build@.len() == 0 { Seq::empty() } else { seq!['+'] + self.build@ })
    }

    /// A release version with no pre-release part and no build metadata.
    pub fn new(major: u64, minor: u64, patch: u64) -> (r: Version)
        ensures
            r.major == major,
            r.minor == minor,
            r.patch == patch,
            r.pre@.len() == 0,
            r.build@.len() == 0,
    {
        Version { major, minor, patch, pre: String::new(), build: String::new() }
    }

    /// The canonical text of the version.
    pub fn to_string(&self) -> (r: String)
        ensures
            r@ == self.text(),
    {
        proof {
            reveal_strlit(".");
            reveal_strlit("-");
            reveal_strlit("+");
        }
        let mut s = decimal_text(self.major);
        s.append(".");
        s.append(decimal_text(self.minor).as_str());
        s.append(".");
        s.append(decimal_text(self.patch).as_str());
        if self.pre.as_str().unicode_len() > 0 {
            s.append("-");
            s.append(self.pre.as_str());
        }
        if self.build.as_str().unicode_len() > 0 {
            s.append("+");
            s.append(self.build.as_str());
        }
        assert(s@ =~= self.text());
        s
    }
}

impl Clone for Version {
    fn clone(&self) -> (r: Version)
        ensures
            r == *self,
    {
        Version {
            major: self.major,
            minor: self.minor,
            patch: self.patch,
            pre: self.pre.clone(),
            build: self.build.clone(),
        }
    }
}

} // verus!
