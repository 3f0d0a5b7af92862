//! QR code versions.

use vstd::prelude::*;

use crate::error::Error;
use crate::text::{decimal, push_decimal};

verus! {

/// A QR code version, 1 to 40. Higher versions hold more data in a larger
/// symbol; a symbol of version `v` has `4 * v + 17` modules per side.
#[derive(Clone, Copy, Debug, PartialEq, Eq, Structural)]
pub struct Version {
    number: u8,
}

/// Whether `n` names a version.
pub open spec fn is_version_number(n: int) -> bool {
    1 <= n <= 40
}

impl Version {
    #[verifier::type_invariant]
    spec fn inv(&self) -> bool {
        is_version_number(self.number as int)
    }

    /// The version number.
    pub closed spec fn value(&self) -> u8 {
        self.number
    }

    /// Versions are told apart by their number alone: two versions with the
    /// same number are equal.
    pub proof fn law_same_number_same_version(x: Version, y: Version)
        ensures
            x.value() == y.value() ==> x == y,
    {
    }

    /// Creates the version numbered `v`; refuses a number outside 1..=40.
    pub fn new(v: u8) -> (r: Result<Version, Error>)
        ensures
            is_version_number(v as int) <==> r is Ok,
            r matches Ok(ver) ==> ver.value() == v,
            r matches Err(e) ==> e == Error::VersionOutOfRange(v),
    {
        if 1 <= v && v <= 40 {
            Ok(Version { number: v })
        } else {
            Err(Error::VersionOutOfRange(v))
        }
    }

    /// The text form `Version(<number>)`.
    pub fn repr(&self) -> (r: String)
        ensures
            r@ == "Version("@ + decimal(self.value() as nat) + ")"@,
    {
        let mut r = String::from_str("Version(");
        push_decimal(&mut r, self.number as usize);
        r.append(")");
        r
    }

    /// The version number, 1..=40.
    pub fn number(&self) -> (n: u8)
        ensures
            n == self.value(),
            is_version_number(n as int),
    {
        proof {
            use_type_invariant(self);
        }
        self.number
    }
}

} // verus!
