//! The version string of a platform webview.
use vstd::prelude::*;
use vstd::string::*;

use crate::text::{append_nat, nat_text};

verus! {

/// `major.minor.micro`, each part in decimal.
pub open spec fn version_text(major: nat, minor: nat, micro: nat) -> Seq<char> {
    nat_text(major) + "."@ + nat_text(minor) + "."@ + nat_text(micro)
}

/// The version string of a webview engine from the three parts of its
/// version number.
pub fn version_string(major: u32, minor: u32, micro: u32) -> (r: String)
    ensures
        r@ == version_text(major as nat, minor as nat, micro as nat),
{
    let mut s = String::new();
    append_nat(&mut s, major as u64);
    s.append(".");
    append_nat(&mut s, minor as u64);
    s.append(".");
    append_nat(&mut s, micro as u64);
    assert(s@ =~= version_text(major as nat, minor as nat, micro as nat));
    s
}

} // verus!
