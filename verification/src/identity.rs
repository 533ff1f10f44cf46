//! The identity value itself.

use vstd::prelude::*;
use vstd::string::*;
use crate::text::{append_decimal, decimal};

verus! {

/// The fingerprint of a type's canonical signature. Two identities are
/// either equal or not; no other relation between them carries meaning.
#[derive(Debug, Clone, Copy, Hash, PartialEq, Eq, Structural)]
pub struct StableId(pub u64);

impl StableId {
    /// The text an identity is shown as: `ID(`, its decimal value, `)`.
    pub open spec fn shown(self) -> Seq<char> {
        "ID("@ + decimal(self.0 as nat) + ")"@
    }

    /// Renders the identity for display.
    pub fn to_string(&self) -> (s: String)
        ensures
            s@ == self.shown(),
    {
        let mut s = String::from_str("ID(");
        append_decimal(&mut s, self.0);
        s.append(")");
        s
    }
}

} // verus!
