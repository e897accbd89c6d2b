//! Principal references: the parties that sign wagers and hold stakes.
//!
//! An identity is one of three comparable, serializable variants: an account
//! reference, a raw Ed25519 public key, or a contract reference.  Key and
//! contract identities carry their raw 32-byte form; account identities carry
//! the bytes of their serialized account representation.

use vstd::prelude::*;

verus! {

/// Mathematical value of an [`Identity`]: the same three variants over byte
/// sequences.
pub enum IdentityView {
    Account(Seq<u8>),
    Ed25519(Seq<u8>),
    Contract(Seq<u8>),
}

impl IdentityView {
    /// The serialized bytes of the identity, used as its tiebreak key.
    pub open spec fn key_bytes(self) -> Seq<u8> {
        match self {
            IdentityView::Account(b) => b,
            IdentityView::Ed25519(b) => b,
            IdentityView::Contract(b) => b,
        }
    }

    /// Key and contract identities are exactly their raw 32-byte form; an
    /// account representation may be any length.
    pub open spec fn wf(self) -> bool {
        match self {
            IdentityView::Account(_) => true,
            IdentityView::Ed25519(b) => b.len() == 32,
            IdentityView::Contract(b) => b.len() == 32,
        }
    }
}

/// An opaque, comparable principal reference.  Identities are compared by
/// structural equality and are never mutated, only looked up or embedded in
/// messages.
#[derive(Debug)]
pub enum Identity {
    /// An externally-owned account, by its serialized account representation.
    Account(Vec<u8>),
    /// A raw Ed25519 public key.
    Ed25519(Vec<u8>),
    /// Another contract, by its 32-byte contract identifier.
    Contract(Vec<u8>),
}

impl View for Identity {
    type V = IdentityView;

    open spec fn view(&self) -> IdentityView {
        match self {
            Identity::Account(b) => IdentityView::Account(b@),
            Identity::Ed25519(b) => IdentityView::Ed25519(b@),
            Identity::Contract(b) => IdentityView::Contract(b@),
        }
    }
}

/// Copies a byte vector; the copy holds exactly the same bytes.
pub fn bytes_dup(v: &Vec<u8>) -> (r: Vec<u8>)
    ensures
        r@ == v@,
{
    let r = v.clone();
    proof {
        assert(r@ =~= v@);
    }
    r
}

/// Compares two byte vectors for equality of their contents.
pub fn bytes_eq(a: &Vec<u8>, b: &Vec<u8>) -> (r: bool)
    ensures
        r == (a@ == b@),
{
    let r = a == b;
    proof {
        if r {
            assert(a@ =~= b@);
        }
    }
    r
}

impl Identity {
    /// Copies the identity; the copy denotes the same principal.
    pub fn duplicate(&self) -> (r: Identity)
        ensures
            r@ == self@,
    {
        match self {
            Identity::Account(b) => Identity::Account(bytes_dup(b)),
            Identity::Ed25519(b) => Identity::Ed25519(bytes_dup(b)),
            Identity::Contract(b) => Identity::Contract(bytes_dup(b)),
        }
    }

    /// The serialized bytes of the identity: account identities serialize
    /// through their account representation, key and contract identities as
    /// their raw 32-byte form.
    pub fn serialized_bytes(&self) -> (r: Vec<u8>)
        ensures
            r@ == self@.key_bytes(),
    {
        match self {
            Identity::Account(b) => bytes_dup(b),
            Identity::Ed25519(b) => bytes_dup(b),
            Identity::Contract(b) => bytes_dup(b),
        }
    }

    /// Reads one byte of the serialized form.
    pub fn key_byte(&self, i: usize) -> (r: u8)
        requires
            i < self@.key_bytes().len(),
        ensures
            r == self@.key_bytes()[i as int],
    {
        match self {
            Identity::Account(b) => b[i],
            Identity::Ed25519(b) => b[i],
            Identity::Contract(b) => b[i],
        }
    }

    /// Whether this identity is an account reference.
    pub fn is_account(&self) -> (r: bool)
        ensures
            r == (self@ is Account),
    {
        match self {
            Identity::Account(_) => true,
            _ => false,
        }
    }
}

impl PartialEq for Identity {
    /// Structural equality of principals.
    fn eq(&self, other: &Identity) -> (r: bool) {
        match (self, other) {
            (Identity::Account(a), Identity::Account(b)) => bytes_eq(a, b),
            (Identity::Ed25519(a), Identity::Ed25519(b)) => bytes_eq(a, b),
            (Identity::Contract(a), Identity::Contract(b)) => bytes_eq(a, b),
            _ => false,
        }
    }
}

impl vstd::std_specs::cmp::PartialEqSpecImpl for Identity {
    open spec fn obeys_eq_spec() -> bool {
        true
    }

    open spec fn eq_spec(&self, other: &Identity) -> bool {
        self@ == other@
    }
}

} // verus!
