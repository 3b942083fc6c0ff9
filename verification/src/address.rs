//! Addresses and their reconstruction from locking scripts.
//!
//! An address here is the canonical text form of a destination on the
//! configured network (the regtest chain — this tool runs against a single
//! fixed test network). Equality is structural: the same locking script
//! reconstructs to the same address text. The mapping between scripts and
//! address text is the work of the `bitcoin` crate, reached through the two
//! trusted wrappers below; everything decided on the result is verified.
use vstd::prelude::*;

use crate::CoreError;

verus! {

/// The address text the configured network assigns to a locking script,
/// or `None` for a script no address form exists for. This is what
/// `bitcoin::Address::from_script` followed by display rendering returns;
/// it depends on the script bytes alone.
pub uninterp spec fn address_text_of_script(script: Seq<u8>) -> Option<Seq<char>>;

/// Whether the text denotes an address valid for the configured network.
/// This is what parsing with the `bitcoin` crate and checking the network
/// returns; it depends on the text alone.
pub uninterp spec fn is_network_address_text(text: Seq<char>) -> bool;

/// Relies on `bitcoin::Address::from_script` (deterministic reconstruction
/// of an address from a locking script, `Err` exactly for scripts without
/// an address form) and on the address's display rendering: both depend on
/// the script bytes and the fixed network alone.
#[verifier::external_body]
fn script_address_text(script: &Vec<u8>) -> (r: Option<String>)
    ensures
        match r {
            Some(t) => address_text_of_script(script@) == Some(t@),
            None => address_text_of_script(script@) is None,
        },
{
    let script = bitcoin::Script::from_bytes(script.as_slice());
    match bitcoin::Address::from_script(script, bitcoin::Network::Regtest) {
        Ok(a) => Some(a.to_string()),
        Err(_) => None,
    }
}

/// Relies on address parsing (`FromStr` for `bitcoin::Address`) and on
/// `bitcoin::Address::is_valid_for_network`: together they decide, from the
/// text alone, whether it names an address usable on the fixed network.
#[verifier::external_body]
fn text_is_network_address(text: &String) -> (b: bool)
    ensures
        b == is_network_address_text(text@),
{
    match text.parse::<bitcoin::Address<bitcoin::address::NetworkUnchecked>>() {
        Ok(a) => a.is_valid_for_network(bitcoin::Network::Regtest),
        Err(_) => false,
    }
}

/// A destination on the configured network, held as its canonical text.
#[derive(Debug)]
pub struct Address {
    text: String,
}

impl View for Address {
    type V = Seq<char>;

    closed spec fn view(&self) -> Seq<char> {
        self.text@
    }
}

impl Address {
    /// Wrap address text without validating it. Reconstruction uses this
    /// for text the node's own data produced; callers holding text of
    /// unknown provenance validate it with [`validated_address`] instead.
    pub fn from_text(text: String) -> (a: Address)
        ensures
            a@ == text@,
    {
        Address { text }
    }

    /// The canonical text of this address.
    pub fn text(&self) -> (t: &String)
        ensures
            t@ == self@,
    {
        &self.text
    }

    /// Structural equality: two addresses are the same destination exactly
    /// when their canonical texts agree.
    pub fn same_as(&self, other: &Address) -> (b: bool)
        ensures
            b == (self@ == other@),
    {
        self.text.eq(&other.text)
    }

    /// An independent copy of this address.
    pub fn duplicate(&self) -> (a: Address)
        ensures
            a@ == self@,
    {
        Address { text: self.text.clone() }
    }
}

/// Accept address text only if it denotes an address on the configured
/// network; anything else is a fatal validation error, never coerced.
pub fn validated_address(text: String) -> (r: Result<Address, CoreError>)
    ensures
        r is Ok <==> is_network_address_text(text@),
        r matches Ok(a) ==> a@ == text@,
        r matches Err(e) ==> e == CoreError::WrongNetwork,
{
    if text_is_network_address(&text) {
        Ok(Address { text })
    } else {
        Err(CoreError::WrongNetwork)
    }
}

/// Reconstruct the address a locking script pays to. A script without an
/// address form on the configured network is a fatal reconstruction error;
/// no fallback value is invented.
pub fn address_from_script(script: &Vec<u8>) -> (r: Result<Address, CoreError>)
    ensures
        r is Ok <==> address_text_of_script(script@) is Some,
        r matches Ok(a) ==> Some(a@) == address_text_of_script(script@),
        r matches Err(e) ==> e == CoreError::NonStandardScript,
{
    match script_address_text(script) {
        Some(text) => Ok(Address { text }),
        None => Err(CoreError::NonStandardScript),
    }
}

} // verus!
