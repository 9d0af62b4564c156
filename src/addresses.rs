use vstd::prelude::*;
use vstd::string::StringExecFns;

verus! {

/// A human readable address.
#[derive(Clone, Debug, PartialEq, Eq)]
pub struct Addr {
    inner: String,
}

impl View for Addr {
    type V = Seq<char>;

    closed spec fn view(&self) -> Seq<char> {
        self.inner@
    }
}

impl Addr {
    /// Takes `input` as an address without asking the host.
    pub fn unchecked(input: &str) -> (r: Addr)
        ensures
            r@ == input@,
    {
        Addr { inner: <String as StringExecFns>::from_str(input) }
    }

    pub fn from_string(inner: String) -> (r: Addr)
        ensures
            r@ == inner@,
    {
        Addr { inner }
    }

    pub fn as_str(&self) -> (r: &str)
        ensures
            r@ == self@,
    {
        self.inner.as_str()
    }
}

/// An address in the binary form that the chain stores.
#[derive(Clone, Debug, PartialEq, Eq)]
pub struct CanonicalAddr {
    bytes: Vec<u8>,
}

impl View for CanonicalAddr {
    type V = Seq<u8>;

    closed spec fn view(&self) -> Seq<u8> {
        self.bytes@
    }
}

impl CanonicalAddr {
    pub fn new(bytes: Vec<u8>) -> (r: CanonicalAddr)
        ensures
            r@ == bytes@,
    {
        CanonicalAddr { bytes }
    }

    pub fn as_slice(&self) -> (r: &[u8])
        ensures
            r@ == self@,
    {
        self.bytes.as_slice()
    }
}

} // verus!
