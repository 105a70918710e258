//! How a session reaches the network (`dwAccessType` of `InternetOpen`).

use vstd::prelude::*;

verus! {

/// How a session reaches the network.
///
/// The variants carry no discriminants: take the `dwAccessType` number with
/// [`InternetOpenType::code`]. Never use `as u32`, which gives the variant's
/// position, not its number (`Proxy as u32` is not `3`).
#[derive(Clone, Copy, Debug, PartialEq, Eq, Structural)]
pub enum InternetOpenType {
    /// Retrieves the proxy or direct configuration from the registry.
    Preconfig,
    /// Resolves all host names locally.
    Direct,
    /// Use Proxy
    Proxy,
    /// PRECONFIG without INS
    PreconfigWithNoAutoproxy,
}

impl InternetOpenType {
    /// The `DWORD` that `InternetOpen` takes for this access type.
    pub open spec fn spec_code(self) -> u32 {
        match self {
            InternetOpenType::Preconfig => 0,
            InternetOpenType::Direct => 1,
            InternetOpenType::Proxy => 3,
            InternetOpenType::PreconfigWithNoAutoproxy => 4,
        }
    }

    /// The `DWORD` that `InternetOpen` takes for this access type.
    pub fn code(&self) -> (c: u32)
        ensures
            c == self.spec_code(),
    {
        match self {
            InternetOpenType::Preconfig => 0,
            InternetOpenType::Direct => 1,
            InternetOpenType::Proxy => 3,
            InternetOpenType::PreconfigWithNoAutoproxy => 4,
        }
    }
}

/// The number `InternetOpen` takes for each access type (wininet.h
/// `INTERNET_OPEN_TYPE_*`).
pub proof fn lemma_open_type_numbers()
    ensures
        InternetOpenType::Preconfig.spec_code() == 0,
        InternetOpenType::Direct.spec_code() == 1,
        InternetOpenType::Proxy.spec_code() == 3,
        InternetOpenType::PreconfigWithNoAutoproxy.spec_code() == 4,
{
}

/// Two access types with the same code are the same access type.
pub proof fn lemma_open_type_code_injective(a: InternetOpenType, b: InternetOpenType)
    ensures
        a.spec_code() == b.spec_code() ==> a == b,
{
}

} // verus!
