//! Addresses of entry points, each kept with the name and the context it was
//! judged for, and never null.

use vstd::prelude::*;
use crate::error::Error;
use crate::symbol::{is_well_formed_name, well_formed_name, Symbol};

verus! {

/// The address of an entry point of the driver, with the name and the
/// context that it was judged for. The address is never null and the name is
/// well formed: `resolved` makes no other.
#[derive(Debug)]
pub struct FunctionAddress {
    address: usize,
    context: usize,
    name: Vec<u8>,
}

/// Why a resolver's answer gives no function address, if it gives none: the
/// name was malformed, or the answer was the null address.
pub open spec fn refusal(name: Seq<u8>, address: usize) -> Option<Error> {
    if !well_formed_name(name) {
        Some(Error::MalformedName)
    } else if address == 0 {
        Some(Error::SymbolNotFound)
    } else {
        None
    }
}

/// Every answer of the resolver is an address: none is null.
pub open spec fn complete(answers: Seq<usize>) -> bool {
    forall|i: int| 0 <= i < answers.len() ==> answers[i] != 0
}

/// `result` is what the resolver's answer `address` for `name` under
/// `context` comes to: the refusal, or the function at that address, with the
/// name and the context kept beside it.
pub open spec fn judged(
    result: Result<FunctionAddress, Error>,
    context: usize,
    name: Seq<u8>,
    address: usize,
) -> bool {
    match refusal(name, address) {
        Some(error) => result == Err::<FunctionAddress, Error>(error),
        None => result matches Ok(function) && function.address_spec() == address
            && function.context_spec() == context && function.name_spec() == name,
    }
}

impl FunctionAddress {
    #[verifier::type_invariant]
    spec fn confirmed(&self) -> bool {
        self.address != 0 && well_formed_name(self.name@)
    }

    /// The address, as a number.
    pub closed spec fn address_spec(&self) -> usize {
        self.address
    }

    /// The context that the address was judged for; zero for the null
    /// context.
    pub closed spec fn context_spec(&self) -> usize {
        self.context
    }

    /// The name that the address was judged for.
    pub closed spec fn name_spec(&self) -> Seq<u8> {
        self.name@
    }

    /// The address was judged for the name of `symbol`.
    pub open spec fn symbol_is(&self, symbol: Symbol) -> bool {
        self.name_spec() == symbol.name_spec()
    }

    /// The address was judged for `symbol` under `context`.
    pub open spec fn serves(&self, symbol: Symbol, context: usize) -> bool {
        self.symbol_is(symbol) && self.context_spec() == context
    }

    /// Judges the resolver's answer `address` for `name` under `context`. A
    /// null answer is never taken for a function.
    pub fn resolved(context: usize, name: &[u8], address: usize) -> (result: Result<
        FunctionAddress,
        Error,
    >)
        ensures
            judged(result, context, name@, address),
    {
        if !is_well_formed_name(name) {
            return Err(Error::MalformedName);
        }
        if address == 0 {
            return Err(Error::SymbolNotFound);
        }
        Ok(FunctionAddress { address, context, name: vstd::slice::slice_to_vec(name) })
    }

    /// The address to call; never null.
    pub fn address(&self) -> (address: usize)
        ensures
            address == self.address_spec(),
            address != 0,
    {
        proof {
            use_type_invariant(self);
        }
        self.address
    }

    /// The context that the address was judged for.
    pub fn context(&self) -> (context: usize)
        ensures
            context == self.context_spec(),
    {
        self.context
    }

    /// The name that the address was judged for, zero byte included.
    pub fn name(&self) -> (name: &Vec<u8>)
        ensures
            name@ == self.name_spec(),
            well_formed_name(name@),
    {
        proof {
            use_type_invariant(self);
        }
        &self.name
    }
}

/// A null answer gives no function: for every well-formed name it comes to
/// `SymbolNotFound`, and whatever is accepted holds the address that the
/// resolver gave, which is not null.
pub proof fn lemma_null_answer_not_found(
    result: Result<FunctionAddress, Error>,
    context: usize,
    name: Seq<u8>,
    address: usize,
)
    requires
        well_formed_name(name),
        judged(result, context, name, address),
    ensures
        address == 0 ==> result == Err::<FunctionAddress, Error>(Error::SymbolNotFound),
        result matches Ok(function) ==> function.address_spec() == address && address != 0,
        result matches Err(error) ==> error == Error::SymbolNotFound && address == 0,
{
}

} // verus!
