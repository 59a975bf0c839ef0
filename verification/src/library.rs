//! The loaded image of the driver library and the resolver found in it. Every
//! other entry point is resolved through that one.

use vstd::prelude::*;
use std::rc::Rc;
use crate::driver::Driver;
use crate::error::Error;
use crate::function::{judged, FunctionAddress};
use crate::symbol::{is_well_formed_name, well_formed_name, Symbol};

verus! {

/// The image that is loaded where the caller names none.
pub const DEFAULT_LIBRARY: &'static str = "vulkan-1.dll";

/// Why loading fails, if it does: the image could not be mapped, or it was
/// mapped and exports no resolver at `address`.
pub open spec fn load_failure(mapped: bool, address: usize) -> Option<Error> {
    if !mapped {
        Some(Error::LibraryNotFound)
    } else if address == 0 {
        Some(Error::BootstrapSymbolMissing)
    } else {
        None
    }
}

/// Judges an attempt to load: whether the image was mapped, and the address
/// that it exports for the resolver.
pub fn bootstrap(mapped: bool, address: usize) -> (result: Result<FunctionAddress, Error>)
    ensures
        match load_failure(mapped, address) {
            Some(error) => result == Err::<FunctionAddress, Error>(error),
            None => result matches Ok(resolver) && resolver.address_spec() == address
                && resolver.serves(Symbol::GetInstanceProcAddr, 0),
        },
{
    if !mapped {
        return Err(Error::LibraryNotFound);
    }
    let name = Symbol::GetInstanceProcAddr.name();
    match FunctionAddress::resolved(0, name.as_slice(), address) {
        Ok(resolver) => Ok(resolver),
        Err(_) => Err(Error::BootstrapSymbolMissing),
    }
}

/// The path that is loaded for `path`: the one named, or the default.
pub open spec fn path_of(path: Option<&str>) -> &str {
    match path {
        Some(path) => path,
        None => DEFAULT_LIBRARY,
    }
}

/// The loaded image, owned through its driver, and the address of the
/// resolver that the image exports. The image stays mapped for as long as
/// this value lives.
pub struct Library<D: Driver> {
    driver: D,
    resolver: FunctionAddress,
}

impl<D: Driver> Library<D> {
    #[verifier::type_invariant]
    spec fn bootstrapped(&self) -> bool {
        self.resolver.serves(Symbol::GetInstanceProcAddr, 0)
    }

    /// The driver that holds the image.
    pub closed spec fn driver_spec(&self) -> D {
        self.driver
    }

    /// The resolver that the image exports.
    pub closed spec fn resolver_spec(&self) -> FunctionAddress {
        self.resolver
    }

    /// `driver` may export `address` as its resolver once it has mapped an
    /// image.
    pub open spec fn exports(driver: D, address: usize) -> bool {
        exists|name: &[u8]|
            name@ == Symbol::GetInstanceProcAddr.name_spec() && #[trigger] D::find_symbol.ensures(
                (&driver, name),
                address,
            )
    }

    /// `result` is what loading `path` through `driver` may come to: the
    /// judgement of `bootstrap` on what the driver says of the image and of
    /// the resolver in it. Of an image that is not mapped the resolver counts
    /// as missing.
    pub open spec fn loads(driver: D, path: &str, result: Result<Library<D>, Error>) -> bool {
        exists|mapped: bool, address: usize|
            {
                &&& #[trigger] D::map_image.ensures((&driver, path), mapped)
                &&& if mapped {
                    Self::exports(driver, address)
                } else {
                    address == 0
                }
                &&& match #[trigger] load_failure(mapped, address) {
                    Some(error) => result == Err::<Library<D>, Error>(error),
                    None => result matches Ok(library) && library.driver_spec() == driver
                        && library.resolver_spec().address_spec() == address
                        && library.resolver_spec().serves(Symbol::GetInstanceProcAddr, 0),
                }
            }
    }

    /// The resolver may answer `address` when asked for `name` under
    /// `context`.
    pub open spec fn answers(&self, context: usize, name: Seq<u8>, address: usize) -> bool {
        exists|bytes: &[u8]|
            bytes@ == name && #[trigger] D::get_instance_proc_addr.ensures(
                (&self.driver_spec(), &self.resolver_spec(), context, bytes),
                address,
            )
    }

    /// `result` is what resolving `name` under `context` may come to: the
    /// refusal of a malformed name, or the judgement of
    /// `FunctionAddress::resolved` on an answer of the resolver.
    pub open spec fn resolves(
        &self,
        context: usize,
        name: Seq<u8>,
        result: Result<FunctionAddress, Error>,
    ) -> bool {
        if well_formed_name(name) {
            exists|address: usize| #[trigger]
                self.answers(context, name, address) && judged(result, context, name, address)
        } else {
            result == Err::<FunctionAddress, Error>(Error::MalformedName)
        }
    }

    /// Maps the image at `path`, or the default image where `path` is none,
    /// and finds the resolver in it.
    pub fn load(driver: D, path: Option<&str>) -> (result: Result<Library<D>, Error>)
        ensures
            Self::loads(driver, path_of(path), result),
    {
        let path = match path {
            Some(path) => path,
            None => DEFAULT_LIBRARY,
        };
        let mapped = driver.map_image(path);
        let address = if mapped {
            let name = Symbol::GetInstanceProcAddr.name();
            let address = driver.find_symbol(name.as_slice());
            assert(Self::exports(driver, address));
            address
        } else {
            0
        };
        match bootstrap(mapped, address) {
            Ok(resolver) => {
                let library = Library { driver, resolver };
                assert(load_failure(mapped, address).is_none());
                Ok(library)
            },
            Err(error) => {
                assert(load_failure(mapped, address) == Some(error));
                Err(error)
            },
        }
    }

    /// The driver that holds the image.
    pub fn driver(&self) -> (driver: &D)
        ensures
            *driver == self.driver_spec(),
    {
        &self.driver
    }

    /// The address of the resolver; never null.
    pub fn resolver(&self) -> (resolver: &FunctionAddress)
        ensures
            *resolver == self.resolver_spec(),
            resolver.serves(Symbol::GetInstanceProcAddr, 0),
    {
        proof {
            use_type_invariant(self);
        }
        &self.resolver
    }

    /// Asks the resolver for `name` under `context`. A malformed name is
    /// refused without asking; a null answer is `SymbolNotFound`.
    pub fn resolve(&self, context: usize, name: &[u8]) -> (result: Result<FunctionAddress, Error>)
        ensures
            self.resolves(context, name@, result),
    {
        if !is_well_formed_name(name) {
            return Err(Error::MalformedName);
        }
        proof {
            use_type_invariant(self);
        }
        let address = self.driver.get_instance_proc_addr(&self.resolver, context, name);
        assert(self.answers(context, name@, address));
        FunctionAddress::resolved(context, name, address)
    }

    /// The resolver's answer for one of the binding's own entry points under
    /// `context`: an address, or zero where the resolver knows none.
    pub fn ask(&self, symbol: Symbol, context: usize) -> (address: usize)
        ensures
            self.answers(context, symbol.name_spec(), address),
    {
        proof {
            use_type_invariant(self);
        }
        let name = symbol.name();
        self.driver.get_instance_proc_addr(&self.resolver, context, name.as_slice())
    }
}

/// A name that the resolver does not know is not resolved: where the
/// resolver can only answer a well-formed name with the null address,
/// resolving it comes to `SymbolNotFound`, never to a function.
pub proof fn lemma_unknown_symbol_not_found<D: Driver>(
    library: Library<D>,
    context: usize,
    name: Seq<u8>,
    result: Result<FunctionAddress, Error>,
)
    requires
        well_formed_name(name),
        forall|address: usize| #[trigger] library.answers(context, name, address) ==> address == 0,
        library.resolves(context, name, result),
    ensures
        result == Err::<FunctionAddress, Error>(Error::SymbolNotFound),
{
}

/// Whatever the resolver answers, no function is ever made of the null
/// address, and a malformed name is refused whatever the resolver knows.
pub proof fn lemma_resolved_is_not_null<D: Driver>(
    library: Library<D>,
    context: usize,
    name: Seq<u8>,
    result: Result<FunctionAddress, Error>,
)
    requires
        library.resolves(context, name, result),
    ensures
        result matches Ok(function) ==> function.address_spec() != 0 && function.context_spec()
            == context && function.name_spec() == name && library.answers(
            context,
            name,
            function.address_spec(),
        ),
        result matches Err(error) ==> error == Error::MalformedName || error
            == Error::SymbolNotFound,
        !well_formed_name(name) <==> result == Err::<FunctionAddress, Error>(Error::MalformedName),
{
}

/// `Rc::clone`: one more owner of the same library. The image stays mapped
/// until the last owner is gone.
#[verifier::external_body]
pub(crate) fn share<D: Driver>(library: &Rc<Library<D>>) -> (shared: Rc<Library<D>>)
    ensures
        shared == library,
{
    Rc::clone(library)
}

} // verus!
