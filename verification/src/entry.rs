//! The root of the binding: the library loaded and its global entry points
//! resolved. Contexts are made from here.

use vstd::prelude::*;
use std::rc::Rc;
use crate::driver::{Driver, Reply};
use crate::enumeration::{
    asked, enumerate, enumerated, lemma_enumerated_outcomes, lemma_enumerated_weaker,
    CountedQuery,
};
use crate::error::Error;
use crate::function::{complete, FunctionAddress};
use crate::instance::Instance;
use crate::library::{Library, DEFAULT_LIBRARY};
use crate::protocol::enumeration_failure;
use crate::records::{ExtensionProperties, InstanceCreateInfo, LayerProperties};
use crate::symbol::{terminate, terminated, well_formed_name, Symbol};
use crate::text::storable;

verus! {

/// How many entry points an entry needs.
pub const ENTRY_SYMBOLS: usize = 3;

/// The entry point whose answer stands at `index` among the answers that an
/// entry is assembled from.
pub open spec fn entry_symbol(index: int) -> Symbol {
    if index == 0 {
        Symbol::CreateInstance
    } else if index == 1 {
        Symbol::EnumerateInstanceExtensionProperties
    } else {
        Symbol::EnumerateInstanceLayerProperties
    }
}

/// What creating a context came to, going by the status that the driver
/// returned and the context that it wrote: the context, or why there is none.
pub open spec fn creation(status: i32, context: usize) -> Result<usize, Error> {
    match crate::vk::Result::of_code(status as int) {
        None => Err(Error::UnknownStatus(status)),
        Some(crate::vk::Result::Success) => if context == 0 {
            Err(Error::NullContext)
        } else {
            Ok(context)
        },
        Some(refusal) => Err(Error::ContextCreationFailed(refusal)),
    }
}

/// Judges the driver's answer to a request to create a context. Nothing but
/// success with a context that is not null gives a context.
pub fn created(status: i32, context: usize) -> (result: Result<usize, Error>)
    ensures
        result == creation(status, context),
{
    match crate::vk::Result::from_raw(status) {
        None => Err(Error::UnknownStatus(status)),
        Some(crate::vk::Result::Success) => if context == 0 {
            Err(Error::NullContext)
        } else {
            Ok(context)
        },
        Some(refusal) => Err(Error::ContextCreationFailed(refusal)),
    }
}

/// The global entry points, all resolved under the null context.
#[derive(Debug)]
pub struct EntryFunctions {
    create_instance: FunctionAddress,
    enumerate_instance_extension_properties: FunctionAddress,
    enumerate_instance_layer_properties: FunctionAddress,
}

impl EntryFunctions {
    #[verifier::type_invariant]
    spec fn scoped(&self) -> bool {
        &&& self.create_instance.serves(Symbol::CreateInstance, 0)
        &&& self.enumerate_instance_extension_properties.serves(
            Symbol::EnumerateInstanceExtensionProperties,
            0,
        )
        &&& self.enumerate_instance_layer_properties.serves(
            Symbol::EnumerateInstanceLayerProperties,
            0,
        )
    }

    /// The entry point that creates a context.
    pub closed spec fn create_instance_spec(&self) -> FunctionAddress {
        self.create_instance
    }

    /// The entry point of the extension query.
    pub closed spec fn enumerate_instance_extension_properties_spec(&self) -> FunctionAddress {
        self.enumerate_instance_extension_properties
    }

    /// The entry point of the layer query.
    pub closed spec fn enumerate_instance_layer_properties_spec(&self) -> FunctionAddress {
        self.enumerate_instance_layer_properties
    }

    /// The three addresses, in the order of `entry_symbol`.
    pub open spec fn addresses(&self) -> Seq<usize> {
        seq![
            self.create_instance_spec().address_spec(),
            self.enumerate_instance_extension_properties_spec().address_spec(),
            self.enumerate_instance_layer_properties_spec().address_spec(),
        ]
    }

    /// Assembles the global entry points from the resolver's answers for
    /// them under the null context, in the order of `entry_symbol`. With one
    /// answer null there is no entry.
    pub fn assemble(answers: [usize; 3]) -> (result: Result<EntryFunctions, Error>)
        ensures
            complete(answers@) ==> (result matches Ok(functions) && functions.addresses()
                == answers@),
            !complete(answers@) ==> result == Err::<EntryFunctions, Error>(Error::SymbolNotFound),
    {
        let create = FunctionAddress::resolved(
            0,
            Symbol::CreateInstance.name().as_slice(),
            answers[0],
        );
        let extensions = FunctionAddress::resolved(
            0,
            Symbol::EnumerateInstanceExtensionProperties.name().as_slice(),
            answers[1],
        );
        let layers = FunctionAddress::resolved(
            0,
            Symbol::EnumerateInstanceLayerProperties.name().as_slice(),
            answers[2],
        );
        match (create, extensions, layers) {
            (
                Ok(create_instance),
                Ok(enumerate_instance_extension_properties),
                Ok(enumerate_instance_layer_properties),
            ) => {
                let functions = EntryFunctions {
                    create_instance,
                    enumerate_instance_extension_properties,
                    enumerate_instance_layer_properties,
                };
                assert(functions.addresses() =~= answers@);
                Ok(functions)
            },
            _ => Err(Error::SymbolNotFound),
        }
    }

    pub fn create_instance(&self) -> (function: &FunctionAddress)
        ensures
            *function == self.create_instance_spec(),
            function.serves(Symbol::CreateInstance, 0),
    {
        proof {
            use_type_invariant(self);
        }
        &self.create_instance
    }

    pub fn enumerate_instance_extension_properties(&self) -> (function: &FunctionAddress)
        ensures
            *function == self.enumerate_instance_extension_properties_spec(),
            function.serves(Symbol::EnumerateInstanceExtensionProperties, 0),
    {
        proof {
            use_type_invariant(self);
        }
        &self.enumerate_instance_extension_properties
    }

    pub fn enumerate_instance_layer_properties(&self) -> (function: &FunctionAddress)
        ensures
            *function == self.enumerate_instance_layer_properties_spec(),
            function.serves(Symbol::EnumerateInstanceLayerProperties, 0),
    {
        proof {
            use_type_invariant(self);
        }
        &self.enumerate_instance_layer_properties
    }
}

/// The layer query, as the enumeration protocol calls it.
pub struct LayerQuery<'a, D: Driver> {
    driver: &'a D,
    function: &'a FunctionAddress,
}

impl<'a, D: Driver> LayerQuery<'a, D> {
    #[verifier::type_invariant]
    spec fn scoped(&self) -> bool {
        self.function.serves(Symbol::EnumerateInstanceLayerProperties, 0)
    }

    /// The driver that is called.
    pub closed spec fn driver_spec(&self) -> &'a D {
        self.driver
    }

    /// The entry point that is called.
    pub closed spec fn function_spec(&self) -> &'a FunctionAddress {
        self.function
    }
}

impl<'a, D: Driver> CountedQuery<LayerProperties> for LayerQuery<'a, D> {
    fn ask(&self, capacity: Option<u32>) -> (reply: Reply<LayerProperties>)
        ensures
            D::enumerate_instance_layer_properties.ensures(
                (self.driver_spec(), self.function_spec(), capacity),
                reply,
            ),
    {
        proof {
            use_type_invariant(self);
        }
        self.driver.enumerate_instance_layer_properties(self.function, capacity)
    }
}

/// The extension query for one layer, or for the driver itself, as the
/// enumeration protocol calls it.
pub struct ExtensionQuery<'a, D: Driver> {
    driver: &'a D,
    function: &'a FunctionAddress,
    layer_name: Option<&'a Vec<u8>>,
}

impl<'a, D: Driver> ExtensionQuery<'a, D> {
    #[verifier::type_invariant]
    spec fn scoped(&self) -> bool {
        &&& self.function.serves(Symbol::EnumerateInstanceExtensionProperties, 0)
        &&& self.layer_name matches Some(name) ==> well_formed_name(name@)
    }

    /// The driver that is called.
    pub closed spec fn driver_spec(&self) -> &'a D {
        self.driver
    }

    /// The entry point that is called.
    pub closed spec fn function_spec(&self) -> &'a FunctionAddress {
        self.function
    }

    /// The name that is handed over, with the zero byte that ends it.
    pub closed spec fn layer_name_spec(&self) -> Option<&'a Vec<u8>> {
        self.layer_name
    }
}

impl<'a, D: Driver> CountedQuery<ExtensionProperties> for ExtensionQuery<'a, D> {
    fn ask(&self, capacity: Option<u32>) -> (reply: Reply<ExtensionProperties>)
        ensures
            D::enumerate_instance_extension_properties.ensures(
                (self.driver_spec(), self.function_spec(), self.layer_name_spec(), capacity),
                reply,
            ),
    {
        proof {
            use_type_invariant(self);
        }
        self.driver.enumerate_instance_extension_properties(
            self.function,
            self.layer_name,
            capacity,
        )
    }
}

/// The name that is handed to the driver for a layer: none for none, else
/// the text with the zero byte that ends it.
pub open spec fn handed_over(name: Option<&Vec<u8>>, layer_name: Option<Seq<u8>>) -> bool {
    match (name, layer_name) {
        (None, None) => true,
        (Some(name), Some(text)) => name@ == terminated(text),
        _ => false,
    }
}

/// The driver, loaded, with its global entry points resolved.
pub struct Entry<D: Driver> {
    library: Rc<Library<D>>,
    functions: EntryFunctions,
}

impl<D: Driver> Entry<D> {
    /// The library that the entry holds.
    pub closed spec fn library_spec(&self) -> Library<D> {
        *self.library
    }

    /// The global entry points.
    pub closed spec fn functions_spec(&self) -> EntryFunctions {
        self.functions
    }

    /// The driver that the entry calls.
    pub open spec fn driver_spec(&self) -> D {
        self.library_spec().driver_spec()
    }

    /// The addresses of the three entry points, in the order of
    /// `entry_symbol`.
    pub open spec fn addresses(&self) -> Seq<usize> {
        self.functions_spec().addresses()
    }

    /// `result` is what making an entry of `library` comes to when the
    /// resolver gives `answers` for the three entry points under the null
    /// context: the judgement of `EntryFunctions::assemble` on them.
    pub open spec fn assembled_from(
        library: Library<D>,
        answers: Seq<usize>,
        result: Result<Entry<D>, Error>,
    ) -> bool {
        &&& answers.len() == ENTRY_SYMBOLS
        &&& forall|i: int|
            0 <= i < ENTRY_SYMBOLS ==> library.answers(
                0,
                entry_symbol(i).name_spec(),
                #[trigger] answers[i],
            )
        &&& if complete(answers) {
            result matches Ok(entry) && entry.library_spec() == library && entry.addresses()
                == answers
        } else {
            result == Err::<Entry<D>, Error>(Error::SymbolNotFound)
        }
    }

    /// `result` is what making an entry of `library` may come to: what it
    /// comes to from answers that the resolver may give.
    pub open spec fn assembled(library: Library<D>, result: Result<Entry<D>, Error>) -> bool {
        exists|answers: Seq<usize>| #[trigger] Self::assembled_from(library, answers, result)
    }

    /// `result` is what loading the default library through `driver` and
    /// making an entry of it may come to.
    pub open spec fn opened(driver: D, result: Result<Entry<D>, Error>) -> bool {
        exists|loaded: Result<Library<D>, Error>| #[trigger]
            Library::loads(driver, DEFAULT_LIBRARY, loaded) && match loaded {
                Ok(library) => Self::assembled(library, result),
                Err(error) => result == Err::<Entry<D>, Error>(error),
            }
    }

    /// `result` is what creating a context may come to: the judgement of
    /// `created` on what the driver answers to the descriptor that asks for
    /// nothing, and for a context, what `Instance::new` makes of it.
    pub open spec fn creates(&self, result: Result<Instance<D>, Error>) -> bool {
        exists|status: i32, context: usize|
            {
                &&& #[trigger] D::create_instance.ensures(
                    (
                        &self.driver_spec(),
                        &self.functions_spec().create_instance_spec(),
                        &InstanceCreateInfo::minimal_spec(),
                    ),
                    (status, context),
                )
                &&& match creation(status, context) {
                    Ok(context) => Instance::made(self.library_spec(), context, result),
                    Err(error) => result == Err::<Instance<D>, Error>(error),
                }
            }
    }

    /// What the driver may answer to one call of the layer query.
    pub open spec fn layer_answers(&self) -> spec_fn(Option<u32>, Reply<LayerProperties>) -> bool {
        |capacity: Option<u32>, reply: Reply<LayerProperties>|
            D::enumerate_instance_layer_properties.ensures(
                (
                    &self.driver_spec(),
                    &self.functions_spec().enumerate_instance_layer_properties_spec(),
                    capacity,
                ),
                reply,
            )
    }

    /// What the driver may answer to one call of the extension query for
    /// `layer_name`.
    pub open spec fn extension_answers(&self, layer_name: Option<Seq<u8>>) -> spec_fn(
        Option<u32>,
        Reply<ExtensionProperties>,
    ) -> bool {
        |capacity: Option<u32>, reply: Reply<ExtensionProperties>|
            exists|name: Option<&Vec<u8>>|
                handed_over(name, layer_name)
                    && #[trigger] D::enumerate_instance_extension_properties.ensures(
                    (
                        &self.driver_spec(),
                        &self.functions_spec().enumerate_instance_extension_properties_spec(),
                        name,
                        capacity,
                    ),
                    reply,
                )
    }

    /// Loads the default library through `driver` and resolves the global
    /// entry points.
    pub fn new(driver: D) -> (result: Result<Entry<D>, Error>)
        ensures
            Self::opened(driver, result),
    {
        let loaded = Library::load(driver, None);
        match loaded {
            Ok(library) => {
                let result = Entry::with_library(library);
                assert(Library::loads(driver, DEFAULT_LIBRARY, loaded));
                result
            },
            Err(error) => {
                assert(Library::loads(driver, DEFAULT_LIBRARY, loaded));
                Err(error)
            },
        }
    }

    /// Resolves the global entry points of a library that is loaded, all
    /// three under the null context.
    pub fn with_library(library: Library<D>) -> (result: Result<Entry<D>, Error>)
        ensures
            Self::assembled(library, result),
    {
        let answers = [
            library.ask(Symbol::CreateInstance, 0),
            library.ask(Symbol::EnumerateInstanceExtensionProperties, 0),
            library.ask(Symbol::EnumerateInstanceLayerProperties, 0),
        ];
        proof {
            assert forall|i: int| 0 <= i < ENTRY_SYMBOLS implies library.answers(
                0,
                entry_symbol(i).name_spec(),
                #[trigger] answers@[i],
            ) by {
                if i == 0 {
                } else if i == 1 {
                } else {
                }
            }
        }
        let result = match EntryFunctions::assemble(answers) {
            Ok(functions) => {
                let entry = Entry { library: Rc::new(library), functions };
                assert(entry.addresses() == answers@);
                Ok(entry)
            },
            Err(error) => Err(error),
        };
        assert(Self::assembled_from(library, answers@, result));
        result
    }

    /// Creates a context with the descriptor that asks for nothing, and
    /// resolves the entry points of that context.
    pub fn create_instance(&self) -> (result: Result<Instance<D>, Error>)
        ensures
            self.creates(result),
    {
        let info = InstanceCreateInfo::minimal();
        let (status, context) = self.library.driver().create_instance(
            self.functions.create_instance(),
            &info,
        );
        assert(D::create_instance.ensures(
            (
                &self.driver_spec(),
                &self.functions_spec().create_instance_spec(),
                &InstanceCreateInfo::minimal_spec(),
            ),
            (status, context),
        ));
        match created(status, context) {
            Ok(context) => Instance::new(&self.library, context),
            Err(error) => Err(error),
        }
    }

    /// The extensions of the layer named, or of the driver itself where
    /// `layer_name` is none, in the driver's order. The name is given without
    /// a zero byte and handed to the driver with one at its end; a name that
    /// holds a zero byte is refused.
    pub fn enumerate_instance_extension_properties(&self, layer_name: Option<&[u8]>) -> (result:
        Result<Vec<ExtensionProperties>, Error>)
        ensures
            match layer_name {
                Some(name) if !storable(name@) => result == Err::<
                    Vec<ExtensionProperties>,
                    Error,
                >(Error::MalformedName),
                Some(name) => enumerated(self.extension_answers(Some(name@)), result),
                None => enumerated(self.extension_answers(None), result),
            },
            result matches Ok(extensions) ==> extensions@.len() <= u32::MAX,
            result matches Err(error) ==> error == Error::MalformedName || enumeration_failure(
                error,
            ),
    {
        match layer_name {
            Some(text) => match terminate(text) {
                Some(name) => {
                    let query = ExtensionQuery {
                        driver: self.library.driver(),
                        function: self.functions.enumerate_instance_extension_properties(),
                        layer_name: Some(&name),
                    };
                    let result = enumerate(&query);
                    proof {
                        let answered = asked(&query);
                        let weaker = self.extension_answers(Some(text@));
                        assert forall|capacity: Option<u32>, reply: Reply<ExtensionProperties>|
                            #[trigger] answered(capacity, reply) implies weaker(
                            capacity,
                            reply,
                        ) by {
                            assert(handed_over(query.layer_name_spec(), Some(text@)));
                        }
                        lemma_enumerated_weaker(answered, weaker, result);
                        lemma_enumerated_outcomes(weaker, result);
                    }
                    result
                },
                None => Err(Error::MalformedName),
            },
            None => {
                let query = ExtensionQuery {
                    driver: self.library.driver(),
                    function: self.functions.enumerate_instance_extension_properties(),
                    layer_name: None,
                };
                let result = enumerate(&query);
                proof {
                    let answered = asked(&query);
                    let weaker = self.extension_answers(None);
                    assert forall|capacity: Option<u32>, reply: Reply<ExtensionProperties>|
                        #[trigger] answered(capacity, reply) implies weaker(capacity, reply) by {
                        assert(handed_over(query.layer_name_spec(), None));
                    }
                    lemma_enumerated_weaker(answered, weaker, result);
                    lemma_enumerated_outcomes(weaker, result);
                }
                result
            },
        }
    }

    /// The layers that the driver knows, in the driver's order.
    pub fn enumerate_instance_layer_properties(&self) -> (result: Result<
        Vec<LayerProperties>,
        Error,
    >)
        ensures
            enumerated(self.layer_answers(), result),
            result matches Ok(layers) ==> layers@.len() <= u32::MAX,
            result matches Err(error) ==> enumeration_failure(error),
    {
        let query = LayerQuery {
            driver: self.library.driver(),
            function: self.functions.enumerate_instance_layer_properties(),
        };
        let result = enumerate(&query);
        proof {
            lemma_enumerated_weaker(asked(&query), self.layer_answers(), result);
            lemma_enumerated_outcomes(self.layer_answers(), result);
        }
        result
    }
}

} // verus!
