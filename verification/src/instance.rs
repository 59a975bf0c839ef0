//! One context of the driver and the queries scoped to it. A context is made
//! with its five entry points resolved, or not at all. Only the first request
//! for its teardown is passed on to the driver.

use vstd::prelude::*;
use std::rc::Rc;
use crate::driver::{Driver, Filled, Reply};
use crate::enumeration::{
    asked, enumerate, enumerated, lemma_enumerated_outcomes, lemma_enumerated_weaker,
    CountedQuery,
};
use crate::error::Error;
use crate::function::{complete, FunctionAddress};
use crate::library::{share, Library};
use crate::protocol::{enumeration_failure, keep, kept, least, settle};
use crate::records::{PhysicalDeviceFeatures, PhysicalDeviceProperties, QueueFamilyProperties};
use crate::symbol::Symbol;

verus! {

/// How many entry points a context needs.
pub const INSTANCE_SYMBOLS: usize = 5;

/// The entry point whose answer stands at `index` among the answers that a
/// context is assembled from.
pub open spec fn instance_symbol(index: int) -> Symbol {
    if index == 0 {
        Symbol::DestroyInstance
    } else if index == 1 {
        Symbol::EnumeratePhysicalDevices
    } else if index == 2 {
        Symbol::GetPhysicalDeviceFeatures
    } else if index == 3 {
        Symbol::GetPhysicalDeviceProperties
    } else {
        Symbol::GetPhysicalDeviceQueueFamilyProperties
    }
}

/// Why no context can be assembled, if none can: the context is null, or the
/// resolver did not know one of the entry points.
pub open spec fn setup_failure(context: usize, answers: Seq<usize>) -> Option<Error> {
    if context == 0 {
        Some(Error::NullContext)
    } else if !complete(answers) {
        Some(Error::SymbolNotFound)
    } else {
        None
    }
}

/// Whether the native context has to be torn down because assembling failed:
/// it exists, an entry point is missing, and the teardown entry point, the
/// first of the answers, is not the missing one.
pub open spec fn teardown_owed(context: usize, answers: Seq<usize>) -> bool {
    context != 0 && !complete(answers) && answers[0] != 0
}

/// The entry points of one context, all resolved under it.
#[derive(Debug)]
pub struct InstanceFunctions {
    context: usize,
    destroy_instance: FunctionAddress,
    enumerate_physical_devices: FunctionAddress,
    get_physical_device_features: FunctionAddress,
    get_physical_device_properties: FunctionAddress,
    get_physical_device_queue_family_properties: FunctionAddress,
}

/// What assembling a context came to.
#[derive(Debug)]
pub enum Setup {
    /// Every entry point is resolved.
    Ready(InstanceFunctions),
    /// No context can be had. Where `teardown` holds the teardown entry
    /// point, the native context is owed a teardown with it.
    Abandoned { error: Error, teardown: Option<FunctionAddress> },
}

impl InstanceFunctions {
    #[verifier::type_invariant]
    spec fn scoped(&self) -> bool {
        &&& self.context != 0
        &&& self.destroy_instance.serves(Symbol::DestroyInstance, self.context)
        &&& self.enumerate_physical_devices.serves(Symbol::EnumeratePhysicalDevices, self.context)
        &&& self.get_physical_device_features.serves(
            Symbol::GetPhysicalDeviceFeatures,
            self.context,
        )
        &&& self.get_physical_device_properties.serves(
            Symbol::GetPhysicalDeviceProperties,
            self.context,
        )
        &&& self.get_physical_device_queue_family_properties.serves(
            Symbol::GetPhysicalDeviceQueueFamilyProperties,
            self.context,
        )
    }

    /// The context that the entry points were resolved under.
    pub closed spec fn context_spec(&self) -> usize {
        self.context
    }

    /// The entry point that tears the context down.
    pub closed spec fn destroy_instance_spec(&self) -> FunctionAddress {
        self.destroy_instance
    }

    /// The entry point of the device query.
    pub closed spec fn enumerate_physical_devices_spec(&self) -> FunctionAddress {
        self.enumerate_physical_devices
    }

    /// The entry point that fills in the features of a device.
    pub closed spec fn get_physical_device_features_spec(&self) -> FunctionAddress {
        self.get_physical_device_features
    }

    /// The entry point that fills in the properties of a device.
    pub closed spec fn get_physical_device_properties_spec(&self) -> FunctionAddress {
        self.get_physical_device_properties
    }

    /// The entry point of the queue-family query.
    pub closed spec fn get_physical_device_queue_family_properties_spec(&self) -> FunctionAddress {
        self.get_physical_device_queue_family_properties
    }

    /// The five addresses, in the order of `instance_symbol`.
    pub open spec fn addresses(&self) -> Seq<usize> {
        seq![
            self.destroy_instance_spec().address_spec(),
            self.enumerate_physical_devices_spec().address_spec(),
            self.get_physical_device_features_spec().address_spec(),
            self.get_physical_device_properties_spec().address_spec(),
            self.get_physical_device_queue_family_properties_spec().address_spec(),
        ]
    }

    /// Assembles the entry points of `context` from the resolver's answers
    /// for them, in the order of `instance_symbol`. With one answer null there
    /// is no context, and the teardown entry point is handed back, if it was
    /// resolved, so that the native context does not outlive the failure.
    pub fn assemble(context: usize, answers: [usize; 5]) -> (setup: Setup)
        ensures
            match setup {
                Setup::Ready(functions) => setup_failure(context, answers@).is_none()
                    && functions.context_spec() == context && functions.addresses()
                    == answers@,
                Setup::Abandoned { error, teardown } => setup_failure(context, answers@) == Some(
                    error,
                ) && teardown.is_some() == teardown_owed(context, answers@) && (
                teardown matches Some(function) ==> function.address_spec() == answers@[0]
                    && function.serves(Symbol::DestroyInstance, context)),
            },
    {
        if context == 0 {
            return Setup::Abandoned { error: Error::NullContext, teardown: None };
        }
        let destroy = FunctionAddress::resolved(
            context,
            Symbol::DestroyInstance.name().as_slice(),
            answers[0],
        );
        let devices = FunctionAddress::resolved(
            context,
            Symbol::EnumeratePhysicalDevices.name().as_slice(),
            answers[1],
        );
        let features = FunctionAddress::resolved(
            context,
            Symbol::GetPhysicalDeviceFeatures.name().as_slice(),
            answers[2],
        );
        let properties = FunctionAddress::resolved(
            context,
            Symbol::GetPhysicalDeviceProperties.name().as_slice(),
            answers[3],
        );
        let queues = FunctionAddress::resolved(
            context,
            Symbol::GetPhysicalDeviceQueueFamilyProperties.name().as_slice(),
            answers[4],
        );
        match (destroy, devices, features, properties, queues) {
            (
                Ok(destroy_instance),
                Ok(enumerate_physical_devices),
                Ok(get_physical_device_features),
                Ok(get_physical_device_properties),
                Ok(get_physical_device_queue_family_properties),
            ) => {
                let functions = InstanceFunctions {
                    context,
                    destroy_instance,
                    enumerate_physical_devices,
                    get_physical_device_features,
                    get_physical_device_properties,
                    get_physical_device_queue_family_properties,
                };
                assert(functions.addresses() =~= answers@);
                Setup::Ready(functions)
            },
            (Ok(destroy_instance), _, _, _, _) => Setup::Abandoned {
                error: Error::SymbolNotFound,
                teardown: Some(destroy_instance),
            },
            (Err(_), _, _, _, _) => Setup::Abandoned {
                error: Error::SymbolNotFound,
                teardown: None,
            },
        }
    }

    /// The context that the entry points were resolved under; never null.
    pub fn context(&self) -> (context: usize)
        ensures
            context == self.context_spec(),
            context != 0,
    {
        proof {
            use_type_invariant(self);
        }
        self.context
    }

    pub fn destroy_instance(&self) -> (function: &FunctionAddress)
        ensures
            function.serves(Symbol::DestroyInstance, self.context_spec()),
            *function == self.destroy_instance_spec(),
            self.context_spec() != 0,
    {
        proof {
            use_type_invariant(self);
        }
        &self.destroy_instance
    }

    pub fn enumerate_physical_devices(&self) -> (function: &FunctionAddress)
        ensures
            function.serves(Symbol::EnumeratePhysicalDevices, self.context_spec()),
            *function == self.enumerate_physical_devices_spec(),
            self.context_spec() != 0,
    {
        proof {
            use_type_invariant(self);
        }
        &self.enumerate_physical_devices
    }

    pub fn get_physical_device_features(&self) -> (function: &FunctionAddress)
        ensures
            function.serves(Symbol::GetPhysicalDeviceFeatures, self.context_spec()),
            *function == self.get_physical_device_features_spec(),
            self.context_spec() != 0,
    {
        proof {
            use_type_invariant(self);
        }
        &self.get_physical_device_features
    }

    pub fn get_physical_device_properties(&self) -> (function: &FunctionAddress)
        ensures
            function.serves(Symbol::GetPhysicalDeviceProperties, self.context_spec()),
            *function == self.get_physical_device_properties_spec(),
            self.context_spec() != 0,
    {
        proof {
            use_type_invariant(self);
        }
        &self.get_physical_device_properties
    }

    pub fn get_physical_device_queue_family_properties(&self) -> (function: &FunctionAddress)
        ensures
            function.serves(Symbol::GetPhysicalDeviceQueueFamilyProperties, self.context_spec()),
            *function == self.get_physical_device_queue_family_properties_spec(),
            self.context_spec() != 0,
    {
        proof {
            use_type_invariant(self);
        }
        &self.get_physical_device_queue_family_properties
    }
}

/// When the resolver knows the teardown entry point and not one of the other
/// four, assembling fails with `SymbolNotFound` and a teardown of the native
/// context is owed: `assemble` hands the teardown entry point back.
pub proof fn lemma_failed_setup_owes_teardown(context: usize, answers: Seq<usize>, missing: int)
    requires
        context != 0,
        answers.len() == INSTANCE_SYMBOLS,
        answers[0] != 0,
        1 <= missing < INSTANCE_SYMBOLS,
        answers[missing] == 0,
    ensures
        setup_failure(context, answers) == Some(Error::SymbolNotFound),
        teardown_owed(context, answers),
{
}

/// No teardown is owed for a context that was assembled, and none can be
/// owed where the teardown entry point itself is missing.
pub proof fn lemma_no_teardown_owed_otherwise(context: usize, answers: Seq<usize>)
    requires
        answers.len() == INSTANCE_SYMBOLS,
        setup_failure(context, answers).is_none() || answers[0] == 0,
    ensures
        !teardown_owed(context, answers),
{
}

/// Where a context stands: made and not torn down yet, or torn down, for
/// good.
#[derive(Clone, Copy, Debug, PartialEq, Eq, Structural)]
pub enum Lifecycle {
    Created,
    Destroyed,
}

impl Lifecycle {
    /// Whether a request for teardown in this state is to call the native
    /// teardown: only a context that is not torn down yet is owed one.
    pub open spec fn owes_teardown(self) -> bool {
        self == Lifecycle::Created
    }

    /// Takes a request for teardown: says whether the native teardown is to
    /// be called for it, and leaves the context torn down.
    pub fn request_teardown(&mut self) -> (call: bool)
        ensures
            call == old(self).owes_teardown(),
            *final(self) == Lifecycle::Destroyed,
    {
        let call = match *self {
            Lifecycle::Created => true,
            Lifecycle::Destroyed => false,
        };
        *self = Lifecycle::Destroyed;
        call
    }
}

/// The device query of one context, as the enumeration protocol calls it.
pub struct DeviceQuery<'a, D: Driver> {
    driver: &'a D,
    function: &'a FunctionAddress,
    instance: usize,
}

impl<'a, D: Driver> DeviceQuery<'a, D> {
    #[verifier::type_invariant]
    spec fn scoped(&self) -> bool {
        self.instance != 0 && self.function.serves(Symbol::EnumeratePhysicalDevices, self.instance)
    }

    /// The driver that is called.
    pub closed spec fn driver_spec(&self) -> &'a D {
        self.driver
    }

    /// The entry point that is called.
    pub closed spec fn function_spec(&self) -> &'a FunctionAddress {
        self.function
    }

    /// The context whose devices are asked for.
    pub closed spec fn instance_spec(&self) -> usize {
        self.instance
    }
}

impl<'a, D: Driver> CountedQuery<usize> for DeviceQuery<'a, D> {
    fn ask(&self, capacity: Option<u32>) -> (reply: Reply<usize>)
        ensures
            D::enumerate_physical_devices.ensures(
                (self.driver_spec(), self.function_spec(), self.instance_spec(), capacity),
                reply,
            ),
    {
        proof {
            use_type_invariant(self);
        }
        self.driver.enumerate_physical_devices(self.function, self.instance, capacity)
    }
}

/// One context of the driver. It shares the library with the entry that made
/// it, so the image stays mapped while the context lives.
pub struct Instance<D: Driver> {
    library: Rc<Library<D>>,
    functions: InstanceFunctions,
    state: Lifecycle,
}

impl<D: Driver> Instance<D> {
    /// The library that the context holds.
    pub closed spec fn library_spec(&self) -> Library<D> {
        *self.library
    }

    /// The entry points of the context.
    pub closed spec fn functions_spec(&self) -> InstanceFunctions {
        self.functions
    }

    /// Where the context stands.
    pub closed spec fn state_spec(&self) -> Lifecycle {
        self.state
    }

    /// Whether teardown was requested of the context.
    pub open spec fn destroyed_spec(&self) -> bool {
        self.state_spec() == Lifecycle::Destroyed
    }

    /// The driver that the context calls.
    pub open spec fn driver_spec(&self) -> D {
        self.library_spec().driver_spec()
    }

    /// The native context; never null.
    pub open spec fn handle_spec(&self) -> usize {
        self.functions_spec().context_spec()
    }

    /// The addresses of the five entry points, in the order of
    /// `instance_symbol`.
    pub open spec fn addresses(&self) -> Seq<usize> {
        self.functions_spec().addresses()
    }

    /// The driver was called to tear `instance` down, with the teardown entry
    /// point that the resolver gave at `address`.
    pub open spec fn torn_down(library: Library<D>, instance: usize, address: usize) -> bool {
        exists|function: FunctionAddress|
            function.address_spec() == address && function.serves(
                Symbol::DestroyInstance,
                instance,
            ) && #[trigger] D::destroy_instance.ensures(
                (&library.driver_spec(), &function, instance),
                (),
            )
    }

    /// `result` is what making a handle of the native context `instance`
    /// comes to when the resolver gives `answers` for the five entry points
    /// under that context: the judgement of `InstanceFunctions::assemble` on
    /// them. Where that judgement owes the native context a teardown, the
    /// driver was called for it.
    pub open spec fn made_from(
        library: Library<D>,
        instance: usize,
        answers: Seq<usize>,
        result: Result<Instance<D>, Error>,
    ) -> bool {
        &&& answers.len() == INSTANCE_SYMBOLS
        &&& forall|i: int|
            0 <= i < INSTANCE_SYMBOLS ==> library.answers(
                instance,
                instance_symbol(i).name_spec(),
                #[trigger] answers[i],
            )
        &&& match setup_failure(instance, answers) {
            Some(error) => result == Err::<Instance<D>, Error>(error) && (teardown_owed(
                instance,
                answers,
            ) ==> Self::torn_down(library, instance, answers[0])),
            None => result matches Ok(made) && made.library_spec() == library
                && made.handle_spec() == instance && !made.destroyed_spec() && made.addresses()
                == answers,
        }
    }

    /// `result` is what making a handle of the native context `instance` may
    /// come to: `NullContext` for the null context, else what it comes to
    /// from answers that the resolver may give.
    pub open spec fn made(library: Library<D>, instance: usize, result: Result<Instance<D>, Error>)
        -> bool {
        if instance == 0 {
            result == Err::<Instance<D>, Error>(Error::NullContext)
        } else {
            exists|answers: Seq<usize>| #[trigger]
                Self::made_from(library, instance, answers, result)
        }
    }

    /// What one request for teardown does to a context: `called` is whether
    /// the request was the one to call the native teardown, which it is
    /// exactly if none was requested before; from then on the context is
    /// torn down. Nothing else of the context changes.
    pub open spec fn requested(before: Instance<D>, after: Instance<D>, called: bool) -> bool {
        &&& called == before.state_spec().owes_teardown()
        &&& after.state_spec() == Lifecycle::Destroyed
        &&& after.library_spec() == before.library_spec()
        &&& after.functions_spec() == before.functions_spec()
    }

    /// What the driver may answer to one call of the device query.
    pub open spec fn device_answers(&self) -> spec_fn(Option<u32>, Reply<usize>) -> bool {
        |capacity: Option<u32>, reply: Reply<usize>|
            D::enumerate_physical_devices.ensures(
                (
                    &self.driver_spec(),
                    &self.functions_spec().enumerate_physical_devices_spec(),
                    self.handle_spec(),
                    capacity,
                ),
                reply,
            )
    }

    /// `families` is what the queue-family query of `device` may come to: the
    /// driver is asked for the count, then for that many records, and the
    /// records that it wrote are handed out, never more than it had room for.
    pub open spec fn queue_families(&self, device: usize, families: Seq<QueueFamilyProperties>)
        -> bool {
        exists|counted: Filled<QueueFamilyProperties>, filled: Filled<QueueFamilyProperties>|
            {
                &&& #[trigger] D::get_physical_device_queue_family_properties.ensures(
                    (
                        &self.driver_spec(),
                        &self.functions_spec().get_physical_device_queue_family_properties_spec(),
                        device,
                        None,
                    ),
                    counted,
                )
                &&& #[trigger] D::get_physical_device_queue_family_properties.ensures(
                    (
                        &self.driver_spec(),
                        &self.functions_spec().get_physical_device_queue_family_properties_spec(),
                        device,
                        Some(counted.count),
                    ),
                    filled,
                )
                &&& families == kept(filled.records@, least(filled.count, counted.count))
            }
    }

    /// Makes the handle of the native context `instance`: asks the resolver
    /// for its five entry points under it. With one missing there is no
    /// handle, and the driver is called to tear the native context down
    /// before the failure is reported, if the teardown entry point was
    /// resolved.
    pub fn new(library: &Rc<Library<D>>, instance: usize) -> (result: Result<Instance<D>, Error>)
        ensures
            Self::made(**library, instance, result),
    {
        if instance == 0 {
            return Err(Error::NullContext);
        }
        let answers = [
            library.ask(Symbol::DestroyInstance, instance),
            library.ask(Symbol::EnumeratePhysicalDevices, instance),
            library.ask(Symbol::GetPhysicalDeviceFeatures, instance),
            library.ask(Symbol::GetPhysicalDeviceProperties, instance),
            library.ask(Symbol::GetPhysicalDeviceQueueFamilyProperties, instance),
        ];
        proof {
            assert forall|i: int| 0 <= i < INSTANCE_SYMBOLS implies (**library).answers(
                instance,
                instance_symbol(i).name_spec(),
                #[trigger] answers@[i],
            ) by {
                if i == 0 {
                } else if i == 1 {
                } else if i == 2 {
                } else if i == 3 {
                } else {
                }
            }
        }
        match InstanceFunctions::assemble(instance, answers) {
            Setup::Ready(functions) => {
                let made = Instance {
                    library: share(library),
                    functions,
                    state: Lifecycle::Created,
                };
                assert(made.addresses() == answers@);
                let result = Ok(made);
                assert(Self::made_from(**library, instance, answers@, result));
                result
            },
            Setup::Abandoned { error, teardown } => {
                match teardown {
                    Some(function) => {
                        library.driver().destroy_instance(&function, instance);
                        assert(Self::torn_down(**library, instance, answers@[0]));
                    },
                    None => {},
                }
                let result = Err(error);
                assert(Self::made_from(**library, instance, answers@, result));
                result
            },
        }
    }

    /// The native context; never null.
    pub fn handle(&self) -> (handle: usize)
        ensures
            handle == self.handle_spec(),
            handle != 0,
    {
        self.functions.context()
    }

    /// Whether teardown was requested of the context.
    pub fn is_destroyed(&self) -> (destroyed: bool)
        ensures
            destroyed == self.destroyed_spec(),
    {
        match self.state {
            Lifecycle::Created => false,
            Lifecycle::Destroyed => true,
        }
    }

    /// Takes a request for teardown. The first request calls the native
    /// teardown and answers `true`; the context counts as torn down from then
    /// on, and a later request finds it so and answers `false`. What is
    /// proved is the answer, the state, and that the native teardown was
    /// called where the answer is `true`.
    pub fn destroy_instance(&mut self) -> (called: bool)
        ensures
            Self::requested(*old(self), *final(self), called),
            called ==> D::destroy_instance.ensures(
                (
                    &old(self).driver_spec(),
                    &old(self).functions_spec().destroy_instance_spec(),
                    old(self).handle_spec(),
                ),
                (),
            ),
    {
        let call = self.state.request_teardown();
        if call {
            let context = self.functions.context();
            self.library.driver().destroy_instance(self.functions.destroy_instance(), context);
        }
        call
    }

    /// The physical devices of the context, in the driver's order.
    pub fn enumerate_physical_devices(&self) -> (result: Result<Vec<usize>, Error>)
        requires
            !self.destroyed_spec(),
        ensures
            enumerated(self.device_answers(), result),
            result matches Ok(devices) ==> devices@.len() <= u32::MAX,
            result matches Err(error) ==> enumeration_failure(error),
    {
        let query = DeviceQuery {
            driver: self.library.driver(),
            function: self.functions.enumerate_physical_devices(),
            instance: self.functions.context(),
        };
        let result = enumerate(&query);
        proof {
            lemma_enumerated_weaker(asked(&query), self.device_answers(), result);
            lemma_enumerated_outcomes(self.device_answers(), result);
        }
        result
    }

    /// The feature record of `device`, as the driver fills it in.
    pub fn get_physical_device_features(&self, device: usize) -> (features: PhysicalDeviceFeatures)
        requires
            !self.destroyed_spec(),
        ensures
            D::get_physical_device_features.ensures(
                (
                    &self.driver_spec(),
                    &self.functions_spec().get_physical_device_features_spec(),
                    device,
                ),
                features,
            ),
    {
        self.library.driver().get_physical_device_features(
            self.functions.get_physical_device_features(),
            device,
        )
    }

    /// The property record of `device`, as the driver fills it in.
    pub fn get_physical_device_properties(&self, device: usize) -> (properties:
        PhysicalDeviceProperties)
        requires
            !self.destroyed_spec(),
        ensures
            D::get_physical_device_properties.ensures(
                (
                    &self.driver_spec(),
                    &self.functions_spec().get_physical_device_properties_spec(),
                    device,
                ),
                properties,
            ),
    {
        self.library.driver().get_physical_device_properties(
            self.functions.get_physical_device_properties(),
            device,
        )
    }

    /// The queue families of `device`, in the driver's order. The native
    /// query returns no status, so there is one pass: count, then fill.
    pub fn get_physical_device_queue_family_properties(&self, device: usize) -> (families: Vec<
        QueueFamilyProperties,
    >)
        requires
            !self.destroyed_spec(),
        ensures
            self.queue_families(device, families@),
            families@.len() <= u32::MAX,
    {
        let function = self.functions.get_physical_device_queue_family_properties();
        let counted = self.library.driver().get_physical_device_queue_family_properties(
            function,
            device,
            None,
        );
        let filled = self.library.driver().get_physical_device_queue_family_properties(
            function,
            device,
            Some(counted.count),
        );
        keep(filled.records, settle(counted.count, filled.count))
    }
}

/// A context whose resolver does not know one of its entry points is not
/// made: where the resolver can only answer null for the entry point at
/// `missing`, making the handle comes to `SymbolNotFound`.
pub proof fn lemma_made_needs_every_symbol<D: Driver>(
    library: Library<D>,
    instance: usize,
    result: Result<Instance<D>, Error>,
    missing: int,
)
    requires
        Instance::made(library, instance, result),
        instance != 0,
        0 <= missing < INSTANCE_SYMBOLS,
        forall|address: usize| #[trigger]
            library.answers(instance, instance_symbol(missing).name_spec(), address) ==> address
                == 0,
    ensures
        result == Err::<Instance<D>, Error>(Error::SymbolNotFound),
{
    let answers = choose|answers: Seq<usize>| #[trigger]
        Instance::made_from(library, instance, answers, result);
    assert(answers[missing] == 0);
}

/// A context that cannot be made is not left behind: where the resolver
/// knows the teardown entry point and can only answer null for one of the
/// other four, making the handle comes to `SymbolNotFound`, and the driver
/// was called to tear the native context down.
pub proof fn lemma_failed_context_is_torn_down<D: Driver>(
    library: Library<D>,
    instance: usize,
    result: Result<Instance<D>, Error>,
    missing: int,
)
    requires
        Instance::made(library, instance, result),
        instance != 0,
        1 <= missing < INSTANCE_SYMBOLS,
        forall|address: usize| #[trigger]
            library.answers(instance, instance_symbol(0).name_spec(), address) ==> address != 0,
        forall|address: usize| #[trigger]
            library.answers(instance, instance_symbol(missing).name_spec(), address) ==> address
                == 0,
    ensures
        result == Err::<Instance<D>, Error>(Error::SymbolNotFound),
        exists|address: usize| #[trigger]
            library.answers(instance, Symbol::DestroyInstance.name_spec(), address)
                && Instance::torn_down(library, instance, address),
{
    let answers = choose|answers: Seq<usize>| #[trigger]
        Instance::made_from(library, instance, answers, result);
    assert(answers[missing] == 0);
    assert(library.answers(instance, instance_symbol(0).name_spec(), answers[0]));
}

/// Of any run of requests for teardown of one context, only the first can
/// be the one that called the native teardown, and it is exactly if no
/// teardown was requested before; every later request answers that it was
/// not, and none changes the entry points or the library of the context.
/// `states` are the states that the context goes through, and `called` is
/// what each request answered.
pub proof fn lemma_teardown_once<D: Driver>(states: Seq<Instance<D>>, called: Seq<bool>)
    requires
        called.len() >= 1,
        states.len() == called.len() + 1,
        forall|i: int|
            0 <= i < called.len() ==> Instance::requested(
                #[trigger] states[i],
                states[i + 1],
                called[i],
            ),
    ensures
        called[0] == !states[0].destroyed_spec(),
        forall|i: int| 1 <= i < called.len() ==> !called[i],
        forall|i: int| 1 <= i < states.len() ==> (#[trigger] states[i]).destroyed_spec(),
        forall|i: int|
            0 <= i < states.len() ==> (#[trigger] states[i]).functions_spec()
                == states[0].functions_spec() && states[i].library_spec()
                == states[0].library_spec(),
{
    assert forall|i: int| 1 <= i < states.len() implies (#[trigger] states[i]).destroyed_spec() by {
        assert(Instance::requested(states[i - 1], states[i], called[i - 1]));
    }
    assert forall|i: int| 1 <= i < called.len() implies !called[i] by {
        assert(Instance::requested(states[i], states[i + 1], called[i]));
    }
    lemma_teardown_keeps(states, called, states.len() - 1);
}

proof fn lemma_teardown_keeps<D: Driver>(
    states: Seq<Instance<D>>,
    called: Seq<bool>,
    upto: int,
)
    requires
        states.len() == called.len() + 1,
        0 <= upto < states.len(),
        forall|i: int|
            0 <= i < called.len() ==> Instance::requested(
                #[trigger] states[i],
                states[i + 1],
                called[i],
            ),
    ensures
        forall|i: int|
            0 <= i <= upto ==> (#[trigger] states[i]).functions_spec()
                == states[0].functions_spec() && states[i].library_spec()
                == states[0].library_spec(),
    decreases upto,
{
    if upto > 0 {
        lemma_teardown_keeps(states, called, upto - 1);
        assert(Instance::requested(states[upto - 1], states[upto], called[upto - 1]));
    }
}

} // verus!
