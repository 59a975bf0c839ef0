//! The entry points that the binding resolves, the context each is resolved
//! against, and the form of the names handed to the driver's resolver.

use vstd::prelude::*;
use vstd::string::StringSliceAdditionalSpecFns;

verus! {

/// A name in the form the driver's resolver expects: text without a zero
/// byte, then the one zero byte that ends it. The text may be empty.
pub open spec fn well_formed_name(name: Seq<u8>) -> bool {
    &&& name.len() >= 1
    &&& name.last() == 0
    &&& forall|i: int| 0 <= i < name.len() - 1 ==> name[i] != 0
}

/// Whether `name` is in the form the driver's resolver expects.
pub fn is_well_formed_name(name: &[u8]) -> (ok: bool)
    ensures
        ok == well_formed_name(name@),
{
    let len = name.len();
    if len < 1 || name[len - 1] != 0 {
        return false;
    }
    let mut at: usize = 0;
    while at < len - 1
        invariant
            len == name@.len(),
            len >= 1,
            at <= len - 1,
            forall|i: int| 0 <= i < at ==> name@[i] != 0,
        decreases len - at,
    {
        if name[at] == 0 {
            return false;
        }
        at += 1;
    }
    true
}

/// `text` followed by the zero byte that ends a name.
pub open spec fn terminated(text: Seq<u8>) -> Seq<u8> {
    text.push(0u8)
}

/// Ends `text` with a zero byte, or refuses a text that holds one already:
/// the driver would read such a name only up to that byte.
pub fn terminate(text: &[u8]) -> (name: Option<Vec<u8>>)
    ensures
        name.is_some() == crate::text::storable(text@),
        name matches Some(bytes) ==> bytes@ == terminated(text@) && well_formed_name(bytes@),
{
    if !crate::text::is_storable(text) {
        return None;
    }
    let mut bytes: Vec<u8> = Vec::new();
    let mut at: usize = 0;
    while at < text.len()
        invariant
            at <= text@.len(),
            bytes@ == text@.take(at as int),
        decreases text@.len() - at,
    {
        bytes.push(text[at]);
        at += 1;
        assert(bytes@ =~= text@.take(at as int));
    }
    assert(text@.take(at as int) =~= text@);
    bytes.push(0u8);
    Some(bytes)
}

/// Which context an entry point is resolved against.
#[derive(Clone, Copy, Debug, PartialEq, Eq, Structural)]
pub enum Scope {
    /// Resolved against the null context: usable before any context exists.
    Global,
    /// Resolved against one context, and valid for that context only.
    Instance,
}

/// An entry point of the driver that the binding resolves.
#[derive(Clone, Copy, Debug, PartialEq, Eq, Structural)]
pub enum Symbol {
    GetInstanceProcAddr,
    CreateInstance,
    EnumerateInstanceExtensionProperties,
    EnumerateInstanceLayerProperties,
    DestroyInstance,
    EnumeratePhysicalDevices,
    GetPhysicalDeviceFeatures,
    GetPhysicalDeviceProperties,
    GetPhysicalDeviceQueueFamilyProperties,
}

spec fn plain(text: Seq<char>, upto: nat) -> bool
    decreases upto,
{
    upto == 0 || ('\u{1}' <= text[upto - 1] <= '\u{7f}' && plain(text, (upto - 1) as nat))
}

proof fn lemma_plain(text: Seq<char>, upto: nat)
    requires
        plain(text, upto),
    ensures
        forall|i: int| 0 <= i < upto ==> '\u{1}' <= #[trigger] text[i] <= '\u{7f}',
    decreases upto,
{
    if upto > 0 {
        lemma_plain(text, (upto - 1) as nat);
    }
}

proof fn lemma_literal_well_formed(text: &str)
    requires
        text@.len() >= 2,
        text@.last() == '\0',
        plain(text@, (text@.len() - 1) as nat),
    ensures
        well_formed_name(text.spec_bytes()),
{
    lemma_plain(text@, (text@.len() - 1) as nat);
    assert(vstd::string::is_ascii(text)) by {
        assert forall|i: int| 0 <= i < text@.len() implies '\0' <= #[trigger] text@[i]
            <= '\u{7f}' by {}
    }
    vstd::string::is_ascii_spec_bytes(text);
}

impl Symbol {
    /// The name as written, with the zero character that ends it.
    pub open spec fn literal(self) -> &'static str {
        match self {
            Symbol::GetInstanceProcAddr => "vkGetInstanceProcAddr\0",
            Symbol::CreateInstance => "vkCreateInstance\0",
            Symbol::EnumerateInstanceExtensionProperties =>
                "vkEnumerateInstanceExtensionProperties\0",
            Symbol::EnumerateInstanceLayerProperties => "vkEnumerateInstanceLayerProperties\0",
            Symbol::DestroyInstance => "vkDestroyInstance\0",
            Symbol::EnumeratePhysicalDevices => "vkEnumeratePhysicalDevices\0",
            Symbol::GetPhysicalDeviceFeatures => "vkGetPhysicalDeviceFeatures\0",
            Symbol::GetPhysicalDeviceProperties => "vkGetPhysicalDeviceProperties\0",
            Symbol::GetPhysicalDeviceQueueFamilyProperties =>
                "vkGetPhysicalDeviceQueueFamilyProperties\0",
        }
    }

    /// The bytes handed to the resolver for this entry point.
    pub open spec fn name_spec(self) -> Seq<u8> {
        self.literal().spec_bytes()
    }

    /// The context this entry point is resolved against.
    pub open spec fn scope_spec(self) -> Scope {
        match self {
            Symbol::GetInstanceProcAddr
            | Symbol::CreateInstance
            | Symbol::EnumerateInstanceExtensionProperties
            | Symbol::EnumerateInstanceLayerProperties => Scope::Global,
            _ => Scope::Instance,
        }
    }

    /// Every name of the binding is in the form the resolver expects.
    pub proof fn lemma_name_well_formed(self)
        ensures
            well_formed_name(self.name_spec()),
    {
        reveal_with_fuel(plain, 42);
        match self {
            Symbol::GetInstanceProcAddr => {
                reveal_strlit("vkGetInstanceProcAddr\0");
            },
            Symbol::CreateInstance => {
                reveal_strlit("vkCreateInstance\0");
            },
            Symbol::EnumerateInstanceExtensionProperties => {
                reveal_strlit("vkEnumerateInstanceExtensionProperties\0");
            },
            Symbol::EnumerateInstanceLayerProperties => {
                reveal_strlit("vkEnumerateInstanceLayerProperties\0");
            },
            Symbol::DestroyInstance => {
                reveal_strlit("vkDestroyInstance\0");
            },
            Symbol::EnumeratePhysicalDevices => {
                reveal_strlit("vkEnumeratePhysicalDevices\0");
            },
            Symbol::GetPhysicalDeviceFeatures => {
                reveal_strlit("vkGetPhysicalDeviceFeatures\0");
            },
            Symbol::GetPhysicalDeviceProperties => {
                reveal_strlit("vkGetPhysicalDeviceProperties\0");
            },
            Symbol::GetPhysicalDeviceQueueFamilyProperties => {
                reveal_strlit("vkGetPhysicalDeviceQueueFamilyProperties\0");
            },
        }
        lemma_literal_well_formed(self.literal());
    }

    /// The bytes handed to the resolver for this entry point.
    pub fn name(self) -> (name: Vec<u8>)
        ensures
            name@ == self.name_spec(),
            well_formed_name(name@),
    {
        let text = match self {
            Symbol::GetInstanceProcAddr => "vkGetInstanceProcAddr\0",
            Symbol::CreateInstance => "vkCreateInstance\0",
            Symbol::EnumerateInstanceExtensionProperties =>
                "vkEnumerateInstanceExtensionProperties\0",
            Symbol::EnumerateInstanceLayerProperties => "vkEnumerateInstanceLayerProperties\0",
            Symbol::DestroyInstance => "vkDestroyInstance\0",
            Symbol::EnumeratePhysicalDevices => "vkEnumeratePhysicalDevices\0",
            Symbol::GetPhysicalDeviceFeatures => "vkGetPhysicalDeviceFeatures\0",
            Symbol::GetPhysicalDeviceProperties => "vkGetPhysicalDeviceProperties\0",
            Symbol::GetPhysicalDeviceQueueFamilyProperties =>
                "vkGetPhysicalDeviceQueueFamilyProperties\0",
        };
        proof {
            self.lemma_name_well_formed();
        }
        vstd::slice::slice_to_vec(text.as_bytes())
    }

    /// The context this entry point is resolved against.
    pub fn scope(self) -> (scope: Scope)
        ensures
            scope == self.scope_spec(),
    {
        match self {
            Symbol::GetInstanceProcAddr
            | Symbol::CreateInstance
            | Symbol::EnumerateInstanceExtensionProperties
            | Symbol::EnumerateInstanceLayerProperties => Scope::Global,
            _ => Scope::Instance,
        }
    }
}

} // verus!
