//! Which providers there are, and what they can do.

use crate::namemap::{as_map, has_name, lemma_value_of, NameMap};
use crate::order::text_lt;
use crate::permissions::Capability;
use crate::text::views;
use vstd::prelude::*;
use vstd::string::*;

verus! {

/// The version of the server.
pub const SERVER_VERSION: &'static str = "0.1.0";

/// Whether a provider can be used.
#[derive(Debug, Clone, Copy, PartialEq, Eq, Structural)]
pub enum ProviderAvailability {
    /// Always.
    Ready,
    /// Where the machine is in a certain state, such as an application that
    /// runs with inspection enabled.
    Conditional,
}

impl ProviderAvailability {
    /// The name of the availability.
    pub open spec fn name(self) -> Seq<char> {
        match self {
            ProviderAvailability::Ready => "ready"@,
            ProviderAvailability::Conditional => "conditional"@,
        }
    }

    /// The name of the availability.
    pub fn as_str(self) -> (r: &'static str)
        ensures
            r@ == self.name(),
    {
        match self {
            ProviderAvailability::Ready => "ready",
            ProviderAvailability::Conditional => "conditional",
        }
    }
}

/// What is known of a provider.
#[derive(Debug)]
pub struct ProviderInfo {
    pub id: String,
    pub name: String,
    pub version: String,
    pub availability: ProviderAvailability,
    pub capabilities: Vec<String>,
}

/// [`ProviderInfo`] taken by its views.
#[verifier::ext_equal]
pub struct ProviderView {
    pub id: Seq<char>,
    pub name: Seq<char>,
    pub version: Seq<char>,
    pub availability: ProviderAvailability,
    pub capabilities: Seq<Seq<char>>,
}

impl View for ProviderInfo {
    type V = ProviderView;

    open spec fn view(&self) -> ProviderView {
        ProviderView {
            id: self.id@,
            name: self.name@,
            version: self.version@,
            availability: self.availability,
            capabilities: views(self.capabilities@),
        }
    }
}

/// The names of capabilities.
pub open spec fn capability_names(capabilities: Seq<Capability>) -> Seq<Seq<char>> {
    capabilities.map_values(|c: Capability| c.name())
}

/// The names of capabilities.
pub fn names_of(capabilities: &Vec<Capability>) -> (r: Vec<String>)
    ensures
        views(r@) == capability_names(capabilities@),
{
    let mut out: Vec<String> = Vec::new();
    let mut i: usize = 0;
    while i < capabilities.len()
        invariant
            i <= capabilities@.len(),
            out@.len() == i,
            forall|k: int| 0 <= k < i ==> (#[trigger] out@[k])@ == capabilities@[k].name(),
        decreases capabilities@.len() - i,
    {
        out.push(capabilities[i].as_str().to_string());
        i = i + 1;
    }
    assert(views(out@) =~= capability_names(capabilities@));
    out
}

/// What a provider says of itself.
pub trait Provider {
    /// The id of the provider.
    fn id(&self) -> &'static str;

    /// The name of the provider.
    fn name(&self) -> &'static str;

    /// The version of the provider.
    fn version(&self) -> &'static str;

    /// Whether the provider can be used.
    fn availability(&self) -> ProviderAvailability;

    /// What the provider can do.
    fn capabilities(&self) -> Vec<Capability>;
}

/// Is it what the provider says of itself?
pub open spec fn describes<P: Provider>(info: ProviderView, p: &P) -> bool {
    exists|id: &'static str, name: &'static str, version: &'static str, caps: Vec<Capability>|
        {
            &&& #[trigger] call_ensures(P::id, (p,), id)
            &&& #[trigger] call_ensures(P::name, (p,), name)
            &&& #[trigger] call_ensures(P::version, (p,), version)
            &&& call_ensures(P::availability, (p,), info.availability)
            &&& #[trigger] call_ensures(P::capabilities, (p,), caps)
            &&& info.id == id@
            &&& info.name == name@
            &&& info.version == version@
            &&& info.capabilities == capability_names(caps@)
        }
}

/// What a provider says of itself.
pub fn info_of<P: Provider>(p: &P) -> (r: ProviderInfo)
    ensures
        describes(r@, p),
{
    let id = p.id();
    let name = p.name();
    let version = p.version();
    let availability = p.availability();
    let capabilities = p.capabilities();
    ProviderInfo {
        id: id.to_string(),
        name: name.to_string(),
        version: version.to_string(),
        availability,
        capabilities: names_of(&capabilities),
    }
}

/// The provider of the operating system.
#[derive(Debug)]
pub struct WindowsProvider {}

/// What the provider of the operating system can do.
pub open spec fn windows_capabilities() -> Seq<Capability> {
    seq![
        Capability::SystemRead,
        Capability::ProcessRead,
        Capability::NetworkRead,
        Capability::StorageRead,
        Capability::ServiceRead,
        Capability::EventRead,
        Capability::WindowRead,
    ]
}

/// What is known of the provider of the operating system.
pub open spec fn windows_view() -> ProviderView {
    ProviderView {
        id: "windows"@,
        name: "Windows Provider"@,
        version: SERVER_VERSION@,
        availability: ProviderAvailability::Ready,
        capabilities: capability_names(windows_capabilities()),
    }
}

impl WindowsProvider {
    /// The provider.
    pub fn new() -> (r: Self)
        ensures
            r == (WindowsProvider {  }),
    {
        WindowsProvider {  }
    }
}

impl Provider for WindowsProvider {
    fn id(&self) -> (r: &'static str)
        ensures
            r@ == "windows"@,
    {
        "windows"
    }

    fn name(&self) -> (r: &'static str)
        ensures
            r@ == "Windows Provider"@,
    {
        "Windows Provider"
    }

    fn version(&self) -> (r: &'static str)
        ensures
            r@ == SERVER_VERSION@,
    {
        SERVER_VERSION
    }

    fn availability(&self) -> (r: ProviderAvailability)
        ensures
            r == ProviderAvailability::Ready,
    {
        ProviderAvailability::Ready
    }

    fn capabilities(&self) -> (r: Vec<Capability>)
        ensures
            r@ == windows_capabilities(),
    {
        let r = vec![
            Capability::SystemRead,
            Capability::ProcessRead,
            Capability::NetworkRead,
            Capability::StorageRead,
            Capability::ServiceRead,
            Capability::EventRead,
            Capability::WindowRead,
        ];
        assert(r@ =~= windows_capabilities());
        r
    }
}

/// The provider of the operating system is described as it is.
pub proof fn law_windows_provider(info: ProviderView, p: &WindowsProvider)
    requires
        describes(info, p),
    ensures
        info == windows_view(),
{
}

/// The providers in use.
#[derive(Debug)]
pub struct ProviderRegistry {
    providers: NameMap<ProviderInfo>,
}

impl ProviderRegistry {
    /// The providers by their ids.
    pub closed spec fn map(&self) -> Map<Seq<char>, ProviderInfo> {
        as_map(self.providers.entries())
    }

    /// The providers, in the order of their ids.
    pub closed spec fn listed(&self) -> Seq<(Seq<char>, ProviderInfo)> {
        self.providers.entries()
    }

    /// The providers stand in the order of their ids, each id once.
    pub closed spec fn wf(&self) -> bool {
        self.providers.wf()
    }

    /// No providers.
    pub fn new() -> (r: Self)
        ensures
            r.wf(),
            r.map() == Map::<Seq<char>, ProviderInfo>::empty(),
    {
        ProviderRegistry { providers: NameMap::new() }
    }

    /// Puts a provider in, under its id.
    pub fn register<P: Provider>(&mut self, provider: &P)
        requires
            old(self).wf(),
        ensures
            final(self).wf(),
            exists|info: ProviderInfo| #[trigger]
                describes(info@, provider) && final(self).map() == old(self).map().insert(
                    info@.id,
                    info,
                ),
    {
        let ghost before = self.map();
        let info = info_of(provider);
        let id = info.id.clone();
        let ghost given = info;
        self.providers.insert(&id, info);
        assert(self.map() == before.insert(given@.id, given));
    }

    /// The provider of an id.
    pub fn get(&self, id: &str) -> (r: Option<&ProviderInfo>)
        requires
            self.wf(),
        ensures
            match r {
                Some(p) => self.map().dom().contains(id@) && *p == self.map()[id@],
                None => !self.map().dom().contains(id@),
            },
    {
        self.providers.get(id)
    }

    /// All providers, in the order of their ids.
    pub fn all(&self) -> (r: Vec<&ProviderInfo>)
        requires
            self.wf(),
        ensures
            r@.len() == self.listed().len(),
            forall|i: int| 0 <= i < r@.len() ==> *(#[trigger] r@[i]) == self.listed()[i].1,
    {
        let mut out: Vec<&ProviderInfo> = Vec::new();
        let n: usize = self.providers.len();
        let mut i: usize = 0;
        while i < n
            invariant
                n == self.listed().len(),
                i <= n,
                out@.len() == i,
                forall|k: int| 0 <= k < i ==> *(#[trigger] out@[k]) == self.listed()[k].1,
            decreases n - i,
        {
            out.push(self.providers.at(i));
            i = i + 1;
        }
        out
    }

    /// Is the provider in use?
    pub fn is_enabled(&self, id: &str) -> (r: bool)
        requires
            self.wf(),
        ensures
            r == self.map().dom().contains(id@),
    {
        self.providers.get(id).is_some()
    }
}

/// What is listed is what can be found by its id, in the order of the ids.
pub proof fn law_listed_providers(r: ProviderRegistry)
    requires
        r.wf(),
    ensures
        crate::namemap::by_name(r.listed()),
        r.map() == as_map(r.listed()),
{
}

/// Is each registry the one before it with one more provider put in, starting
/// from none?
pub open spec fn registrations(states: Seq<ProviderRegistry>, given: Seq<ProviderInfo>) -> bool {
    &&& states.len() == given.len() + 1
    &&& states[0].map() == Map::<Seq<char>, ProviderInfo>::empty()
    &&& forall|k: int|
        0 <= k < given.len() ==> states[k + 1].map() == states[k].map().insert(
            (#[trigger] given[k])@.id,
            given[k],
        )
}

/// Is none behind this place given under the same id?
pub open spec fn last_of_its_id(given: Seq<ProviderInfo>, k: int) -> bool {
    &&& 0 <= k < given.len()
    &&& forall|m: int| k < m < given.len() ==> (#[trigger] given[m])@.id != given[k]@.id
}

/// Is it the last one given under its id?
pub open spec fn is_last_given(given: Seq<ProviderInfo>, info: ProviderInfo) -> bool {
    exists|k: int| #[trigger] last_of_its_id(given, k) && given[k] == info
}

/// Is a provider of this id listed?
pub open spec fn lists_id(listed: Seq<(Seq<char>, ProviderInfo)>, id: Seq<char>) -> bool {
    exists|i: int| 0 <= i < listed.len() && (#[trigger] listed[i]).1@.id == id
}

proof fn lemma_registrations(states: Seq<ProviderRegistry>, given: Seq<ProviderInfo>, id: Seq<char>)
    requires
        registrations(states, given),
    ensures
        states.last().map().dom().contains(id) <==> exists|k: int|
            0 <= k < given.len() && (#[trigger] given[k])@.id == id,
        states.last().map().dom().contains(id) ==> exists|k: int| #[trigger]
            last_of_its_id(given, k) && given[k]@.id == id && states.last().map()[id] == given[k],
    decreases given.len(),
{
    if given.len() > 0 {
        let n = given.len() - 1;
        let fewer = states.drop_last();
        let rest = given.drop_last();
        assert(registrations(fewer, rest)) by {
            assert forall|k: int| 0 <= k < rest.len() implies fewer[k + 1].map()
                == fewer[k].map().insert((#[trigger] rest[k])@.id, rest[k]) by {
                assert(rest[k] == given[k]);
            }
        }
        lemma_registrations(fewer, rest, id);
        assert(states[n + 1].map() == states[n].map().insert(given[n]@.id, given[n]));
        if given[n]@.id == id {
            assert(last_of_its_id(given, n));
        } else {
            if fewer.last().map().dom().contains(id) {
                let k = choose|k: int| #[trigger]
                    last_of_its_id(rest, k) && rest[k]@.id == id && fewer.last().map()[id]
                        == rest[k];
                assert(given[k] == rest[k]);
                assert forall|m: int| k < m < given.len() implies (#[trigger] given[m])@.id
                    != given[k]@.id by {
                    if m < n {
                        assert(rest[m] == given[m]);
                    }
                }
                assert(last_of_its_id(given, k));
            }
            if exists|k: int| 0 <= k < given.len() && (#[trigger] given[k])@.id == id {
                let k = choose|k: int| 0 <= k < given.len() && (#[trigger] given[k])@.id == id;
                assert(rest[k] == given[k]);
            }
        }
    }
}

/// After any registrations the ids that are listed ascend strictly, they are
/// the ids that were registered, and under each stands what was registered
/// under it last.
pub proof fn law_last_registration_counts(
    states: Seq<ProviderRegistry>,
    given: Seq<ProviderInfo>,
)
    requires
        registrations(states, given),
        states.last().wf(),
    ensures
        forall|i: int, j: int|
            0 <= i < j < states.last().listed().len() ==> text_lt(
                (#[trigger] states.last().listed()[i]).1@.id,
                (#[trigger] states.last().listed()[j]).1@.id,
            ),
        forall|i: int|
            0 <= i < states.last().listed().len() ==> is_last_given(
                given,
                (#[trigger] states.last().listed()[i]).1,
            ),
        forall|k: int|
            0 <= k < given.len() ==> lists_id(
                states.last().listed(),
                (#[trigger] given[k])@.id,
            ),
{
    let r = states.last();
    let listed = r.listed();
    law_listed_providers(r);
    assert forall|i: int| 0 <= i < listed.len() implies (#[trigger] listed[i]).1@.id == listed[i].0
        && is_last_given(given, listed[i].1) by {
        lemma_value_of(listed, i);
        lemma_registrations(states, given, listed[i].0);
    }
    assert forall|i: int, j: int| 0 <= i < j < listed.len() implies text_lt(
        (#[trigger] listed[i]).1@.id,
        (#[trigger] listed[j]).1@.id,
    ) by {
        assert(text_lt(listed[i].0, listed[j].0));
    }
    assert forall|k: int| 0 <= k < given.len() implies lists_id(
        listed,
        (#[trigger] given[k])@.id,
    ) by {
        let id = given[k]@.id;
        lemma_registrations(states, given, id);
        assert(has_name(listed, id));
        let i = choose|i: int| 0 <= i < listed.len() && (#[trigger] listed[i]).0 == id;
        assert(listed[i].1@.id == id);
    }
}

} // verus!
