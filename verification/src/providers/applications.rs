//! Application providers: adapters that understand one application each.

use crate::errors::{err_view, ErrorKind, WinkitError};
use crate::namemap::{as_map, by_name, NameMap};
use vstd::prelude::*;
use vstd::string::*;

verus! {

/// What an application provider may be asked for.
#[derive(Debug, Clone, Copy, PartialEq, Eq, Structural)]
pub enum ApplicationRequest {
    ListTabs,
    GetTab,
    GetActiveTab,
    TabPerformance,
    TabMemory,
    TabNetwork,
    TabRuntime,
    TabDiagnostics,
    TabTrend,
    BrowserInfo,
}

/// What is said of a request that a provider does not understand.
pub open spec fn unsupported_words(request: ApplicationRequest) -> Seq<char> {
    match request {
        ApplicationRequest::ListTabs => "this application provider does not implement tab listing"@,
        ApplicationRequest::GetTab => "this application provider does not implement tab lookup"@,
        ApplicationRequest::GetActiveTab => "this application provider does not implement active-tab detection"@,
        ApplicationRequest::TabPerformance => "this application provider does not implement performance inspection"@,
        ApplicationRequest::TabMemory => "this application provider does not implement memory inspection"@,
        ApplicationRequest::TabNetwork => "this application provider does not implement network inspection"@,
        ApplicationRequest::TabRuntime => "this application provider does not implement runtime inspection"@,
        ApplicationRequest::TabDiagnostics => "this application provider does not implement tab diagnostics"@,
        ApplicationRequest::TabTrend => "this application provider does not implement tab trends"@,
        ApplicationRequest::BrowserInfo => "this application provider does not expose browser-wide info"@,
    }
}

/// The error of a request that a provider does not understand.
pub fn unsupported(request: ApplicationRequest) -> (r: WinkitError)
    ensures
        r@ == err_view(ErrorKind::UnsupportedCapability, unsupported_words(request)),
{
    let words = match request {
        ApplicationRequest::ListTabs => "this application provider does not implement tab listing",
        ApplicationRequest::GetTab => "this application provider does not implement tab lookup",
        ApplicationRequest::GetActiveTab => "this application provider does not implement active-tab detection",
        ApplicationRequest::TabPerformance => "this application provider does not implement performance inspection",
        ApplicationRequest::TabMemory => "this application provider does not implement memory inspection",
        ApplicationRequest::TabNetwork => "this application provider does not implement network inspection",
        ApplicationRequest::TabRuntime => "this application provider does not implement runtime inspection",
        ApplicationRequest::TabDiagnostics => "this application provider does not implement tab diagnostics",
        ApplicationRequest::TabTrend => "this application provider does not implement tab trends",
        ApplicationRequest::BrowserInfo => "this application provider does not expose browser-wide info",
    };
    WinkitError::unsupported_capability(words)
}

/// The application providers by their ids.
#[derive(Debug)]
pub struct ApplicationRegistry<A> {
    providers: NameMap<A>,
}

impl<A> ApplicationRegistry<A> {
    /// The providers by their ids.
    pub closed spec fn map(&self) -> Map<Seq<char>, A> {
        as_map(self.providers.entries())
    }

    /// The providers, in the order of their ids.
    pub closed spec fn listed(&self) -> Seq<(Seq<char>, A)> {
        self.providers.entries()
    }

    /// The providers stand in the order of their ids, each id once.
    pub closed spec fn wf(&self) -> bool {
        self.providers.wf()
    }

    /// No providers.
    pub fn new() -> (r: Self)
        ensures
            r.wf(),
            r.map() == Map::<Seq<char>, A>::empty(),
    {
        ApplicationRegistry { providers: NameMap::new() }
    }

    /// Puts a provider in, under its id.
    pub fn register(&mut self, id: &str, provider: A)
        requires
            old(self).wf(),
        ensures
            final(self).wf(),
            final(self).map() == old(self).map().insert(id@, provider),
    {
        self.providers.insert(id, provider);
    }

    /// The provider of an id.
    pub fn get(&self, id: &str) -> (r: Option<&A>)
        requires
            self.wf(),
        ensures
            match r {
                Some(p) => self.map().dom().contains(id@) && *p == self.map()[id@],
                None => !self.map().dom().contains(id@),
            },
    {
        self.providers.get(id)
    }

    /// All providers, in the order of their ids.
    pub fn all(&self) -> (r: Vec<&A>)
        requires
            self.wf(),
        ensures
            r@.len() == self.listed().len(),
            forall|i: int| 0 <= i < r@.len() ==> *(#[trigger] r@[i]) == self.listed()[i].1,
    {
        let mut out: Vec<&A> = Vec::new();
        let n: usize = self.providers.len();
        let mut i: usize = 0;
        while i < n
            invariant
                n == self.listed().len(),
                i <= n,
                out@.len() == i,
                forall|k: int| 0 <= k < i ==> *(#[trigger] out@[k]) == self.listed()[k].1,
            decreases n - i,
        {
            out.push(self.providers.at(i));
            i = i + 1;
        }
        out
    }

    /// Is there a provider of the id?
    pub fn is_registered(&self, id: &str) -> (r: bool)
        requires
            self.wf(),
        ensures
            r == self.map().dom().contains(id@),
    {
        self.providers.get(id).is_some()
    }
}

/// What is listed is what can be found by its id, in the order of the ids.
pub proof fn law_listed_applications<A>(r: ApplicationRegistry<A>)
    requires
        r.wf(),
    ensures
        by_name(r.listed()),
        r.map() == as_map(r.listed()),
{
}

} // verus!
