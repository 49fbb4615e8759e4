//! The life cycle of a session: has the client shaken hands?
//!
//! A client completes `initialize` before it uses anything else. Until then
//! its requests are refused.

use crate::json::{Json, JsonView};
use crate::text::opt_view;
use vstd::prelude::*;

verus! {

/// The code of the refusal before `initialize`.
pub const SERVER_NOT_INITIALIZED: i64 = -32002;

/// The life cycle of one session.
#[derive(Debug)]
pub struct Lifecycle {
    initialized: bool,
    client_name: Option<String>,
    client_version: Option<String>,
}

/// [`Lifecycle`] taken by its views.
pub struct LifecycleView {
    pub initialized: bool,
    pub client_name: Option<Seq<char>>,
    pub client_version: Option<Seq<char>>,
}

impl View for Lifecycle {
    type V = LifecycleView;

    closed spec fn view(&self) -> LifecycleView {
        LifecycleView {
            initialized: self.initialized,
            client_name: opt_view(self.client_name),
            client_version: opt_view(self.client_version),
        }
    }
}

/// The session of the client that `initialize` parameters describe.
pub open spec fn begun(params: JsonView) -> LifecycleView {
    LifecycleView {
        initialized: true,
        client_name: params.member("clientInfo"@).text_at("name"@),
        client_version: params.member("clientInfo"@).text_at("version"@),
    }
}

impl Lifecycle {
    /// A session before its handshake.
    pub fn new() -> (r: Self)
        ensures
            r@ == (LifecycleView { initialized: false, client_name: None, client_version: None }),
    {
        Lifecycle { initialized: false, client_name: None, client_version: None }
    }

    /// Records the handshake, and the client's identity from its parameters.
    pub fn mark_initialized(&mut self, params: &Json)
        ensures
            final(self)@ == begun(params@),
    {
        let info = params.member("clientInfo");
        self.initialized = true;
        self.client_name = info.text_at("name");
        self.client_version = info.text_at("version");
    }

    /// Has the client shaken hands?
    pub fn is_initialized(&self) -> (r: bool)
        ensures
            r == self@.initialized,
    {
        self.initialized
    }

    /// The client's name, where it gave one.
    pub fn client_name(&self) -> (r: Option<String>)
        ensures
            opt_view(r) == self@.client_name,
    {
        self.client_name.clone()
    }

    /// The client's version, where it gave one.
    pub fn client_version(&self) -> (r: Option<String>)
        ensures
            opt_view(r) == self@.client_version,
    {
        self.client_version.clone()
    }
}

/// After the handshake the session is open, and the client is who it says it is.
pub proof fn law_handshake_names_the_client(params: JsonView)
    ensures
        begun(params).initialized,
        begun(params).client_name == params.member("clientInfo"@).text_at("name"@),
        begun(params).client_version == params.member("clientInfo"@).text_at("version"@),
{
}

} // verus!
