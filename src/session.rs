//! The relay's session client: one shared slot that hands out cheap handles
//! and is reset by installing a new client with an empty cookie store.
use vstd::prelude::*;

verus! {

#[verifier::external_type_specification]
#[verifier::external_body]
pub struct ExClient(reqwest::Client);

/// How many redirects a session client follows.
pub const SESSION_REDIRECT_LIMIT: usize = 5;

/// Relies on `reqwest::ClientBuilder`: builds an async client with a cookie
/// store of its own, empty at first, that follows at most `redirect_limit`
/// redirects. Building fails only where the TLS backend or the resolver
/// cannot start; the error comes back as its text. A client is one `Arc`
/// to its shared state, and a build allocates a new one, so while
/// `current` lives the new client is never equal to it.
#[verifier::external_body]
fn new_cookie_client(current: Option<&reqwest::Client>, redirect_limit: usize) -> (r: Result<
    reqwest::Client,
    String,
>)
    ensures
        r is Ok && current is Some ==> r->Ok_0 != *current->0,
{
    let _ = current;
    reqwest::Client::builder()
        .cookie_provider(std::sync::Arc::new(reqwest::cookie::Jar::default()))
        .redirect(reqwest::redirect::Policy::limited(redirect_limit))
        .build()
        .map_err(|e| e.to_string())
}

/// Relies on `reqwest::Client::clone`: a client is one `Arc` to its shared
/// state, and the derived clone copies that pointer, so the copy is the
/// same client, with the same connection pool and cookie store.
#[verifier::external_body]
fn share_client(c: &reqwest::Client) -> (r: reqwest::Client)
    ensures
        r == *c,
{
    c.clone()
}

/// The slot that owns the current session client. Each client installed in
/// it gets a new generation number; a handle remembers the generation of
/// the client it was taken from.
pub struct SessionSlot {
    client: reqwest::Client,
    generation: u64,
    redirect_limit: usize,
}

/// A handle on the client that was current when it was taken. It stays
/// bound to that client, whatever happens to the slot afterwards.
pub struct SessionHandle {
    client: reqwest::Client,
    generation: u64,
}

impl SessionHandle {
    pub closed spec fn client_spec(&self) -> reqwest::Client {
        self.client
    }

    /// The client to send with.
    pub fn client(&self) -> (r: &reqwest::Client)
        ensures
            *r == self.client_spec(),
    {
        &self.client
    }

    pub closed spec fn generation_spec(&self) -> u64 {
        self.generation
    }

    /// The generation of the client this handle uses.
    pub fn generation(&self) -> (r: u64)
        ensures
            r == self.generation_spec(),
    {
        self.generation
    }
}

impl SessionSlot {
    /// The client the slot holds now.
    pub closed spec fn client_spec(&self) -> reqwest::Client {
        self.client
    }

    pub closed spec fn generation_spec(&self) -> u64 {
        self.generation
    }

    /// `h` was taken from the slot `s`.
    pub open spec fn issued(s: SessionSlot, h: SessionHandle) -> bool {
        h.generation_spec() == s.generation_spec() && h.client_spec() == s.client_spec()
    }

    /// `after` is `before` once a reset has installed a new client.
    /// `after` holds another client than `before`, under the next
    /// generation, and builds its clients the same way.
    pub open spec fn was_reset(before: SessionSlot, after: SessionSlot) -> bool {
        &&& after.generation_spec() == before.generation_spec() + 1
        &&& after.client_spec() != before.client_spec()
        &&& after.redirect_limit_spec() == before.redirect_limit_spec()
    }

    /// The redirect limit the slot builds its clients with.
    pub closed spec fn redirect_limit_spec(&self) -> usize {
        self.redirect_limit
    }

    /// A slot holding `fresh` as its first client, generation zero, that
    /// builds later clients with `redirect_limit`.
    pub fn holding(fresh: reqwest::Client, redirect_limit: usize) -> (r: SessionSlot)
        ensures
            r.client_spec() == fresh,
            r.generation_spec() == 0,
            r.redirect_limit_spec() == redirect_limit,
    {
        SessionSlot { client: fresh, generation: 0, redirect_limit }
    }

    /// A slot holding a newly built client (empty cookie store, at most
    /// `SESSION_REDIRECT_LIMIT` redirects), generation zero. Building
    /// depends on the machine, so it may fail.
    pub fn new() -> (r: Result<SessionSlot, String>)
        ensures
            r is Ok ==> r->Ok_0.generation_spec() == 0,
            r is Ok ==> r->Ok_0.redirect_limit_spec() == SESSION_REDIRECT_LIMIT,
    {
        match new_cookie_client(None, SESSION_REDIRECT_LIMIT) {
            Ok(client) => Ok(Self::holding(client, SESSION_REDIRECT_LIMIT)),
            Err(e) => Err(e),
        }
    }

    /// The redirect limit the slot builds its clients with.
    pub fn redirect_limit(&self) -> (r: usize)
        ensures
            r == self.redirect_limit_spec(),
    {
        self.redirect_limit
    }

    /// Drops the current client and installs `fresh` under the next
    /// generation.
    pub fn install(&mut self, fresh: reqwest::Client)
        requires
            old(self).generation_spec() < u64::MAX,
        ensures
            final(self).client_spec() == fresh,
            final(self).generation_spec() == old(self).generation_spec() + 1,
            final(self).redirect_limit_spec() == old(self).redirect_limit_spec(),
    {
        self.client = fresh;
        self.generation = self.generation + 1;
    }

    /// The generation of the current client.
    pub fn generation(&self) -> (r: u64)
        ensures
            r == self.generation_spec(),
    {
        self.generation
    }

    /// A handle on the current client; taking it changes nothing.
    pub fn handle(&self) -> (h: SessionHandle)
        ensures
            Self::issued(*self, h),
    {
        SessionHandle { client: share_client(&self.client), generation: self.generation }
    }

    /// Drops the current client and installs a newly built one, with an
    /// empty cookie store and the slot's redirect limit. Handles taken
    /// before keep their own client. Where no client can be built, the slot
    /// is left as it was.
    pub fn reset(&mut self) -> (r: Result<(), String>)
        requires
            old(self).generation_spec() < u64::MAX,
        ensures
            r is Ok ==> Self::was_reset(*old(self), *final(self)),
            r is Err ==> *final(self) == *old(self),
    {
        match new_cookie_client(Some(&self.client), self.redirect_limit) {
            Ok(client) => {
                self.install(client);
                Ok(())
            },
            Err(e) => Err(e),
        }
    }
}

/// A handle taken before a reset keeps the client, and so the cookie
/// store, that was current when it was taken; a handle taken after the
/// reset uses the client the reset installed, another client than the
/// early one, under another generation: a reset changes what later
/// requests use, never a request in flight.
pub proof fn reset_leaves_taken_handles(
    before: SessionSlot,
    early: SessionHandle,
    fresh: reqwest::Client,
    after: SessionSlot,
    late: SessionHandle,
)
    requires
        SessionSlot::issued(before, early),
        after.client_spec() == fresh,
        SessionSlot::was_reset(before, after),
        SessionSlot::issued(after, late),
    ensures
        early.client_spec() == before.client_spec(),
        early.generation_spec() == before.generation_spec(),
        late.client_spec() == fresh,
        late.generation_spec() == after.generation_spec(),
        early.generation_spec() != late.generation_spec(),
        early.client_spec() != late.client_spec(),
{
}

} // verus!
