use vstd::prelude::*;

verus! {

/// The front end that an execution facade is built for. It decides how the
/// facade is built, never what execution does.
#[derive(Clone, Copy, Debug, PartialEq, Eq, Structural)]
pub enum AppType {
    Cli,
    Tui,
    FlightSQLServer,
}

/// The remote side of execution: the connection target, kept for as long as
/// the client made from it, and at most one remote client `C`.
///
/// The only way to change the client is `install_client`, which replaces it
/// whole; tasks that share a context must serialise their calls themselves.
pub struct FlightSQLContext<C> {
    target: Option<String>,
    client: Option<C>,
}

impl<C> FlightSQLContext<C> {
    /// The configured connection target, if any.
    pub closed spec fn target_url(self) -> Option<Seq<char>> {
        match self.target {
            Some(t) => Some(t@),
            None => None,
        }
    }

    /// The active remote client, if one was established.
    pub closed spec fn active(self) -> Option<C> {
        self.client
    }

    /// The context after one connection attempt: a client that was made
    /// replaces the prior one, a failed attempt leaves everything as it was.
    pub closed spec fn installed<E>(self, attempt: Result<C, E>) -> Self {
        match attempt {
            Ok(c) => FlightSQLContext { target: self.target, client: Some(c) },
            Err(_) => self,
        }
    }

    /// A context with no target and no client.
    pub fn unconfigured() -> (r: Self)
        ensures
            r.target_url() is None,
            r.active() is None,
    {
        FlightSQLContext { target: None, client: None }
    }

    /// A context for the given connection target, with no client yet.
    pub fn new(url: String) -> (r: Self)
        ensures
            r.target_url() == Some(url@),
            r.active() is None,
    {
        FlightSQLContext { target: Some(url), client: None }
    }

    /// The configured connection target.
    pub fn target(&self) -> (r: &Option<String>)
        ensures
            r is Some <==> self.target_url() is Some,
            r is Some ==> Some(r->0@) == self.target_url(),
    {
        &self.target
    }

    /// The active remote client.
    pub fn client(&self) -> (r: &Option<C>)
        ensures
            *r == self.active(),
    {
        &self.client
    }

    /// Takes the outcome of one connection attempt. A client replaces the
    /// prior one; a connection error is handed back and nothing changes.
    pub fn install_client<E>(&mut self, attempt: Result<C, E>) -> (r: Result<(), E>)
        ensures
            r is Ok <==> attempt is Ok,
            attempt is Err ==> r == Err::<(), E>(attempt->Err_0),
            attempt is Err ==> *final(self) == *old(self),
            *final(self) == old(self).installed(attempt),
            attempt is Ok ==> final(self).active() == Some(attempt->Ok_0),
            final(self).target_url() == old(self).target_url(),
    {
        match attempt {
            Ok(c) => {
                self.client = Some(c);
                Ok(())
            },
            Err(e) => Err(e),
        }
    }
}

/// One execution surface for every front end: a local execution context `L`
/// and the remote side, whose client type is `C`.
pub struct AppExecution<L, C> {
    context: L,
    flightsql_context: FlightSQLContext<C>,
}

impl<L, C> AppExecution<L, C> {
    /// The local execution context.
    pub closed spec fn local(self) -> L {
        self.context
    }

    /// The remote side.
    pub closed spec fn remote(self) -> FlightSQLContext<C> {
        self.flightsql_context
    }

    /// A facade over an execution context that is already built, with an
    /// unconfigured remote side.
    pub fn new(context: L) -> (r: Self)
        ensures
            r.local() == context,
            r.remote().target_url() is None,
            r.remote().active() is None,
    {
        AppExecution { context, flightsql_context: FlightSQLContext::unconfigured() }
    }

    /// A facade from the outcome of building the execution context and the
    /// configured remote target. A construction error is handed back as it
    /// is, and no facade is made.
    pub fn try_new_from_config<E>(context: Result<L, E>, flightsql_url: String) -> (r: Result<
        Self,
        E,
    >)
        ensures
            r is Ok <==> context is Ok,
            context is Err ==> r == Err::<Self, E>(context->Err_0),
            r is Ok ==> {
                &&& r->Ok_0.local() == context->Ok_0
                &&& r->Ok_0.remote().target_url() == Some(flightsql_url@)
                &&& r->Ok_0.remote().active() is None
            },
    {
        match context {
            Ok(context) => Ok(
                AppExecution { context, flightsql_context: FlightSQLContext::new(flightsql_url) },
            ),
            Err(e) => Err(e),
        }
    }

    /// The local execution context.
    pub fn execution_ctx(&self) -> (r: &L)
        ensures
            *r == self.local(),
    {
        &self.context
    }

    /// The active remote client.
    pub fn flightsql_client(&self) -> (r: &Option<C>)
        ensures
            *r == self.remote().active(),
    {
        self.flightsql_context.client()
    }

    /// The remote side.
    pub fn flightsql_ctx(&self) -> (r: &FlightSQLContext<C>)
        ensures
            *r == self.remote(),
    {
        &self.flightsql_context
    }

    /// Replaces the remote side whole, for callers that manage reconnection
    /// themselves. The local context is kept.
    pub fn with_flightsql_ctx(&mut self, flightsql_ctx: FlightSQLContext<C>)
        ensures
            final(self).remote() == flightsql_ctx,
            final(self).local() == old(self).local(),
    {
        self.flightsql_context = flightsql_ctx;
    }
}

/// Two connection attempts leave one client, the one made last: a second
/// attempt that succeeds replaces whatever the first left, and one that fails
/// leaves it untouched. Whether an attempt succeeds is its own outcome, never
/// a consequence of the client already held.
pub proof fn lemma_latest_client_wins<C, E>(
    ctx: FlightSQLContext<C>,
    first: Result<C, E>,
    second: Result<C, E>,
)
    ensures
        second is Ok ==> ctx.installed(first).installed(second).active() == Some(second->Ok_0),
        second is Err ==> ctx.installed(first).installed(second) == ctx.installed(first),
        first is Ok && second is Err ==> ctx.installed(first).installed(second).active() == Some(
            first->Ok_0,
        ),
        ctx.installed(first).installed(second).target_url() == ctx.target_url(),
{
}

} // verus!
