//! Engine configuration, compilation contexts and stores.
use std::rc::Rc;
use vstd::prelude::*;

verus! {

/// Code-generation configuration shared by every store of an engine.
#[derive(Debug, Clone, Copy, PartialEq, Eq, Structural)]
pub struct Config {
    debug_info: bool,
}

impl Config {
    pub closed spec fn spec_debug_info(&self) -> bool {
        self.debug_info
    }

    pub fn default() -> (r: Config)
        ensures
            !r.spec_debug_info(),
    {
        Config { debug_info: false }
    }

    pub fn new(debug_info: bool) -> (r: Config)
        ensures
            r.spec_debug_info() == debug_info,
    {
        Config { debug_info }
    }

    pub fn debug_info(&self) -> (r: bool)
        ensures
            r == self.spec_debug_info(),
    {
        self.debug_info
    }
}

/// Configuration shared by every store made from it.
#[derive(Debug)]
pub struct Engine {
    config: Config,
}

impl Engine {
    pub closed spec fn spec_config(&self) -> Config {
        self.config
    }

    pub fn new(config: Config) -> (r: Engine)
        ensures
            r.spec_config() == config,
    {
        Engine { config }
    }

    pub fn default() -> (r: Engine)
        ensures
            !r.spec_config().spec_debug_info(),
    {
        Engine::new(Config::default())
    }

    pub fn config(&self) -> (r: &Config)
        ensures
            *r == self.spec_config(),
    {
        &self.config
    }
}

/// The source of compilation-context identifiers. An embedder makes one and
/// hands it to every store it creates, whatever the engine: each identifier
/// it hands out is larger than every earlier one, so no two contexts share
/// one.
#[derive(Debug)]
pub struct ContextIds {
    next: u64,
}

impl ContextIds {
    /// Every identifier handed out so far is below this one.
    pub closed spec fn spec_next(&self) -> u64 {
        self.next
    }

    pub fn new() -> (r: ContextIds)
        ensures
            r.spec_next() == 0,
    {
        ContextIds { next: 0 }
    }

    pub fn next_id(&self) -> (r: u64)
        ensures
            r == self.spec_next(),
    {
        self.next
    }
}

/// A compilation context: owner of the executable code compiled under it.
/// Two contexts are the same context exactly when their identifiers agree;
/// identifiers come from one `ContextIds`, which never repeats one.
#[derive(Debug, Clone, Copy, PartialEq, Eq, Structural)]
pub struct Context {
    id: u64,
    debug_info: bool,
}

impl Context {
    pub closed spec fn spec_id(&self) -> u64 {
        self.id
    }

    pub closed spec fn spec_debug_info(&self) -> bool {
        self.debug_info
    }

    pub fn new(id: u64, debug_info: bool) -> (r: Context)
        ensures
            r.spec_id() == id,
            r.spec_debug_info() == debug_info,
    {
        Context { id, debug_info }
    }

    pub fn id(&self) -> (r: u64)
        ensures
            r == self.spec_id(),
    {
        self.id
    }

    pub fn debug_info(&self) -> (r: bool)
        ensures
            r == self.spec_debug_info(),
    {
        self.debug_info
    }
}

/// Everything instantiated through one compilation context. Exclusive use
/// of the context is taken and given back explicitly; taking it while it is
/// already taken is ruled out by the contract of `acquire_context`.
#[derive(Debug)]
pub struct Store {
    engine: Rc<Engine>,
    context: Context,
    context_held: bool,
}

impl Store {
    pub closed spec fn spec_context(&self) -> Context {
        self.context
    }

    pub closed spec fn spec_engine(&self) -> Rc<Engine> {
        self.engine
    }

    pub closed spec fn spec_context_held(&self) -> bool {
        self.context_held
    }

    /// A store with a fresh compilation context configured by the engine.
    /// Its identifier is the next one of `ids`, which no earlier context
    /// drawn from `ids` has; the store keeps the engine alive.
    pub fn new(engine: Rc<Engine>, ids: &mut ContextIds) -> (r: Store)
        requires
            old(ids).spec_next() < u64::MAX,
        ensures
            r.spec_context().spec_id() == old(ids).spec_next(),
            r.spec_context().spec_debug_info() == engine.spec_config().spec_debug_info(),
            r.spec_engine() == engine,
            forall|c: Context| c.spec_id() < old(ids).spec_next() ==> c != r.spec_context(),
            !r.spec_context_held(),
            final(ids).spec_next() == old(ids).spec_next() + 1,
    {
        let id = ids.next;
        ids.next = id + 1;
        let debug_info = engine.config().debug_info();
        Store { engine, context: Context::new(id, debug_info), context_held: false }
    }

    pub fn engine(&self) -> (r: &Rc<Engine>)
        ensures
            *r == self.spec_engine(),
    {
        &self.engine
    }

    /// The store's compilation context, for reading.
    pub fn context(&self) -> (r: &Context)
        ensures
            *r == self.spec_context(),
    {
        &self.context
    }

    pub fn is_context_held(&self) -> (r: bool)
        ensures
            r == self.spec_context_held(),
    {
        self.context_held
    }

    /// Takes exclusive use of the compilation context, which must be free.
    pub fn acquire_context(&mut self) -> (r: Context)
        requires
            !old(self).spec_context_held(),
        ensures
            r == old(self).spec_context(),
            final(self).spec_context() == old(self).spec_context(),
            final(self).spec_context_held(),
    {
        self.context_held = true;
        self.context
    }

    /// Gives back exclusive use of the compilation context.
    pub fn release_context(&mut self)
        requires
            old(self).spec_context_held(),
        ensures
            final(self).spec_context() == old(self).spec_context(),
            !final(self).spec_context_held(),
    {
        self.context_held = false;
    }
}

} // verus!
