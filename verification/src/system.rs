//! The service as it is configured before it is launched, and the
//! decisions that a worker takes from it.

use crate::address::Address;
use crate::config::Config;
use crate::config::ConfigView;
use crate::database::DB;
use crate::error::page_outcome;
use crate::error::page_reply;
use crate::error::rendered_view;
use crate::error::ErrorTemplate;
use crate::error::Reply;
use crate::launch::LaunchState;
use crate::launch::Launcher;
use crate::mode::Mode;
use std::sync::Arc;
use vstd::prelude::*;
use vstd::string::StringExecFns;

verus! {

/// `axum::body::Body`, the request body type of the router. Nothing is
/// claimed of it.
#[verifier::external_type_specification]
#[verifier::external_body]
pub struct ExBody(axum::body::Body);

/// `axum::Router`, the route table. It is carried from the caller to the
/// service loop and nothing is claimed of it.
#[verifier::external_type_specification]
#[verifier::external_body]
#[verifier::reject_recursive_types(S)]
#[verifier::reject_recursive_types(B)]
pub struct ExRouter<S, B>(axum::Router<S, B>);

/// What every request handler of a worker shares.
pub struct State<P> {
    pub db: DB<P>,
}

impl<P> State<P> {
    /// The application state around this datastore handle.
    pub fn new(db: DB<P>) -> (r: Self)
        ensures
            r.db == db,
    {
        State { db }
    }

    /// Renders a page with `page` and answers with it. If the page cannot
    /// be rendered, the answer is the page of that error, rendered with
    /// `render_error`, or the plain-text fallback where that fails too.
    pub fn render<G, F>(&self, page: G, render_error: F) -> (r: Reply) where
        G: FnOnce() -> Result<String, String>,
        F: FnOnce(&ErrorTemplate) -> Result<String, String>,

        requires
            call_requires(page, ()),
            forall|t: &ErrorTemplate| call_requires(render_error, (t,)),
        ensures
            exists|rendered: Result<String, String>|
                call_ensures(page, (), rendered) && (match page_outcome(rendered_view(rendered)) {
                    Ok(reply) => r@ == reply,
                    Err(error) => exists|t: &ErrorTemplate, fallback: Result<String, String>|
                        t@ == error.template() && call_ensures(render_error, (t,), fallback) && r@
                            == error.template().reply(rendered_view(fallback)),
                }),
    {
        match page_reply(page()) {
            Ok(reply) => reply,
            Err(error) => error.into_response(render_error),
        }
    }
}

/// How a worker gets its application state.
#[derive(Debug)]
pub enum StatePlan {
    /// Take the datastore handle that was supplied.
    Supplied,
    /// Connect to the datastore at this URL.
    Connect(String),
}

/// A state plan as plain values.
pub enum StatePlanView {
    Supplied,
    Connect(Seq<char>),
}

impl View for StatePlan {
    type V = StatePlanView;

    open spec fn view(&self) -> StatePlanView {
        match *self {
            StatePlan::Supplied => StatePlanView::Supplied,
            StatePlan::Connect(url) => StatePlanView::Connect(url@),
        }
    }
}

/// The service before it is launched.
#[verifier::reject_recursive_types(P)]
pub struct System<P> {
    address: Address,
    prefork: u32,
    router: Option<axum::Router<Arc<State<P>>>>,
    config_path: String,
    config: Config,
    db: Option<DB<P>>,
}

/// The service as plain values.
#[verifier::reject_recursive_types(P)]
pub struct SystemView<P> {
    /// Where the listening socket is bound.
    pub address: Address,
    /// The configured worker count.
    pub prefork: u32,
    /// The route table, if one was given. Without one the service greets
    /// at its root.
    pub router: Option<axum::Router<Arc<State<P>>>>,
    /// The path of the configuration file; empty if there is none.
    pub config_path: Seq<char>,
    /// The configuration that holds if there is no file.
    pub config: ConfigView,
    /// The datastore handle, if one was supplied.
    pub db: Option<DB<P>>,
}

impl<P> View for System<P> {
    type V = SystemView<P>;

    closed spec fn view(&self) -> SystemView<P> {
        SystemView {
            address: self.address,
            prefork: self.prefork,
            router: self.router,
            config_path: self.config_path@,
            config: self.config@,
            db: self.db,
        }
    }
}

impl<P> SystemView<P> {
    /// A service as it is before anything is set: one process, every
    /// interface at port 3000, no route table, no configuration file, the
    /// stock configuration, no datastore handle.
    pub open spec fn is_initial(self) -> bool {
        &&& self.address == Address::unspecified()
        &&& self.prefork == 1
        &&& self.router is None
        &&& self.config_path == Seq::<char>::empty()
        &&& self.config == ConfigView::stock()
        &&& self.db is None
    }

    /// Whether the configuration is taken from a file.
    pub open spec fn reads_file(self) -> bool {
        self.config_path.len() > 0
    }

    /// The configuration that holds for the service once it is settled.
    /// A configuration file has no format yet: where one is named, the
    /// stock configuration holds.
    pub open spec fn effective_config(self) -> ConfigView {
        if self.reads_file() {
            ConfigView::stock()
        } else {
            self.config
        }
    }

    /// The service with its configuration settled.
    pub open spec fn resolved(self) -> SystemView<P> {
        SystemView {
            config: self.effective_config(),
            config_path: Seq::<char>::empty(),
            ..self
        }
    }

    /// How a worker of the service gets its state: a handle that was
    /// supplied is taken as it is; without one the worker connects with
    /// the configuration that the service carries. No file is read for it.
    pub open spec fn state_plan(self) -> StatePlanView {
        match self.db {
            Some(_) => StatePlanView::Supplied,
            None => StatePlanView::Connect(self.config.database.database_url()),
        }
    }
}

/// The text with which a service without a route table greets.
pub fn greeting() -> (r: &'static str)
    ensures
        r@ == "Hello, World!"@,
{
    "Hello, World!"
}

impl<P> System<P> {
    /// A service with nothing set.
    pub fn new() -> (r: Self)
        ensures
            r@.is_initial(),
    {
        System {
            address: Address::default(),
            prefork: 1,
            router: None,
            config_path: String::new(),
            config: Config::new(),
            db: None,
        }
    }

    /// A service with this route table and nothing else set.
    pub fn with_router(router: axum::Router<Arc<State<P>>>) -> (r: Self)
        ensures
            r@.router == Some(router),
            (SystemView { router: None, ..r@ }).is_initial(),
    {
        System::new().router(router)
    }

    /// A service with this configuration and nothing else set.
    pub fn with_config(config: Config) -> (r: Self)
        ensures
            r@.config == config@,
            (SystemView { config: ConfigView::stock(), ..r@ }).is_initial(),
    {
        System::new().config(config)
    }

    /// A service with this datastore handle and nothing else set.
    pub fn with_db(db: DB<P>) -> (r: Self)
        ensures
            r@.db == Some(db),
            (SystemView { db: None, ..r@ }).is_initial(),
    {
        System::new().db(db)
    }

    /// The service with this route table.
    pub fn router(self, router: axum::Router<Arc<State<P>>>) -> (r: Self)
        ensures
            r@ == (SystemView { router: Some(router), ..self@ }),
    {
        System {
            address: self.address,
            prefork: self.prefork,
            router: Some(router),
            config_path: self.config_path,
            config: self.config,
            db: self.db,
        }
    }

    /// The service with this configuration file.
    pub fn config_path(self, config_path: &str) -> (r: Self)
        ensures
            r@ == (SystemView { config_path: config_path@, ..self@ }),
    {
        System {
            address: self.address,
            prefork: self.prefork,
            router: self.router,
            config_path: String::from_str(config_path),
            config: self.config,
            db: self.db,
        }
    }

    /// The service with this configuration.
    pub fn config(self, config: Config) -> (r: Self)
        ensures
            r@ == (SystemView { config: config@, ..self@ }),
    {
        System {
            address: self.address,
            prefork: self.prefork,
            router: self.router,
            config_path: self.config_path,
            config,
            db: self.db,
        }
    }

    /// The service with this worker count: 1 for a single process, 0 for
    /// the default number of workers.
    pub fn prefork(self, num_process: u32) -> (r: Self)
        ensures
            r@ == (SystemView { prefork: num_process, ..self@ }),
    {
        System {
            address: self.address,
            prefork: num_process,
            router: self.router,
            config_path: self.config_path,
            config: self.config,
            db: self.db,
        }
    }

    /// The service with this datastore handle.
    pub fn db(self, db: DB<P>) -> (r: Self)
        ensures
            r@ == (SystemView { db: Some(db), ..self@ }),
    {
        System {
            address: self.address,
            prefork: self.prefork,
            router: self.router,
            config_path: self.config_path,
            config: self.config,
            db: Some(db),
        }
    }

    /// The service bound to this address.
    pub fn address(self, address: Address) -> (r: Self)
        ensures
            r@ == (SystemView { address, ..self@ }),
    {
        System {
            address,
            prefork: self.prefork,
            router: self.router,
            config_path: self.config_path,
            config: self.config,
            db: self.db,
        }
    }

    /// Sets the route table, and hands the service back for further
    /// changes.
    pub fn set_router(&mut self, router: axum::Router<Arc<State<P>>>) -> (r: &mut Self)
        ensures
            r@ == (SystemView { router: Some(router), ..old(self)@ }),
            *final(self) == *final(r),
    {
        self.router = Some(router);
        self
    }

    /// Sets the configuration, and hands the service back for further
    /// changes.
    pub fn set_config(&mut self, config: Config) -> (r: &mut Self)
        ensures
            r@ == (SystemView { config: config@, ..old(self)@ }),
            *final(self) == *final(r),
    {
        self.config = config;
        self
    }

    /// Sets the configuration file, and hands the service back for
    /// further changes.
    pub fn set_config_path(&mut self, config_path: &str) -> (r: &mut Self)
        ensures
            r@ == (SystemView { config_path: config_path@, ..old(self)@ }),
            *final(self) == *final(r),
    {
        self.config_path = String::from_str(config_path);
        self
    }

    /// Sets the worker count, and hands the service back for further
    /// changes.
    pub fn set_prefork(&mut self, num_process: u32) -> (r: &mut Self)
        ensures
            r@ == (SystemView { prefork: num_process, ..old(self)@ }),
            *final(self) == *final(r),
    {
        self.prefork = num_process;
        self
    }

    /// Sets the datastore handle, and hands the service back for further
    /// changes.
    pub fn set_db(&mut self, db: DB<P>) -> (r: &mut Self)
        ensures
            r@ == (SystemView { db: Some(db), ..old(self)@ }),
            *final(self) == *final(r),
    {
        self.db = Some(db);
        self
    }

    /// The address that the listening socket is bound to.
    pub fn get_address(&self) -> (r: Address)
        ensures
            r == self@.address,
    {
        self.address
    }

    /// The configured worker count.
    pub fn get_prefork(&self) -> (r: u32)
        ensures
            r == self@.prefork,
    {
        self.prefork
    }

    /// The route table, if one was given.
    pub fn get_router(&self) -> (r: Option<&axum::Router<Arc<State<P>>>>)
        ensures
            r == (match self@.router {
                Some(router) => Some(&router),
                None => None,
            }),
    {
        self.router.as_ref()
    }

    /// The path of the configuration file; empty if there is none.
    pub fn get_config_path(&self) -> (r: &str)
        ensures
            r@ == self@.config_path,
    {
        self.config_path.as_str()
    }

    /// The configuration that holds if there is no file.
    pub fn get_config(&self) -> (r: &Config)
        ensures
            r@ == self@.config,
    {
        &self.config
    }

    /// The datastore handle, if one was supplied.
    pub fn get_db(&self) -> (r: Option<&DB<P>>)
        ensures
            r == (match self@.db {
                Some(db) => Some(&db),
                None => None,
            }),
    {
        self.db.as_ref()
    }

    /// The mode in which the service runs.
    pub fn mode(&self) -> (mode: Mode)
        ensures
            mode == Mode::of(self@.prefork),
    {
        Mode::select(self.prefork)
    }

    /// The launch of the service.
    pub fn launcher(&self) -> (r: Launcher)
        ensures
            r@ == LaunchState::init(self@.address, self@.prefork),
    {
        Launcher::new(self.address, self.prefork)
    }

    /// The configuration that holds for the service once it is settled.
    pub fn effective_config(&self) -> (r: Config)
        ensures
            r@ == self@.effective_config(),
    {
        if self.config_path.as_str().unicode_len() > 0 {
            Config::load_config_file(self.config_path.as_str())
        } else {
            self.config.clone()
        }
    }

    /// The service with its configuration settled: what the file gives,
    /// where one is named, is now the configuration that the service
    /// carries, and no file is named any more. This is done once, before
    /// the socket is bound; every process that inherits the service then
    /// carries the same configuration.
    pub fn resolved(self) -> (r: Self)
        ensures
            r@ == self@.resolved(),
    {
        let config = self.effective_config();
        System {
            address: self.address,
            prefork: self.prefork,
            router: self.router,
            config_path: String::new(),
            config,
            db: self.db,
        }
    }

    /// How a worker of the service gets its application state. The
    /// worker reads no file: it plans from the configuration that the
    /// service carries.
    pub fn state_plan(&self) -> (plan: StatePlan)
        ensures
            plan@ == self@.state_plan(),
    {
        match &self.db {
            Some(_) => StatePlan::Supplied,
            None => StatePlan::Connect(self.config.database.to_database_url()),
        }
    }

    /// Takes the service apart for the service loop: the route table if
    /// there is one, the datastore handle if there is one, and the
    /// configuration that the service carries.
    pub fn into_parts(self) -> (r: (Option<axum::Router<Arc<State<P>>>>, Option<DB<P>>, Config))
        ensures
            r.0 == self@.router,
            r.1 == self@.db,
            r.2@ == self@.config,
    {
        (self.router, self.db, self.config)
    }
}

impl<P> Default for System<P> {
    fn default() -> (r: Self)
        ensures
            r@.is_initial(),
    {
        System::new()
    }
}

/// A worker reads no configuration from storage: whatever file the
/// service names, the worker's plan is made from the configuration that
/// the service carries, so the workers that run on duplicates of one
/// service all connect to the same URL, the one of that configuration.
pub proof fn lemma_plan_reads_no_file<P>(system: SystemView<P>, path: Seq<char>)
    ensures
        (SystemView { config_path: path, ..system }).state_plan() == system.state_plan(),
        system.db is None ==> system.state_plan() == StatePlanView::Connect(
            system.config.database.database_url(),
        ),
        system.db is Some ==> system.state_plan() == StatePlanView::Supplied,
{
}

/// Once the configuration of a service is settled, it is the same
/// wherever it is read: no file is named any more, settling again
/// changes nothing, and a worker that plans its state on a copy of the
/// settled service plans from the configuration that held when the
/// service was settled.
pub proof fn lemma_resolved_config_is_fixed<P>(system: SystemView<P>, copy: SystemView<P>)
    requires
        copy == system.resolved(),
    ensures
        !copy.reads_file(),
        copy.effective_config() == system.effective_config(),
        copy.config == system.effective_config(),
        copy.resolved() == copy,
        copy.state_plan() == (match system.db {
            Some(_) => StatePlanView::Supplied,
            None => StatePlanView::Connect(system.effective_config().database.database_url()),
        }),
        copy.address == system.address,
        copy.prefork == system.prefork,
{
}

} // verus!
