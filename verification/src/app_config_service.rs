//! Startup configuration and the reconciliation of running listeners
//! against the desired services.

use vstd::prelude::*;
use crate::api_service_manager::ManagerTable;
use crate::app_config::{
    lemma_listener_key_injective, service_key, ApiService, ApiServiceView, AppConfig, ServiceConfigView, ServiceType,
    StaticConfigView,
};
use crate::app_config_controller::{
    load_tls_material, tls_material_of, TlsMaterial, TlsMaterialView,
};
use crate::constants::DEFAULT_API_PORT;
use crate::http_proxy::{missing_mapping_message, GeneralError};
use crate::route::clone_opt_string;
use crate::text::same_text;
use vstd::string::StringExecFns;

verus! {

/// The table that the desired services call for: each service stored under
/// its listener key, a later service replacing an earlier one with its key.
pub open spec fn desired_table(services: Seq<ApiServiceView>) -> Map<Seq<char>, ServiceConfigView>
    decreases services.len(),
{
    if services.len() == 0 {
        Map::empty()
    } else {
        desired_table(services.drop_last()).insert(
            service_key(services.last()),
            services.last().service_config,
        )
    }
}

/// A listener to start.
#[derive(Debug, PartialEq, Eq)]
pub struct SpawnOrder {
    pub key: String,
    pub port: u16,
    pub server_type: ServiceType,
}

pub struct SpawnOrderView {
    pub key: Seq<char>,
    pub port: u16,
    pub server_type: ServiceType,
}

impl DeepView for SpawnOrder {
    type V = SpawnOrderView;

    open spec fn deep_view(&self) -> SpawnOrderView {
        SpawnOrderView { key: self.key@, port: self.port, server_type: self.server_type }
    }
}

impl View for SpawnOrder {
    type V = SpawnOrderView;

    open spec fn view(&self) -> SpawnOrderView {
        self.deep_view()
    }
}

/// The order that starts the listener of a service.
pub open spec fn order_for(service: ApiServiceView) -> SpawnOrderView {
    SpawnOrderView {
        key: service_key(service),
        port: service.listen_port,
        server_type: service.service_config.server_type,
    }
}

/// The keys of the listeners to stop: those running that no desired service
/// asks for.
pub open spec fn retired(running: Set<Seq<char>>, services: Seq<ApiServiceView>) -> Set<
    Seq<char>,
> {
    running.difference(desired_table(services).dom())
}

/// The listeners to start, in the order in which the services first ask for
/// them: one for each desired key under which nothing runs yet.
pub open spec fn spawn_orders(running: Set<Seq<char>>, services: Seq<ApiServiceView>) -> Seq<
    SpawnOrderView,
>
    decreases services.len(),
{
    if services.len() == 0 {
        Seq::empty()
    } else {
        let earlier = services.drop_last();
        let key = service_key(services.last());
        if running.contains(key) || desired_table(earlier).dom().contains(key) {
            spawn_orders(running, earlier)
        } else {
            spawn_orders(running, earlier).push(order_for(services.last()))
        }
    }
}

/// The keys named by a list of orders.
pub open spec fn order_keys(orders: Seq<SpawnOrderView>) -> Set<Seq<char>> {
    Set::new(|k: Seq<char>| exists|i: int| 0 <= i < orders.len() && #[trigger] orders[i].key == k)
}

/// What one reconciliation pass asks of the caller: first stop the
/// listeners under `shutdowns`, then start those in `spawns`.
#[derive(Debug, PartialEq, Eq)]
pub struct ReconcilePlan {
    pub shutdowns: Vec<String>,
    pub spawns: Vec<SpawnOrder>,
}

/// A key is desired exactly when some service asks for it.
pub proof fn lemma_desired_keys(services: Seq<ApiServiceView>, key: Seq<char>)
    ensures
        desired_table(services).dom().contains(key) <==> exists|i: int|
            0 <= i < services.len() && service_key(#[trigger] services[i]) == key,
    decreases services.len(),
{
    if services.len() > 0 {
        let earlier = services.drop_last();
        lemma_desired_keys(earlier, key);
        if exists|i: int| 0 <= i < services.len() && service_key(#[trigger] services[i]) == key {
            let i = choose|i: int|
                0 <= i < services.len() && service_key(#[trigger] services[i]) == key;
            if i < services.len() - 1 {
                assert(earlier[i] == services[i]);
            }
        }
    }
}

/// The orders name exactly the desired keys under which nothing runs.
pub proof fn lemma_spawn_keys(running: Set<Seq<char>>, services: Seq<ApiServiceView>)
    ensures
        order_keys(spawn_orders(running, services)) == desired_table(services).dom().difference(
            running,
        ),
    decreases services.len(),
{
    let orders = spawn_orders(running, services);
    let target = desired_table(services).dom().difference(running);
    if services.len() > 0 {
        let earlier = services.drop_last();
        let key = service_key(services.last());
        let before = spawn_orders(running, earlier);
        lemma_spawn_keys(running, earlier);
        assert forall|k: Seq<char>| order_keys(orders).contains(k) <==> target.contains(k) by {
            if order_keys(orders).contains(k) {
                let i = choose|i: int| 0 <= i < orders.len() && #[trigger] orders[i].key == k;
                if i < before.len() {
                    assert(order_keys(before).contains(k));
                }
            }
            if target.contains(k) {
                if k == key && !running.contains(key) && !desired_table(earlier).dom().contains(
                    key,
                ) {
                    assert(orders[orders.len() - 1].key == k);
                } else {
                    assert(order_keys(before).contains(k));
                    let i = choose|i: int| 0 <= i < before.len() && #[trigger] before[i].key == k;
                    assert(orders[i] == before[i]);
                }
            }
        }
    }
}

/// The listener key of every service, in order.
pub fn desired_key_list(services: &Vec<ApiService>) -> (r: Vec<String>)
    ensures
        r.len() == services.len(),
        forall|i: int| 0 <= i < r.len() ==> (#[trigger] r[i])@ == service_key(services[i]@),
{
    let mut out: Vec<String> = Vec::new();
    let mut i: usize = 0;
    while i < services.len()
        invariant
            i <= services.len(),
            out.len() == i,
            forall|j: int| 0 <= j < i ==> (#[trigger] out[j])@ == service_key(services[j]@),
        decreases services.len() - i,
    {
        out.push(services[i].listener_key());
        i += 1;
    }
    out
}

/// Whether `key` is one of `keys`.
pub fn key_listed(keys: &Vec<String>, key: &str) -> (r: bool)
    ensures
        r == exists|i: int| 0 <= i < keys.len() && (#[trigger] keys[i])@ == key@,
{
    let mut i: usize = 0;
    while i < keys.len()
        invariant
            i <= keys.len(),
            forall|j: int| 0 <= j < i ==> (#[trigger] keys[j])@ != key@,
        decreases keys.len() - i,
    {
        if same_text(keys[i].as_str(), key) {
            return true;
        }
        i += 1;
    }
    false
}

/// `x` is among the first `upto` of `keys`.
pub open spec fn among_first(keys: Seq<Seq<char>>, upto: int, x: Seq<char>) -> bool {
    exists|i: int| 0 <= i < upto && #[trigger] keys[i] == x
}

/// Stops tracking every running listener that no service asks for, and
/// returns the keys of those listeners.
fn retire_listeners(
    table: &mut ManagerTable,
    services: &Vec<ApiService>,
    wanted: &Vec<String>,
) -> (shutdowns: Vec<String>)
    requires
        wanted.len() == services.len(),
        forall|i: int|
            0 <= i < wanted.len() ==> (#[trigger] wanted[i])@ == service_key(services[i]@),
    ensures
        shutdowns.deep_view().no_duplicates(),
        shutdowns.deep_view().to_set() == retired(old(table)@.dom(), services.deep_view()),
        final(table)@ == old(table)@.remove_keys(
            retired(old(table)@.dom(), services.deep_view()),
        ),
{
    let ghost before = table@;
    let ghost sv = services.deep_view();
    let ghost desired = desired_table(sv).dom();
    let live = table.keys();
    let ghost lv = live.deep_view();
    let mut shutdowns: Vec<String> = Vec::new();
    let mut j: usize = 0;
    while j < live.len()
        invariant
            j <= live.len(),
            lv == live.deep_view(),
            lv.no_duplicates(),
            lv.to_set() == before.dom(),
            sv == services.deep_view(),
            desired == desired_table(sv).dom(),
            wanted.len() == services.len(),
            forall|i: int|
                0 <= i < wanted.len() ==> (#[trigger] wanted[i])@ == service_key(services[i]@),
            shutdowns.deep_view().no_duplicates(),
            forall|x: Seq<char>| #[trigger]
                shutdowns.deep_view().contains(x) <==> among_first(lv, j as int, x)
                    && !desired.contains(x),
            table@ == before.remove_keys(shutdowns.deep_view().to_set()),
        decreases live.len() - j,
    {
        let ghost prev = shutdowns.deep_view();
        let ghost key = lv[j as int];
        proof {
            lemma_desired_keys(sv, key);
        }
        let asked = key_listed(wanted, live[j].as_str());
        proof {
            if asked {
                let i = choose|i: int| 0 <= i < wanted.len() && (#[trigger] wanted[i])@ == key;
                assert(service_key(sv[i]) == key);
            } else if desired.contains(key) {
                let i = choose|i: int| 0 <= i < sv.len() && service_key(#[trigger] sv[i]) == key;
                assert(wanted[i]@ == key);
            }
        }
        if !asked {
            shutdowns.push(live[j].clone());
            table.remove(live[j].as_str());
            proof {
                assert(shutdowns.deep_view() =~= prev.push(key));
                assert(!prev.contains(key));
                assert(prev.push(key).to_set() =~= prev.to_set().insert(key)) by {
                    assert forall|x: Seq<char>|
                        prev.push(key).to_set().contains(x) <==> prev.to_set().insert(
                            key,
                        ).contains(x) by {
                        if prev.contains(x) {
                            let i = choose|i: int| 0 <= i < prev.len() && prev[i] == x;
                            assert(prev.push(key)[i] == x);
                        }
                        if x == key {
                            assert(prev.push(key)[prev.len() as int] == x);
                        }
                    }
                }
                assert forall|x: Seq<char>| #[trigger]
                    shutdowns.deep_view().contains(x) <==> among_first(lv, j + 1, x)
                        && !desired.contains(x) by {
                    assert(shutdowns.deep_view().to_set().contains(x) <==> prev.to_set().insert(
                        key,
                    ).contains(x));
                }
            }
        } else {
            proof {
                assert forall|x: Seq<char>| #[trigger]
                    shutdowns.deep_view().contains(x) <==> among_first(lv, j + 1, x)
                        && !desired.contains(x) by {
                }
            }
        }
        j += 1;
    }
    proof {
        let gone = shutdowns.deep_view().to_set();
        assert forall|x: Seq<char>| gone.contains(x) <==> retired(before.dom(), sv).contains(
            x,
        ) by {
        }
    }
    shutdowns
}

/// Publishes the routes of every desired service and lists the listeners
/// that have to be started for them.
fn publish_services(
    table: &mut ManagerTable,
    services: &Vec<ApiService>,
    wanted: &Vec<String>,
    Ghost(running): Ghost<Set<Seq<char>>>,
) -> (spawns: Vec<SpawnOrder>)
    requires
        wanted.len() == services.len(),
        forall|i: int|
            0 <= i < wanted.len() ==> (#[trigger] wanted[i])@ == service_key(services[i]@),
        old(table)@.dom() == running.intersect(desired_table(services.deep_view()).dom()),
    ensures
        spawns.deep_view() == spawn_orders(running, services.deep_view()),
        final(table)@ == desired_table(services.deep_view()),
{
    let ghost base = table@;
    let ghost sv = services.deep_view();
    let mut spawns: Vec<SpawnOrder> = Vec::new();
    let mut i: usize = 0;
    while i < services.len()
        invariant
            i <= services.len(),
            sv == services.deep_view(),
            wanted.len() == services.len(),
            forall|k: int|
                0 <= k < wanted.len() ==> (#[trigger] wanted[k])@ == service_key(services[k]@),
            base.dom() == running.intersect(desired_table(sv).dom()),
            table@ == base.union_prefer_right(desired_table(sv.take(i as int))),
            spawns.deep_view() == spawn_orders(running, sv.take(i as int)),
        decreases services.len() - i,
    {
        let ghost done = sv.take(i as int);
        let ghost next = sv.take(i + 1);
        let ghost key = service_key(sv[i as int]);
        proof {
            assert(next.drop_last() =~= done);
            lemma_desired_keys(sv, key);
        }
        let present = table.contains_key(wanted[i].as_str());
        table.insert(wanted[i].clone(), services[i].service_config.clone());
        if !present {
            spawns.push(
                SpawnOrder {
                    key: wanted[i].clone(),
                    port: services[i].listen_port,
                    server_type: services[i].service_config.server_type,
                },
            );
        }
        i += 1;
    }
    assert(sv.take(i as int) =~= sv);
    spawns
}

/// One reconciliation pass: brings the table of running listeners in line
/// with the desired services and tells the caller which listeners to stop
/// and which to start.
///
/// Afterwards the table holds exactly the desired services, each under its
/// listener key with its current routes. `shutdowns` holds, each once, the
/// keys that were running and are no longer desired; `spawns` holds one
/// order for each desired key that was not running, in the order in which
/// the services first name it. A key that was running and is still desired
/// appears in neither: its listener goes on, serving the new routes.
pub fn update_mapping_from_global_appconfig(
    table: &mut ManagerTable,
    app_config: &AppConfig,
) -> (plan: ReconcilePlan)
    ensures
        final(table)@ == desired_table(app_config@.api_service_config),
        plan.shutdowns.deep_view().no_duplicates(),
        plan.shutdowns.deep_view().to_set() == retired(
            old(table)@.dom(),
            app_config@.api_service_config,
        ),
        plan.spawns.deep_view() == spawn_orders(old(table)@.dom(), app_config@.api_service_config),
{
    let ghost running = table@.dom();
    let services = &app_config.api_service_config;
    let wanted = desired_key_list(services);
    let shutdowns = retire_listeners(table, services, &wanted);
    assert(table@.dom() =~= running.intersect(desired_table(services.deep_view()).dom()));
    let spawns = publish_services(table, services, &wanted, Ghost(running));
    ReconcilePlan { shutdowns, spawns }
}

/// The set of running listeners once a plan has been carried out: those
/// that ran before, without the ones stopped, with the ones started.
pub open spec fn listeners_after(
    running: Set<Seq<char>>,
    shutdowns: Set<Seq<char>>,
    spawns: Seq<SpawnOrderView>,
) -> Set<Seq<char>> {
    running.difference(shutdowns).union(order_keys(spawns))
}

/// Listeners and table entries stay in step: if a listener ran for every
/// table entry and for nothing else before a pass, then after the plan of
/// the pass is carried out, the running listeners are exactly the keys of
/// the desired services, which are exactly the keys of the table.
pub proof fn lemma_listeners_match_table(
    running: Set<Seq<char>>,
    services: Seq<ApiServiceView>,
)
    ensures
        listeners_after(running, retired(running, services), spawn_orders(running, services))
            == desired_table(services).dom(),
{
    lemma_spawn_keys(running, services);
}

/// No order is issued for a key under which a listener runs.
pub proof fn lemma_no_spawn_when_all_running(
    running: Set<Seq<char>>,
    services: Seq<ApiServiceView>,
)
    requires
        desired_table(services).dom().subset_of(running),
    ensures
        spawn_orders(running, services) == Seq::<SpawnOrderView>::empty(),
    decreases services.len(),
{
    if services.len() > 0 {
        let earlier = services.drop_last();
        assert forall|k: Seq<char>| desired_table(earlier).dom().contains(k) implies
            running.contains(k) by {
        }
        lemma_no_spawn_when_all_running(running, earlier);
    }
}

/// A second pass over unchanged services changes nothing: it stops no
/// listener, starts none, and leaves every table entry as it is.
pub proof fn lemma_reconcile_idempotent(services: Seq<ApiServiceView>)
    ensures
        retired(desired_table(services).dom(), services) == Set::<Seq<char>>::empty(),
        spawn_orders(desired_table(services).dom(), services) == Seq::<SpawnOrderView>::empty(),
{
    let running = desired_table(services).dom();
    lemma_no_spawn_when_all_running(running, services);
}

/// Two service lists ask for the same listeners, position by position.
pub open spec fn same_listeners(a: Seq<ApiServiceView>, b: Seq<ApiServiceView>) -> bool {
    &&& a.len() == b.len()
    &&& forall|i: int|
        0 <= i < a.len() ==> (#[trigger] a[i]).listen_port == b[i].listen_port
            && a[i].service_config.server_type == b[i].service_config.server_type
}

/// Service lists that ask for the same listeners have the same desired keys.
pub proof fn lemma_same_listeners_same_keys(a: Seq<ApiServiceView>, b: Seq<ApiServiceView>)
    requires
        same_listeners(a, b),
    ensures
        desired_table(a).dom() == desired_table(b).dom(),
{
    assert forall|k: Seq<char>| desired_table(a).dom().contains(k) <==> desired_table(
        b,
    ).dom().contains(k) by {
        lemma_desired_keys(a, k);
        lemma_desired_keys(b, k);
        if desired_table(b).dom().contains(k) {
            let i = choose|i: int| 0 <= i < b.len() && service_key(#[trigger] b[i]) == k;
            assert(a[i].listen_port == b[i].listen_port);
        }
    }
}

/// Changing only what the services serve - their routes, certificates or
/// identifiers - keeps every listener: the pass after the change stops none
/// and starts none, and the table then holds the changed services.
pub proof fn lemma_route_change_keeps_listeners(
    before: Seq<ApiServiceView>,
    after: Seq<ApiServiceView>,
)
    requires
        same_listeners(before, after),
    ensures
        retired(desired_table(before).dom(), after) == Set::<Seq<char>>::empty(),
        spawn_orders(desired_table(before).dom(), after) == Seq::<SpawnOrderView>::empty(),
{
    lemma_same_listeners_same_keys(before, after);
    lemma_reconcile_idempotent(after);
}

/// Two services ask for the same listener: same port, same protocol.
pub open spec fn same_listener(a: ApiServiceView, b: ApiServiceView) -> bool {
    a.listen_port == b.listen_port && a.service_config.server_type
        == b.service_config.server_type
}

/// No two services of the list ask for the same listener.
pub open spec fn distinct_listeners(services: Seq<ApiServiceView>) -> bool {
    forall|i: int, j: int|
        0 <= i < j < services.len() ==> !same_listener(#[trigger] services[i], #[trigger] services[j])
}

/// Services that ask for different listeners have different listener keys.
pub proof fn lemma_distinct_listeners_distinct_keys(services: Seq<ApiServiceView>)
    requires
        distinct_listeners(services),
    ensures
        forall|i: int, j: int|
            0 <= i < j < services.len() ==> service_key(#[trigger] services[i]) != service_key(
                #[trigger] services[j],
            ),
{
    assert forall|i: int, j: int| 0 <= i < j < services.len() implies service_key(
        #[trigger] services[i],
    ) != service_key(#[trigger] services[j]) by {
        if service_key(services[i]) == service_key(services[j]) {
            lemma_listener_key_injective(
                services[i].listen_port,
                services[i].service_config.server_type,
                services[j].listen_port,
                services[j].service_config.server_type,
            );
        }
    }
}

/// The desired table is finite.
pub proof fn lemma_desired_table_finite(services: Seq<ApiServiceView>)
    ensures
        desired_table(services).dom().finite(),
    decreases services.len(),
{
    if services.len() > 0 {
        lemma_desired_table_finite(services.drop_last());
    }
}

/// When no two services ask for the same listener, a pass over an empty
/// table starts one listener for every service, in the order of the
/// services, and the table then has exactly as many entries as there are
/// services.
pub proof fn lemma_distinct_services_all_start(services: Seq<ApiServiceView>)
    requires
        distinct_listeners(services),
    ensures
        spawn_orders(Set::empty(), services) == Seq::new(
            services.len(),
            |i: int| order_for(services[i]),
        ),
        desired_table(services).dom().finite(),
        desired_table(services).dom().len() == services.len(),
    decreases services.len(),
{
    if services.len() > 0 {
        let earlier = services.drop_last();
        let key = service_key(services.last());
        assert forall|i: int, j: int| 0 <= i < j < earlier.len() implies !same_listener(
            #[trigger] earlier[i],
            #[trigger] earlier[j],
        ) by {
        }
        lemma_distinct_services_all_start(earlier);
        lemma_distinct_listeners_distinct_keys(services);
        lemma_desired_keys(earlier, key);
    }
}

/// Whether no two services of the list ask for the same listener.
pub fn has_distinct_listeners(services: &Vec<ApiService>) -> (r: bool)
    ensures
        r == distinct_listeners(services.deep_view()),
{
    let ghost sv = services.deep_view();
    let mut j: usize = 0;
    while j < services.len()
        invariant
            j <= services.len(),
            sv == services.deep_view(),
            forall|a: int, b: int|
                0 <= a < b < j ==> !same_listener(#[trigger] sv[a], #[trigger] sv[b]),
        decreases services.len() - j,
    {
        let mut i: usize = 0;
        while i < j
            invariant
                i <= j < services.len(),
                sv == services.deep_view(),
                forall|a: int| 0 <= a < i ==> !same_listener(#[trigger] sv[a], sv[j as int]),
            decreases j - i,
        {
            assert(sv[i as int] == services[i as int]@);
            assert(sv[j as int] == services[j as int]@);
            if services[i].listen_port == services[j].listen_port
                && services[i].service_config.server_type
                == services[j].service_config.server_type {
                return false;
            }
            i += 1;
        }
        j += 1;
    }
    true
}

/// What the environment says about the static options; `None` for a
/// variable that is not set.
#[derive(Debug, PartialEq, Eq)]
pub struct EnvSettings {
    pub database_url: Option<String>,
    pub admin_port: Option<String>,
    pub access_log: Option<String>,
    pub config_file_path: Option<String>,
}

pub struct EnvSettingsView {
    pub database_url: Option<Seq<char>>,
    pub admin_port: Option<Seq<char>>,
    pub access_log: Option<Seq<char>>,
    pub config_file_path: Option<Seq<char>>,
}

impl View for EnvSettings {
    type V = EnvSettingsView;

    open spec fn view(&self) -> EnvSettingsView {
        EnvSettingsView {
            database_url: self.database_url.deep_view(),
            admin_port: self.admin_port.deep_view(),
            access_log: self.access_log.deep_view(),
            config_file_path: self.config_file_path.deep_view(),
        }
    }
}

/// The static options after the environment has been applied to them: the
/// admin port is the configured one, or the default; each other option is
/// the configured one, or stays as it was.
pub open spec fn static_config_from(before: StaticConfigView, env: EnvSettingsView) -> StaticConfigView {
    StaticConfigView {
        database_url: if env.database_url is Some {
            env.database_url
        } else {
            before.database_url
        },
        admin_port: match env.admin_port {
            Some(port) => port,
            None => DEFAULT_API_PORT@,
        },
        access_log: if env.access_log is Some {
            env.access_log
        } else {
            before.access_log
        },
        config_file_path: if env.config_file_path is Some {
            env.config_file_path
        } else {
            before.config_file_path
        },
    }
}

/// Applies the environment to the static options. The services are left
/// as they are.
pub fn init_static_config(config: &mut AppConfig, env: &EnvSettings)
    ensures
        final(config)@.static_config == static_config_from(old(config)@.static_config, env@),
        final(config)@.api_service_config == old(config)@.api_service_config,
{
    if env.database_url.is_some() {
        config.static_config.database_url = clone_opt_string(&env.database_url);
    }
    config.static_config.admin_port = match &env.admin_port {
        Some(port) => port.clone(),
        None => DEFAULT_API_PORT.to_owned(),
    };
    if env.access_log.is_some() {
        config.static_config.access_log = clone_opt_string(&env.access_log);
    }
    if env.config_file_path.is_some() {
        config.static_config.config_file_path = clone_opt_string(&env.config_file_path);
    }
}

/// The file from which the services are to be loaded, if one is
/// configured.
pub fn config_file_to_load(config: &AppConfig) -> (r: Option<String>)
    ensures
        r.deep_view() == config@.static_config.config_file_path,
{
    clone_opt_string(&config.static_config.config_file_path)
}

/// Installs the services loaded from the configured file. `loaded` is what
/// reading and parsing that file gave; it is looked at only when a file is
/// configured. Without a configured file nothing changes and the call
/// succeeds; a failed load changes nothing and is reported with its cause.
pub fn init_app_service_config(
    config: &mut AppConfig,
    loaded: Result<Vec<ApiService>, String>,
) -> (r: Result<(), GeneralError>)
    ensures
        final(config)@.static_config == old(config)@.static_config,
        match old(config)@.static_config.config_file_path {
            None => r is Ok && final(config)@ == old(config)@,
            Some(_) => match loaded {
                Ok(services) => r is Ok && final(config)@.api_service_config
                    == services.deep_view(),
                Err(cause) => r is Err && r->Err_0@ == cause@ && final(config)@ == old(config)@,
            },
        },
{
    if config.static_config.config_file_path.is_none() {
        return Ok(());
    }
    match loaded {
        Ok(services) => {
            config.api_service_config = services;
            Ok(())
        },
        Err(cause) => Err(GeneralError(cause)),
    }
}

/// Builds the configuration at startup from the environment and from what
/// loading the configured file gave, and reports a failed load.
pub fn init(env: &EnvSettings, loaded: Result<Vec<ApiService>, String>) -> (r: (
    AppConfig,
    Option<GeneralError>,
))
    ensures
        r.0@.static_config == static_config_from(
            StaticConfigView {
                access_log: None,
                database_url: None,
                admin_port: Seq::<char>::empty(),
                config_file_path: None,
            },
            env@,
        ),
        match (env@.config_file_path, loaded) {
            (Some(_), Ok(services)) => r.1 is None && r.0@.api_service_config
                == services.deep_view(),
            (Some(_), Err(cause)) => r.1 is Some && r.1->Some_0@ == cause@
                && r.0@.api_service_config == Seq::<ApiServiceView>::empty(),
            (None, _) => r.1 is None && r.0@.api_service_config == Seq::<ApiServiceView>::empty(),
        },
{
    let mut config = AppConfig::default();
    init_static_config(&mut config, env);
    match init_app_service_config(&mut config, loaded) {
        Ok(_) => (config, None),
        Err(e) => (config, Some(e)),
    }
}

/// The kind of worker that serves a listener, with what it needs to start.
#[derive(Debug, PartialEq, Eq)]
pub enum WorkerPlan {
    Http,
    Https(TlsMaterial),
    Tcp,
}

pub enum WorkerPlanView {
    Http,
    Https(TlsMaterialView),
    Tcp,
}

impl View for WorkerPlan {
    type V = WorkerPlanView;

    open spec fn view(&self) -> WorkerPlanView {
        match self {
            WorkerPlan::Http => WorkerPlanView::Http,
            WorkerPlan::Https(m) => WorkerPlanView::Https(m@),
            WorkerPlan::Tcp => WorkerPlanView::Tcp,
        }
    }
}

/// The worker for a listener of the given protocol under `key`: an HTTPS
/// listener takes its TLS material from the table entry under its key and
/// cannot start without the entry or with unusable material.
pub open spec fn worker_for(
    table: Map<Seq<char>, ServiceConfigView>,
    server_type: ServiceType,
    key: Seq<char>,
) -> Result<WorkerPlanView, Seq<char>> {
    match server_type {
        ServiceType::HTTP => Ok(WorkerPlanView::Http),
        ServiceType::TCP => Ok(WorkerPlanView::Tcp),
        ServiceType::HTTPS => if !table.dom().contains(key) {
            Err(missing_mapping_message(key))
        } else {
            match tls_material_of(table[key].cert_str, table[key].key_str) {
                Ok(m) => Ok(WorkerPlanView::Https(m)),
                Err(cause) => Err(cause),
            }
        },
    }
}

/// The views inside a result of a worker plan.
pub open spec fn plan_view(r: Result<WorkerPlan, GeneralError>) -> Result<WorkerPlanView, Seq<char>> {
    match r {
        Ok(p) => Ok(p@),
        Err(e) => Err(e@),
    }
}

/// Chooses the worker that serves the listener under `mapping_key`.
pub fn start_proxy(table: &ManagerTable, server_type: ServiceType, mapping_key: &str) -> (r: Result<
    WorkerPlan,
    GeneralError,
>)
    ensures
        plan_view(r) == worker_for(table@, server_type, mapping_key@),
{
    match server_type {
        ServiceType::HTTP => Ok(WorkerPlan::Http),
        ServiceType::TCP => Ok(WorkerPlan::Tcp),
        ServiceType::HTTPS => match table.get(mapping_key) {
            None => {
                let mut cause = "Can not find the config mapping on the key ".to_owned();
                cause.append(mapping_key);
                cause.append("!");
                Err(GeneralError(cause))
            },
            Some(config) => match load_tls_material(&config.cert_str, &config.key_str) {
                Ok(m) => Ok(WorkerPlan::Https(m)),
                Err(e) => Err(e),
            },
        },
    }
}

} // verus!
