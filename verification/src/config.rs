//! The declarative configuration: endpoints, routes, and their validation.
//!
//! Loading the file and binding sockets belong to the I/O layer; what is
//! here is everything the configuration *means*: which route pairings are
//! legal, which endpoint table entries they reference, and what binding
//! each endpoint calls for.

use vstd::prelude::*;

use crate::connection::{data_matches_endpoint, get_connection_data, ConnectionData};
use crate::error::ConfigError;

verus! {

/// Whether an endpoint speaks the tunnel protocol or is a plain stream.
#[derive(Clone, Copy, Debug, PartialEq, Eq, Structural)]
pub enum ConnectionType {
    Tunnel,
    Direct,
}

/// Whether an endpoint listens or dials.
#[derive(Clone, Copy, Debug, PartialEq, Eq, Structural)]
pub enum Direction {
    Inbound,
    Outbound,
}

/// One endpoint of the configuration.
pub struct Endpoint {
    /// The host to bind or dial; absent means every local interface.
    pub host: Option<String>,
    pub port: u16,
    pub kind: ConnectionType,
    pub direction: Direction,
    /// Required when `kind` is tunnel.
    pub secret: Option<String>,
}

/// One route: two distinct endpoint names and its worker-pool size.
pub struct Route {
    pub endpoints: [String; 2],
    pub size: usize,
}

/// The whole configuration. The endpoint table is an association list:
/// name to endpoint, first entry winning on a repeated name.
pub struct VeloxidConfig {
    pub routes: Vec<Route>,
    pub endpoints: Vec<(String, Endpoint)>,
    pub log_level: Option<u8>,
}

/// A verbosity level, from silent to trace.
#[derive(Clone, Copy, Debug, PartialEq, Eq, Structural)]
pub enum LogLevel {
    Off,
    Error,
    Warn,
    Info,
    Debug,
    Trace,
}

/// The level a configured number selects: 0 silences, 1, 2, 4 and 5 pick
/// their levels, and everything else — 3, larger numbers, or no setting —
/// falls back to `Info`.
pub open spec fn level_filter_spec(log_level: Option<u8>) -> LogLevel {
    match log_level {
        Some(0u8) => LogLevel::Off,
        Some(1u8) => LogLevel::Error,
        Some(2u8) => LogLevel::Warn,
        Some(4u8) => LogLevel::Debug,
        Some(5u8) => LogLevel::Trace,
        _ => LogLevel::Info,
    }
}

/// Maps the configured `log_level` to the verbosity to run with, exactly
/// as `level_filter_spec` says.
pub fn level_filter(log_level: Option<u8>) -> (r: LogLevel)
    ensures
        r == level_filter_spec(log_level),
{
    match log_level {
        Some(0u8) => LogLevel::Off,
        Some(1u8) => LogLevel::Error,
        Some(2u8) => LogLevel::Warn,
        Some(4u8) => LogLevel::Debug,
        Some(5u8) => LogLevel::Trace,
        _ => LogLevel::Info,
    }
}

/// The name in slot `t` (0 or 1) of route `j`.
pub open spec fn route_name_at(routes: Seq<Route>, j: int, t: int) -> Seq<char> {
    routes[j].endpoints@[t]@
}

/// Whether some route pairs an endpoint name with itself.
pub open spec fn has_self_route(routes: Seq<Route>) -> bool {
    exists|j: int|
        0 <= j < routes.len() && #[trigger] route_name_at(routes, j, 0) == route_name_at(
            routes,
            j,
            1,
        )
}

/// Whether the routes reference the name in some slot.
pub open spec fn name_referenced(routes: Seq<Route>, name: Seq<char>) -> bool {
    exists|j: int, t: int|
        0 <= j < routes.len() && 0 <= t < 2 && #[trigger] route_name_at(routes, j, t) == name
}

/// Whether the endpoint table has an entry of the name.
pub open spec fn table_contains(table: Seq<(String, Endpoint)>, name: Seq<char>) -> bool {
    exists|i: int| 0 <= i < table.len() && (#[trigger] table[i].0@) == name
}

/// The first endpoint of the name in the table.
pub open spec fn table_first(table: Seq<(String, Endpoint)>, name: Seq<char>) -> Endpoint
    decreases table.len(),
{
    if table.len() == 0 {
        arbitrary()
    } else if table[0].0@ == name {
        table[0].1
    } else {
        table_first(table.drop_first(), name)
    }
}

/// Whether the table's entry of the name is a tunnel without a secret —
/// the one endpoint shape that can never be bound.
pub open spec fn tunnel_lacks_secret(table: Seq<(String, Endpoint)>, name: Seq<char>) -> bool {
    &&& table_contains(table, name)
    &&& table_first(table, name).kind is Tunnel
    &&& table_first(table, name).secret is None
}

/// Whether every name the routes use resolves in the table.
pub open spec fn all_names_resolve(cfg: VeloxidConfig) -> bool {
    forall|j: int, t: int|
        0 <= j < cfg.routes@.len() && 0 <= t < 2 ==> table_contains(
            cfg.endpoints@,
            #[trigger] route_name_at(cfg.routes@, j, t),
        )
}

/// Whether some route references a tunnel endpoint without a secret.
pub open spec fn some_referenced_tunnel_lacks_secret(cfg: VeloxidConfig) -> bool {
    exists|j: int, t: int|
        0 <= j < cfg.routes@.len() && 0 <= t < 2 && tunnel_lacks_secret(
            cfg.endpoints@,
            #[trigger] route_name_at(cfg.routes@, j, t),
        )
}

/// Whether the built map holds the name of route `j`, slot `t`.
pub open spec fn name_covered(
    m: Seq<(String, ConnectionData)>,
    routes: Seq<Route>,
    j: int,
    t: int,
) -> bool {
    exists|k: int| 0 <= k < m.len() && (#[trigger] m[k].0@) == route_name_at(routes, j, t)
}

/// Whether the built map holds the name at all.
pub open spec fn map_has_name_spec(m: Seq<(String, ConnectionData)>, name: Seq<char>) -> bool {
    exists|k: int| 0 <= k < m.len() && (#[trigger] m[k].0@) == name
}

/// One entry of a finished endpoint map: its name is referenced by some
/// route, resolves in the table, and its binding is exactly what that
/// endpoint calls for.
pub open spec fn entry_ok(cfg: VeloxidConfig, e: (String, ConnectionData)) -> bool {
    &&& name_referenced(cfg.routes@, e.0@)
    &&& table_contains(cfg.endpoints@, e.0@)
    &&& data_matches_endpoint(e.1, table_first(cfg.endpoints@, e.0@))
}

/// What a finished endpoint map must be: every entry sound, every
/// referenced name present, and no name twice.
pub open spec fn endpoint_map_ok(cfg: VeloxidConfig, m: Seq<(String, ConnectionData)>) -> bool {
    &&& forall|k: int| 0 <= k < m.len() ==> entry_ok(cfg, #[trigger] m[k])
    &&& forall|j: int, t: int|
        0 <= j < cfg.routes@.len() && 0 <= t < 2 ==> #[trigger] name_covered(m, cfg.routes@, j, t)
    &&& forall|k1: int, k2: int|
        #![trigger m[k1], m[k2]]
        0 <= k1 < k2 < m.len() ==> m[k1].0@ != m[k2].0@
}

/// A name already covered stays covered when the map only grows at the end.
proof fn lemma_covered_extend(
    pre: Seq<(String, ConnectionData)>,
    post: Seq<(String, ConnectionData)>,
    routes: Seq<Route>,
    j: int,
    t: int,
)
    requires
        name_covered(pre, routes, j, t),
        post.len() >= pre.len(),
        forall|k: int| 0 <= k < pre.len() ==> post[k] == pre[k],
    ensures
        name_covered(post, routes, j, t),
{
    let k = choose|k: int| 0 <= k < pre.len() && (#[trigger] pre[k].0@) == route_name_at(
        routes,
        j,
        t,
    );
    assert(post[k].0@ == route_name_at(routes, j, t));
}

impl VeloxidConfig {
    /// Validates the routes and builds the binding of every referenced
    /// endpoint. A route naming one endpoint twice is `RouteToSelf`; a
    /// route name missing from the table is `EndpointNotFound`; a
    /// referenced tunnel endpoint without a secret is `NoSecret`; with
    /// none of those faults the map is owed and complete.
    pub fn get_endpoint_map(&self) -> (r: Result<Vec<(String, ConnectionData)>, ConfigError>)
        ensures
            (r is Err && r->Err_0 == ConfigError::RouteToSelf) <==> has_self_route(self.routes@),
            r is Err && r->Err_0 == ConfigError::EndpointNotFound ==> !all_names_resolve(*self),
            r is Err && r->Err_0 == ConfigError::NoSecret ==> some_referenced_tunnel_lacks_secret(
                *self,
            ),
            r is Err ==> r->Err_0 == ConfigError::RouteToSelf || r->Err_0
                == ConfigError::EndpointNotFound || r->Err_0 == ConfigError::NoSecret,
            r is Ok ==> endpoint_map_ok(*self, r->Ok_0@),
    {
        let mut i: usize = 0;
        while i < self.routes.len()
            invariant
                i <= self.routes@.len(),
                forall|j: int|
                    0 <= j < i ==> #[trigger] route_name_at(self.routes@, j, 0) != route_name_at(
                        self.routes@,
                        j,
                        1,
                    ),
            decreases self.routes@.len() - i,
        {
            let route = &self.routes[i];
            let n0: &String = vstd::array::array_index_get(&route.endpoints, 0);
            let n1: &String = vstd::array::array_index_get(&route.endpoints, 1);
            if eq_strings(n0, n1) {
                proof {
                    assert(route_name_at(self.routes@, i as int, 0) == route_name_at(
                        self.routes@,
                        i as int,
                        1,
                    ));
                }
                return Err(ConfigError::RouteToSelf);
            }
            i = i + 1;
        }
        proof {
            assert(!has_self_route(self.routes@));
        }
        let mut result: Vec<(String, ConnectionData)> = Vec::new();
        let mut i: usize = 0;
        while i < self.routes.len()
            invariant
                i <= self.routes@.len(),
                !has_self_route(self.routes@),
                forall|k: int| 0 <= k < result@.len() ==> entry_ok(*self, #[trigger] result@[k]),
                forall|j: int, t: int|
                    0 <= j < i && 0 <= t < 2 ==> #[trigger] name_covered(
                        result@,
                        self.routes@,
                        j,
                        t,
                    ),
                forall|k1: int, k2: int|
                    #![trigger result@[k1], result@[k2]]
                    0 <= k1 < k2 < result@.len() ==> result@[k1].0@ != result@[k2].0@,
            decreases self.routes@.len() - i,
        {
            let route = &self.routes[i];
            let ghost pre_route = result@;
            let n0: &String = vstd::array::array_index_get(&route.endpoints, 0);
            proof {
                assert(n0@ == route_name_at(self.routes@, i as int, 0));
            }
            match self.add_endpoint_entry(&mut result, n0, Ghost((i as int, 0int))) {
                Err(e) => {
                    return Err(e);
                },
                Ok(()) => {},
            }
            let ghost mid_route = result@;
            let n1: &String = vstd::array::array_index_get(&route.endpoints, 1);
            proof {
                assert(n1@ == route_name_at(self.routes@, i as int, 1));
            }
            match self.add_endpoint_entry(&mut result, n1, Ghost((i as int, 1int))) {
                Err(e) => {
                    return Err(e);
                },
                Ok(()) => {},
            }
            proof {
                assert forall|j: int, t: int| 0 <= j < i + 1 && 0 <= t < 2 implies #[trigger]
                name_covered(result@, self.routes@, j, t) by {
                    if j < i {
                        lemma_covered_extend(pre_route, mid_route, self.routes@, j, t);
                        lemma_covered_extend(mid_route, result@, self.routes@, j, t);
                    } else if t == 0 {
                        lemma_covered_extend(mid_route, result@, self.routes@, j, t);
                    }
                }
            }
            i = i + 1;
        }
        Ok(result)
    }

    /// Looks one route name up, validates its endpoint, and appends its
    /// binding to the map unless the name is already there. The ghost
    /// `slot` records which route slot asked, so failures speak of it.
    fn add_endpoint_entry(
        &self,
        result: &mut Vec<(String, ConnectionData)>,
        name: &String,
        slot: Ghost<(int, int)>,
    ) -> (r: Result<(), ConfigError>)
        requires
            0 <= slot@.0 < self.routes@.len(),
            0 <= slot@.1 < 2,
            name@ == route_name_at(self.routes@, slot@.0, slot@.1),
            forall|k: int| 0 <= k < old(result)@.len() ==> entry_ok(*self, #[trigger] old(result)@[k]),
            forall|k1: int, k2: int|
                #![trigger old(result)@[k1], old(result)@[k2]]
                0 <= k1 < k2 < old(result)@.len() ==> old(result)@[k1].0@ != old(result)@[k2].0@,
        ensures
            r is Err ==> final(result)@ == old(result)@,
            r is Err && r->Err_0 == ConfigError::EndpointNotFound ==> !all_names_resolve(*self),
            r is Err && r->Err_0 == ConfigError::NoSecret ==> some_referenced_tunnel_lacks_secret(
                *self,
            ),
            r is Err ==> r->Err_0 == ConfigError::EndpointNotFound || r->Err_0
                == ConfigError::NoSecret,
            r is Ok ==> {
                &&& final(result)@.len() >= old(result)@.len()
                &&& forall|k: int| 0 <= k < old(result)@.len() ==> final(result)@[k] == old(result)@[k]
                &&& forall|k: int|
                    0 <= k < final(result)@.len() ==> entry_ok(*self, #[trigger] final(result)@[k])
                &&& forall|k1: int, k2: int|
                    #![trigger final(result)@[k1], final(result)@[k2]]
                    0 <= k1 < k2 < final(result)@.len() ==> final(result)@[k1].0@ != final(
                        result
                    )@[k2].0@
                &&& name_covered(final(result)@, self.routes@, slot@.0, slot@.1)
            },
    {
        if map_has_name(result, name) {
            proof {
                let k = choose|k: int|
                    0 <= k < result@.len() && (#[trigger] result@[k].0@) == name@;
                assert(result@[k].0@ == route_name_at(self.routes@, slot@.0, slot@.1));
            }
            return Ok(());
        }
        match table_lookup(&self.endpoints, name) {
            None => {
                proof {
                    assert(!table_contains(
                        self.endpoints@,
                        route_name_at(self.routes@, slot@.0, slot@.1),
                    ));
                }
                Err(ConfigError::EndpointNotFound)
            },
            Some(idx) => {
                let endpoint = &self.endpoints[idx].1;
                match get_connection_data(endpoint) {
                    Err(_) => {
                        proof {
                            assert(tunnel_lacks_secret(
                                self.endpoints@,
                                route_name_at(self.routes@, slot@.0, slot@.1),
                            ));
                        }
                        Err(ConfigError::NoSecret)
                    },
                    Ok(data) => {
                        let ghost pre = result@;
                        result.push((name.clone(), data));
                        proof {
                            let n = result@.len() - 1;
                            assert(result@[n].0@ == route_name_at(
                                self.routes@,
                                slot@.0,
                                slot@.1,
                            ));
                            assert(entry_ok(*self, result@[n]));
                            assert forall|k1: int, k2: int|
                                #![trigger result@[k1], result@[k2]]
                                0 <= k1 < k2 < result@.len() implies result@[k1].0@
                                != result@[k2].0@ by {
                                if k2 == n {
                                    assert(!map_has_name_spec(pre, name@));
                                    assert(pre[k1].0@ != name@);
                                }
                            }
                        }
                        Ok(())
                    },
                }
            },
        }
    }

    /// The endpoint names the table holds but the map does not: declared,
    /// never referenced by a route. They are a warning, not an error.
    pub fn warn_unused_endpoints(&self, endpoint_map: &Vec<(String, ConnectionData)>) -> (unused:
        Vec<String>)
        ensures
            forall|k: int|
                0 <= k < unused@.len() ==> table_contains(self.endpoints@, #[trigger] unused@[k]@)
                    && !map_has_name_spec(endpoint_map@, unused@[k]@),
            forall|j: int|
                0 <= j < self.endpoints@.len() && !map_has_name_spec(
                    endpoint_map@,
                    #[trigger] self.endpoints@[j].0@,
                ) ==> in_string_list(unused@, self.endpoints@[j].0@),
    {
        let mut unused: Vec<String> = Vec::new();
        let mut j: usize = 0;
        while j < self.endpoints.len()
            invariant
                j <= self.endpoints@.len(),
                forall|k: int|
                    0 <= k < unused@.len() ==> table_contains(
                        self.endpoints@,
                        #[trigger] unused@[k]@,
                    ) && !map_has_name_spec(endpoint_map@, unused@[k]@),
                forall|jj: int|
                    0 <= jj < j && !map_has_name_spec(
                        endpoint_map@,
                        #[trigger] self.endpoints@[jj].0@,
                    ) ==> in_string_list(unused@, self.endpoints@[jj].0@),
            decreases self.endpoints@.len() - j,
        {
            let name: &String = &self.endpoints[j].0;
            let ghost pre = unused@;
            if !map_has_name(endpoint_map, name) {
                unused.push(name.clone());
                proof {
                    assert(unused@[unused@.len() - 1]@ == self.endpoints@[j as int].0@);
                    assert forall|jj: int|
                        0 <= jj < j + 1 && !map_has_name_spec(
                            endpoint_map@,
                            #[trigger] self.endpoints@[jj].0@,
                        ) implies in_string_list(unused@, self.endpoints@[jj].0@) by {
                        if jj < j {
                            lemma_string_list_extend(pre, unused@, self.endpoints@[jj].0@);
                        }
                    }
                }
            }
            j = j + 1;
        }
        unused
    }
}

/// Whether the list holds a string of those characters.
pub open spec fn in_string_list(l: Seq<String>, name: Seq<char>) -> bool {
    exists|k: int| 0 <= k < l.len() && (#[trigger] l[k]@) == name
}

/// A string already listed stays listed when the list only grows at the end.
proof fn lemma_string_list_extend(pre: Seq<String>, post: Seq<String>, name: Seq<char>)
    requires
        in_string_list(pre, name),
        post.len() >= pre.len(),
        forall|k: int| 0 <= k < pre.len() ==> post[k] == pre[k],
    ensures
        in_string_list(post, name),
{
    let k = choose|k: int| 0 <= k < pre.len() && (#[trigger] pre[k]@) == name;
    assert(post[k]@ == name);
}

/// String equality by contents.
fn eq_strings(a: &String, b: &String) -> (r: bool)
    ensures
        r == (a@ == b@),
{
    a.eq(b)
}

/// Linear search of the built map for a name.
fn map_has_name(m: &Vec<(String, ConnectionData)>, name: &String) -> (r: bool)
    ensures
        r == map_has_name_spec(m@, name@),
{
    let mut k: usize = 0;
    while k < m.len()
        invariant
            k <= m@.len(),
            forall|kk: int| 0 <= kk < k ==> (#[trigger] m@[kk].0@) != name@,
        decreases m@.len() - k,
    {
        if eq_strings(&m[k].0, name) {
            return true;
        }
        k = k + 1;
    }
    false
}

/// Linear search of the endpoint table: the index of the first entry of
/// the name, or nothing when the table lacks it.
fn table_lookup(table: &Vec<(String, Endpoint)>, name: &String) -> (r: Option<usize>)
    ensures
        r is Some <==> table_contains(table@, name@),
        r matches Some(idx) ==> 0 <= idx < table@.len() && table@[idx as int].0@ == name@
            && table@[idx as int].1 == table_first(table@, name@),
{
    let mut k: usize = 0;
    while k < table.len()
        invariant
            k <= table@.len(),
            forall|kk: int| 0 <= kk < k ==> (#[trigger] table@[kk].0@) != name@,
        decreases table@.len() - k,
    {
        if eq_strings(&table[k].0, name) {
            proof {
                lemma_table_first_at(table@, name@, k as int);
            }
            return Some(k);
        }
        k = k + 1;
    }
    None
}

/// When the first `i` entries miss the name and entry `i` hits it, the
/// first match of the name is entry `i`.
proof fn lemma_table_first_at(table: Seq<(String, Endpoint)>, name: Seq<char>, i: int)
    requires
        0 <= i < table.len(),
        forall|kk: int| 0 <= kk < i ==> (#[trigger] table[kk].0@) != name,
        table[i].0@ == name,
    ensures
        table_first(table, name) == table[i].1,
    decreases i,
{
    if i == 0 {
    } else {
        lemma_table_first_at(table.drop_first(), name, i - 1);
    }
}

} // verus!
