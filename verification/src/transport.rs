//! The transport of a device handle: the exchange settings, the socket and
//! the response cache, and the one operation that everything above uses,
//! [`Transport::execute`].

use vstd::prelude::*;
use vstd::string::StringExecFns;
use serde_json::Value;
use crate::cache::{after_lookup, bumped, looked_up, stored, Cache, CacheKey, Cached, Entries};
use crate::clock;
use crate::clock::duration_nanos;
use crate::config::Config;
use crate::proto::{Builder, Settings};
use crate::error::{refuses, Refusal, Result};
use crate::json::{json_of, Json};
use crate::proto::{asked, Proto, Request, ResponseCache, Socket};

verus! {

/// How a command goes through the cache.
#[derive(Clone, Copy, Debug, PartialEq, Eq, Structural)]
pub enum CachePolicy {
    /// Answer from the cache while the entry is valid; else ask the device
    /// and cache what it says. For commands that only read.
    ReadThrough,
    /// Ask the device; leave the cache alone.
    Uncached,
    /// Drop every cached entry of the command's namespace, then ask the
    /// device. For commands that change the device.
    InvalidateNamespace,
    /// Drop every cached entry, then ask the device. For commands after
    /// which nothing cached can be relied on, such as a reboot or a reset.
    InvalidateAll,
}

/// The entries of a response cache; a handle without cache has none.
pub open spec fn cached_entries(cache: ResponseCache) -> Entries<Request, Value> {
    match cache {
        Some(cache) => cache.entries(),
        None => Map::empty(),
    }
}

/// The entries that are not filed under `namespace`.
pub open spec fn without_namespace(
    entries: Entries<Request, Value>,
    namespace: Seq<char>,
) -> Entries<Request, Value> {
    Map::new(
        |id: (Seq<char>, Seq<char>)| entries.contains_key(id) && id.0 != namespace,
        |id: (Seq<char>, Seq<char>)| entries[id],
    )
}

/// Whether `answer` is what sending the command `[target][command]` with
/// `argument` may give.
pub open spec fn commanded(
    target: Seq<char>,
    command: Seq<char>,
    argument: Json,
    answer: Result<Value>,
) -> bool {
    exists|request: Request| #[trigger]
        asked(request, answer) && request.target@ == target && request.command@ == command
            && request.argument() == argument
}

/// What a handle decides before it sends a command: the argument to send,
/// or why it does not send.
pub type Plan = std::result::Result<Json, Refusal>;

/// Whether `arg` is what `plan` says: the planned argument, or the error
/// for the refusal.
pub open spec fn planned(plan: Plan, arg: Result<Value>) -> bool {
    match plan {
        Ok(argument) => arg matches Ok(value) && json_of(value) == argument,
        Err(refusal) => arg matches Err(e) && refuses(refusal, e),
    }
}

/// The plan of a command that a device either supports or not.
pub open spec fn permit(supported: bool, argument: Json) -> Plan {
    if supported {
        Ok(argument)
    } else {
        Err(Refusal::Unsupported)
    }
}

/// Whether `told` is the `answer` of the device as it came.
pub open spec fn as_answered(answer: Result<Value>, told: Result<Value>) -> bool {
    told == answer
}

/// Whether `done` is what a command without result makes of the `answer`
/// of the device: done where the device answered, and the error of the
/// exchange where not.
pub open spec fn acknowledged(answer: Result<Value>, done: Result<()>) -> bool {
    match answer {
        Ok(_) => done is Ok,
        Err(e) => done matches Err(failed) && failed == e,
    }
}

/// Invalidation has the scope of one namespace: of the entries that were
/// there, those under `namespace` are gone, whatever their command, and
/// every other is there as it was.
pub proof fn lemma_invalidation_scope(
    entries: Entries<Request, Value>,
    namespace: Seq<char>,
    id: (Seq<char>, Seq<char>),
)
    ensures
        id.0 == namespace ==> !without_namespace(entries, namespace).contains_key(id),
        id.0 != namespace ==> (without_namespace(entries, namespace).contains_key(id)
            <==> entries.contains_key(id)),
        id.0 != namespace && entries.contains_key(id) ==> without_namespace(entries, namespace)[id]
            == entries[id],
        namespace_vacant(without_namespace(entries, namespace), namespace),
{
}

/// Whether nothing is filed under `namespace`.
pub open spec fn namespace_vacant(entries: Entries<Request, Value>, namespace: Seq<char>) -> bool {
    forall|id: (Seq<char>, Seq<char>)| #[trigger] entries.contains_key(id) ==> id.0 != namespace
}

/// Whether two response caches differ at most in their entries.
pub open spec fn same_cache_settings(a: ResponseCache, b: ResponseCache) -> bool {
    match (a, b) {
        (Some(a), Some(b)) => a.same_counters(&b),
        (None, None) => true,
        _ => false,
    }
}

/// Removes every entry under `namespace` from the cache, whatever its
/// command, and leaves every other entry as it is.
pub fn invalidate(cache: &mut ResponseCache, namespace: &str)
    ensures
        same_cache_settings(*final(cache), *old(cache)),
        cached_entries(*final(cache)) == without_namespace(cached_entries(*old(cache)), namespace@),
{
    match cache {
        Some(entries) => {
            let ghost before = *entries;
            proof {
                before.lemma_filed_by_identity();
            }
            let dropped = String::from_str(namespace);
            let keep = |key: &Request, _value: &Value| -> (keep: bool)
                ensures
                    keep == (key.target@ != dropped@),
                { !(key.target == dropped) };
            entries.retain(keep);
            assert(entries.entries() =~= without_namespace(before.entries(), namespace@));
        },
        None => {
            assert(cached_entries(*cache) =~= without_namespace(
                cached_entries(*cache),
                namespace@,
            ));
        },
    }
}

/// Removes every entry from the cache.
pub fn invalidate_all(cache: &mut ResponseCache)
    ensures
        same_cache_settings(*final(cache), *old(cache)),
        cached_entries(*final(cache)) == Map::<
            (Seq<char>, Seq<char>),
            Cached<Request, Value>,
        >::empty(),
{
    match cache {
        Some(entries) => {
            entries.clear();
        },
        None => {},
    }
}

/// What a read through the cache `before` leaves as the cache `after`, and
/// what it answers, where the lookup read the clock at `looked` and a
/// result of the device was stored at `stored_at`.
///
/// A valid entry answers, and the device is left alone: the cache is as it
/// was but for one more hit. Else the lookup is a miss and evicts what has
/// expired; then the device decides. Its result is the answer and is
/// cached under the request. Its failure is the answer, of kind `Io` or
/// `Json`, and nothing is cached. Either way the answer is what sending the
/// request gave.
pub open spec fn read_outcome(
    before: Cache<Request, Value>,
    after: Cache<Request, Value>,
    request: Request,
    answer: Result<Value>,
    looked: nat,
    stored_at: nat,
) -> bool {
    let ttl = before.time_to_live();
    let rest = after_lookup(before.entries(), request.id(), ttl, looked);
    &&& after.same_settings(&before)
    &&& match looked_up(before.entries(), request.id(), ttl, looked) {
        Some(cached) => {
            &&& answer matches Ok(value) && json_of(value) == json_of(cached)
            &&& after.entries() == before.entries()
            &&& after.hit_count() == bumped(before.hit_count())
            &&& after.miss_count() == before.miss_count()
        },
        None => {
            &&& after.hit_count() == before.hit_count()
            &&& after.miss_count() == bumped(before.miss_count())
            &&& match answer {
                Ok(value) => exists|copy: Value|
                    json_of(copy) == json_of(value) && after.entries() == #[trigger] stored(
                        rest,
                        request,
                        copy,
                        stored_at,
                    ),
                Err(e) => (e.is_io() || e.is_json()) && after.entries() == rest,
            }
            &&& asked(request, answer)
        },
    }
}

/// What a command that reads through the cache leaves of the cache of a
/// handle, and what it answers: with a cache, [`read_outcome`] at the two
/// readings of the clock that it took; without, what sending the request
/// gave.
pub open spec fn read_through(
    before: ResponseCache,
    after: ResponseCache,
    request: Request,
    answer: Result<Value>,
) -> bool {
    if before is Some {
        after is Some && exists|looked: nat, stored_at: nat| #[trigger]
            read_outcome(before->Some_0, after->Some_0, request, answer, looked, stored_at)
    } else {
        after is None && asked(request, answer)
    }
}

/// What a command that reads through the cache leaves of the cache of a
/// handle, and what it answers, with the clock readings given: with a
/// cache, [`read_outcome`] at `looked` and `stored_at`; without, what
/// sending the request gave.
pub open spec fn read_through_at(
    before: ResponseCache,
    after: ResponseCache,
    request: Request,
    answer: Result<Value>,
    looked: nat,
    stored_at: nat,
) -> bool {
    if before is Some {
        after is Some && read_outcome(
            before->Some_0,
            after->Some_0,
            request,
            answer,
            looked,
            stored_at,
        )
    } else {
        after is None && asked(request, answer)
    }
}

/// Whether `answer` is what reading the command `[target][command]` with
/// `argument` through the cache `before` may give, and `after` the cache
/// that it leaves.
pub open spec fn fetched(
    target: Seq<char>,
    command: Seq<char>,
    argument: Json,
    before: ResponseCache,
    after: ResponseCache,
    answer: Result<Value>,
) -> bool {
    exists|request: Request| #[trigger]
        read_through(before, after, request, answer) && request.target@ == target
            && request.command@ == command && request.argument() == argument
}

/// The transport of one device handle.
pub struct Transport<S: Socket> {
    proto: Proto,
    socket: S,
    cache: ResponseCache,
}

impl<S: Socket> Transport<S> {
    /// The exchange settings.
    pub closed spec fn settings(&self) -> Proto {
        self.proto
    }

    /// The response cache.
    pub closed spec fn response_cache(&self) -> ResponseCache {
        self.cache
    }

    /// The entries of the response cache.
    pub open spec fn entries(&self) -> Entries<Request, Value> {
        cached_entries(self.response_cache())
    }

    /// Whether `self` and `other` differ at most in what is cached and in
    /// the counters of the cache: their settings are the same, and both
    /// have a cache, with the same time to live, or none has.
    pub open spec fn same_device(&self, other: &Self) -> bool {
        &&& self.settings() == other.settings()
        &&& match (self.response_cache(), other.response_cache()) {
            (Some(mine), Some(theirs)) => mine.same_settings(&theirs),
            (None, None) => true,
            _ => false,
        }
    }

    /// Whether `answer` is what executing `request` under `policy` may give
    /// on the transport `before`, and `self` the transport that is left.
    ///
    /// The transport is the same but for its cache. With
    /// [`CachePolicy::ReadThrough`] the request is read through the cache,
    /// see [`read_through`]. With [`CachePolicy::Uncached`] the cache is left
    /// alone. With [`CachePolicy::InvalidateNamespace`] the entries of the
    /// request's namespace are dropped, and with
    /// [`CachePolicy::InvalidateAll`] every entry, whether or not the
    /// exchange then succeeds. In these three cases the answer is what
    /// sending the request gave, see [`asked`].
    pub open spec fn executes(
        &self,
        before: &Self,
        policy: CachePolicy,
        request: Request,
        answer: Result<Value>,
    ) -> bool {
        &&& self.same_device(before)
        &&& match policy {
            CachePolicy::ReadThrough => read_through(
                before.response_cache(),
                self.response_cache(),
                request,
                answer,
            ),
            CachePolicy::Uncached => self.entries() == before.entries() && asked(request, answer),
            CachePolicy::InvalidateNamespace => self.entries() == without_namespace(
                before.entries(),
                request.target@,
            ) && asked(request, answer),
            CachePolicy::InvalidateAll => self.entries() == Map::<
                (Seq<char>, Seq<char>),
                Cached<Request, Value>,
            >::empty() && asked(request, answer),
        }
    }

    /// Whether `answer` is what executing the command `[target][command]`
    /// with `argument` under `policy` may give on the transport `before`,
    /// and `self` the transport that is left: the same but for its cache,
    /// which the policy treats as [`Transport::execute`] says.
    pub open spec fn answered(
        &self,
        before: &Self,
        policy: CachePolicy,
        target: Seq<char>,
        command: Seq<char>,
        argument: Json,
        answer: Result<Value>,
    ) -> bool {
        &&& self.same_device(before)
        &&& match policy {
            CachePolicy::ReadThrough => fetched(
                target,
                command,
                argument,
                before.response_cache(),
                self.response_cache(),
                answer,
            ),
            CachePolicy::Uncached => self.entries() == before.entries() && commanded(
                target,
                command,
                argument,
                answer,
            ),
            CachePolicy::InvalidateNamespace => self.entries() == without_namespace(
                before.entries(),
                target,
            ) && commanded(target, command, argument, answer),
            CachePolicy::InvalidateAll => self.entries() == Map::<
                (Seq<char>, Seq<char>),
                Cached<Request, Value>,
            >::empty() && commanded(target, command, argument, answer),
        }
    }

    /// Whether `told` is what a command makes of executing
    /// `[target][command]` with `argument` under `policy`, where `read` says
    /// what the command makes of the answer of the device.
    pub open spec fn executed<T>(
        &self,
        before: &Self,
        policy: CachePolicy,
        target: Seq<char>,
        command: Seq<char>,
        argument: Json,
        read: spec_fn(Result<Value>, Result<T>) -> bool,
        told: Result<T>,
    ) -> bool {
        exists|answer: Result<Value>|
            read(answer, told) && #[trigger] self.answered(
                before,
                policy,
                target,
                command,
                argument,
                answer,
            )
    }

    /// A transport with the settings `proto`, over `socket`, with `cache` as
    /// its response cache.
    pub fn new(proto: Proto, socket: S, cache: ResponseCache) -> (transport: Transport<S>)
        ensures
            transport.settings() == proto,
            transport.response_cache() == cache,
    {
        Transport { proto, socket, cache }
    }

    /// The time to live of the cache that a handle gets where its
    /// configuration enables one: the configured one, or else three seconds.
    pub open spec fn cache_ttl_built(config: Config, ttl: nat) -> bool {
        match config@.cache_config.ttl {
            Some(duration) => ttl == duration_nanos(duration),
            None => ttl == crate::config::DEFAULT_TIMEOUT_SECS * clock::NANOS_PER_SEC,
        }
    }

    /// Whether `self` is the transport that `config` describes: the
    /// configured address, timeouts and buffer size, each datagram sent
    /// once, no broadcast, and an empty cache where the configuration
    /// enables one.
    pub open spec fn built_from(&self, config: Config) -> bool {
        &&& self.settings()@ == (Settings {
            addr: config@.addr,
            buffer_size: config@.buffer_size,
            read_timeout: Some(config@.read_timeout),
            write_timeout: Some(config@.write_timeout),
            broadcast: false,
            tolerance: 1,
        })
        &&& self.response_cache() is Some <==> config@.cache_config.enable_cache
        &&& self.entries() == Map::<(Seq<char>, Seq<char>), Cached<Request, Value>>::empty()
        &&& self.response_cache() matches Some(cache) ==> cache.hit_count() == 0
            && cache.miss_count() == 0 && Self::cache_ttl_built(config, cache.time_to_live())
    }

    /// The transport that `config` describes, over `socket`.
    pub fn with_config(config: &Config, socket: S) -> (transport: Transport<S>)
        ensures
            transport.built_from(*config),
    {
        let mut builder = Builder::new(
            crate::proto::Endpoint { host: config.addr(), port: config.port() },
        );
        builder.read_timeout(config.read_timeout());
        builder.write_timeout(config.write_timeout());
        builder.buffer_size(config.buffer_size());
        let proto = builder.build();
        let cache = if config.cache_enabled() {
            let ttl = match config.cache_ttl() {
                Some(ttl) => ttl,
                None => clock::from_secs(crate::config::DEFAULT_TIMEOUT_SECS),
            };
            match config.cache_initial_capacity() {
                Some(capacity) => Some(Cache::with_ttl_and_capacity(ttl, capacity)),
                None => Some(Cache::with_ttl(ttl)),
            }
        } else {
            None
        };
        Transport { proto, socket, cache }
    }

    /// The exchange settings.
    pub fn proto(&self) -> (proto: &Proto)
        ensures
            *proto == self.settings(),
    {
        &self.proto
    }

    /// The response cache, if the handle has one.
    pub fn cache(&self) -> (cache: &ResponseCache)
        ensures
            *cache == self.response_cache(),
    {
        &self.cache
    }

    /// Removes every cached entry under `namespace`.
    pub fn invalidate(&mut self, namespace: &str)
        ensures
            final(self).same_device(old(self)),
            final(self).entries() == without_namespace(old(self).entries(), namespace@),
    {
        invalidate(&mut self.cache, namespace);
    }

    /// Whether `answer` is what executing `request` under `policy` gives on
    /// the transport `before` where the cache reads the clock as given, and
    /// `self` the transport that is left: as [`Transport::executes`] says,
    /// with the lookup of a read through the cache made at `looked` and a
    /// result of the device stored with the stamp `stored_at`.
    pub open spec fn executes_at(
        &self,
        before: &Self,
        policy: CachePolicy,
        request: Request,
        answer: Result<Value>,
        looked: nat,
        stored_at: nat,
    ) -> bool {
        if policy == CachePolicy::ReadThrough {
            self.same_device(before) && read_through_at(
                before.response_cache(),
                self.response_cache(),
                request,
                answer,
                looked,
                stored_at,
            )
        } else {
            self.executes(before, policy, request, answer)
        }
    }

    /// Executes one command against the device with the clock readings
    /// given, which only a read through the cache takes: a cached result
    /// answers exactly where its age at `looked` is below the time to live,
    /// and the device is then not asked; else the device is asked, and its
    /// result is cached with the stamp `stored_at`.
    pub fn execute_at(
        &mut self,
        request: Request,
        policy: CachePolicy,
        looked: u128,
        stored_at: u128,
    ) -> (r: Result<Value>)
        ensures
            final(self).executes_at(old(self), policy, request, r, looked as nat, stored_at as nat),
            r matches Err(e) ==> e.is_io() || e.is_json(),
    {
        match policy {
            CachePolicy::ReadThrough => {
                let mut held: ResponseCache = None;
                core::mem::swap(&mut self.cache, &mut held);
                match held {
                    Some(mut cache) => {
                        let ghost before = cache;
                        let proto = &self.proto;
                        let socket = &self.socket;
                        let produce = |request: &Request| -> (r: Result<Value>)
                            ensures
                                asked(*request, r),
                                r matches Err(e) ==> e.is_io() || e.is_json(),
                            { proto.send_request(socket, request) };
                        let r = cache.get_or_insert_with_at(request, produce, looked, stored_at);
                        proof {
                            let held_before: ResponseCache = Some(before);
                            let held_after: ResponseCache = Some(cache);
                            assert(read_outcome(
                                held_before->Some_0,
                                held_after->Some_0,
                                request,
                                r,
                                looked as nat,
                                stored_at as nat,
                            ));
                        }
                        self.cache = Some(cache);
                        r
                    },
                    None => self.proto.send_request(&self.socket, &request),
                }
            },
            _ => self.execute(request, policy),
        }
    }

    /// Executes one command against the device.
    ///
    /// With [`CachePolicy::ReadThrough`] and a cache, a valid cached result
    /// is returned without asking the device; else the device is asked and
    /// its result cached. With an invalidating policy the entries in
    /// question are dropped first, whether or not the exchange then
    /// succeeds. In every other case the device is asked and the cache is
    /// left alone. [`Transport::executes`] says it exactly.
    ///
    /// An error is of kind `Io` where the device could not be reached and of
    /// kind `Json` where its reply was not understood.
    pub fn execute(&mut self, request: Request, policy: CachePolicy) -> (r: Result<Value>)
        ensures
            final(self).executes(old(self), policy, request, r),
            final(self).answered(
                old(self),
                policy,
                request.target@,
                request.command@,
                request.argument(),
                r,
            ),
            r matches Err(e) ==> e.is_io() || e.is_json(),
    {
        match policy {
            CachePolicy::ReadThrough => {
                let mut held: ResponseCache = None;
                core::mem::swap(&mut self.cache, &mut held);
                match held {
                    Some(mut cache) => {
                        let ghost before = cache;
                        let proto = &self.proto;
                        let socket = &self.socket;
                        let produce = |request: &Request| -> (r: Result<Value>)
                            ensures
                                asked(*request, r),
                                r matches Err(e) ==> e.is_io() || e.is_json(),
                            { proto.send_request(socket, request) };
                        let r = cache.get_or_insert_with(request, produce);
                        proof {
                            // The two clock readings that the cache took.
                            let (looked, stored_at) = choose|looked: nat, stored_at: nat|
                                cache.read_through_outcome(
                                    &before,
                                    r,
                                    request,
                                    produce,
                                    looked,
                                    stored_at,
                                );
                            let held_before: ResponseCache = Some(before);
                            let held_after: ResponseCache = Some(cache);
                            assert(read_outcome(
                                held_before->Some_0,
                                held_after->Some_0,
                                request,
                                r,
                                looked,
                                stored_at,
                            ));
                        }
                        self.cache = Some(cache);
                        r
                    },
                    None => self.proto.send_request(&self.socket, &request),
                }
            },
            CachePolicy::Uncached => self.proto.send_request(&self.socket, &request),
            CachePolicy::InvalidateNamespace => {
                invalidate(&mut self.cache, request.target.as_str());
                self.proto.send_request(&self.socket, &request)
            },
            CachePolicy::InvalidateAll => {
                invalidate_all(&mut self.cache);
                self.proto.send_request(&self.socket, &request)
            },
        }
    }
}

} // verus!
