//! What the writer does with one work item: resolve its dimensions, bucket it
//! by day, and lay out the upsert of each of the four metrics tables.

use vstd::prelude::*;

use crate::anonymization::{cache_bins, floor_bin, mem_bins, round_cache, round_mem};
use crate::dimensions::{application_id, id_or_unknown, UuidCache};
use crate::payload::{CacheInfo, CpuCapabilities, PayloadV1};
use crate::query::{build_query_string, query_text};
use crate::request::SubmitError;

verus! {

/// How many work items may wait for the writer before submissions are refused.
pub const MAX_OUTSTANDING_ITEMS: usize = 1000;

pub const SECONDS_PER_DAY: i64 = 86400;

/// A report on its way from the handler to the writer.
pub struct WorkItem {
    /// The submission token, as the UUID's 128-bit value.
    pub token: u128,
    /// The two-letter country code that the proxy reported, if any.
    pub country: Option<String>,
    /// The caller's IP, if any.
    pub ip: Option<String>,
    pub payload: PayloadV1,
    /// When the handler received the report, in seconds since the Unix epoch (UTC).
    pub received_at: i64,
}

/// The resolved dimensions of one work item.
#[derive(Clone, Copy, Debug, PartialEq, Eq, Structural)]
pub struct Context {
    /// The start of the UTC day of receipt, in seconds since the Unix epoch.
    pub day: i64,
    pub application: u128,
    pub os: u128,
    pub architecture: u128,
    pub cpu_manufacturer: u128,
}

/// The metrics tables.
#[derive(Clone, Copy, Debug, PartialEq, Eq, Structural)]
pub enum Table {
    CpuCapabilities,
    CpuCaches,
    Memory,
    CfCountry,
}

/// One factor of a row.
#[derive(Clone, Copy, Debug, PartialEq, Eq, Structural)]
pub enum FactorValue {
    /// A day, in seconds since the Unix epoch.
    Day(i64),
    /// A UUID, as its 128-bit value.
    Id(u128),
    Flag(bool),
    /// A binned size in bytes, stored signed.
    Size(i64),
    /// A two-letter country code.
    Country(char, char),
}

/// One upsert: the row of `table` with factors `values`, in the order of the
/// table's factor list, and the user id and IP to merge into its sketches.
pub struct Upsert {
    pub table: Table,
    pub values: Vec<FactorValue>,
    pub user_id: String,
    pub user_ip: String,
}

/// Why a work item is dropped.
#[derive(Clone, Copy, Debug, PartialEq, Eq, Structural)]
pub enum PlanError {
    /// Neither the application nor an `"unknown"` application is known.
    UnknownApplication,
    /// The start of the day of receipt is outside the range of timestamps.
    DayOutOfRange,
}

/// Why the country row of a work item is skipped.
#[derive(Clone, Copy, Debug, PartialEq, Eq, Structural)]
pub enum CountryError {
    /// The country code is not two characters long.
    InvalidCountry,
}

/// The four upserts of one work item. The country row fails alone.
pub struct WorkPlan {
    pub context: Context,
    pub cpu_capabilities: Upsert,
    pub cpu_caches: Upsert,
    pub memory: Upsert,
    pub cf_country: Result<Upsert, CountryError>,
}

pub open spec fn table_name_of(t: Table) -> Seq<char> {
    match t {
        Table::CpuCapabilities => "cpu_capabilities"@,
        Table::CpuCaches => "cpu_caches"@,
        Table::Memory => "memory"@,
        Table::CfCountry => "cf_country"@,
    }
}

/// The factor columns of each table, in parameter order. A table has this one
/// list for the life of the process, so its statement can be cached by table.
pub open spec fn table_factors(t: Table) -> Seq<Seq<char>> {
    match t {
        Table::CpuCapabilities => seq![
            "day"@, "application"@, "os"@, "cpu_manufacturer"@, "architecture"@, "x86_sse2"@,
            "x86_sse3"@, "x86_ssse3"@, "x86_sse4_1"@, "x86_fma3"@, "x86_avx"@, "x86_avx2"@,
            "x86_avx512f"@,
        ],
        Table::CpuCaches => seq![
            "day"@, "application"@, "l1i"@, "l1d"@, "l1u"@, "l2i"@, "l2d"@, "l2u"@, "l3i"@,
            "l3d"@, "l3u"@,
        ],
        Table::Memory => seq!["day"@, "application"@, "total_memory"@],
        Table::CfCountry => seq!["day"@, "application"@, "country"@],
    }
}

pub open spec fn str_views(s: Seq<&'static str>) -> Seq<Seq<char>> {
    s.map_values(|x: &'static str| x@)
}

/// The name of a table.
pub fn table_name(t: Table) -> (r: &'static str)
    ensures
        r@ == table_name_of(t),
{
    match t {
        Table::CpuCapabilities => "cpu_capabilities",
        Table::CpuCaches => "cpu_caches",
        Table::Memory => "memory",
        Table::CfCountry => "cf_country",
    }
}

/// The factor columns of a table, in parameter order.
pub fn factor_names(t: Table) -> (r: Vec<&'static str>)
    ensures
        str_views(r@) == table_factors(t),
{
    let r = match t {
        Table::CpuCapabilities => vec![
            "day",
            "application",
            "os",
            "cpu_manufacturer",
            "architecture",
            "x86_sse2",
            "x86_sse3",
            "x86_ssse3",
            "x86_sse4_1",
            "x86_fma3",
            "x86_avx",
            "x86_avx2",
            "x86_avx512f",
        ],
        Table::CpuCaches => vec![
            "day",
            "application",
            "l1i",
            "l1d",
            "l1u",
            "l2i",
            "l2d",
            "l2u",
            "l3i",
            "l3d",
            "l3u",
        ],
        Table::Memory => vec!["day", "application", "total_memory"],
        Table::CfCountry => vec!["day", "application", "country"],
    };
    assert(str_views(r@) =~= table_factors(t));
    r
}

/// The upsert statement of a table.
pub fn query_for(t: Table) -> (r: String)
    ensures
        r@ == query_text(table_name_of(t), table_factors(t)),
{
    let names = factor_names(t);
    build_query_string(table_name(t), names.as_slice())
}

/// The start of the UTC day that holds `t`.
pub open spec fn day_start(t: int) -> int {
    t - t % (SECONDS_PER_DAY as int)
}

/// Truncate a time to the start of its UTC day; `None` where that start lies
/// before the earliest representable time.
pub fn truncate_to_day(t: i64) -> (r: Option<i64>)
    ensures
        match r {
            Some(d) => d == day_start(t as int),
            None => day_start(t as int) < i64::MIN,
        },
{
    if t >= 0 {
        let u = t as u64;
        let d = u - u % 86400;
        proof {
            vstd::arithmetic::div_mod::lemma_fundamental_div_mod(u as int, 86400);
        }
        Some(d as i64)
    } else {
        let a = (-(t + 1)) as u64;
        let k = a / 86400 + 1;
        proof {
            vstd::arithmetic::div_mod::lemma_fundamental_div_mod(a as int, 86400);
            vstd::arithmetic::div_mod::lemma_fundamental_div_mod_converse(
                t as int,
                86400,
                -(k as int),
                86400 - a as int % 86400 - 1,
            );
        }
        if k > 106751991167300 {
            assert(k * 86400 > 9223372036854775808) by (nonlinear_arith)
                requires
                    k > 106751991167300,
            ;
            None
        } else {
            assert(k * 86400 <= 9223372036854775807) by (nonlinear_arith)
                requires
                    k <= 106751991167300,
            ;
            let m = (k * 86400) as i64;
            Some(-m)
        }
    }
}

/// The IP merged into the sketches: the caller's, or a fixed stand-in.
pub open spec fn user_ip_of(ip: Option<String>) -> Seq<char> {
    match ip {
        Some(s) => s@,
        None => "123.123.123.123"@,
    }
}

/// The country code of a work item: the proxy's, or `"XX"` where it gave none.
pub open spec fn country_of(country: Option<String>) -> Seq<char> {
    match country {
        Some(s) => s@,
        None => "XX"@,
    }
}

/// The dimensions of a work item, or why it is dropped.
pub open spec fn context_of(cache: UuidCache, work: WorkItem) -> Result<Context, PlanError> {
    match application_id(cache.application@, work.payload.application_name@) {
        None => Err(PlanError::UnknownApplication),
        Some(app) => if day_start(work.received_at as int) < i64::MIN {
            Err(PlanError::DayOutOfRange)
        } else {
            Ok(
                Context {
                    day: day_start(work.received_at as int) as i64,
                    application: app,
                    os: id_or_unknown(cache.os@, work.payload.os@),
                    architecture: id_or_unknown(
                        cache.architecture@,
                        work.payload.simdsp.cpu_architecture@,
                    ),
                    cpu_manufacturer: id_or_unknown(
                        cache.cpu_manufacturer@,
                        work.payload.simdsp.cpu_manufacturer@,
                    ),
                },
            )
        },
    }
}

pub open spec fn cpu_capabilities_values(ctx: Context, c: CpuCapabilities) -> Seq<FactorValue> {
    seq![
        FactorValue::Day(ctx.day),
        FactorValue::Id(ctx.application),
        FactorValue::Id(ctx.os),
        FactorValue::Id(ctx.cpu_manufacturer),
        FactorValue::Id(ctx.architecture),
        FactorValue::Flag(c.x86_sse2),
        FactorValue::Flag(c.x86_sse3),
        FactorValue::Flag(c.x86_ssse3),
        FactorValue::Flag(c.x86_sse4_1),
        FactorValue::Flag(c.x86_fma3),
        FactorValue::Flag(c.x86_avx),
        FactorValue::Flag(c.x86_avx2),
        FactorValue::Flag(c.x86_avx512f),
    ]
}

pub open spec fn cache_size(x: u64) -> FactorValue {
    FactorValue::Size(floor_bin(cache_bins(), x) as i64)
}

pub open spec fn cpu_caches_values(ctx: Context, c: CacheInfo) -> Seq<FactorValue> {
    seq![
        FactorValue::Day(ctx.day),
        FactorValue::Id(ctx.application),
        cache_size(c.l1i),
        cache_size(c.l1d),
        cache_size(c.l1u),
        cache_size(c.l2i),
        cache_size(c.l2d),
        cache_size(c.l2u),
        cache_size(c.l3i),
        cache_size(c.l3d),
        cache_size(c.l3u),
    ]
}

pub open spec fn memory_values(ctx: Context, total: u64) -> Seq<FactorValue> {
    seq![
        FactorValue::Day(ctx.day),
        FactorValue::Id(ctx.application),
        FactorValue::Size(floor_bin(mem_bins(), total) as i64),
    ]
}

pub open spec fn cf_country_values(ctx: Context, country: Seq<char>) -> Seq<FactorValue> {
    seq![
        FactorValue::Day(ctx.day),
        FactorValue::Id(ctx.application),
        FactorValue::Country(country[0], country[1]),
    ]
}

/// `u` is the upsert of `table` with `values`, for the user of `work`.
pub open spec fn is_upsert(u: Upsert, table: Table, values: Seq<FactorValue>, work: WorkItem) -> bool {
    &&& u.table == table
    &&& u.values@ == values
    &&& u.user_id@ == work.payload.machine_id@
    &&& u.user_ip@ == user_ip_of(work.ip)
}

/// Each table's upsert supplies one value per factor of that table, so a
/// statement prepared once per table always gets the parameters it expects.
pub proof fn lemma_values_match_factors(
    ctx: Context,
    caps: CpuCapabilities,
    caches: CacheInfo,
    total_memory: u64,
    first: char,
    second: char,
)
    ensures
        cpu_capabilities_values(ctx, caps).len() == table_factors(Table::CpuCapabilities).len(),
        cpu_caches_values(ctx, caches).len() == table_factors(Table::CpuCaches).len(),
        memory_values(ctx, total_memory).len() == table_factors(Table::Memory).len(),
        cf_country_values(ctx, seq![first, second]).len() == table_factors(
            Table::CfCountry,
        ).len(),
{
}

/// A report submitted twice in one UTC day, from the same IP and country, is
/// planned against the same rows with the same user id and IP. (That merging
/// the same id into a sketch again leaves its count unchanged is a property of
/// HyperLogLog in the database, not stated here.)
pub proof fn lemma_same_day_resubmission_same_upserts(cache: UuidCache, w1: WorkItem, w2: WorkItem)
    requires
        cache.wf(),
        w1.payload == w2.payload,
        w1.ip == w2.ip,
        w1.country == w2.country,
        day_start(w1.received_at as int) == day_start(w2.received_at as int),
    ensures
        context_of(cache, w1) == context_of(cache, w2),
        user_ip_of(w1.ip) == user_ip_of(w2.ip),
        country_of(w1.country) == country_of(w2.country),
        w1.payload.machine_id@ == w2.payload.machine_id@,
{
}

/// The IP to merge into the sketches.
fn user_ip(work: &WorkItem) -> (r: String)
    ensures
        r@ == user_ip_of(work.ip),
{
    match &work.ip {
        Some(ip) => ip.clone(),
        None => String::from_str("123.123.123.123"),
    }
}

/// Resolve the dimensions of a work item; unknown operating systems,
/// architectures and manufacturers fall back on their table's `"unknown"` row.
pub fn resolve_context(cache: &UuidCache, work: &WorkItem) -> (r: Result<Context, PlanError>)
    requires
        cache.wf(),
    ensures
        r == context_of(*cache, *work),
{
    let application = match cache.get_application(work.payload.application_name.as_str()) {
        Some(a) => a,
        None => {
            return Err(PlanError::UnknownApplication);
        },
    };
    let os = cache.get_os(work.payload.os.as_str());
    let architecture = cache.get_architecture(work.payload.simdsp.cpu_architecture.as_str());
    let cpu_manufacturer = cache.get_cpu_manufacturer(
        work.payload.simdsp.cpu_manufacturer.as_str(),
    );
    let day = match truncate_to_day(work.received_at) {
        Some(d) => d,
        None => {
            return Err(PlanError::DayOutOfRange);
        },
    };
    Ok(Context { day, application, os, architecture, cpu_manufacturer })
}

/// The upsert of the capability flags.
pub fn cpu_capabilities_upsert(context: &Context, work: &WorkItem) -> (r: Upsert)
    ensures
        is_upsert(
            r,
            Table::CpuCapabilities,
            cpu_capabilities_values(*context, work.payload.simdsp.cpu_capabilities),
            *work,
        ),
{
    let c = &work.payload.simdsp.cpu_capabilities;
    let values = vec![
        FactorValue::Day(context.day),
        FactorValue::Id(context.application),
        FactorValue::Id(context.os),
        FactorValue::Id(context.cpu_manufacturer),
        FactorValue::Id(context.architecture),
        FactorValue::Flag(c.x86_sse2),
        FactorValue::Flag(c.x86_sse3),
        FactorValue::Flag(c.x86_ssse3),
        FactorValue::Flag(c.x86_sse4_1),
        FactorValue::Flag(c.x86_fma3),
        FactorValue::Flag(c.x86_avx),
        FactorValue::Flag(c.x86_avx2),
        FactorValue::Flag(c.x86_avx512f),
    ];
    assert(values@ =~= cpu_capabilities_values(*context, *c));
    Upsert {
        table: Table::CpuCapabilities,
        values,
        user_id: work.payload.machine_id.clone(),
        user_ip: user_ip(work),
    }
}

fn binned_cache(x: u64) -> (r: FactorValue)
    ensures
        r == cache_size(x),
{
    FactorValue::Size(round_cache(x) as i64)
}

/// The upsert of the binned cache sizes.
pub fn cpu_caches_upsert(context: &Context, work: &WorkItem) -> (r: Upsert)
    ensures
        is_upsert(
            r,
            Table::CpuCaches,
            cpu_caches_values(*context, work.payload.simdsp.cache_info),
            *work,
        ),
{
    let c = &work.payload.simdsp.cache_info;
    let values = vec![
        FactorValue::Day(context.day),
        FactorValue::Id(context.application),
        binned_cache(c.l1i),
        binned_cache(c.l1d),
        binned_cache(c.l1u),
        binned_cache(c.l2i),
        binned_cache(c.l2d),
        binned_cache(c.l2u),
        binned_cache(c.l3i),
        binned_cache(c.l3d),
        binned_cache(c.l3u),
    ];
    assert(values@ =~= cpu_caches_values(*context, *c));
    Upsert {
        table: Table::CpuCaches,
        values,
        user_id: work.payload.machine_id.clone(),
        user_ip: user_ip(work),
    }
}

/// The upsert of the binned memory size.
pub fn memory_upsert(context: &Context, work: &WorkItem) -> (r: Upsert)
    ensures
        is_upsert(r, Table::Memory, memory_values(*context, work.payload.memory.total), *work),
{
    let values = vec![
        FactorValue::Day(context.day),
        FactorValue::Id(context.application),
        FactorValue::Size(round_mem(work.payload.memory.total) as i64),
    ];
    assert(values@ =~= memory_values(*context, work.payload.memory.total));
    Upsert {
        table: Table::Memory,
        values,
        user_id: work.payload.machine_id.clone(),
        user_ip: user_ip(work),
    }
}

/// The upsert of the country; an error where the code is not two characters.
pub fn cf_country_upsert(context: &Context, work: &WorkItem) -> (r: Result<Upsert, CountryError>)
    ensures
        match r {
            Ok(u) => country_of(work.country).len() == 2 && is_upsert(
                u,
                Table::CfCountry,
                cf_country_values(*context, country_of(work.country)),
                *work,
            ),
            Err(e) => country_of(work.country).len() != 2 && e == CountryError::InvalidCountry,
        },
{
    let country: &str = match &work.country {
        Some(c) => c.as_str(),
        None => "XX",
    };
    if country.unicode_len() != 2 {
        return Err(CountryError::InvalidCountry);
    }
    let values = vec![
        FactorValue::Day(context.day),
        FactorValue::Id(context.application),
        FactorValue::Country(country.get_char(0), country.get_char(1)),
    ];
    assert(values@ =~= cf_country_values(*context, country_of(work.country)));
    Ok(
        Upsert {
            table: Table::CfCountry,
            values,
            user_id: work.payload.machine_id.clone(),
            user_ip: user_ip(work),
        },
    )
}

/// Everything the writer does with one work item but talk to the database: it
/// is dropped where `resolve_context` says so; else its four upserts, of which
/// the country's may fail alone.
pub fn plan_work_item(cache: &UuidCache, work: &WorkItem) -> (r: Result<WorkPlan, PlanError>)
    requires
        cache.wf(),
    ensures
        match r {
            Ok(p) => {
                &&& context_of(*cache, *work) == Ok::<Context, PlanError>(p.context)
                &&& is_upsert(
                    p.cpu_capabilities,
                    Table::CpuCapabilities,
                    cpu_capabilities_values(p.context, work.payload.simdsp.cpu_capabilities),
                    *work,
                )
                &&& is_upsert(
                    p.cpu_caches,
                    Table::CpuCaches,
                    cpu_caches_values(p.context, work.payload.simdsp.cache_info),
                    *work,
                )
                &&& is_upsert(
                    p.memory,
                    Table::Memory,
                    memory_values(p.context, work.payload.memory.total),
                    *work,
                )
                &&& match p.cf_country {
                    Ok(u) => country_of(work.country).len() == 2 && is_upsert(
                        u,
                        Table::CfCountry,
                        cf_country_values(p.context, country_of(work.country)),
                        *work,
                    ),
                    Err(e) => country_of(work.country).len() != 2 && e
                        == CountryError::InvalidCountry,
                }
            },
            Err(e) => context_of(*cache, *work) == Err::<Context, PlanError>(e),
        },
{
    let context = resolve_context(cache, work)?;
    Ok(
        WorkPlan {
            context,
            cpu_capabilities: cpu_capabilities_upsert(&context, work),
            cpu_caches: cpu_caches_upsert(&context, work),
            memory: memory_upsert(&context, work),
            cf_country: cf_country_upsert(&context, work),
        },
    )
}

#[verifier::external_type_specification]
#[verifier::external_body]
#[verifier::reject_recursive_types(T)]
pub struct ExSender<T>(async_channel::Sender<T>);

#[verifier::external_type_specification]
#[verifier::external_body]
#[verifier::reject_recursive_types(T)]
pub struct ExReceiver<T>(async_channel::Receiver<T>);

/// The number of messages that the channel of this sender holds at most, as
/// fixed when the channel was made.
pub uninterp spec fn channel_bound(s: async_channel::Sender<WorkItem>) -> nat;

/// Relies on async_channel::bounded: a channel that holds at most `cap`
/// messages; it panics on a capacity of 0.
#[verifier::external_body]
fn bounded_channel(cap: usize) -> (r: (async_channel::Sender<WorkItem>, async_channel::Receiver<
    WorkItem,
>))
    requires
        cap > 0,
    ensures
        channel_bound(r.0) == cap,
{
    async_channel::bounded(cap)
}

/// Relies on async_channel's `Sender::try_send`: true where the message was
/// queued; false where the channel was full or closed.
#[verifier::external_body]
fn try_send(sender: &async_channel::Sender<WorkItem>, item: WorkItem) -> (r: bool) {
    sender.try_send(item).is_ok()
}

/// The writer's inbox and what it resolves items with.
pub struct WriterThread {
    receiver: async_channel::Receiver<WorkItem>,
    sender: async_channel::Sender<WorkItem>,
    uuid_cache: UuidCache,
}

impl WriterThread {
    pub closed spec fn cache(&self) -> UuidCache {
        self.uuid_cache
    }

    /// How many items the inbox holds at most.
    pub closed spec fn capacity(&self) -> nat {
        channel_bound(self.sender)
    }

    #[verifier::type_invariant]
    closed spec fn cache_is_wf(&self) -> bool {
        self.uuid_cache.wf()
    }

    /// A writer with an empty inbox of `MAX_OUTSTANDING_ITEMS` places.
    pub fn new(uuid_cache: UuidCache) -> (r: WriterThread)
        requires
            uuid_cache.wf(),
        ensures
            r.cache() == uuid_cache,
            r.capacity() == MAX_OUTSTANDING_ITEMS,
    {
        let (sender, receiver) = bounded_channel(MAX_OUTSTANDING_ITEMS);
        WriterThread { receiver, sender, uuid_cache }
    }

    /// Queue a work item without waiting; refused where the inbox is full.
    pub fn send(&self, item: WorkItem) -> (r: Result<(), SubmitError>)
        ensures
            r.is_err() ==> r == Err::<(), SubmitError>(SubmitError::QueueFull),
    {
        if try_send(&self.sender, item) {
            Ok(())
        } else {
            Err(SubmitError::QueueFull)
        }
    }

    /// Where the writer task takes its items from.
    pub fn receiver(&self) -> &async_channel::Receiver<WorkItem> {
        &self.receiver
    }

    /// The dimension tables that items are resolved with.
    pub fn uuid_cache(&self) -> (r: &UuidCache)
        ensures
            *r == self.cache(),
            r.wf(),
    {
        proof {
            use_type_invariant(self);
        }
        &self.uuid_cache
    }
}

} // verus!
