//! Ambient, hierarchical key-value context for structured logging.
//!
//! The crate keeps a last-in-first-out stack of property frames, activated
//! through scope guards or around each resumption of a wrapped task, and a
//! logging middleware that enriches every emitted record with the process
//! defaults and the top frame's properties before handing it to the wrapped
//! sink.
//!
//! Each execution thread is meant to own one [`ContextStack`]; the stack is
//! passed explicitly, so every operation is confined to the thread that owns
//! it and no synchronization is involved.

use vstd::prelude::*;

mod context;
mod future;
mod guard;
mod properties;
mod stack;
mod value;

pub use context::LogContext;
pub use future::lemma_resumption_round_trip;
pub use future::resume_enter;
pub use future::resume_exit;
pub use guard::LogContextGuard;
pub use properties::ContextProperties;
pub use properties::PropertyView;
pub use properties::properties_view;
pub use stack::ContextStack;
pub use value::ContextValue;
pub use value::ValueView;

verus! {

/// Declares the log facade's record type so that signatures can carry it;
/// records stay opaque and are only handed through to the sink.
#[verifier::external_type_specification]
#[verifier::external_body]
pub struct ExRecord<'a>(log::Record<'a>);

/// Declares the log facade's metadata type for the enabled check; metadata
/// stays opaque and is only handed through to the sink.
#[verifier::external_type_specification]
#[verifier::external_body]
pub struct ExMetadata<'a>(log::Metadata<'a>);

/// Type-erased handle to the wrapped sink. Verus sees nothing of it; the
/// sink is reached only through the trusted delegation wrappers below.
#[verifier::external_body]
struct SinkHandle {
    inner: Box<dyn log::Log>,
}

/// Relies on `Box::new`: owns the wrapped sink behind a type-erased handle.
#[verifier::external_body]
fn boxed_sink<L: log::Log + 'static>(inner: L) -> SinkHandle {
    SinkHandle { inner: Box::new(inner) }
}

/// Relies on the wrapped sink's `log::Log::enabled`: delegates the check
/// unchanged. The answer is the sink's own; nothing is promised of it.
#[verifier::external_body]
fn sink_enabled(sink: &SinkHandle, metadata: &log::Metadata) -> bool {
    sink.inner.enabled(metadata)
}

/// Relies on the wrapped sink's `log::Log::flush`: delegates unchanged.
#[verifier::external_body]
fn sink_flush(sink: &SinkHandle) {
    sink.inner.flush();
}

/// Relies on the wrapped sink's `log::Log::log`: forwards the record as it
/// stands, without enrichment.
#[verifier::external_body]
fn forward_record(sink: &SinkHandle, record: &log::Record) {
    sink.inner.log(record);
}

/// Relies on `log::Record::to_builder`, `log::RecordBuilder::key_values`,
/// `log::RecordBuilder::build` and the wrapped sink's `log::Log::log`:
/// forwards `record` rebuilt so that, per the `log` crate's `Source`
/// implementations for pair tuples, slices and references, its key-value
/// source yields `extra`'s pairs in order followed by the record's own
/// pairs. Level, message and target are kept as they stand.
#[verifier::external_body]
fn forward_with_extra(
    sink: &SinkHandle,
    record: &log::Record,
    extra: &Vec<&(String, ContextValue)>,
) {
    let pairs: Vec<(&str, log::kv::Value)> =
        extra.iter().map(|p| (p.0.as_str(), p.1.as_log_value())).collect();
    let mut sources: Vec<&dyn log::kv::Source> =
        pairs.iter().map(|p| p as &dyn log::kv::Source).collect();
    sources.push(record.key_values());
    let slice: &[&dyn log::kv::Source] = sources.as_slice();
    sink.inner.log(&record.to_builder().key_values(&slice).build());
}

/// The views of a sequence of borrowed properties, in order.
pub open spec fn property_refs_view(s: Seq<&(String, ContextValue)>) -> Seq<PropertyView> {
    s.map_values(|p: &(String, ContextValue)| (p.0@, p.1@))
}

/// What a log emission is enriched with while `stack` is the calling
/// thread's stack: the process defaults, then — only if a frame is active —
/// the top frame's properties. Ancestor frames are shadowed entirely.
pub open spec fn enriched_view(
    defaults: Seq<PropertyView>,
    stack: Seq<Seq<PropertyView>>,
) -> Seq<PropertyView> {
    if stack.len() > 0 {
        defaults + stack.last()
    } else {
        defaults
    }
}

/// Law: while a frame is the top of the stack, the enrichment is exactly
/// the default properties followed by that frame's properties, both in
/// insertion order; no ancestor frame contributes anything.
pub proof fn lemma_enrichment_shadows(defaults: Seq<PropertyView>, stack: Seq<Seq<PropertyView>>)
    requires
        stack.len() > 0,
    ensures
        enriched_view(defaults, stack) == defaults + stack.last(),
{
}

/// Law: an emission draws on the defaults and the top frame alone. After a
/// frame is popped, no property of the popped frame reaches a later
/// emission unless the defaults or the newly exposed top frame hold that
/// property themselves.
pub proof fn lemma_enrichment_sources(defaults: Seq<PropertyView>, stack: Seq<Seq<PropertyView>>)
    ensures
        forall|i: int|
            0 <= i < enriched_view(defaults, stack).len() ==> defaults.contains(
                #[trigger] enriched_view(defaults, stack)[i],
            ) || (stack.len() > 0 && stack.last().contains(enriched_view(defaults, stack)[i])),
{
    assert forall|i: int| 0 <= i < enriched_view(defaults, stack).len() implies defaults.contains(
        #[trigger] enriched_view(defaults, stack)[i],
    ) || (stack.len() > 0 && stack.last().contains(enriched_view(defaults, stack)[i])) by {
        if i < defaults.len() {
            assert(defaults[i] == enriched_view(defaults, stack)[i]);
        } else {
            assert(stack.last()[i - defaults.len()] == enriched_view(defaults, stack)[i]);
        }
    }
}

/// A logger middleware that enriches log records with contextual properties.
///
/// It wraps an existing sink and, at emission time, injects the process-wide
/// default properties and the calling thread's top context frame ahead of
/// the record's own key-values before delegating. Its view is the sequence
/// of default property views, in insertion order.
pub struct ContextLogger {
    default_records: ContextProperties,
    sink: SinkHandle,
}

impl View for ContextLogger {
    type V = Seq<PropertyView>;

    closed spec fn view(&self) -> Seq<PropertyView> {
        self.default_records@
    }
}

impl ContextLogger {
    /// Wraps the given sink. The middleware starts with no default
    /// properties.
    pub fn new<L>(inner: L) -> (r: Self) where L: log::Log + 'static
        ensures
            r@ == Seq::<PropertyView>::empty(),
    {
        ContextLogger { default_records: ContextProperties::new(), sink: boxed_sink(inner) }
    }

    /// Appends a default property, included in every future emission ahead
    /// of the active frame's properties.
    #[must_use]
    pub fn default_record(self, key: &str, value: ContextValue) -> (r: Self)
        ensures
            r@ == self@.push((key@, value@)),
    {
        let ContextLogger { mut default_records, sink } = self;
        default_records.properties.push((<String as vstd::string::StringExecFns>::from_str(key), value));
        proof {
            assert(default_records@ =~= self@.push((key@, value@)));
        }
        ContextLogger { default_records, sink }
    }

    /// The properties a log emission is enriched with right now: the
    /// defaults, then the top frame of `stack` if one is active, in order.
    #[verifier::loop_isolation(false)]
    pub fn enriched_properties<'a>(&'a self, stack: &'a ContextStack) -> (r: Vec<
        &'a (String, ContextValue),
    >)
        ensures
            property_refs_view(r@) == enriched_view(self@, stack@),
    {
        let mut out: Vec<&'a (String, ContextValue)> = Vec::new();
        let defaults: &Vec<(String, ContextValue)> = &self.default_records.properties;
        let n = defaults.len();
        let mut i: usize = 0;
        while i < n
            invariant
                i <= n,
                n == defaults@.len(),
                n == self@.len(),
                out@.len() == i,
                forall|j: int|
                    0 <= j < i ==> (#[trigger] out@[j]).0@ == self@[j].0 && out@[j].1@
                        == self@[j].1,
            decreases n - i,
        {
            out.push(&defaults[i]);

            i += 1;
        }
        match stack.top() {
            Some(top) => {
                let frame: &Vec<(String, ContextValue)> = &top.properties;
                let m = frame.len();
                let mut k: usize = 0;
                while k < m
                    invariant
                        k <= m,
                        m == frame@.len(),
                        n == self@.len(),
                        properties_view(frame@) == stack@.last(),
                        stack@.len() > 0,
                        out@.len() == n + k,
                        forall|j: int|
                            0 <= j < n ==> (#[trigger] out@[j]).0@ == self@[j].0 && out@[j].1@
                                == self@[j].1,
                        forall|j: int|
                            0 <= j < k ==> (#[trigger] out@[n + j]).0@ == stack@.last()[j].0 && out@[
                                n + j
                            ].1@ == stack@.last()[j].1,
                    decreases m - k,
                {
                    out.push(&frame[k]);
                    k += 1;
                }
            },
            None => {},
        }
        proof {
            let r = property_refs_view(out@);
            let e = enriched_view(self@, stack@);
            assert forall|j: int| 0 <= j < r.len() implies r[j] == e[j] by {
                assert(r[j] == (out@[j].0@, out@[j].1@));
                if j < n {
                    assert(out@[j].0@ == self@[j].0 && out@[j].1@ == self@[j].1);
                    assert(e[j] == self@[j]);
                } else {
                    let jj = j - n;
                    assert(out@[n + jj].0@ == stack@.last()[jj].0 && out@[n + jj].1@
                        == stack@.last()[jj].1);
                    assert(e[j] == stack@.last()[jj]);
                }
                assert(r[j] =~= e[j]);
            }
            assert(r =~= e);
        }
        out
    }

    /// Emits `record` through the wrapped sink, enriched with the defaults
    /// and the top frame of `stack`: the forwarded record yields the
    /// enrichment's pairs first, then its own, and keeps its level, message
    /// and target.
    pub fn log(&self, stack: &ContextStack, record: &log::Record) {
        let extra = self.enriched_properties(stack);
        forward_with_extra(&self.sink, record, &extra);
    }

    /// Emits `record` through the wrapped sink exactly as it stands: the
    /// fallback used when the calling thread's stack is out of reach, as
    /// during thread teardown.
    pub fn log_unenriched(&self, record: &log::Record) {
        forward_record(&self.sink, record);
    }

    /// Delegates the enabled check, unchanged, to the wrapped sink.
    pub fn enabled(&self, metadata: &log::Metadata) -> bool {
        sink_enabled(&self.sink, metadata)
    }

    /// Delegates a flush request, unchanged, to the wrapped sink.
    pub fn flush(&self) {
        sink_flush(&self.sink);
    }

    /// Installs this middleware into the process-wide slot and sets the
    /// maximum severity, failing if a destination is already installed.
    pub fn try_init(self, max_level: LevelFilter, slot: &mut LoggerSlot) -> (r: Result<
        (),
        InstallError,
    >)
        ensures
            !old(slot).is_installed() ==> r is Ok && final(slot).is_installed()
                && final(slot).installed_defaults() == self@
                && final(slot).max_level_spec() == max_level,
            old(slot).is_installed() ==> r is Err && *final(slot) == *old(slot),
    {
        if slot.installed.is_some() {
            Err(InstallError)
        } else {
            slot.installed = Some(self);
            slot.max_level = max_level;
            Ok(())
        }
    }

    /// Installs this middleware into the process-wide slot and sets the
    /// maximum severity. The slot must still be empty: a second
    /// installation is a programming error and is ruled out.
    pub fn init(self, max_level: LevelFilter, slot: &mut LoggerSlot)
        requires
            !old(slot).is_installed(),
        ensures
            final(slot).is_installed(),
            final(slot).installed_defaults() == self@,
            final(slot).max_level_spec() == max_level,
    {
        match self.try_init(max_level, slot) {
            Ok(()) => {},
            Err(InstallError) => {},
        }
    }
}

/// The maximum severity let through once a logger is installed.
#[derive(Clone, Copy, PartialEq, Eq, Structural, Debug)]
pub enum LevelFilter {
    Off,
    Error,
    Warn,
    Info,
    Debug,
    Trace,
}

/// Returned by [`ContextLogger::try_init`] when a log destination is
/// already installed.
#[derive(PartialEq, Eq, Structural, Debug)]
pub struct InstallError;

/// The process-wide logger slot: an explicit, single-initialization handle.
///
/// It starts empty and accepts exactly one middleware, through
/// [`ContextLogger::try_init`] or [`ContextLogger::init`]; a second
/// installation fails and leaves the slot unchanged.
pub struct LoggerSlot {
    installed: Option<ContextLogger>,
    max_level: LevelFilter,
}

impl LoggerSlot {
    /// Whether a logger has been installed.
    pub closed spec fn is_installed(&self) -> bool {
        self.installed is Some
    }

    /// The default property views of the installed logger.
    pub closed spec fn installed_defaults(&self) -> Seq<PropertyView>
        recommends
            self.is_installed(),
    {
        self.installed->0@
    }

    /// The maximum severity set at installation.
    pub closed spec fn max_level_spec(&self) -> LevelFilter {
        self.max_level
    }

    /// Creates an empty slot: no logger installed, everything filtered out.
    pub fn new() -> (r: Self)
        ensures
            !r.is_installed(),
            r.max_level_spec() == LevelFilter::Off,
    {
        LoggerSlot { installed: None, max_level: LevelFilter::Off }
    }

    /// The installed middleware, if any.
    pub fn logger(&self) -> (r: Option<&ContextLogger>)
        ensures
            r is Some <==> self.is_installed(),
            r matches Some(l) ==> l@ == self.installed_defaults(),
    {
        self.installed.as_ref()
    }

    /// The maximum severity set at installation, `Off` while the slot is
    /// empty.
    pub fn max_level(&self) -> (r: LevelFilter)
        ensures
            r == self.max_level_spec(),
    {
        self.max_level
    }
}

} // verus!
