use vstd::prelude::*;

use ort::environment::Environment;
use ort::ep::ExecutionProviderDispatch;
use ort::session::builder::{GraphOptimizationLevel, SessionBuilder};
use ort::session::Session;

use crate::error::ClipError;

verus! {

/// An ONNX Runtime session builder (`ort::session::builder::SessionBuilder`).
#[verifier::external_type_specification]
#[verifier::external_body]
pub struct ExSessionBuilder(SessionBuilder);

/// A loaded ONNX Runtime session (`ort::session::Session`).
#[verifier::external_type_specification]
#[verifier::external_body]
pub struct ExSession(Session);

/// An ONNX Runtime environment (`ort::environment::Environment`).
#[verifier::external_type_specification]
#[verifier::external_body]
pub struct ExEnvironment(Environment);

/// An execution provider for ONNX Runtime (`ort::ep::ExecutionProviderDispatch`).
#[verifier::external_type_specification]
#[verifier::external_body]
pub struct ExExecutionProviderDispatch(ExecutionProviderDispatch);

/// An error of ONNX Runtime (`ort::Error`).
#[verifier::external_type_specification]
#[verifier::external_body]
#[verifier::reject_recursive_types(R)]
pub struct ExOrtError<R>(ort::Error<R>);

/// How far ONNX Runtime optimizes the model graph.
#[derive(Debug, Clone, Copy, PartialEq, Eq)]
pub enum OptimizationLevel {
    Disable,
    Level1,
    Level2,
    Level3,
    All,
}

/// One option applied to an ONNX Runtime session builder.
#[derive(Debug, Clone, Copy, PartialEq, Eq)]
pub enum SessionSetting {
    /// Register the session's execution providers.
    ExecutionProviders,
    OptimizationLevel(OptimizationLevel),
    IntraThreads(usize),
    InterThreads(usize),
    MemoryPattern(bool),
}

/// An ONNX model session as the library sees it: the names of the model's
/// inputs, the execution providers and the options it was built with.
pub struct OnnxSession {
    pub input_names: Vec<String>,
    pub execution_providers: Vec<ExecutionProviderDispatch>,
    pub optimization_level: Option<OptimizationLevel>,
    pub intra_threads: Option<usize>,
    pub inter_threads: Option<usize>,
    pub memory_pattern: Option<bool>,
}

/// Whether one of `names` is `name`.
pub open spec fn names_hold(names: Seq<Seq<char>>, name: Seq<char>) -> bool {
    exists|i: int| 0 <= i < names.len() && #[trigger] names[i] == name
}

/// The first of `candidates` that `names` holds.
pub open spec fn first_held(names: Seq<Seq<char>>, candidates: Seq<Seq<char>>) -> Option<Seq<char>>
    decreases candidates.len(),
{
    if candidates.len() == 0 {
        None
    } else if names_hold(names, candidates[0]) {
        Some(candidates[0])
    } else {
        first_held(names, candidates.drop_first())
    }
}

/// The options applied to a session builder, in order: the execution
/// providers always, then each option that was given.
pub open spec fn session_settings(
    optimization_level: Option<OptimizationLevel>,
    intra_threads: Option<usize>,
    inter_threads: Option<usize>,
    memory_pattern: Option<bool>,
) -> Seq<SessionSetting> {
    seq![SessionSetting::ExecutionProviders]
        + match optimization_level {
        Some(l) => seq![SessionSetting::OptimizationLevel(l)],
        None => Seq::empty(),
    } + match intra_threads {
        Some(n) => seq![SessionSetting::IntraThreads(n)],
        None => Seq::empty(),
    } + match inter_threads {
        Some(n) => seq![SessionSetting::InterThreads(n)],
        None => Seq::empty(),
    } + match memory_pattern {
        Some(b) => seq![SessionSetting::MemoryPattern(b)],
        None => Seq::empty(),
    }
}

/// One more where `o` is given.
pub open spec fn count_given<T>(o: Option<T>) -> nat {
    if o is Some {
        1
    } else {
        0
    }
}

/// The settings carry exactly the options given: the execution providers
/// come first, each given option appears with the value it was given, no
/// option that was not given appears, and nothing appears twice.
pub proof fn lemma_settings_carry_given_options(
    optimization_level: Option<OptimizationLevel>,
    intra_threads: Option<usize>,
    inter_threads: Option<usize>,
    memory_pattern: Option<bool>,
)
    ensures
        ({
            let s = session_settings(optimization_level, intra_threads, inter_threads, memory_pattern);
            &&& s.len() == 1 + count_given(optimization_level) + count_given(intra_threads)
                + count_given(inter_threads) + count_given(memory_pattern)
            &&& s[0] == SessionSetting::ExecutionProviders
            &&& forall|i: int| 0 < i < s.len() ==> !(#[trigger] s[i] is ExecutionProviders)
            &&& forall|l: OptimizationLevel|
                #[trigger] s.contains(SessionSetting::OptimizationLevel(l)) <==> optimization_level == Some(l)
            &&& forall|n: usize|
                #[trigger] s.contains(SessionSetting::IntraThreads(n)) <==> intra_threads == Some(n)
            &&& forall|n: usize|
                #[trigger] s.contains(SessionSetting::InterThreads(n)) <==> inter_threads == Some(n)
            &&& forall|b: bool|
                #[trigger] s.contains(SessionSetting::MemoryPattern(b)) <==> memory_pattern == Some(b)
        }),
{
    let s = session_settings(optimization_level, intra_threads, inter_threads, memory_pattern);
    let a = match optimization_level {
        Some(l) => seq![SessionSetting::OptimizationLevel(l)],
        None => Seq::<SessionSetting>::empty(),
    };
    let b = match intra_threads {
        Some(n) => seq![SessionSetting::IntraThreads(n)],
        None => Seq::<SessionSetting>::empty(),
    };
    let c = match inter_threads {
        Some(n) => seq![SessionSetting::InterThreads(n)],
        None => Seq::<SessionSetting>::empty(),
    };
    let d = match memory_pattern {
        Some(m) => seq![SessionSetting::MemoryPattern(m)],
        None => Seq::<SessionSetting>::empty(),
    };
    assert(s =~= seq![SessionSetting::ExecutionProviders] + a + b + c + d);
    assert forall|x: SessionSetting| s.contains(x) <==> (x == SessionSetting::ExecutionProviders || a.contains(x)
        || b.contains(x) || c.contains(x) || d.contains(x)) by {
        if s.contains(x) {
            let i = choose|i: int| 0 <= i < s.len() && s[i] == x;
            if i >= 1 + a.len() + b.len() + c.len() {
                assert(d[i - 1 - a.len() - b.len() - c.len()] == x);
            } else if i >= 1 + a.len() + b.len() {
                assert(c[i - 1 - a.len() - b.len()] == x);
            } else if i >= 1 + a.len() {
                assert(b[i - 1 - a.len()] == x);
            } else if i >= 1 {
                assert(a[i - 1] == x);
            }
        }
        if a.contains(x) {
            let i = choose|i: int| 0 <= i < a.len() && a[i] == x;
            assert(s[1 + i] == x);
        }
        if b.contains(x) {
            let i = choose|i: int| 0 <= i < b.len() && b[i] == x;
            assert(s[1 + a.len() + i] == x);
        }
        if c.contains(x) {
            let i = choose|i: int| 0 <= i < c.len() && c[i] == x;
            assert(s[1 + a.len() + b.len() + i] == x);
        }
        if d.contains(x) {
            let i = choose|i: int| 0 <= i < d.len() && d[i] == x;
            assert(s[1 + a.len() + b.len() + c.len() + i] == x);
        }
        if x == SessionSetting::ExecutionProviders {
            assert(s[0] == x);
        }
    }
    assert forall|i: int| 0 < i < s.len() implies !(#[trigger] s[i] is ExecutionProviders) by {
        if i >= 1 + a.len() + b.len() + c.len() {
            assert(s[i] == d[i - 1 - a.len() - b.len() - c.len()]);
        } else if i >= 1 + a.len() + b.len() {
            assert(s[i] == c[i - 1 - a.len() - b.len()]);
        } else if i >= 1 + a.len() {
            assert(s[i] == b[i - 1 - a.len()]);
        } else {
            assert(s[i] == a[i - 1]);
        }
    }
    assert forall|l: OptimizationLevel| #[trigger] s.contains(SessionSetting::OptimizationLevel(l)) <==> optimization_level == Some(l) by {
        if optimization_level == Some(l) {
            assert(a[0] == SessionSetting::OptimizationLevel(l));
        }
    }
    assert forall|n: usize| #[trigger] s.contains(SessionSetting::IntraThreads(n)) <==> intra_threads == Some(n) by {
        if intra_threads == Some(n) {
            assert(b[0] == SessionSetting::IntraThreads(n));
        }
    }
    assert forall|n: usize| #[trigger] s.contains(SessionSetting::InterThreads(n)) <==> inter_threads == Some(n) by {
        if inter_threads == Some(n) {
            assert(c[0] == SessionSetting::InterThreads(n));
        }
    }
    assert forall|m: bool| #[trigger] s.contains(SessionSetting::MemoryPattern(m)) <==> memory_pattern == Some(m) by {
        if memory_pattern == Some(m) {
            assert(d[0] == SessionSetting::MemoryPattern(m));
        }
    }
}

/// The options of a session builder for the given optional settings, in the
/// order in which they are applied.
pub fn builder_settings(
    optimization_level: Option<OptimizationLevel>,
    intra_threads: Option<usize>,
    inter_threads: Option<usize>,
    memory_pattern: Option<bool>,
) -> (settings: Vec<SessionSetting>)
    ensures
        settings@ == session_settings(optimization_level, intra_threads, inter_threads, memory_pattern),
{
    let mut settings: Vec<SessionSetting> = Vec::new();
    settings.push(SessionSetting::ExecutionProviders);
    if let Some(l) = optimization_level {
        settings.push(SessionSetting::OptimizationLevel(l));
    }
    if let Some(n) = intra_threads {
        settings.push(SessionSetting::IntraThreads(n));
    }
    if let Some(n) = inter_threads {
        settings.push(SessionSetting::InterThreads(n));
    }
    if let Some(b) = memory_pattern {
        settings.push(SessionSetting::MemoryPattern(b));
    }
    assert(settings@ =~= session_settings(optimization_level, intra_threads, inter_threads, memory_pattern));
    settings
}

/// An ONNX Runtime session builder together with the options passed to it,
/// in order. The record is kept by the functions that make the ONNX Runtime
/// calls.
pub struct ConfiguredBuilder {
    builder: SessionBuilder,
    applied: Ghost<Seq<SessionSetting>>,
    providers: Ghost<Seq<ExecutionProviderDispatch>>,
}

impl ConfiguredBuilder {
    /// The options passed to the builder by successful calls, in order.
    pub closed spec fn settings_applied(&self) -> Seq<SessionSetting> {
        self.applied@
    }

    /// The execution providers registered with the builder, in order.
    pub closed spec fn registered_providers(&self) -> Seq<ExecutionProviderDispatch> {
        self.providers@
    }

    /// The builder, ready to read a model file.
    pub fn into_builder(self) -> SessionBuilder {
        self.builder
    }
}

/// A builder call that ONNX Runtime refused, with the options passed to the
/// builder by the calls made, the refused one last.
struct FailedCall {
    error: ort::Error<SessionBuilder>,
    calls: Ghost<Seq<SessionSetting>>,
    providers: Ghost<Seq<ExecutionProviderDispatch>>,
}

/// Configuring a session builder failed.
pub struct BuildFailure {
    error: ClipError,
    cause: RuntimeRefusal,
    calls: Ghost<Seq<SessionSetting>>,
    providers: Ghost<Seq<ExecutionProviderDispatch>>,
}

/// The error ONNX Runtime returned when it refused to create a builder or to
/// take an option.
pub enum RuntimeRefusal {
    /// `Session::builder` failed.
    Creation(ort::Error),
    /// A builder call failed.
    Call(ort::Error<SessionBuilder>),
}

impl BuildFailure {
    /// The failure carries the error that ONNX Runtime returned, and its
    /// report is that error's text: creating the builder was refused and no
    /// option was passed, or the last call made was refused.
    pub closed spec fn refused_by_runtime(&self) -> bool {
        &&& self.error matches ClipError::Ort(m)
        &&& match &self.cause {
            RuntimeRefusal::Creation(e) => self.calls@.len() == 0 && vstd::string::to_string_from_display_ensures::<
                ort::Error,
            >(e, m),
            RuntimeRefusal::Call(e) => self.calls@.len() > 0 && vstd::string::to_string_from_display_ensures::<
                ort::Error<SessionBuilder>,
            >(e, m),
        }
    }

    /// The error, as ONNX Runtime reported it.
    pub closed spec fn reported(&self) -> ClipError {
        self.error
    }

    /// The execution providers handed to ONNX Runtime by the calls made;
    /// empty where the registration call was not made.
    pub closed spec fn providers_passed(&self) -> Seq<ExecutionProviderDispatch> {
        self.providers@
    }

    /// The error, as ONNX Runtime reported it.
    pub fn into_error(self) -> (e: ClipError)
        ensures
            e == self.reported(),
    {
        self.error
    }

    /// The options passed to the builder by the calls made, in order; the
    /// last one was refused. Empty where the builder could not be created.
    pub closed spec fn calls_made(&self) -> Seq<SessionSetting> {
        self.calls@
    }
}

/// Calls `Session::builder`, which creates session options in the
/// environment. Trusted: a new builder has had no option passed to it.
#[verifier::external_body]
fn new_builder(environment: &Environment) -> (r: Result<ConfiguredBuilder, ort::Error>)
    ensures
        r matches Ok(c) ==> c.settings_applied() == Seq::<SessionSetting>::empty()
            && c.registered_providers() == Seq::<ExecutionProviderDispatch>::empty(),
{
    let builder = Session::builder(environment)?;
    Ok(ConfiguredBuilder { builder, applied: Ghost(Seq::empty()), providers: Ghost(Seq::empty()) })
}

/// Calls `SessionBuilder::with_execution_providers`, which registers the
/// providers in order. Trusted: this call, and only it, is added to the
/// record; nothing is stated of the builder's state or the error.
#[verifier::external_body]
fn register_execution_providers(
    configured: ConfiguredBuilder,
    providers: &[ExecutionProviderDispatch],
) -> (r: Result<ConfiguredBuilder, FailedCall>)
    ensures
        r matches Ok(c) ==> c.settings_applied() == configured.settings_applied().push(SessionSetting::ExecutionProviders)
            && c.registered_providers() == configured.registered_providers() + providers@,
        r matches Err(f) ==> f.calls@ == configured.settings_applied().push(SessionSetting::ExecutionProviders)
            && f.providers@ == configured.registered_providers() + providers@,
{
    let made = Ghost(configured.applied@.push(SessionSetting::ExecutionProviders));
    let passed = Ghost(configured.providers@ + providers@);
    match configured.builder.with_execution_providers(providers) {
        Ok(builder) => Ok(ConfiguredBuilder { builder, applied: made, providers: passed }),
        Err(error) => Err(FailedCall { error, calls: made, providers: passed }),
    }
}

/// Calls `SessionBuilder::with_optimization_level` with the matching
/// `GraphOptimizationLevel`. Trusted: this call, and only it, is added to the
/// record; nothing is stated of the builder's state or the error.
#[verifier::external_body]
fn set_optimization_level(
    configured: ConfiguredBuilder,
    level: OptimizationLevel,
) -> (r: Result<ConfiguredBuilder, FailedCall>)
    ensures
        r matches Ok(c) ==> c.settings_applied() == configured.settings_applied().push(SessionSetting::OptimizationLevel(level))
            && c.registered_providers() == configured.registered_providers(),
        r matches Err(f) ==> f.calls@ == configured.settings_applied().push(SessionSetting::OptimizationLevel(level))
            && f.providers@ == configured.registered_providers(),
{
    let made = Ghost(configured.applied@.push(SessionSetting::OptimizationLevel(level)));
    match configured.builder.with_optimization_level(match level {
        OptimizationLevel::Disable => GraphOptimizationLevel::Disable,
        OptimizationLevel::Level1 => GraphOptimizationLevel::Level1,
        OptimizationLevel::Level2 => GraphOptimizationLevel::Level2,
        OptimizationLevel::Level3 => GraphOptimizationLevel::Level3,
        OptimizationLevel::All => GraphOptimizationLevel::All,
    }) {
        Ok(builder) => Ok(ConfiguredBuilder { builder, applied: made, providers: configured.providers }),
        Err(error) => Err(FailedCall { error, calls: made, providers: configured.providers }),
    }
}

/// Calls `SessionBuilder::with_intra_threads`. Trusted: this call, and only
/// it, is added to the record; nothing is stated of the builder's state or
/// the error.
#[verifier::external_body]
fn set_intra_threads(configured: ConfiguredBuilder, threads: usize) -> (r: Result<ConfiguredBuilder, FailedCall>)
    ensures
        r matches Ok(c) ==> c.settings_applied() == configured.settings_applied().push(SessionSetting::IntraThreads(threads))
            && c.registered_providers() == configured.registered_providers(),
        r matches Err(f) ==> f.calls@ == configured.settings_applied().push(SessionSetting::IntraThreads(threads))
            && f.providers@ == configured.registered_providers(),
{
    let made = Ghost(configured.applied@.push(SessionSetting::IntraThreads(threads)));
    match configured.builder.with_intra_threads(threads) {
        Ok(builder) => Ok(ConfiguredBuilder { builder, applied: made, providers: configured.providers }),
        Err(error) => Err(FailedCall { error, calls: made, providers: configured.providers }),
    }
}

/// Calls `SessionBuilder::with_inter_threads`. Trusted: this call, and only
/// it, is added to the record; nothing is stated of the builder's state or
/// the error.
#[verifier::external_body]
fn set_inter_threads(configured: ConfiguredBuilder, threads: usize) -> (r: Result<ConfiguredBuilder, FailedCall>)
    ensures
        r matches Ok(c) ==> c.settings_applied() == configured.settings_applied().push(SessionSetting::InterThreads(threads))
            && c.registered_providers() == configured.registered_providers(),
        r matches Err(f) ==> f.calls@ == configured.settings_applied().push(SessionSetting::InterThreads(threads))
            && f.providers@ == configured.registered_providers(),
{
    let made = Ghost(configured.applied@.push(SessionSetting::InterThreads(threads)));
    match configured.builder.with_inter_threads(threads) {
        Ok(builder) => Ok(ConfiguredBuilder { builder, applied: made, providers: configured.providers }),
        Err(error) => Err(FailedCall { error, calls: made, providers: configured.providers }),
    }
}

/// Calls `SessionBuilder::with_memory_pattern`. Trusted: this call, and only
/// it, is added to the record; nothing is stated of the builder's state or
/// the error.
#[verifier::external_body]
fn set_memory_pattern(configured: ConfiguredBuilder, enable: bool) -> (r: Result<ConfiguredBuilder, FailedCall>)
    ensures
        r matches Ok(c) ==> c.settings_applied() == configured.settings_applied().push(SessionSetting::MemoryPattern(enable))
            && c.registered_providers() == configured.registered_providers(),
        r matches Err(f) ==> f.calls@ == configured.settings_applied().push(SessionSetting::MemoryPattern(enable))
            && f.providers@ == configured.registered_providers(),
{
    let made = Ghost(configured.applied@.push(SessionSetting::MemoryPattern(enable)));
    match configured.builder.with_memory_pattern(enable) {
        Ok(builder) => Ok(ConfiguredBuilder { builder, applied: made, providers: configured.providers }),
        Err(error) => Err(FailedCall { error, calls: made, providers: configured.providers }),
    }
}

/// Applies one builder option by the matching ONNX Runtime call.
fn apply_setting(
    configured: ConfiguredBuilder,
    providers: &[ExecutionProviderDispatch],
    setting: SessionSetting,
) -> (r: Result<ConfiguredBuilder, BuildFailure>)
    ensures
        r matches Ok(c) ==> c.settings_applied() == configured.settings_applied().push(setting)
            && c.registered_providers() == if setting is ExecutionProviders {
                configured.registered_providers() + providers@
            } else {
                configured.registered_providers()
            },
        r matches Err(f) ==> f.reported() is Ort && f.refused_by_runtime()
            && f.calls_made() == configured.settings_applied().push(setting)
            && f.providers_passed() == if setting is ExecutionProviders {
                configured.registered_providers() + providers@
            } else {
                configured.registered_providers()
            },
{
    let outcome = match setting {
        SessionSetting::ExecutionProviders => register_execution_providers(configured, providers),
        SessionSetting::OptimizationLevel(level) => set_optimization_level(configured, level),
        SessionSetting::IntraThreads(n) => set_intra_threads(configured, n),
        SessionSetting::InterThreads(n) => set_inter_threads(configured, n),
        SessionSetting::MemoryPattern(enable) => set_memory_pattern(configured, enable),
    };
    match outcome {
        Ok(c) => Ok(c),
        Err(FailedCall { error, calls, providers }) => {
            let text = error.to_string();
            Err(BuildFailure { error: ClipError::Ort(text), cause: RuntimeRefusal::Call(error), calls, providers })
        },
    }
}

/// A session builder in `environment`, configured and ready to read a model
/// file: the execution providers are registered, then each given option is
/// passed, once each and in the order of `session_settings`. The first
/// refused call stops the work: no later call is made, and its error is
/// reported as `ClipError::Ort`.
pub fn session_builder(
    environment: &Environment,
    execution_providers: &[ExecutionProviderDispatch],
    optimization_level: Option<OptimizationLevel>,
    intra_threads: Option<usize>,
    inter_threads: Option<usize>,
    memory_pattern: Option<bool>,
) -> (r: Result<ConfiguredBuilder, BuildFailure>)
    ensures
        r matches Ok(c) ==> c.settings_applied() == session_settings(
            optimization_level,
            intra_threads,
            inter_threads,
            memory_pattern,
        ) && c.registered_providers() == execution_providers@,
        r matches Err(f) ==> {
            let all = session_settings(optimization_level, intra_threads, inter_threads, memory_pattern);
            &&& f.reported() is Ort
            &&& f.refused_by_runtime()
            &&& f.calls_made().len() <= all.len()
            &&& f.calls_made() == all.take(f.calls_made().len() as int)
            &&& f.providers_passed() == if f.calls_made().len() > 0 {
                execution_providers@
            } else {
                Seq::empty()
            }
        },
{
    let mut configured = match new_builder(environment) {
        Ok(c) => c,
        Err(e) => {
            let text = e.to_string();
            return Err(
                BuildFailure {
                    error: ClipError::Ort(text),
                    cause: RuntimeRefusal::Creation(e),
                    calls: Ghost(Seq::empty()),
                    providers: Ghost(Seq::empty()),
                },
            );
        },
    };
    let settings = builder_settings(optimization_level, intra_threads, inter_threads, memory_pattern);
    let n = settings.len();
    let mut i: usize = 0;
    while i < n
        invariant
            n == settings@.len(),
            settings@ == session_settings(optimization_level, intra_threads, inter_threads, memory_pattern),
            i <= n,
            configured.settings_applied() == settings@.subrange(0, i as int),
            settings@[0] is ExecutionProviders,
            forall|k: int| 1 <= k < n ==> !(#[trigger] settings@[k] is ExecutionProviders),
            configured.registered_providers() == if i > 0 {
                execution_providers@
            } else {
                Seq::empty()
            },
        decreases n - i,
    {
        assert(settings@.subrange(0, i as int).push(settings@[i as int]) =~= settings@.subrange(0, i + 1));
        configured = match apply_setting(configured, execution_providers, settings[i]) {
            Ok(c) => c,
            Err(f) => {
                assert(f.calls_made() =~= settings@.take(f.calls_made().len() as int));
                return Err(f);
            },
        };
        i += 1;
    }
    assert(settings@.subrange(0, n as int) =~= settings@);
    Ok(configured)
}

/// The names of a session's inputs, from `Session::inputs` and
/// `Outlet::name`, in the order the session lists them. Nothing is stated of
/// them: they come from the model file.
#[verifier::external_body]
fn session_input_names(session: &Session) -> Vec<String> {
    session.inputs().iter().map(|input| input.name().to_string()).collect()
}

impl OnnxSession {
    /// The model's input names as sequences of characters.
    pub open spec fn input_views(&self) -> Seq<Seq<char>> {
        self.input_names@.map_values(|s: String| s@)
    }

    /// Describes a session whose model has the inputs `input_names` and that
    /// was built with the given execution providers and options.
    pub fn new(
        input_names: Vec<String>,
        execution_providers: Vec<ExecutionProviderDispatch>,
        optimization_level: Option<OptimizationLevel>,
        intra_threads: Option<usize>,
        inter_threads: Option<usize>,
        memory_pattern: Option<bool>,
    ) -> (s: Self)
        ensures
            s.input_names@ == input_names@,
            s.execution_providers@ == execution_providers@,
            s.optimization_level == optimization_level,
            s.intra_threads == intra_threads,
            s.inter_threads == inter_threads,
            s.memory_pattern == memory_pattern,
    {
        OnnxSession { input_names, execution_providers, optimization_level, intra_threads, inter_threads, memory_pattern }
    }

    /// Describes a loaded session: its inputs, as ONNX Runtime lists them,
    /// and the execution providers and options it was built with.
    pub fn from_session(
        session: &Session,
        execution_providers: Vec<ExecutionProviderDispatch>,
        optimization_level: Option<OptimizationLevel>,
        intra_threads: Option<usize>,
        inter_threads: Option<usize>,
        memory_pattern: Option<bool>,
    ) -> (s: Self)
        ensures
            s.execution_providers@ == execution_providers@,
            s.optimization_level == optimization_level,
            s.intra_threads == intra_threads,
            s.inter_threads == inter_threads,
            s.memory_pattern == memory_pattern,
    {
        let input_names = session_input_names(session);
        OnnxSession { input_names, execution_providers, optimization_level, intra_threads, inter_threads, memory_pattern }
    }

    /// The builder options this session was built with, in order.
    pub fn settings(&self) -> (settings: Vec<SessionSetting>)
        ensures
            settings@ == session_settings(
                self.optimization_level,
                self.intra_threads,
                self.inter_threads,
                self.memory_pattern,
            ),
    {
        builder_settings(self.optimization_level, self.intra_threads, self.inter_threads, self.memory_pattern)
    }

    /// Whether the model expects an input called `name`.
    pub fn has_input(&self, name: &str) -> (found: bool)
        ensures
            found == names_hold(self.input_views(), name@),
    {
        let wanted = name.to_owned();
        let n = self.input_names.len();
        let mut i: usize = 0;
        while i < n
            invariant
                n == self.input_names@.len(),
                wanted@ == name@,
                i <= n,
                forall|j: int| 0 <= j < i ==> #[trigger] self.input_names@[j]@ != name@,
            decreases n - i,
        {
            if self.input_names[i] == wanted {
                assert(self.input_views()[i as int] == name@);
                return true;
            }
            i += 1;
        }
        assert forall|j: int| 0 <= j < self.input_views().len() implies #[trigger] self.input_views()[j] != name@ by {
            assert(self.input_names@[j]@ != name@);
        }
        false
    }

    /// The first of `possibilities` that the model has as an input.
    pub fn find_input(&self, possibilities: &[&str]) -> (found: Option<String>)
        ensures
            match found {
                Some(f) => first_held(self.input_views(), possibilities@.map_values(|p: &str| p@)) == Some(f@),
                None => first_held(self.input_views(), possibilities@.map_values(|p: &str| p@)) is None,
            },
    {
        let ghost cands = possibilities@.map_values(|p: &str| p@);
        let n = possibilities.len();
        let mut k: usize = 0;
        assert(cands.skip(0) =~= cands);
        while k < n
            invariant
                n == possibilities@.len(),
                cands == possibilities@.map_values(|p: &str| p@),
                k <= n,
                first_held(self.input_views(), cands) == first_held(self.input_views(), cands.skip(k as int)),
            decreases n - k,
        {
            let p = possibilities[k];
            assert(cands.skip(k as int)[0] == p@);
            assert(cands.skip(k as int).drop_first() =~= cands.skip(k + 1));
            if self.has_input(p) {
                return Some(p.to_owned());
            }
            k += 1;
        }
        assert(cands.skip(n as int).len() == 0);
        None
    }
}

/// `find_input` and `has_input` agree: what is found is an input of the
/// model, and nothing is found exactly when no candidate is an input.
pub proof fn lemma_find_input_agrees_with_has_input(names: Seq<Seq<char>>, candidates: Seq<Seq<char>>)
    ensures
        first_held(names, candidates) matches Some(f) ==> names_hold(names, f) && candidates.contains(f),
        first_held(names, candidates) is None <==> forall|i: int|
            0 <= i < candidates.len() ==> !names_hold(names, #[trigger] candidates[i]),
    decreases candidates.len(),
{
    if candidates.len() > 0 {
        lemma_find_input_agrees_with_has_input(names, candidates.drop_first());
        if !names_hold(names, candidates[0]) {
            if first_held(names, candidates) is None {
                assert forall|i: int| 0 <= i < candidates.len() implies !names_hold(names, #[trigger] candidates[i]) by {
                    if i > 0 {
                        assert(candidates[i] == candidates.drop_first()[i - 1]);
                    }
                }
            } else {
                let f = first_held(names, candidates).unwrap();
                assert(candidates.drop_first().contains(f));
                let j = choose|j: int| 0 <= j < candidates.drop_first().len() && candidates.drop_first()[j] == f;
                assert(candidates[j + 1] == f);
            }
        }
    }
}

} // verus!
