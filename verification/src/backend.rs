//! The choice of a windowing backend.

use crate::error::RequestError;
use vstd::prelude::*;

verus! {

/// A windowing backend.
#[derive(Clone, Copy, Debug, PartialEq, Eq, PartialOrd, Ord, Hash)]
pub enum Backend {
    Win32,
    AppKit,
    Wayland,
    X11,
    Web,
    Android,
    UIKit,
}

impl Default for Backend {
    fn default() -> (backend: Self)
        ensures
            backend == Backend::Win32,
    {
        Backend::Win32
    }
}

/// Which first-party backends the running system offers, as found by probing each.
#[derive(Clone, Copy, Debug, Default, PartialEq, Eq)]
pub struct Availability {
    pub win32: bool,
    pub appkit: bool,
    pub wayland: bool,
    pub x11: bool,
}

/// Whether `backend` is available; the web, Android and UIKit backends never are.
pub open spec fn backend_available(backend: Backend, available: Availability) -> bool {
    match backend {
        Backend::Win32 => available.win32,
        Backend::AppKit => available.appkit,
        Backend::Wayland => available.wayland,
        Backend::X11 => available.x11,
        Backend::Web => false,
        Backend::Android => false,
        Backend::UIKit => false,
    }
}

impl Backend {
    pub fn is_available(&self, available: &Availability) -> (is_available: bool)
        ensures
            is_available == backend_available(*self, *available),
    {
        match self {
            Backend::Win32 => available.win32,
            Backend::AppKit => available.appkit,
            Backend::Wayland => available.wayland,
            Backend::X11 => available.x11,
            Backend::Web => false,
            Backend::Android => false,
            Backend::UIKit => false,
        }
    }
}

/// Each first-party backend is available exactly when probing found it, whatever was found of
/// the others; the web, Android and UIKit backends never are.
pub proof fn lemma_availability_is_own_finding(available: Availability, other: Availability)
    ensures
        backend_available(Backend::Win32, available) == available.win32,
        backend_available(Backend::AppKit, available) == available.appkit,
        backend_available(Backend::Wayland, available) == available.wayland,
        backend_available(Backend::X11, available) == available.x11,
        !backend_available(Backend::Web, available),
        !backend_available(Backend::Android, available),
        !backend_available(Backend::UIKit, available),
        available.x11 == other.x11 ==> backend_available(Backend::X11, available)
            == backend_available(Backend::X11, other),
        available.wayland == other.wayland ==> backend_available(Backend::Wayland, available)
            == backend_available(Backend::Wayland, other),
        available.win32 == other.win32 ==> backend_available(Backend::Win32, available)
            == backend_available(Backend::Win32, other),
        available.appkit == other.appkit ==> backend_available(Backend::AppKit, available)
            == backend_available(Backend::AppKit, other),
{
}

/// The backends of Linux.
pub struct Linux;

impl Linux {
    /// Linux has a backend when a Wayland compositor or an X server can be reached.
    pub fn is_available(wayland_available: bool, x11_available: bool) -> (available: bool)
        ensures
            available == (wayland_available || x11_available),
    {
        wayland_available || x11_available
    }
}

/// The backend of macOS.
#[derive(Clone, Copy, Debug)]
pub struct MacOS;

impl MacOS {
    pub fn new() -> (backend: Option<Self>)
        ensures
            backend is Some,
    {
        Some(MacOS)
    }
}

/// The AppKit backend.
#[derive(Clone, Copy, Debug)]
pub struct AppKit;

impl AppKit {
    pub fn new() -> (backend: Option<Self>)
        ensures
            backend is Some,
    {
        Some(AppKit)
    }
}

/// The index of the first backend of `preferences` that is available, if there is one.
pub open spec fn first_available(preferences: Seq<Backend>, available: Availability) -> Option<int> {
    if exists|i: int| 0 <= i < preferences.len() && backend_available(preferences[i], available) {
        Some(
            choose|i: int|
                0 <= i < preferences.len() && backend_available(preferences[i], available) && forall|
                    j: int,
                | 0 <= j < i ==> !backend_available(preferences[j], available),
        )
    } else {
        None
    }
}

/// The backend that selects, among the first-party backends, the first available one in the
/// order of its preferences.
pub struct AutoBackend {
    preferences: Vec<Backend>,
}

impl View for AutoBackend {
    type V = Seq<Backend>;

    /// The preference order.
    closed spec fn view(&self) -> Seq<Backend> {
        self.preferences@
    }
}

impl AutoBackend {
    /// The default preference order: Win32, AppKit, Wayland, X11, web, Android, UIKit.
    pub fn new() -> (auto: Self)
        ensures
            auto@ == seq![
                Backend::Win32,
                Backend::AppKit,
                Backend::Wayland,
                Backend::X11,
                Backend::Web,
                Backend::Android,
                Backend::UIKit,
            ],
    {
        let mut preferences = Vec::new();
        preferences.push(Backend::Win32);
        preferences.push(Backend::AppKit);
        preferences.push(Backend::Wayland);
        preferences.push(Backend::X11);
        preferences.push(Backend::Web);
        preferences.push(Backend::Android);
        preferences.push(Backend::UIKit);
        AutoBackend { preferences }
    }

    /// Sets which backends the automatic choice selects from and in what order.
    pub fn set_preferences(&mut self, preferences: Vec<Backend>)
        ensures
            final(self)@ == preferences@,
    {
        self.preferences = preferences;
    }

    pub fn preferences(&self) -> (preferences: &[Backend])
        ensures
            preferences@ == self@,
    {
        self.preferences.as_slice()
    }

    /// The automatic backend is available when Linux has a backend.
    pub fn is_available(available: &Availability) -> (is_available: bool)
        ensures
            is_available == (available.wayland || available.x11),
    {
        Linux::is_available(available.wayland, available.x11)
    }

    /// Starts the first available backend in the order of preference. `probe` tells whether a
    /// backend is available; the backends are probed in order until one is, and the later ones
    /// are not probed: `probe` may be called on a backend only once every backend preferred to
    /// it has probed unavailable, and `start` only on a backend that has probed available after
    /// those. `start` starts that backend. Fails with `NotSupported` when no backend is
    /// available, or when the chosen backend does not start.
    pub fn auto<S, Probe, Start>(&self, probe: Probe, start: Start) -> (started: Result<
        S,
        RequestError,
    >) where Probe: Fn(Backend) -> bool, Start: FnOnce(Backend) -> Option<S>
        requires
            forall|i: int|
                #![trigger self@[i]]
                0 <= i < self@.len() && probed_unavailable(probe, self@, i) ==> call_requires(
                    probe,
                    (self@[i],),
                ),
            forall|i: int|
                #![trigger self@[i]]
                0 <= i < self@.len() && probed_unavailable(probe, self@, i) && call_ensures(
                    probe,
                    (self@[i],),
                    true,
                ) ==> call_requires(start, (self@[i],)),
        ensures
            match started {
                Ok(s) => exists|i: int|
                    {
                        &&& 0 <= i < self@.len()
                        &&& probed_unavailable(probe, self@, i)
                        &&& #[trigger] call_ensures(probe, (self@[i],), true)
                        &&& call_ensures(start, (self@[i],), Some(s))
                    },
                Err(error) => {
                    ||| {
                        &&& probed_unavailable(probe, self@, self@.len() as int)
                        &&& error matches RequestError::NotSupported(message) && message@
                            == "no supported backend available to auto-select from"@
                    }
                    ||| exists|i: int|
                        {
                            &&& 0 <= i < self@.len()
                            &&& probed_unavailable(probe, self@, i)
                            &&& #[trigger] call_ensures(probe, (self@[i],), true)
                            &&& call_ensures(start, (self@[i],), None::<S>)
                            &&& error matches RequestError::NotSupported(message) && message@
                                == "failed to initialize backend"@
                        }
                },
            },
    {
        let mut i: usize = 0;
        while i < self.preferences.len()
            invariant
                0 <= i <= self.preferences@.len(),
                probed_unavailable(probe, self@, i as int),
                forall|k: int|
                    #![trigger self@[k]]
                    0 <= k < self@.len() && probed_unavailable(probe, self@, k) ==> call_requires(
                        probe,
                        (self@[k],),
                    ),
                forall|k: int|
                    #![trigger self@[k]]
                    0 <= k < self@.len() && probed_unavailable(probe, self@, k) && call_ensures(
                        probe,
                        (self@[k],),
                        true,
                    ) ==> call_requires(start, (self@[k],)),
            decreases self.preferences@.len() - i,
        {
            let backend = self.preferences[i];
            assert(backend == self@[i as int]);
            let available = probe(backend);
            if available {
                assert(call_ensures(probe, (self@[i as int],), true));
                let outcome = start(backend);
                let ghost got = outcome;
                match outcome {
                    Some(s) => {
                        assert(call_ensures(probe, (self@[i as int],), true));
                        assert(call_ensures(start, (self@[i as int],), got));
                        return Ok(s);
                    },
                    None => {
                        assert(call_ensures(probe, (self@[i as int],), true));
                        assert(call_ensures(start, (self@[i as int],), None::<S>));
                        return Err(
                            RequestError::NotSupported("failed to initialize backend".to_owned()),
                        );
                    },
                }
            }
            assert(call_ensures(probe, (self@[i as int],), false));
            i = i + 1;
        }
        Err(
            RequestError::NotSupported(
                "no supported backend available to auto-select from".to_owned(),
            ),
        )
    }
}

/// The first `n` backends of `preferences` were probed and found unavailable.
pub open spec fn probed_unavailable<Probe: Fn(Backend) -> bool>(
    probe: Probe,
    preferences: Seq<Backend>,
    n: int,
) -> bool {
    forall|j: int| 0 <= j < n ==> #[trigger] call_ensures(probe, (preferences[j],), false)
}

/// `probe` answers as the availability record `available` says.
pub open spec fn probes_as<Probe: Fn(Backend) -> bool>(probe: Probe, available: Availability) -> bool {
    forall|backend: Backend, answer: bool|
        #[trigger] call_ensures(probe, (backend,), answer) ==> answer == backend_available(
            backend,
            available,
        )
}

/// When probing answers as a fixed availability record, the backend that the automatic choice
/// starts is the first available one in the order of preference.
pub proof fn lemma_auto_follows_availability<Probe: Fn(Backend) -> bool>(
    probe: Probe,
    preferences: Seq<Backend>,
    available: Availability,
    i: int,
)
    requires
        probes_as(probe, available),
        0 <= i < preferences.len(),
        probed_unavailable(probe, preferences, i),
        call_ensures(probe, (preferences[i],), true),
    ensures
        first_available(preferences, available) == Some(i),
{
    assert(backend_available(preferences[i], available));
    assert forall|j: int| 0 <= j < i implies !backend_available(preferences[j], available) by {
        assert(call_ensures(probe, (preferences[j],), false));
    }
    lemma_auto_selects_first_available(preferences, available);
    let k = first_available(preferences, available)->0;
    if k > i {
        assert(!backend_available(preferences[i], available));
    }
}

/// When probing answers as a fixed availability record and every backend probed unavailable,
/// none of the preferred backends is available.
pub proof fn lemma_auto_fails_without_available<Probe: Fn(Backend) -> bool>(
    probe: Probe,
    preferences: Seq<Backend>,
    available: Availability,
)
    requires
        probes_as(probe, available),
        probed_unavailable(probe, preferences, preferences.len() as int),
    ensures
        first_available(preferences, available) is None,
{
    assert forall|j: int| 0 <= j < preferences.len() implies !backend_available(
        preferences[j],
        available,
    ) by {
        assert(call_ensures(probe, (preferences[j],), false));
    }
    lemma_auto_fails_only_without_backend(preferences, available);
}

/// Some available backend of `preferences` comes first among the available ones.
proof fn lemma_first_available_exists(preferences: Seq<Backend>, available: Availability, i: int)
    requires
        0 <= i < preferences.len(),
        backend_available(preferences[i], available),
    ensures
        exists|k: int|
            0 <= k < preferences.len() && backend_available(preferences[k], available) && forall|
                j: int,
            | 0 <= j < k ==> !backend_available(preferences[j], available),
    decreases i,
{
    if exists|j: int| 0 <= j < i && backend_available(preferences[j], available) {
        let j = choose|j: int| 0 <= j < i && backend_available(preferences[j], available);
        lemma_first_available_exists(preferences, available, j);
    } else {
        assert(forall|j: int| 0 <= j < i ==> !backend_available(preferences[j], available));
    }
}

/// The selected backend is available, and every backend preferred to it is not.
pub proof fn lemma_auto_selects_first_available(preferences: Seq<Backend>, available: Availability)
    requires
        first_available(preferences, available) is Some,
    ensures
        ({
            let i = first_available(preferences, available)->0;
            &&& 0 <= i < preferences.len()
            &&& backend_available(preferences[i], available)
            &&& forall|j: int| 0 <= j < i ==> !backend_available(preferences[j], available)
        }),
{
    let i = choose|i: int| 0 <= i < preferences.len() && backend_available(preferences[i], available);
    lemma_first_available_exists(preferences, available, i);
}

/// No backend is selected exactly when none of the preferred backends is available.
pub proof fn lemma_auto_fails_only_without_backend(preferences: Seq<Backend>, available: Availability)
    ensures
        first_available(preferences, available) is None <==> forall|i: int|
            0 <= i < preferences.len() ==> !backend_available(preferences[i], available),
{
}

} // verus!
