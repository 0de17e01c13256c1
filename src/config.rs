use vstd::prelude::*;

verus! {

/// Which user callbacks are registered. The callbacks themselves live with
/// whoever executes the reactions; the state machine only needs to know which
/// of them exist so that it asks for exactly the registered ones.
#[derive(Clone, Copy, Debug, PartialEq, Eq, Structural)]
pub struct Callbacks {
    pub on_open: bool,
    pub on_close: bool,
    pub on_error: bool,
    pub on_message_text: bool,
    pub on_message_binary: bool,
}

impl Callbacks {
    pub open spec fn none_spec() -> Callbacks {
        Callbacks {
            on_open: false,
            on_close: false,
            on_error: false,
            on_message_text: false,
            on_message_binary: false,
        }
    }

    /// No callback registered.
    pub fn none() -> (r: Callbacks)
        ensures
            r == Callbacks::none_spec(),
    {
        Callbacks {
            on_open: false,
            on_close: false,
            on_error: false,
            on_message_text: false,
            on_message_binary: false,
        }
    }

    /// Every callback registered.
    pub fn all() -> (r: Callbacks)
        ensures
            r.on_open && r.on_close && r.on_error && r.on_message_text && r.on_message_binary,
    {
        Callbacks {
            on_open: true,
            on_close: true,
            on_error: true,
            on_message_text: true,
            on_message_binary: true,
        }
    }
}

/// How long to wait before a reconnect attempt.
#[derive(Clone, Copy, Debug, PartialEq, Eq, Structural)]
pub enum Backoff {
    /// The same delay, in milliseconds, before every attempt.
    Fixed(u64),
    /// `base` milliseconds before the first attempt, doubled for each further
    /// attempt, never more than `cap`.
    Exponential { base: u64, cap: u64 },
}

pub open spec fn pow2(n: nat) -> nat
    decreases n,
{
    if n == 0 {
        1
    } else {
        2 * pow2((n - 1) as nat)
    }
}

pub open spec fn min_int(a: int, b: int) -> int {
    if a <= b {
        a
    } else {
        b
    }
}

/// The delay before the attempt that follows `done` earlier attempts.
pub open spec fn delay_spec(b: Backoff, done: nat) -> int {
    match b {
        Backoff::Fixed(d) => d as int,
        Backoff::Exponential { base, cap } => min_int(cap as int, base * pow2(done)),
    }
}

proof fn lemma_pow2_positive(n: nat)
    ensures
        pow2(n) >= 1,
    decreases n,
{
    if n > 0 {
        lemma_pow2_positive((n - 1) as nat);
    }
}

proof fn lemma_double_capped(base: int, cap: int, i: nat)
    requires
        base >= 0,
        cap >= 0,
    ensures
        min_int(cap, 2 * min_int(cap, base * pow2(i))) == min_int(cap, base * pow2(i + 1)),
{
    assert(pow2(i + 1) == 2 * pow2(i));
    assert(base * pow2(i + 1) == 2 * (base * pow2(i))) by (nonlinear_arith)
        requires
            pow2(i + 1) == 2 * pow2(i),
    ;
    lemma_pow2_positive(i);
    assert(base * pow2(i) >= 0) by (nonlinear_arith)
        requires
            base >= 0,
            pow2(i) >= 1,
    ;
}

proof fn lemma_cap_stays(base: int, cap: int, i: nat, n: nat)
    requires
        base >= 0,
        cap >= 0,
        i <= n,
        min_int(cap, base * pow2(i)) == cap,
    ensures
        min_int(cap, base * pow2(n)) == cap,
    decreases n - i,
{
    if i < n {
        lemma_double_capped(base, cap, i);
        lemma_cap_stays(base, cap, i + 1, n);
    }
}

impl Backoff {
    /// The delay in milliseconds before the attempt that follows `done`
    /// earlier attempts.
    pub fn delay(&self, done: u32) -> (r: u64)
        ensures
            r as int == delay_spec(*self, done as nat),
    {
        match *self {
            Backoff::Fixed(d) => d,
            Backoff::Exponential { base, cap } => {
                let mut d: u64 = if base <= cap { base } else { cap };
                let mut i: u32 = 0;
                assert(pow2(0) == 1);
                assert(base * pow2(0) == base);
                while i < done && d < cap
                    invariant
                        i <= done,
                        d as int == min_int(cap as int, base * pow2(i as nat)),
                    decreases done - i,
                {
                    proof {
                        lemma_double_capped(base as int, cap as int, i as nat);
                    }
                    d = if d <= cap / 2 { 2 * d } else { cap };
                    i = i + 1;
                }
                proof {
                    if i < done {
                        lemma_cap_stays(base as int, cap as int, i as nat, done as nat);
                    }
                }
                d
            },
        }
    }
}

/// When and how often the connection is opened again after it was lost.
#[derive(Clone, Copy, Debug, PartialEq, Eq, Structural)]
pub struct ReconnectPolicy {
    pub enabled: bool,
    /// `None` for no limit.
    pub max_attempts: Option<u32>,
    pub backoff: Backoff,
}

} // verus!

verus! {

/// The options of one connection, fixed when it is built.
pub struct Config {
    /// The address to connect to.
    pub url: String,
    /// Whether the connection is opened as soon as it is built.
    pub immediate: bool,
    pub callbacks: Callbacks,
    pub reconnect: ReconnectPolicy,
}

pub struct ConfigModel {
    pub url: Seq<char>,
    pub immediate: bool,
    pub callbacks: Callbacks,
    pub policy: ReconnectPolicy,
}

impl View for Config {
    type V = ConfigModel;

    open spec fn view(&self) -> ConfigModel {
        ConfigModel {
            url: self.url@,
            immediate: self.immediate,
            callbacks: self.callbacks,
            policy: self.reconnect,
        }
    }
}

impl ReconnectPolicy {
    /// Never reconnect.
    pub fn disabled() -> (r: ReconnectPolicy)
        ensures
            r == (ReconnectPolicy { enabled: false, max_attempts: None, backoff: Backoff::Fixed(0) }),
    {
        ReconnectPolicy { enabled: false, max_attempts: None, backoff: Backoff::Fixed(0) }
    }

    /// Reconnect at most `max` times in a row.
    pub fn limited(max: u32, backoff: Backoff) -> (r: ReconnectPolicy)
        ensures
            r == (ReconnectPolicy { enabled: true, max_attempts: Some(max), backoff }),
    {
        ReconnectPolicy { enabled: true, max_attempts: Some(max), backoff }
    }

    /// Reconnect for as long as the connection keeps being lost.
    pub fn unlimited(backoff: Backoff) -> (r: ReconnectPolicy)
        ensures
            r == (ReconnectPolicy { enabled: true, max_attempts: None, backoff }),
    {
        ReconnectPolicy { enabled: true, max_attempts: None, backoff }
    }
}

impl Config {
    /// Options for `url`: opened at once, no callback, and up to three
    /// reconnects three seconds apart.
    pub fn new(url: String) -> (r: Config)
        ensures
            r.url@ == url@,
            r.immediate,
            r.callbacks == Callbacks::none_spec(),
            r.reconnect == (ReconnectPolicy {
                enabled: true,
                max_attempts: Some(3),
                backoff: Backoff::Fixed(3000),
            }),
    {
        Config {
            url,
            immediate: true,
            callbacks: Callbacks::none(),
            reconnect: ReconnectPolicy::limited(3, Backoff::Fixed(3000)),
        }
    }

    pub fn immediate(self, immediate: bool) -> (r: Config)
        ensures
            r@ == (ConfigModel { immediate, ..self@ }),
    {
        Config { immediate, ..self }
    }

    pub fn callbacks(self, callbacks: Callbacks) -> (r: Config)
        ensures
            r@ == (ConfigModel { callbacks, ..self@ }),
    {
        Config { callbacks, ..self }
    }

    pub fn reconnect(self, reconnect: ReconnectPolicy) -> (r: Config)
        ensures
            r@ == (ConfigModel { policy: reconnect, ..self@ }),
    {
        Config { reconnect, ..self }
    }
}

} // verus!
