//! The debounce and repeat tracker: the engine state, the rules for
//! one incoming code, and the periodic refresh rule.

use crate::binds::Bind;
use crate::codes::{sentinel, str_eq};
use crate::dispatch::{
    dispatch_action, spec_action_calls, spec_action_mode, spec_unknown_handler, CapabilityCall,
    SpecCall,
};
use crate::mode::MenuMode;
use vstd::hash_map::StringHashMap;
use vstd::prelude::*;

verus! {

/// A sentinel received sooner than this after the previous dispatch
/// attempt is discarded as line noise, in milliseconds.
pub const REPEAT_SUPPRESS_MS: u64 = 25;

/// Idle time after the last dispatch attempt before the periodic
/// refresh becomes eligible, in milliseconds.
pub const ACTION_IDLE_MS: u64 = 1000;

/// Minimum spacing of two periodic refreshes, in milliseconds.
pub const REFRESH_INTERVAL_MS: u64 = 2000;

/// The configured binds, keyed by canonical remote code (keys unique);
/// loaded once at startup and immutable for the run.
pub type BindMap = StringHashMap<Bind>;

/// The engine's mutable state: the last repeat-eligible code, the two
/// clock readings the timing rules turn on, and the navigation mode.
/// Timestamps come from a monotonic millisecond clock.
#[derive(Debug, PartialEq)]
pub struct DispatchContext {
    pub last_code: Option<String>,
    pub last_action_at: u64,
    pub last_refresh_at: u64,
    pub mode: MenuMode,
}

/// Mathematical form of a [`DispatchContext`].
pub struct SpecContext {
    pub last_code: Option<Seq<char>>,
    pub last_action_at: u64,
    pub last_refresh_at: u64,
    pub mode: MenuMode,
}

impl View for DispatchContext {
    type V = SpecContext;

    open spec fn view(&self) -> SpecContext {
        SpecContext {
            last_code: match &self.last_code {
                Some(c) => Some(c@),
                None => None,
            },
            last_action_at: self.last_action_at,
            last_refresh_at: self.last_refresh_at,
            mode: self.mode,
        }
    }
}

impl DispatchContext {
    /// A fresh context at clock reading `now`: nothing to repeat, both
    /// timers started, the mode at its initial value.
    pub fn new(now: u64) -> (r: Self)
        ensures
            r@ == (SpecContext {
                last_code: None,
                last_action_at: now,
                last_refresh_at: now,
                mode: MenuMode::Media,
            }),
    {
        DispatchContext {
            last_code: None,
            last_action_at: now,
            last_refresh_at: now,
            mode: MenuMode::Media,
        }
    }
}

/// The context is well formed for a bind map: the remembered last code,
/// if any, is a bound, repeat-eligible code and never the sentinel.
pub open spec fn ctx_wf(ctx: SpecContext, binds: Map<Seq<char>, Bind>) -> bool {
    match ctx.last_code {
        Some(c) => binds.contains_key(c) && binds[c].repeat && c != sentinel(),
        None => true,
    }
}

/// What handling one code reported back.
#[derive(Debug, Clone, Copy, PartialEq, Eq, Structural)]
pub enum CodeOutcome {
    /// A sentinel inside the suppression window: discarded as noise.
    SuppressedNoise,
    /// A sentinel with no repeat-eligible code before it: discarded.
    NothingToRepeat,
    /// A sentinel replayed the last code's bind as a repeat.
    Replayed { unknown_handler: bool },
    /// A fresh code's bind was dispatched.
    Dispatched { unknown_handler: bool },
    /// A fresh code matched no bind: only a log line.
    Unbound,
}

/// What handling one code yields: the capability calls to perform, in
/// order, and what happened.
#[derive(Debug, PartialEq)]
pub struct StepResult {
    pub calls: Vec<CapabilityCall>,
    pub outcome: CodeOutcome,
}

/// Mathematical form of one engine step.
pub struct SpecStep {
    pub ctx: SpecContext,
    pub calls: Seq<SpecCall>,
    pub outcome: CodeOutcome,
}

/// The debounce and repeat rules, in one place.  Given the state, the
/// bind map, a decoded code and the clock, this is the state afterwards,
/// the capability calls made, and the outcome reported.
pub open spec fn spec_step(
    ctx: SpecContext,
    binds: Map<Seq<char>, Bind>,
    code: Seq<char>,
    now: u64,
) -> SpecStep {
    if code == sentinel() {
        if now - ctx.last_action_at < REPEAT_SUPPRESS_MS {
            SpecStep { ctx, calls: Seq::empty(), outcome: CodeOutcome::SuppressedNoise }
        } else {
            match ctx.last_code {
                None => SpecStep {
                    ctx,
                    calls: Seq::empty(),
                    outcome: CodeOutcome::NothingToRepeat,
                },
                Some(lc) => {
                    let b = binds[lc];
                    SpecStep {
                        ctx: SpecContext {
                            last_action_at: now,
                            mode: spec_action_mode(b@.action, ctx.mode),
                            ..ctx
                        },
                        calls: spec_action_calls(b@.action, true, ctx.mode),
                        outcome: CodeOutcome::Replayed {
                            unknown_handler: spec_unknown_handler(b@.action),
                        },
                    }
                },
            }
        }
    } else {
        if binds.contains_key(code) {
            let b = binds[code];
            SpecStep {
                ctx: SpecContext {
                    last_code: if b.repeat {
                        Some(code)
                    } else {
                        None
                    },
                    last_action_at: now,
                    last_refresh_at: ctx.last_refresh_at,
                    mode: spec_action_mode(b@.action, ctx.mode),
                },
                calls: spec_action_calls(b@.action, false, ctx.mode),
                outcome: CodeOutcome::Dispatched {
                    unknown_handler: spec_unknown_handler(b@.action),
                },
            }
        } else {
            SpecStep {
                ctx: SpecContext { last_code: None, last_action_at: now, ..ctx },
                calls: Seq::empty(),
                outcome: CodeOutcome::Unbound,
            }
        }
    }
}

/// Handles one decoded code: applies the debounce and repeat rules,
/// resolves the bind, interprets its action, and updates the state.
///
/// The contract is exactly [`spec_step`].  In particular: a sentinel
/// inside the suppression window changes nothing and makes no call; a
/// sentinel with nothing to repeat changes nothing and makes no call; a
/// sentinel otherwise replays the last code's bind as a repeat; a fresh
/// bound code is dispatched and is remembered if and only if its bind
/// has `repeat`; a fresh unbound code makes no call and clears the
/// remembered code.
pub fn handle_code(
    ctx: &mut DispatchContext,
    binds: &BindMap,
    code: &String,
    now: u64,
) -> (r: StepResult)
    requires
        ctx_wf(old(ctx)@, binds@),
        old(ctx).last_action_at <= now,
    ensures
        ({
            let m = spec_step(old(ctx)@, binds@, code@, now);
            &&& final(ctx)@ == m.ctx
            &&& r.calls.deep_view() == m.calls
            &&& r.outcome == m.outcome
        }),
        ctx_wf(final(ctx)@, binds@),
{
    if str_eq(code, "FFFFFFFF") {
        if now - ctx.last_action_at < REPEAT_SUPPRESS_MS {
            return StepResult { calls: Vec::new(), outcome: CodeOutcome::SuppressedNoise };
        }
        let (new_mode, res) = match &ctx.last_code {
            None => {
                return StepResult { calls: Vec::new(), outcome: CodeOutcome::NothingToRepeat };
            },
            Some(lc) => {
                match binds.get(lc.as_str()) {
                    Some(b) => {
                        let d = dispatch_action(b, true, ctx.mode);
                        (
                            d.mode,
                            StepResult {
                                calls: d.calls,
                                outcome: CodeOutcome::Replayed {
                                    unknown_handler: d.unknown_handler,
                                },
                            },
                        )
                    },
                    None => {
                        proof {
                            assert(false);
                        }
                        (
                            ctx.mode,
                            StepResult { calls: Vec::new(), outcome: CodeOutcome::Unbound },
                        )
                    },
                }
            },
        };
        ctx.mode = new_mode;
        ctx.last_action_at = now;
        res
    } else {
        match binds.get(code.as_str()) {
            Some(b) => {
                let d = dispatch_action(b, false, ctx.mode);
                ctx.last_code = if b.repeat {
                    Some(code.clone())
                } else {
                    None
                };
                ctx.mode = d.mode;
                ctx.last_action_at = now;
                StepResult {
                    calls: d.calls,
                    outcome: CodeOutcome::Dispatched { unknown_handler: d.unknown_handler },
                }
            },
            None => {
                ctx.last_code = None;
                ctx.last_action_at = now;
                StepResult { calls: Vec::new(), outcome: CodeOutcome::Unbound }
            },
        }
    }
}

/// Whether the periodic refresh fires at clock reading `now`: the user
/// has been idle at least the idle threshold, and the refresh interval
/// has elapsed since the last refresh.
pub open spec fn spec_refresh_fires(ctx: SpecContext, now: u64) -> bool {
    &&& now - ctx.last_action_at >= ACTION_IDLE_MS
    &&& now - ctx.last_refresh_at >= REFRESH_INTERVAL_MS
}

/// The state after one refresh evaluation: the refresh timer is reset
/// when the refresh fires, pinned to `now` while the user is still
/// active, and left alone otherwise.
pub open spec fn spec_refresh_step(ctx: SpecContext, now: u64) -> SpecContext {
    if now - ctx.last_action_at >= ACTION_IDLE_MS {
        if now - ctx.last_refresh_at >= REFRESH_INTERVAL_MS {
            SpecContext { last_refresh_at: now, ..ctx }
        } else {
            ctx
        }
    } else {
        SpecContext { last_refresh_at: now, ..ctx }
    }
}

/// Evaluates the periodic refresh rule for one loop tick; the result
/// says whether to invoke the media info refresh now.  Re-evaluated
/// every iteration, whether or not a line was read.
pub fn refresh_tick(ctx: &mut DispatchContext, now: u64) -> (fire: bool)
    requires
        old(ctx).last_action_at <= now,
        old(ctx).last_refresh_at <= now,
    ensures
        fire == spec_refresh_fires(old(ctx)@, now),
        final(ctx)@ == spec_refresh_step(old(ctx)@, now),
{
    if now - ctx.last_action_at >= ACTION_IDLE_MS {
        if now - ctx.last_refresh_at >= REFRESH_INTERVAL_MS {
            ctx.last_refresh_at = now;
            true
        } else {
            false
        }
    } else {
        ctx.last_refresh_at = now;
        false
    }
}

/// Law: a bind whose `repeat` flag is false never arms sentinel replay.
/// After a fresh code resolves to such a bind — or to no bind at all —
/// nothing is remembered, and a sentinel that follows, however soon or
/// late, makes no capability call and changes nothing.
pub proof fn lemma_nonrepeat_never_replayed(
    ctx: SpecContext,
    binds: Map<Seq<char>, Bind>,
    code: Seq<char>,
    now: u64,
    now2: u64,
)
    requires
        code != sentinel(),
        binds.contains_key(code) ==> !binds[code].repeat,
    ensures
        ({
            let after = spec_step(ctx, binds, code, now).ctx;
            let replay = spec_step(after, binds, sentinel(), now2);
            &&& after.last_code is None
            &&& replay.calls.len() == 0
            &&& replay.ctx == after
            &&& (replay.outcome == CodeOutcome::SuppressedNoise || replay.outcome
                == CodeOutcome::NothingToRepeat)
        }),
{
}

/// Law: a sentinel inside the suppression window is discarded outright:
/// no capability call, no state change, timestamps untouched.
pub proof fn lemma_sentinel_suppressed(
    ctx: SpecContext,
    binds: Map<Seq<char>, Bind>,
    now: u64,
)
    requires
        now - ctx.last_action_at < REPEAT_SUPPRESS_MS,
    ensures
        ({
            let m = spec_step(ctx, binds, sentinel(), now);
            m.ctx == ctx && m.calls.len() == 0 && m.outcome == CodeOutcome::SuppressedNoise
        }),
{
}

/// Law: a sentinel past the suppression window replays the remembered
/// code's bind as a repeat; with nothing remembered it is a no-op.
pub proof fn lemma_sentinel_replays(
    ctx: SpecContext,
    binds: Map<Seq<char>, Bind>,
    now: u64,
)
    requires
        ctx_wf(ctx, binds),
        now - ctx.last_action_at >= REPEAT_SUPPRESS_MS,
    ensures
        ({
            let m = spec_step(ctx, binds, sentinel(), now);
            match ctx.last_code {
                Some(lc) => m.calls == spec_action_calls(binds[lc]@.action, true, ctx.mode)
                    && m.outcome == (CodeOutcome::Replayed {
                    unknown_handler: spec_unknown_handler(binds[lc]@.action),
                }) && m.ctx.last_action_at == now,
                None => m.ctx == ctx && m.calls.len() == 0 && m.outcome
                    == CodeOutcome::NothingToRepeat,
            }
        }),
{
}

/// Law: a code bound to nothing makes no capability call; the engine
/// only clears the remembered code and resets the action timestamp.
pub proof fn lemma_unbound_code(
    ctx: SpecContext,
    binds: Map<Seq<char>, Bind>,
    code: Seq<char>,
    now: u64,
)
    requires
        code != sentinel(),
        !binds.contains_key(code),
    ensures
        ({
            let m = spec_step(ctx, binds, code, now);
            &&& m.calls.len() == 0
            &&& m.outcome == CodeOutcome::Unbound
            &&& m.ctx == (SpecContext { last_code: None, last_action_at: now, ..ctx })
        }),
{
}

/// Law: two consecutive firings of the periodic refresh lie at least
/// the refresh interval apart.
pub proof fn lemma_refresh_min_interval(ctx: SpecContext, now1: u64, now2: u64)
    requires
        spec_refresh_fires(ctx, now1),
        spec_refresh_fires(spec_refresh_step(ctx, now1), now2),
        now1 <= now2,
    ensures
        now2 - now1 >= REFRESH_INTERVAL_MS,
{
}

/// Law: the periodic refresh never fires while codes arrive faster
/// than the idle threshold: firing needs that much idle time.
pub proof fn lemma_refresh_needs_idle(ctx: SpecContext, now: u64)
    requires
        spec_refresh_fires(ctx, now),
    ensures
        now - ctx.last_action_at >= ACTION_IDLE_MS,
{
}

} // verus!
