//! Routing of log records to the handlers registered for a system and MCU.
//!
//! Every MCU runs inside a tracing span that names its system and, where it
//! has one, the MCU. A log record is delivered to each handler registered for
//! exactly that system and MCU.

use vstd::prelude::*;

verus! {

#[verifier::external_type_specification]
#[verifier::external_body]
pub struct ExLevel(tracing::Level);

/// Receives the log records routed to it.
pub trait LogHandler: Send + Sync {
    /// Handles one record at `level` from `ctx`.
    fn log(&self, level: tracing::Level, ctx: &Context<'_>, msg: &str);
}

/// Structured metadata of a log record: where it came from.
pub struct Context<'a> {
    /// The system the record came from.
    pub sys: &'a str,
    /// The MCU the record came from, if any.
    pub mcu: Option<&'a str>,
    /// The record's target (`firmware`, `runtime`, `hardware`, ...).
    pub target: &'a str,
}

/// The text of a context: `(sys/mcu) target`, or `(sys) target` without an MCU.
pub open spec fn context_text(sys: Seq<char>, mcu: Option<Seq<char>>, target: Seq<char>) -> Seq<
    char,
> {
    match mcu {
        Some(m) => seq!['('] + sys + seq!['/'] + m + seq![')', ' '] + target,
        None => seq!['('] + sys + seq![')', ' '] + target,
    }
}

impl<'a> Context<'a> {
    /// Renders the context as `(sys/mcu) target`, or `(sys) target` without an MCU.
    pub fn to_string(&self) -> (r: String)
        ensures
            r@ == context_text(self.sys@, opt_str_view(self.mcu), self.target@),
    {
        let mut s = String::from_str("(");
        s.append(self.sys);
        match self.mcu {
            Some(m) => {
                s.append("/");
                s.append(m);
            },
            None => {},
        }
        s.append(") ");
        s.append(self.target);
        proof {
            reveal_strlit("(");
            reveal_strlit("/");
            reveal_strlit(") ");
        }
        s
    }
}

/// The line a log handler prints for a record: `[level] context: msg`.
pub open spec fn log_line_text(level: Seq<char>, ctx: Seq<char>, msg: Seq<char>) -> Seq<char> {
    seq!['['] + level + seq![']', ' '] + ctx + seq![':', ' '] + msg
}

/// Renders a record as `[level] (sys/mcu) target: msg`, where `level` is the
/// level's name.
pub fn log_line(level: &str, ctx: &Context<'_>, msg: &str) -> (r: String)
    ensures
        r@ == log_line_text(level@, context_text(ctx.sys@, opt_str_view(ctx.mcu), ctx.target@), msg@),
{
    let mut s = String::from_str("[");
    s.append(level);
    s.append("] ");
    let c = ctx.to_string();
    s.append(c.as_str());
    s.append(": ");
    s.append(msg);
    proof {
        reveal_strlit("[");
        reveal_strlit("] ");
        reveal_strlit(": ");
    }
    s
}

/// The characters of an optional string.
pub open spec fn opt_view(s: Option<String>) -> Option<Seq<char>> {
    match s {
        Some(x) => Some(x@),
        None => None,
    }
}

/// The characters of an optional string slice.
pub open spec fn opt_str_view(s: Option<&str>) -> Option<Seq<char>> {
    match s {
        Some(x) => Some(x@),
        None => None,
    }
}

/// A handler registered for a system and, optionally, one of its MCUs.
pub struct RegisteredHandler<H> {
    /// The system whose records the handler receives.
    pub system: String,
    /// The MCU whose records the handler receives; `None` for records outside any MCU.
    pub mcu: Option<String>,
    /// The handler.
    pub handler: H,
}

/// Whether a handler registered as `entry` receives records from `sys` and `mcu`:
/// both must match exactly.
pub open spec fn routes_to<H>(
    entry: RegisteredHandler<H>,
    sys: Seq<char>,
    mcu: Option<Seq<char>>,
) -> bool {
    entry.system@ == sys && opt_view(entry.mcu) == mcu
}

/// The handlers registered so far, in registration order.
pub struct LogHandlerRegistry<H> {
    handlers: Vec<RegisteredHandler<H>>,
}

impl<H> View for LogHandlerRegistry<H> {
    type V = Seq<RegisteredHandler<H>>;

    closed spec fn view(&self) -> Seq<RegisteredHandler<H>> {
        self.handlers@
    }
}

impl<H> LogHandlerRegistry<H> {
    /// An empty registry.
    pub fn new() -> (r: Self)
        ensures
            r@ == Seq::<RegisteredHandler<H>>::empty(),
    {
        LogHandlerRegistry { handlers: Vec::new() }
    }

    /// Registers `handler` for the records of `system` and `mcu`.
    pub fn register(&mut self, system: String, mcu: Option<String>, handler: H)
        ensures
            final(self)@ == old(self)@.push(RegisteredHandler { system, mcu, handler }),
    {
        self.handlers.push(RegisteredHandler { system, mcu, handler });
    }

    /// The number of registered handlers.
    pub fn len(&self) -> (r: usize)
        ensures
            r == self@.len(),
    {
        self.handlers.len()
    }

    /// The handler registered `i`-th.
    pub fn handler(&self, i: usize) -> (r: &H)
        requires
            i < self@.len(),
        ensures
            *r == self@[i as int].handler,
    {
        &self.handlers[i].handler
    }

    /// The positions, in registration order, of the handlers that receive a
    /// record from `sys` and `mcu`.
    pub fn matching(&self, sys: &str, mcu: Option<&str>) -> (r: Vec<usize>)
        ensures
            forall|i: int| 0 <= i < r@.len() ==> r@[i] < self@.len(),
            forall|i: int, j: int| 0 <= i < j < r@.len() ==> r@[i] < r@[j],
            forall|k: int|
                0 <= k < self@.len() ==> (routes_to(self@[k], sys@, opt_str_view(mcu))
                    <==> r@.contains(k as usize)),
    {
        let sys_owned = sys.to_owned();
        let mcu_owned: Option<String> = match mcu {
            Some(m) => Some(m.to_owned()),
            None => None,
        };
        let mut r: Vec<usize> = Vec::new();
        let n = self.handlers.len();
        for k in 0..n
            invariant
                n == self@.len(),
                sys_owned@ == sys@,
                opt_view(mcu_owned) == opt_str_view(mcu),
                forall|i: int| 0 <= i < r@.len() ==> r@[i] < k,
                forall|i: int, j: int| 0 <= i < j < r@.len() ==> r@[i] < r@[j],
                forall|m: int|
                    0 <= m < k ==> (routes_to(self@[m], sys@, opt_str_view(mcu)) <==> r@.contains(
                        m as usize,
                    )),
        {
            let entry = &self.handlers[k];
            let sys_match = entry.system == sys_owned;
            let mcu_match = match (&entry.mcu, &mcu_owned) {
                (Some(a), Some(b)) => *a == *b,
                (None, None) => true,
                _ => false,
            };
            let ghost before = r@;
            if sys_match && mcu_match {
                r.push(k);
            }
            assert forall|m: int|
                0 <= m < k + 1 implies (routes_to(self@[m], sys@, opt_str_view(mcu))
                <==> r@.contains(m as usize)) by {
                if m < k {
                    if r@.contains(m as usize) {
                        let i = choose|i: int| 0 <= i < r@.len() && r@[i] == m as usize;
                        if i < before.len() {
                            assert(before[i] == m as usize);
                        }
                    }
                    if before.contains(m as usize) {
                        let i = choose|i: int| 0 <= i < before.len() && before[i] == m as usize;
                        assert(r@[i] == m as usize);
                    }
                } else {
                    if sys_match && mcu_match {
                        assert(r@[r@.len() - 1] == k);
                    } else {
                        if r@.contains(m as usize) {
                            let i = choose|i: int| 0 <= i < r@.len() && r@[i] == m as usize;
                            assert(before[i] < k);
                        }
                    }
                }
            }
        }
        r
    }
}

/// The log fields a span carries, if it is an MCU span.
pub struct SpanFields {
    /// The system name recorded on the span.
    pub sys: Option<String>,
    /// The MCU name recorded on the span (empty for records outside any MCU).
    pub mcu: Option<String>,
}

/// The system named by the innermost span in `spans` (listed root first) that names one.
pub open spec fn innermost_sys(spans: Seq<SpanFields>) -> Option<Seq<char>>
    decreases spans.len(),
{
    if spans.len() == 0 {
        None
    } else {
        match spans.last().sys {
            Some(s) => Some(s@),
            None => innermost_sys(spans.drop_last()),
        }
    }
}

/// The MCU named by the innermost span in `spans` (listed root first) that
/// records an MCU field; an empty name means none.
pub open spec fn innermost_mcu(spans: Seq<SpanFields>) -> Option<Seq<char>>
    decreases spans.len(),
{
    if spans.len() == 0 {
        None
    } else {
        match spans.last().mcu {
            Some(m) => if m@.len() == 0 {
                None
            } else {
                Some(m@)
            },
            None => innermost_mcu(spans.drop_last()),
        }
    }
}

/// Entering a span that names no system leaves the system a record is
/// attributed to as it was; entering one that names a system attributes the
/// record to that system.
pub proof fn lemma_innermost_sys_push(spans: Seq<SpanFields>, span: SpanFields)
    ensures
        span.sys is None ==> innermost_sys(spans.push(span)) == innermost_sys(spans),
        span.sys is Some ==> innermost_sys(spans.push(span)) == Some(span.sys->0@),
{
    assert(spans.push(span).drop_last() =~= spans);
}

/// Entering a span that records no MCU field leaves the MCU a record is
/// attributed to as it was; entering one that records an MCU name attributes
/// the record to that MCU, or to none if the name is empty.
pub proof fn lemma_innermost_mcu_push(spans: Seq<SpanFields>, span: SpanFields)
    ensures
        span.mcu is None ==> innermost_mcu(spans.push(span)) == innermost_mcu(spans),
        span.mcu is Some && span.mcu->0@.len() > 0 ==> innermost_mcu(spans.push(span)) == Some(
            span.mcu->0@,
        ),
        span.mcu is Some && span.mcu->0@.len() == 0 ==> innermost_mcu(spans.push(span)) is None,
{
    assert(spans.push(span).drop_last() =~= spans);
}

/// A record's system is the one named by the last span, root first, that
/// names a system; it has none exactly when no span names one.
pub proof fn lemma_innermost_sys_is_last_named(spans: Seq<SpanFields>)
    ensures
        innermost_sys(spans) is None <==> forall|i: int|
            0 <= i < spans.len() ==> (#[trigger] spans[i]).sys is None,
        innermost_sys(spans) is Some ==> exists|i: int|
            0 <= i < spans.len() && (#[trigger] spans[i]).sys is Some && spans[i].sys->0@
                == innermost_sys(spans)->0 && forall|j: int|
                i < j < spans.len() ==> (#[trigger] spans[j]).sys is None,
    decreases spans.len(),
{
    if spans.len() > 0 {
        let rest = spans.drop_last();
        lemma_innermost_sys_is_last_named(rest);
        assert forall|i: int| 0 <= i < rest.len() implies rest[i] == spans[i] by {}
        let last = spans.len() - 1;
        if spans[last].sys is Some {
            assert(forall|j: int| last < j < spans.len() ==> (#[trigger] spans[j]).sys is None);
        } else if innermost_sys(rest) is Some {
            let i = choose|i: int|
                0 <= i < rest.len() && (#[trigger] rest[i]).sys is Some && rest[i].sys->0@
                    == innermost_sys(rest)->0 && forall|j: int|
                    i < j < rest.len() ==> (#[trigger] rest[j]).sys is None;
            assert(spans[i] == rest[i]);
            assert forall|j: int| i < j < spans.len() implies (#[trigger] spans[j]).sys is None by {
                if j < last {
                    assert(spans[j] == rest[j]);
                }
            }
        } else {
            assert forall|i: int| 0 <= i < spans.len() implies (#[trigger] spans[i]).sys is None by {
                if i < last {
                    assert(spans[i] == rest[i]);
                }
            }
        }
    }
}

/// Where a log record comes from, given the fields of the spans it was
/// emitted in, listed root first: the innermost system and MCU names, or
/// `None` when no span names a system (such records go to no handler).
pub fn event_origin(spans: &Vec<SpanFields>) -> (r: Option<(String, Option<String>)>)
    ensures
        match innermost_sys(spans@) {
            None => r is None,
            Some(sys) => (r matches Some((s, m)) && s@ == sys && opt_view(m) == innermost_mcu(
                spans@,
            )),
        },
{
    let mut sys: Option<String> = None;
    let mut mcu: Option<String> = None;
    let n = spans.len();
    for i in 0..n
        invariant
            n == spans@.len(),
            opt_view(sys) == innermost_sys(spans@.take(i as int)),
            opt_view(mcu) == innermost_mcu(spans@.take(i as int)),
    {
        let span = &spans[i];
        assert(spans@.take(i + 1).drop_last() == spans@.take(i as int));
        match &span.sys {
            Some(s) => {
                sys = Some(s.clone());
            },
            None => {},
        }
        match &span.mcu {
            Some(m) => {
                if m.as_str().is_empty() {
                    mcu = None;
                } else {
                    mcu = Some(m.clone());
                }
            },
            None => {},
        }
    }
    assert(spans@.take(n as int) == spans@);
    match sys {
        Some(s) => Some((s, mcu)),
        None => None,
    }
}

} // verus!
