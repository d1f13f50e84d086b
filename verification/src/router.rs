//! Router: compiles the registry's patterns once at startup (fail-fast on
//! configuration errors), then turns each inbound event into a dispatch
//! plan — classification, identity resolution, subject extraction, and
//! fan-out matching in registration order.

use vstd::prelude::*;
use vstd::utf8::{decode_utf8, valid_utf8};

use crate::event::{chat_of, classify, classify_spec, Chat, Classification, Update};
use crate::handler::{effective_source, EventKind, Handler};
use crate::language::I18n;
use crate::pattern::{
    compile_command_source, opt_view, regex_match, regex_valid, CompiledPattern,
};
use crate::resolver::{
    default_language, is_register_request_for, resolve_chat, resolved_locale, LookupOutcome,
    RegisterRequest,
};

verus! {

/// The bot's own identity, used for mention rewriting and self-referential
/// templating.
pub struct BotIdentity {
    pub username: Option<String>,
    pub first_name: String,
}

impl BotIdentity {
    pub fn duplicate(&self) -> (r: Self)
        ensures
            r == *self,
    {
        BotIdentity {
            username: match &self.username {
                Some(s) => Some(s.clone()),
                None => None,
            },
            first_name: self.first_name.clone(),
        }
    }
}

/// A configuration error found while compiling the registry: fatal at
/// startup.
#[derive(Debug, PartialEq, Eq, Structural)]
pub enum ConfigError {
    /// The prefix set is empty although a command handler is registered, so
    /// that handler could never match.
    EmptyPrefixSet,
    /// The handler at this registration index declared a malformed pattern.
    InvalidPattern(usize),
}

/// The registry after startup compilation: every handler's effective
/// pattern source compiled exactly once, for one prefix set and one bot
/// username.
pub struct CompiledRegistry {
    handlers: Vec<Handler>,
    matchers: Vec<CompiledPattern>,
    prefixes: Vec<char>,
    username: Option<String>,
}

impl CompiledRegistry {
    /// The registered handlers, in registration order.
    pub closed spec fn handlers_view(self) -> Seq<Handler> {
        self.handlers@
    }

    /// The prefix set the command patterns were compiled for.
    pub closed spec fn prefixes_view(self) -> Seq<char> {
        self.prefixes@
    }

    /// The bot username the command patterns were compiled for.
    pub closed spec fn username_view(self) -> Option<Seq<char>> {
        opt_view(self.username)
    }

    #[verifier::type_invariant]
    spec fn wf(self) -> bool {
        &&& self.matchers@.len() == self.handlers@.len()
        &&& forall|i: int|
            0 <= i < self.handlers@.len() ==> (#[trigger] self.matchers@[i]).source_view()
                == effective_source(self.handlers@[i], self.prefixes@, opt_view(self.username))
    }

    /// The number of registered handlers.
    pub fn len(&self) -> (r: usize)
        ensures
            r == self.handlers_view().len(),
    {
        self.handlers.len()
    }
}

/// Whether any registered handler declares a command pattern.
fn any_command(handlers: &Vec<Handler>) -> (r: bool)
    ensures
        r == exists|i: int|
            0 <= i < handlers@.len() && (#[trigger] handlers@[i]).is_command_spec(),
{
    let mut i: usize = 0;
    while i < handlers.len()
        invariant
            i <= handlers@.len(),
            forall|j: int| 0 <= j < i ==> !(#[trigger] handlers@[j]).is_command_spec(),
        decreases handlers@.len() - i,
    {
        if handlers[i].is_command() {
            return true;
        }
        i = i + 1;
    }
    false
}

/// Compiles every handler's effective pattern once, fail-fast: an empty
/// prefix set beside a command handler, or a malformed pattern, refuses the
/// whole registry.
pub fn compile_registry(handlers: Vec<Handler>, prefixes: Vec<char>, username: Option<String>) -> (r:
    Result<CompiledRegistry, ConfigError>)
    ensures
        r matches Ok(reg) ==> {
            &&& reg.handlers_view() == handlers@
            &&& reg.prefixes_view() == prefixes@
            &&& reg.username_view() == opt_view(username)
            &&& prefixes@.len() > 0 || (forall|i: int|
                0 <= i < handlers@.len() ==> !(#[trigger] handlers@[i]).is_command_spec())
            &&& forall|i: int|
                0 <= i < handlers@.len() ==> regex_valid(
                    effective_source(#[trigger] handlers@[i], prefixes@, opt_view(username)),
                )
        },
        r matches Err(e) ==> match e {
            ConfigError::EmptyPrefixSet => prefixes@.len() == 0 && (exists|i: int|
                0 <= i < handlers@.len() && (#[trigger] handlers@[i]).is_command_spec()),
            ConfigError::InvalidPattern(i) => {
                &&& (i as int) < handlers@.len()
                &&& !regex_valid(
                    effective_source(handlers@[i as int], prefixes@, opt_view(username)),
                )
                &&& forall|j: int|
                    0 <= j < (i as int) ==> regex_valid(
                        effective_source(#[trigger] handlers@[j], prefixes@, opt_view(username)),
                    )
                &&& prefixes@.len() > 0 || (forall|k: int|
                    0 <= k < handlers@.len() ==> !(#[trigger] handlers@[k]).is_command_spec())
            },
        },
{
    if prefixes.len() == 0 && any_command(&handlers) {
        return Err(ConfigError::EmptyPrefixSet);
    }
    let mut matchers: Vec<CompiledPattern> = Vec::new();
    let mut i: usize = 0;
    while i < handlers.len()
        invariant
            i <= handlers@.len(),
            matchers@.len() == i,
            prefixes@.len() > 0 || (forall|k: int|
                0 <= k < handlers@.len() ==> !(#[trigger] handlers@[k]).is_command_spec()),
            forall|j: int|
                0 <= j < i ==> (#[trigger] matchers@[j]).source_view() == effective_source(
                    handlers@[j],
                    prefixes@,
                    opt_view(username),
                ),
            forall|j: int|
                0 <= j < i ==> regex_valid(
                    effective_source(#[trigger] handlers@[j], prefixes@, opt_view(username)),
                ),
        decreases handlers@.len() - i,
    {
        let h = &handlers[i];
        let src: String = if h.is_command() {
            compile_command_source(h.pattern.as_str(), &prefixes, &username)
        } else {
            h.pattern.clone()
        };
        proof {
            assert(src@ == effective_source(handlers@[i as int], prefixes@, opt_view(username)));
        }
        match CompiledPattern::new(src) {
            Some(m) => {
                matchers.push(m);
            },
            None => {
                return Err(ConfigError::InvalidPattern(i));
            },
        }
        i = i + 1;
    }
    Ok(CompiledRegistry { handlers, matchers, prefixes, username })
}

/// The immutable bundle handed to one matched handler invocation: exactly
/// one of message/callback, the matched text, the resolved locale, and the
/// bot's identity.
pub struct Data {
    pub message: Option<crate::event::MessageEvent>,
    pub callback: Option<crate::event::CallbackEvent>,
    pub request: String,
    pub language: I18n,
    pub me: BotIdentity,
}

/// One matched handler to invoke: its action identifier and its fresh
/// context.
pub struct Invocation {
    pub function: u64,
    pub data: Data,
}

/// What app code performs for one dispatched event: at most one
/// registration, then every invocation, in registration order.
pub struct DispatchPlan {
    pub register: Option<RegisterRequest>,
    pub invocations: Vec<Invocation>,
}

/// The terminal state of one dispatch cycle.
pub enum DispatchOutcome {
    /// Dropped at classification: outgoing, channel-origin, or an update
    /// kind the router does not dispatch.
    Discarded,
    /// Dropped at subject extraction: the callback payload is not UTF-8.
    Invalid,
    /// Matched against the registry; the plan may hold zero invocations.
    Dispatched(DispatchPlan),
}

/// The text an event is matched against: a message's text, or a callback
/// payload decoded as UTF-8; `None` where decoding fails or the event kind
/// carries no subject.
pub open spec fn subject_of(u: Update) -> Option<Seq<char>> {
    match u {
        Update::NewMessage(m) => Some(m.text@),
        Update::CallbackQuery(c) => if valid_utf8(c.data@) {
            Some(decode_utf8(c.data@))
        } else {
            None
        },
        Update::Other => None,
    }
}

/// Relies on `String::from_utf8`: succeeds exactly on valid UTF-8 and
/// returns its decoding.
#[verifier::external_body]
fn decode_payload(data: &Vec<u8>) -> (r: Option<String>)
    ensures
        r is Some <==> valid_utf8(data@),
        r matches Some(s) ==> s@ == decode_utf8(data@),
{
    match String::from_utf8(data.clone()) {
        Ok(s) => Some(s),
        Err(_) => None,
    }
}

/// Whether the handler at index `i` is eligible for this event kind and its
/// compiled pattern matches the subject.
pub open spec fn handler_matches(
    reg: CompiledRegistry,
    i: int,
    kind: EventKind,
    subject: Seq<char>,
) -> bool {
    &&& reg.handlers_view()[i].update_type == kind
    &&& regex_match(
        effective_source(reg.handlers_view()[i], reg.prefixes_view(), reg.username_view()),
        subject,
    )
}

/// The indices of the matching handlers at or after `i`, in registration
/// order.
pub open spec fn matched_indices_from(
    reg: CompiledRegistry,
    kind: EventKind,
    subject: Seq<char>,
    i: int,
) -> Seq<int>
    decreases reg.handlers_view().len() - i when i <= reg.handlers_view().len()
{
    if i >= reg.handlers_view().len() {
        Seq::empty()
    } else if handler_matches(reg, i, kind, subject) {
        seq![i] + matched_indices_from(reg, kind, subject, i + 1)
    } else {
        matched_indices_from(reg, kind, subject, i + 1)
    }
}

/// The indices of all matching handlers, in registration order.
pub open spec fn matched_indices(
    reg: CompiledRegistry,
    kind: EventKind,
    subject: Seq<char>,
) -> Seq<int> {
    matched_indices_from(reg, kind, subject, 0)
}

/// A dispatch context as built for one invocation on this event: it embeds
/// the event payload (exactly one of message/callback), the matched
/// subject, the resolved locale, and the bot identity.
pub open spec fn data_for_event(
    d: Data,
    u: Update,
    subject: Seq<char>,
    locale: Seq<char>,
    me: BotIdentity,
) -> bool {
    &&& match u {
        Update::NewMessage(m) => (d.message matches Some(mm) && mm == m) && d.callback is None,
        Update::CallbackQuery(c) => (d.callback matches Some(cc) && cc.chat == c.chat && cc.data@
            == c.data@) && d.message is None,
        Update::Other => false,
    }
    &&& d.request@ == subject
    &&& d.language.language@ == locale
    &&& d.language.default_language@ == default_language()
    &&& d.language.escape_html
    &&& d.me == me
}

/// The dispatch plan the router owes for one classified event with a
/// decodable subject.
pub open spec fn plan_matches(
    plan: DispatchPlan,
    reg: CompiledRegistry,
    u: Update,
    kind: EventKind,
    subject: Seq<char>,
    lookup: LookupOutcome,
    me: BotIdentity,
) -> bool {
    let m = matched_indices(reg, kind, subject);
    let locale = resolved_locale(chat_of(u), lookup);
    &&& (lookup is NotFound ==> (plan.register matches Some(req) && is_register_request_for(
        req,
        chat_of(u),
    )))
    &&& (!(lookup is NotFound) ==> plan.register is None)
    &&& plan.invocations@.len() == m.len()
    &&& forall|k: int|
        0 <= k < m.len() ==> (#[trigger] plan.invocations@[k]).function
            == reg.handlers_view()[m[k]].function && data_for_event(
            plan.invocations@[k].data,
            u,
            subject,
            locale,
            me,
        )
}

/// The router's full obligation for one inbound event: drop excluded
/// events at classification, drop undecodable callback payloads, and
/// otherwise dispatch exactly the matching handlers.
pub open spec fn dispatch_outcome_ok(
    r: DispatchOutcome,
    reg: CompiledRegistry,
    u: Update,
    lookup: LookupOutcome,
    me: BotIdentity,
) -> bool {
    match classify_spec(u) {
        Classification::Discard => r is Discarded,
        Classification::Dispatch(kind) => match subject_of(u) {
            Some(subject) => (r matches DispatchOutcome::Dispatched(plan) && plan_matches(
                plan,
                reg,
                u,
                kind,
                subject,
                lookup,
                me,
            )),
            None => r is Invalid,
        },
    }
}

/// Builds the fresh context for one invocation.
fn build_data(update: &Update, subject: &String, locale: &String, me: &BotIdentity) -> (d: Data)
    requires
        !(*update is Other),
    ensures
        data_for_event(d, *update, subject@, locale@, *me),
{
    let mut language = crate::language::new();
    language.set_language(locale.clone());
    match update {
        Update::NewMessage(m) => Data {
            message: Some(m.duplicate()),
            callback: None,
            request: subject.clone(),
            language,
            me: me.duplicate(),
        },
        Update::CallbackQuery(c) => Data {
            message: None,
            callback: Some(c.duplicate()),
            request: subject.clone(),
            language,
            me: me.duplicate(),
        },
        Update::Other => {
            proof {
                assert(false);
            }
            Data {
                message: None,
                callback: None,
                request: subject.clone(),
                language,
                me: me.duplicate(),
            }
        },
    }
}

/// One full dispatch cycle, given the persistence lookup's outcome for the
/// event's chat: classification, identity resolution, subject extraction,
/// and fan-out matching, per `dispatch_outcome_ok`. The caller performs the
/// plan: the registration if one is asked for, then each invocation.
pub fn handle_update(
    reg: &CompiledRegistry,
    update: &Update,
    lookup: &LookupOutcome,
    me: &BotIdentity,
) -> (r: DispatchOutcome)
    ensures
        dispatch_outcome_ok(r, *reg, *update, *lookup, *me),
{
    let kind = match classify(update) {
        Classification::Discard => {
            return DispatchOutcome::Discarded;
        },
        Classification::Dispatch(k) => k,
    };
    let chat: &Chat = match update {
        Update::NewMessage(m) => &m.chat,
        Update::CallbackQuery(c) => &c.chat,
        Update::Other => {
            proof {
                assert(false);
            }
            return DispatchOutcome::Discarded;
        },
    };
    let resolution = resolve_chat(chat, lookup);
    let subject: String = match update {
        Update::NewMessage(m) => m.text.clone(),
        Update::CallbackQuery(c) => match decode_payload(&c.data) {
            Some(s) => s,
            None => {
                return DispatchOutcome::Invalid;
            },
        },
        Update::Other => {
            proof {
                assert(false);
            }
            return DispatchOutcome::Invalid;
        },
    };
    let ghost subj = subject@;
    let ghost locale_v = resolved_locale(chat_of(*update), *lookup);
    proof {
        assert(subject_of(*update) == Some(subj));
        assert(resolution.locale@ == locale_v);
    }

    let mut invocations: Vec<Invocation> = Vec::new();
    let ghost mut done: Seq<int> = Seq::empty();
    let mut i: usize = 0;
    proof {
        assert(done + matched_indices_from(*reg, kind, subj, 0) =~= matched_indices_from(
            *reg,
            kind,
            subj,
            0,
        ));
    }
    while i < reg.handlers.len()
        invariant
            i <= reg.handlers_view().len(),
            matched_indices(*reg, kind, subj) == done + matched_indices_from(
                *reg,
                kind,
                subj,
                i as int,
            ),
            invocations@.len() == done.len(),
            forall|k: int| 0 <= k < done.len() ==> 0 <= #[trigger] done[k] < i,
            forall|k: int|
                0 <= k < done.len() ==> (#[trigger] invocations@[k]).function
                    == reg.handlers_view()[done[k]].function && data_for_event(
                    invocations@[k].data,
                    *update,
                    subj,
                    locale_v,
                    *me,
                ),
            subject@ == subj,
            resolution.locale@ == locale_v,
            !(*update is Other),
        decreases reg.handlers_view().len() - i,
    {
        proof {
            use_type_invariant(&*reg);
        }
        let ghost rest = matched_indices_from(*reg, kind, subj, i + 1 as int);
        let h = &reg.handlers[i];
        if h.update_type == kind && reg.matchers[i].is_match(subject.as_str()) {
            proof {
                assert(handler_matches(*reg, i as int, kind, subj));
                assert(matched_indices_from(*reg, kind, subj, i as int) == seq![i as int] + rest);
            }
            let data = build_data(update, &subject, &resolution.locale, me);
            let function = h.function;
            invocations.push(Invocation { function, data });
            proof {
                assert(done + (seq![i as int] + rest) =~= done.push(i as int) + rest);
                done = done.push(i as int);
            }
        } else {
            proof {
                assert(!handler_matches(*reg, i as int, kind, subj));
                assert(matched_indices_from(*reg, kind, subj, i as int) == rest);
            }
        }
        i = i + 1;
    }
    proof {
        assert(matched_indices_from(*reg, kind, subj, i as int) =~= Seq::<int>::empty());
        assert(done =~= matched_indices(*reg, kind, subj));
    }
    DispatchOutcome::Dispatched(DispatchPlan { register: resolution.register, invocations })
}

proof fn lemma_matched_indices_from_props(
    reg: CompiledRegistry,
    kind: EventKind,
    subject: Seq<char>,
    i: int,
)
    requires
        0 <= i <= reg.handlers_view().len(),
    ensures
        ({
            let m = matched_indices_from(reg, kind, subject, i);
            &&& forall|k: int|
                0 <= k < m.len() ==> i <= #[trigger] m[k] < reg.handlers_view().len()
                    && handler_matches(reg, m[k], kind, subject)
            &&& forall|k1: int, k2: int| 0 <= k1 < k2 < m.len() ==> m[k1] < m[k2]
            &&& forall|j: int|
                i <= j < reg.handlers_view().len() && handler_matches(reg, j, kind, subject)
                    ==> m.contains(j)
        }),
    decreases reg.handlers_view().len() - i,
{
    let m = matched_indices_from(reg, kind, subject, i);
    let len = reg.handlers_view().len() as int;
    if i < len {
        lemma_matched_indices_from_props(reg, kind, subject, i + 1);
        let m1 = matched_indices_from(reg, kind, subject, i + 1);
        if handler_matches(reg, i, kind, subject) {
            assert(m == seq![i] + m1);
            assert(m[0] == i);
            assert forall|j: int|
                i <= j < len && handler_matches(reg, j, kind, subject) implies m.contains(j) by {
                if j == i {
                    assert(m[0] == j);
                } else {
                    assert(m1.contains(j));
                    let p = choose|p: int| 0 <= p < m1.len() && m1[p] == j;
                    assert(m[p + 1] == j);
                }
            }
            assert forall|k1: int, k2: int| 0 <= k1 < k2 < m.len() implies m[k1] < m[k2] by {
                if k1 == 0 {
                    assert(m[k2] == m1[k2 - 1]);
                } else {
                    assert(m[k1] == m1[k1 - 1] && m[k2] == m1[k2 - 1]);
                }
            }
        } else {
            assert(m == m1);
        }
    }
}

/// Fan-out, not first-match: when two handlers are both eligible for the
/// event kind and both of their patterns match the subject, both are
/// invoked, and their invocations stand in registration order (the earlier
/// registration is submitted first).
pub proof fn lemma_fan_out_in_registration_order(
    reg: CompiledRegistry,
    kind: EventKind,
    subject: Seq<char>,
    i: int,
    j: int,
)
    requires
        0 <= i < j < reg.handlers_view().len(),
        handler_matches(reg, i, kind, subject),
        handler_matches(reg, j, kind, subject),
    ensures
        ({
            let m = matched_indices(reg, kind, subject);
            exists|p: int, q: int| 0 <= p < q < m.len() && m[p] == i && m[q] == j
        }),
{
    lemma_matched_indices_from_props(reg, kind, subject, 0);
    let m = matched_indices(reg, kind, subject);
    assert(m.contains(i));
    assert(m.contains(j));
    let p = choose|p: int| 0 <= p < m.len() && m[p] == i;
    let q = choose|q: int| 0 <= q < m.len() && m[q] == j;
    assert(p != q);
    if q < p {
        assert(m[q] < m[p]);
        assert(false);
    }
    assert(0 <= p < q < m.len() && m[p] == i && m[q] == j);
}

/// Completeness of the fan-out: a dispatched plan holds an invocation for
/// every handler whose kind and pattern match the subject, carrying that
/// handler's action and a context with the resolved locale.
pub proof fn lemma_plan_invokes_every_match(
    plan: DispatchPlan,
    reg: CompiledRegistry,
    u: Update,
    kind: EventKind,
    subject: Seq<char>,
    lookup: LookupOutcome,
    me: BotIdentity,
    j: int,
)
    requires
        plan_matches(plan, reg, u, kind, subject, lookup, me),
        0 <= j < reg.handlers_view().len(),
        handler_matches(reg, j, kind, subject),
    ensures
        exists|k: int|
            0 <= k < plan.invocations@.len() && (#[trigger] plan.invocations@[k]).function
                == reg.handlers_view()[j].function && data_for_event(
                plan.invocations@[k].data,
                u,
                subject,
                resolved_locale(chat_of(u), lookup),
                me,
            ),
{
    lemma_matched_indices_from_props(reg, kind, subject, 0);
    let m = matched_indices(reg, kind, subject);
    assert(m.contains(j));
    let k = choose|k: int| 0 <= k < m.len() && m[k] == j;
    assert(plan.invocations@[k].function == reg.handlers_view()[j].function && data_for_event(
        plan.invocations@[k].data,
        u,
        subject,
        resolved_locale(chat_of(u), lookup),
        me,
    ));
}

/// Soundness of the fan-out: each invocation of a dispatched plan comes
/// from a handler whose kind and pattern match the subject.
pub proof fn lemma_plan_invokes_only_matches(
    plan: DispatchPlan,
    reg: CompiledRegistry,
    u: Update,
    kind: EventKind,
    subject: Seq<char>,
    lookup: LookupOutcome,
    me: BotIdentity,
    k: int,
)
    requires
        plan_matches(plan, reg, u, kind, subject, lookup, me),
        0 <= k < plan.invocations@.len(),
    ensures
        ({
            let j = matched_indices(reg, kind, subject)[k];
            &&& 0 <= j < reg.handlers_view().len()
            &&& handler_matches(reg, j, kind, subject)
            &&& plan.invocations@[k].function == reg.handlers_view()[j].function
        }),
{
    lemma_matched_indices_from_props(reg, kind, subject, 0);
}

/// A channel-origin event and an outgoing (self-sent) message both
/// terminate at classification: the dispatch cycle ends `Discarded`, with
/// zero invocations.
pub proof fn lemma_excluded_events_discarded(
    r: DispatchOutcome,
    reg: CompiledRegistry,
    u: Update,
    lookup: LookupOutcome,
    me: BotIdentity,
)
    requires
        dispatch_outcome_ok(r, reg, u, lookup, me),
        match u {
            Update::NewMessage(m) => m.outgoing || m.chat is Channel,
            Update::CallbackQuery(c) => c.chat is Channel,
            Update::Other => false,
        },
    ensures
        r is Discarded,
{
}

} // verus!
