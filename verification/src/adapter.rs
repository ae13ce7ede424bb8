//! What the channel adapters have in common: their names, the retry policy
//! with exponential backoff, and the headers of a webhook request.
use crate::config::{AdapterConfig, WebhookConfig};
use crate::error::Error;
use crate::text::same_text_ignoring_case;
use vstd::arithmetic::power2::{
    lemma2_to64, lemma2_to64_rest, lemma_pow2_pos, lemma_pow2_strictly_increases, lemma_pow2_unfold, pow2,
};
use vstd::prelude::*;
use vstd::string::StringExecFns;

verus! {

/// The kinds of channel adapter.
#[derive(Debug, Clone, Copy, PartialEq, Eq, Structural)]
pub enum AdapterKind {
    Webhook,
    Kafka,
    Mqtt,
}

impl AdapterKind {
    /// The channel name under which events select this kind of adapter.
    pub open spec fn spec_name(self) -> Seq<char> {
        match self {
            AdapterKind::Webhook => "webhook"@,
            AdapterKind::Kafka => "kafka"@,
            AdapterKind::Mqtt => "mqtt"@,
        }
    }

    /// The channel name under which events select this kind of adapter.
    pub fn name(&self) -> (r: &'static str)
        ensures
            r@ == self.spec_name(),
    {
        match self {
            AdapterKind::Webhook => "webhook",
            AdapterKind::Kafka => "kafka",
            AdapterKind::Mqtt => "mqtt",
        }
    }
}

/// Which kinds of adapter this build can construct.
#[derive(Debug, Clone, Copy, PartialEq, Eq, Structural)]
pub struct AdapterSupport {
    pub webhook: bool,
    pub kafka: bool,
    pub mqtt: bool,
}

impl AdapterSupport {
    /// True when adapters of `kind` can be constructed.
    pub open spec fn spec_supports(self, kind: AdapterKind) -> bool {
        match kind {
            AdapterKind::Webhook => self.webhook,
            AdapterKind::Kafka => self.kafka,
            AdapterKind::Mqtt => self.mqtt,
        }
    }

    /// True when adapters of `kind` can be constructed.
    pub fn supports(&self, kind: AdapterKind) -> (r: bool)
        ensures
            r == self.spec_supports(kind),
    {
        match kind {
            AdapterKind::Webhook => self.webhook,
            AdapterKind::Kafka => self.kafka,
            AdapterKind::Mqtt => self.mqtt,
        }
    }
}

/// The kinds of the adapters to construct for `configs`, one per entry and in
/// the same order; fails with `FeatureDisabled`, naming the kind, at the
/// first entry whose kind is not supported.
pub fn adapter_kinds(configs: &Vec<AdapterConfig>, support: AdapterSupport) -> (r: Result<
    Vec<AdapterKind>,
    Error,
>)
    ensures
        match r {
            Ok(kinds) => {
                &&& kinds@.len() == configs@.len()
                &&& forall|i: int|
                    0 <= i < configs@.len() ==> kinds@[i] == (#[trigger] configs@[i]).spec_kind()
                        && support.spec_supports(kinds@[i])
            },
            Err(e) => exists|i: int|
                {
                    &&& 0 <= i < configs@.len()
                    &&& !support.spec_supports((#[trigger] configs@[i]).spec_kind())
                    &&& forall|j: int|
                        0 <= j < i ==> support.spec_supports((#[trigger] configs@[j]).spec_kind())
                    &&& e matches Error::FeatureDisabled(name) && name@
                        == configs@[i].spec_kind().spec_name()
                },
        },
{
    let mut kinds: Vec<AdapterKind> = Vec::new();
    let mut i: usize = 0;
    while i < configs.len()
        invariant
            0 <= i <= configs@.len(),
            kinds@.len() == i,
            forall|j: int|
                0 <= j < i ==> kinds@[j] == (#[trigger] configs@[j]).spec_kind()
                    && support.spec_supports(kinds@[j]),
        decreases configs@.len() - i,
    {
        let kind = configs[i].kind();
        if !support.supports(kind) {
            return Err(Error::FeatureDisabled(kind.name()));
        }
        kinds.push(kind);
        i = i + 1;
    }
    Ok(kinds)
}

/// The pause before the attempt that follows failure number `attempt`: two
/// to that power in seconds, capped at the largest value that fits.
pub open spec fn spec_backoff_seconds(attempt: u32) -> u64 {
    if attempt < 64 {
        pow2(attempt as nat) as u64
    } else {
        u64::MAX
    }
}

/// Two to a power below sixty-four fits in sixty-four bits, and each power
/// is twice the one before.
pub proof fn pow2_fits(n: nat)
    requires
        n < 64,
    ensures
        1 <= pow2(n) <= 0x8000_0000_0000_0000,
        n >= 1 ==> pow2(n) == 2 * pow2((n - 1) as nat),
{
    lemma2_to64_rest();
    lemma_pow2_pos(n);
    if n < 63 {
        lemma_pow2_strictly_increases(n, 63);
    }
    if n >= 1 {
        lemma_pow2_unfold(n);
    }
}

/// The pause, in seconds, before the attempt that follows failure number
/// `attempt`.
pub fn backoff_seconds(attempt: u32) -> (r: u64)
    ensures
        r == spec_backoff_seconds(attempt),
{
    if attempt >= 64 {
        return u64::MAX;
    }
    let mut r: u64 = 1;
    let mut i: u32 = 0;
    proof {
        lemma2_to64();
    }
    while i < attempt
        invariant
            0 <= i <= attempt < 64,
            r == pow2(i as nat),
        decreases attempt - i,
    {
        proof {
            pow2_fits((i + 1) as nat);
        }
        r = r * 2;
        i = i + 1;
    }
    proof {
        pow2_fits(attempt as nat);
    }
    r
}

/// What an adapter does after one attempt to deliver.
#[derive(Debug, Clone, Copy, PartialEq, Eq, Structural)]
pub enum RetryAction {
    /// The transport accepted the event: report success.
    Succeed,
    /// Wait this many seconds, then attempt again.
    RetryAfter(u64),
    /// No retry is left: report failure.
    GiveUp,
}

/// The retry state of one `send`: how many attempts have failed so far.
#[derive(Debug, Clone, Copy, PartialEq, Eq, Structural)]
pub struct RetryPolicy {
    pub max_retries: u32,
    pub attempt: u32,
}

impl RetryPolicy {
    /// The state before the first attempt.
    pub fn new(max_retries: u32) -> (r: RetryPolicy)
        ensures
            r == (RetryPolicy { max_retries, attempt: 0 }),
    {
        RetryPolicy { max_retries, attempt: 0 }
    }

    /// The action after an attempt with the given outcome.
    pub open spec fn spec_action(self, delivered: bool) -> RetryAction {
        if delivered {
            RetryAction::Succeed
        } else if self.attempt < self.max_retries {
            RetryAction::RetryAfter(spec_backoff_seconds((self.attempt + 1) as u32))
        } else {
            RetryAction::GiveUp
        }
    }

    /// The state after an attempt with the given outcome: a failure that is
    /// retried counts, nothing else changes the state.
    pub open spec fn spec_next(self, delivered: bool) -> RetryPolicy {
        if !delivered && self.attempt < self.max_retries {
            RetryPolicy { max_retries: self.max_retries, attempt: (self.attempt + 1) as u32 }
        } else {
            self
        }
    }

    /// The state after `failures` failed attempts in a row, counted from the
    /// state before the first attempt.
    pub open spec fn after_failures(max_retries: u32, failures: nat) -> RetryPolicy
        decreases failures,
    {
        if failures == 0 {
            RetryPolicy { max_retries, attempt: 0 }
        } else {
            RetryPolicy::after_failures(max_retries, (failures - 1) as nat).spec_next(false)
        }
    }

    /// Records the outcome of one attempt and says what to do next.
    pub fn on_attempt(&mut self, delivered: bool) -> (r: RetryAction)
        ensures
            r == old(self).spec_action(delivered),
            *final(self) == old(self).spec_next(delivered),
    {
        if delivered {
            RetryAction::Succeed
        } else if self.attempt < self.max_retries {
            self.attempt = self.attempt + 1;
            RetryAction::RetryAfter(backoff_seconds(self.attempt))
        } else {
            RetryAction::GiveUp
        }
    }
}

/// With a transport that always fails, each of the first `max_retries`
/// failures is followed by a pause of two to the power of its number in
/// seconds (2, 4, 8, ...) and another attempt, and failure number
/// `max_retries + 1` ends the send: exactly `max_retries + 1` attempts are
/// made.
pub proof fn failing_transport_attempts(max_retries: u32, k: nat)
    requires
        k <= max_retries,
    ensures
        RetryPolicy::after_failures(max_retries, k).attempt == k,
        RetryPolicy::after_failures(max_retries, k).max_retries == max_retries,
        k < max_retries ==> RetryPolicy::after_failures(max_retries, k).spec_action(false)
            == RetryAction::RetryAfter(spec_backoff_seconds((k + 1) as u32)),
        k < max_retries && k + 1 < 64 ==> spec_backoff_seconds((k + 1) as u32) == pow2(k + 1),
        k == max_retries ==> RetryPolicy::after_failures(max_retries, k).spec_action(false)
            == RetryAction::GiveUp,
    decreases k,
{
    if k > 0 {
        failing_transport_attempts(max_retries, (k - 1) as nat);
    }
    if k + 1 < 64 {
        pow2_fits(k + 1);
    }
}

/// A delivered attempt ends the send with success, whatever came before.
pub proof fn delivery_ends_send(policy: RetryPolicy)
    ensures
        policy.spec_action(true) == RetryAction::Succeed,
        policy.spec_next(true) == policy,
{
}

/// An HTTP status in the 2xx range means that the webhook accepted the
/// event.
pub open spec fn spec_is_success_status(status: u16) -> bool {
    200 <= status < 300
}

/// Tells whether an HTTP status means that the webhook accepted the event.
pub fn is_success_status(status: u16) -> (r: bool)
    ensures
        r == spec_is_success_status(status),
{
    200 <= status && status < 300
}

/// True when one of `headers` is named `name`, without regard to the case
/// of ASCII letters.
pub open spec fn names_header(headers: Seq<(String, String)>, name: Seq<char>) -> bool {
    exists|i: int|
        0 <= i < headers.len() && crate::text::same_ignoring_ascii_case(
            (#[trigger] headers[i]).0@,
            name,
        )
}

/// The texts of a list of headers.
pub open spec fn header_texts(headers: Seq<(String, String)>) -> Seq<(Seq<char>, Seq<char>)> {
    headers.map_values(|h: (String, String)| (h.0@, h.1@))
}

/// The custom headers of a webhook, none when the settings hold none.
pub open spec fn custom_headers_of(config: WebhookConfig) -> Seq<(String, String)> {
    match config.custom_headers {
        Some(headers) => headers@,
        None => Seq::empty(),
    }
}

/// The headers that a webhook request carries beyond those of the
/// transport: `Authorization: Bearer <token>` when a token is set and no
/// custom header is named `Authorization` (custom headers win), then the
/// custom headers in their order.
pub open spec fn spec_webhook_headers(config: WebhookConfig) -> Seq<(Seq<char>, Seq<char>)> {
    let custom = custom_headers_of(config);
    match config.auth_token {
        Some(token) if !names_header(custom, "Authorization"@) => seq![
            ("Authorization"@, "Bearer "@ + token@),
        ] + header_texts(custom),
        _ => header_texts(custom),
    }
}

/// Tells whether one of `headers` is named `name`, without regard to the
/// case of ASCII letters.
pub fn has_header(headers: &Vec<(String, String)>, name: &str) -> (r: bool)
    ensures
        r == names_header(headers@, name@),
{
    let mut i: usize = 0;
    while i < headers.len()
        invariant
            0 <= i <= headers@.len(),
            forall|j: int|
                0 <= j < i ==> !crate::text::same_ignoring_ascii_case(
                    (#[trigger] headers@[j]).0@,
                    name@,
                ),
        decreases headers@.len() - i,
    {
        if same_text_ignoring_case(headers[i].0.as_str(), name) {
            return true;
        }
        i = i + 1;
    }
    false
}

/// The headers that a webhook request carries beyond those of the
/// transport.
pub fn webhook_headers(config: &WebhookConfig) -> (r: Vec<(String, String)>)
    ensures
        header_texts(r@) == spec_webhook_headers(*config),
{
    let mut out: Vec<(String, String)> = Vec::new();
    let empty: Vec<(String, String)> = Vec::new();
    let custom: &Vec<(String, String)> = match &config.custom_headers {
        Some(headers) => headers,
        None => &empty,
    };
    assert(custom@ =~= custom_headers_of(*config));
    match &config.auth_token {
        Some(token) => {
            if !has_header(custom, "Authorization") {
                let mut value: String = "Bearer ".to_owned();
                value.append(token.as_str());
                out.push(("Authorization".to_owned(), value));
            }
        },
        None => {},
    }
    let ghost head = out@;
    let mut i: usize = 0;
    while i < custom.len()
        invariant
            0 <= i <= custom@.len(),
            out@.len() == head.len() + i,
            out@.subrange(0, head.len() as int) == head,
            forall|j: int|
                0 <= j < i ==> (#[trigger] out@[head.len() + j]).0@ == custom@[j].0@ && out@[head.len()
                    + j].1@ == custom@[j].1@,
        decreases custom@.len() - i,
    {
        let name = custom[i].0.clone();
        let value = custom[i].1.clone();
        let ghost before = out@;
        out.push((name, value));
        assert(out@.subrange(0, head.len() as int) =~= before.subrange(0, head.len() as int));
        i = i + 1;
    }
    assert(header_texts(out@) =~= header_texts(head) + header_texts(custom@)) by {
        assert(header_texts(out@).len() == head.len() + custom@.len());
        assert forall|j: int| 0 <= j < out@.len() implies header_texts(out@)[j] == (header_texts(
            head,
        ) + header_texts(custom@))[j] by {
            if j < head.len() {
                assert(out@.subrange(0, head.len() as int)[j] == out@[j]);
            } else {
                assert(out@[head.len() + (j - head.len())] == out@[j]);
            }
        }
    }
    out
}

} // verus!
