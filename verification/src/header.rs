//! Header-filter policy: the response facts copied out of NGINX, the combined
//! `Accept-Encoding` value, and the steps from a codec decision to a
//! submitted, encoded response.

use vstd::prelude::*;

use crate::coding::StatsMode;
use crate::observability::FailureClass;
use crate::pool::Provision;
use crate::select::{CodecSelectionFailure, Plan};
use crate::text::{bytes_eq_ignore_ascii_case, bytes_eq_ignore_case};

verus! {

/// `200 OK`.
pub const HTTP_OK: usize = 200;

/// Owned facts of one response that the eligibility policy reads.
pub struct ResponseFacts {
    pub main_response: bool,
    pub successful: bool,
    pub already_encoded: bool,
    pub content_length: Option<usize>,
    pub content_type: String,
}

/// Builds the response facts from the prefetched header values: the
/// response status, whether a `Content-Encoding` is already set, the
/// `Content-Length` (negative when unknown), and the `Content-Type` text
/// (`None` when it is not UTF-8). A status or length that does not fit the
/// policy's integer types, or an unreadable type, gives `None`.
pub fn response_facts(
    main_response: bool,
    status: usize,
    content_encoding_present: bool,
    content_length_n: i64,
    content_type: Option<String>,
) -> (r: Option<ResponseFacts>)
    ensures
        r is None <==> (status > u32::MAX || (content_length_n >= 0 && content_length_n > usize::MAX)
            || content_type is None),
        r matches Some(f) ==> {
            &&& f.main_response == main_response
            &&& f.successful == (status == HTTP_OK)
            &&& f.already_encoded == content_encoding_present
            &&& f.content_length == if content_length_n < 0 {
                None
            } else {
                Some(content_length_n as usize)
            }
            &&& f.content_type@ == content_type->0@
        },
{
    let content_length = if content_length_n < 0 {
        None
    } else {
        if content_length_n as u64 > usize::MAX as u64 {
            return None;
        }
        Some(content_length_n as usize)
    };
    if status > 0xffff_ffff {
        return None;
    }
    let content_type = match content_type {
        Some(t) => t,
        None => return None,
    };
    Some(
        ResponseFacts {
            main_response,
            successful: status == HTTP_OK,
            already_encoded: content_encoding_present,
            content_length,
            content_type,
        },
    )
}

/// The lower-case bytes of `accept-encoding`.
pub open spec fn accept_encoding_name() -> Seq<u8> {
    seq![97u8, 99u8, 99u8, 101u8, 112u8, 116u8, 45u8, 101u8, 110u8, 99u8, 111u8, 100u8, 105u8, 110u8, 103u8]
}

/// Whether a request header name is `Accept-Encoding` (ASCII case ignored).
pub fn is_accept_encoding(name: &[u8]) -> (r: bool)
    ensures
        r == bytes_eq_ignore_case(name@, accept_encoding_name()),
{
    let target: [u8; 15] = [97u8, 99u8, 99u8, 101u8, 112u8, 116u8, 45u8, 101u8, 110u8, 99u8, 111u8, 100u8, 105u8, 110u8, 103u8];
    assert(target@ =~= accept_encoding_name());
    bytes_eq_ignore_ascii_case(name, target.as_slice())
}

/// Folds header values into one list value: each value is appended, with a
/// `,` before it once the combined text is non-empty.
pub open spec fn combine_values(acc: Seq<char>, values: Seq<Seq<char>>) -> Seq<char>
    decreases values.len(),
{
    if values.len() == 0 {
        acc
    } else {
        let next = if acc.len() > 0 {
            acc + seq![','] + values[0]
        } else {
            acc + values[0]
        };
        combine_values(next, values.drop_first())
    }
}

/// Combines every `Accept-Encoding` header value into one comma-separated
/// list, since a request may repeat the header.
pub fn combine_accept_encoding(values: &Vec<String>) -> (r: String)
    ensures
        r@ == combine_values(Seq::empty(), values@.map_values(|s: String| s@)),
{
    let ghost views = values@.map_values(|s: String| s@);
    let mut combined = String::new();
    let mut non_empty = false;
    let mut i: usize = 0;
    assert(views.skip(0) =~= views);
    while i < values.len()
        invariant
            views == values@.map_values(|s: String| s@),
            i <= values@.len(),
            non_empty == (combined@.len() > 0),
            combine_values(combined@, views.skip(i as int)) == combine_values(Seq::empty(), views),
        decreases values@.len() - i,
    {
        let value = values[i].as_str();
        proof {
            reveal_strlit(",");
            assert(","@ =~= seq![',']);
            assert(views[i as int] == value@);
            assert(views.skip(i as int)[0] == value@);
            assert(views.skip(i as int).drop_first() =~= views.skip(i + 1));
        }
        let ghost before = combined@;
        if non_empty {
            combined.append(",");
        }
        combined.append(value);
        assert(combined@ =~= if before.len() > 0 {
            before + seq![','] + value@
        } else {
            before + value@
        });
        non_empty = non_empty || value.unicode_len() > 0;
        i = i + 1;
    }
    assert(views.skip(values@.len() as int) =~= Seq::<Seq<char>>::empty());
    combined
}

/// What the header filter does with a codec decision.
#[derive(Clone, Copy, Debug, PartialEq, Eq, Structural)]
pub enum HeaderStep {
    /// Leave the response untouched.
    Pass,
    /// Answer `406 Not Acceptable`, adding `Vary: Accept-Encoding` first when
    /// configured, since the answer depends on that header.
    NotAcceptable { add_vary: bool },
    /// Log the failure class, then leave the response untouched.
    PassLogged(FailureClass),
    /// Submit the encoded response; log a recovered codec reset first.
    Submit { log_reset: bool },
}

/// Maps the header decision to the header filter's next step.
pub fn header_step<C>(decision: &Result<Option<Plan<C>>, CodecSelectionFailure>, vary: bool) -> (r:
    HeaderStep)
    ensures
        r == match decision {
            Ok(None) => HeaderStep::Pass,
            Err(CodecSelectionFailure::NotAcceptable) => HeaderStep::NotAcceptable { add_vary: vary },
            Err(CodecSelectionFailure::Initialization) => HeaderStep::PassLogged(
                FailureClass::CodecInitialization,
            ),
            Ok(Some(plan)) => HeaderStep::Submit {
                log_reset: plan.provision matches Provision::Fresh { reset_recovered } && reset_recovered,
            },
        },
{
    match decision {
        Ok(None) => HeaderStep::Pass,
        Err(CodecSelectionFailure::NotAcceptable) => HeaderStep::NotAcceptable { add_vary: vary },
        Err(CodecSelectionFailure::Initialization) => HeaderStep::PassLogged(
            FailureClass::CodecInitialization,
        ),
        Ok(Some(plan)) => {
            let log_reset = match &plan.provision {
                Provision::Fresh { reset_recovered } => *reset_recovered,
                Provision::Reused(_) => false,
            };
            HeaderStep::Submit { log_reset }
        },
    }
}

/// The result of the previous submit action.
#[derive(Clone, Copy, Debug, PartialEq, Eq, Structural)]
pub enum SubmitEvent {
    /// Submission starts; a header-allocation fault may be injected.
    Begin { fault_injected: bool },
    /// Whether `Vary: Accept-Encoding` was added.
    VaryAdded(bool),
    /// Whether `Content-Encoding` was added.
    EncodingAdded(bool),
    /// Whether the request context was installed.
    ContextInstalled(bool),
}

/// The next action of the submit phase of the header filter.
#[derive(Clone, Copy, Debug, PartialEq, Eq, Structural)]
pub enum SubmitAction {
    /// Log the failure class, then leave the response untouched.
    PassLogged(FailureClass),
    AddVary,
    AddEncoding,
    /// Mark the response as encoded (in-memory input, no stale length), ask
    /// for trailers when `Server-Timing` is on, and install the context.
    Install { expect_trailers: bool },
    /// Log the failure class and fail the request (`NGX_ERROR`).
    Fail(FailureClass),
    /// Call the next header filter.
    SendDownstream,
}

/// The next submit action after `event`.
pub open spec fn submit_action(vary: bool, stats_mode: StatsMode, event: SubmitEvent) -> SubmitAction {
    match event {
        SubmitEvent::Begin { fault_injected } => if fault_injected {
            SubmitAction::PassLogged(FailureClass::OutputAllocation)
        } else if vary {
            SubmitAction::AddVary
        } else {
            SubmitAction::AddEncoding
        },
        SubmitEvent::VaryAdded(added) => if added {
            SubmitAction::AddEncoding
        } else {
            SubmitAction::PassLogged(FailureClass::OutputAllocation)
        },
        SubmitEvent::EncodingAdded(added) => if added {
            SubmitAction::Install { expect_trailers: stats_mode == StatsMode::ServerTiming }
        } else {
            SubmitAction::PassLogged(FailureClass::OutputAllocation)
        },
        SubmitEvent::ContextInstalled(installed) => if installed {
            SubmitAction::SendDownstream
        } else {
            SubmitAction::Fail(FailureClass::OutputAllocation)
        },
    }
}

/// Orders the header changes so that a failure leaves a consistent response:
/// `Vary` is added before `Content-Encoding` (an extra `Vary` is harmless, a
/// lone encoding is not), and the context is installed only after both.
pub fn submit_step(vary: bool, stats_mode: StatsMode, event: SubmitEvent) -> (r: SubmitAction)
    ensures
        r == submit_action(vary, stats_mode, event),
{
    match event {
        SubmitEvent::Begin { fault_injected } => if fault_injected {
            SubmitAction::PassLogged(FailureClass::OutputAllocation)
        } else if vary {
            SubmitAction::AddVary
        } else {
            SubmitAction::AddEncoding
        },
        SubmitEvent::VaryAdded(added) => if added {
            SubmitAction::AddEncoding
        } else {
            SubmitAction::PassLogged(FailureClass::OutputAllocation)
        },
        SubmitEvent::EncodingAdded(added) => if added {
            SubmitAction::Install { expect_trailers: stats_mode == StatsMode::ServerTiming }
        } else {
            SubmitAction::PassLogged(FailureClass::OutputAllocation)
        },
        SubmitEvent::ContextInstalled(installed) => if installed {
            SubmitAction::SendDownstream
        } else {
            SubmitAction::Fail(FailureClass::OutputAllocation)
        },
    }
}

/// `Content-Encoding` is added only when `Vary` is not wanted or was added
/// successfully, so an encoded response never lacks its `Vary` header.
pub proof fn lemma_encoding_follows_vary(vary: bool, stats_mode: StatsMode, event: SubmitEvent)
    ensures
        submit_action(vary, stats_mode, event) == SubmitAction::AddEncoding ==> (event
            == SubmitEvent::VaryAdded(true) || (!vary && event == SubmitEvent::Begin {
            fault_injected: false,
        })),
{
}

} // verus!
