//! Strips from a request what the resolved capabilities say the model cannot take.
use vstd::prelude::*;

use crate::models::{caps_none, MessageRequest, ModelCapabilities, SystemBlock, SystemPrompt};

verus! {

pub struct CapabilityFilter;

/// Block `b` is block `a` with its cache directive cleared when `clear` holds.
pub open spec fn block_filtered(a: SystemBlock, b: SystemBlock, clear: bool) -> bool {
    &&& b.block_type == a.block_type
    &&& b.text == a.text
    &&& b.cache_control == if clear {
        None
    } else {
        a.cache_control
    }
}

/// The system prompt `s` with block cache directives cleared when `clear` holds.
pub open spec fn system_filtered(a: Option<SystemPrompt>, b: Option<SystemPrompt>, clear: bool) -> bool {
    match a {
        None => b is None,
        Some(SystemPrompt::Text(t)) => b == Some(SystemPrompt::Text(t)),
        Some(SystemPrompt::Blocks(va)) => match b {
            Some(SystemPrompt::Blocks(vb)) => {
                &&& vb@.len() == va@.len()
                &&& forall|i: int| 0 <= i < va@.len() ==> block_filtered(va@[i], #[trigger] vb@[i], clear)
            },
            _ => false,
        },
    }
}

/// `r` is `req` with what `caps` explicitly rules out removed, and nothing else changed.
pub open spec fn request_filtered(req: MessageRequest, caps: ModelCapabilities, r: MessageRequest) -> bool {
    let no_thinking = caps.thinking_supported == Some(false);
    let no_tools = caps.supports_tools == Some(false);
    &&& r.model == req.model
    &&& r.messages == req.messages
    &&& r.max_tokens == req.max_tokens
    &&& r.metadata == req.metadata
    &&& r.temperature == req.temperature
    &&& r.top_p == req.top_p
    &&& r.thinking == if no_thinking { None } else { req.thinking }
    &&& r.reasoning_effort == if no_thinking { None } else { req.reasoning_effort }
    &&& r.tools == if no_tools { None } else { req.tools }
    &&& r.tool_choice == if no_tools { None } else { req.tool_choice }
    &&& system_filtered(req.system, r.system, caps.cache_telemetry_supported == Some(false))
    &&& r.stream == if caps.supports_streaming == Some(false) { Some(false) } else { req.stream }
}

impl CapabilityFilter {
    pub fn filter_request(request: MessageRequest, capabilities: &ModelCapabilities) -> (r:
        MessageRequest)
        ensures
            request_filtered(request, *capabilities, r),
    {
        let ghost before = request;
        let mut request = request;

        if capabilities.thinking_supported == Some(false) {
            request.thinking = None;
            request.reasoning_effort = None;
        }
        if capabilities.supports_tools == Some(false) {
            request.tools = None;
            request.tool_choice = None;
        }
        // Images are not part of the content model, so a model without vision
        // support needs nothing removed here.
        if capabilities.cache_telemetry_supported == Some(false) {
            let system = request.system.take();
            request.system = match system {
                Some(SystemPrompt::Blocks(blocks)) => Some(SystemPrompt::Blocks(clear_cache_control(blocks))),
                other => other,
            };
        }
        if capabilities.supports_streaming == Some(false) {
            request.stream = Some(false);
        }
        request
    }
}

/// The blocks with every cache directive cleared.
fn clear_cache_control(blocks: Vec<SystemBlock>) -> (r: Vec<SystemBlock>)
    ensures
        r@.len() == blocks@.len(),
        forall|i: int| 0 <= i < blocks@.len() ==> block_filtered(blocks@[i], #[trigger] r@[i], true),
{
    let mut blocks = blocks;
    let ghost orig = blocks@;
    let mut i: usize = 0;
    while i < blocks.len()
        invariant
            blocks@.len() == orig.len(),
            i <= blocks@.len(),
            forall|k: int| 0 <= k < i ==> block_filtered(orig[k], #[trigger] blocks@[k], true),
            forall|k: int| i <= k < orig.len() ==> #[trigger] blocks@[k] == orig[k],
        decreases orig.len() - i,
    {
        blocks[i].cache_control = None;
        i = i + 1;
    }
    blocks
}


/// Filtering is idempotent: filtering an already filtered request with the
/// same capabilities removes nothing more.
pub proof fn law_filter_idempotent(
    req: MessageRequest,
    caps: ModelCapabilities,
    once: MessageRequest,
    twice: MessageRequest,
)
    requires
        request_filtered(req, caps, once),
        request_filtered(once, caps, twice),
    ensures
        request_filtered(req, caps, twice),
{
    let clear = caps.cache_telemetry_supported == Some(false);
    match req.system {
        Some(SystemPrompt::Blocks(va)) => {
            let vb = match once.system {
                Some(SystemPrompt::Blocks(vb)) => vb,
                _ => va,
            };
            let vc = match twice.system {
                Some(SystemPrompt::Blocks(vc)) => vc,
                _ => va,
            };
            assert forall|i: int| 0 <= i < va@.len() implies block_filtered(
                va@[i],
                #[trigger] vc@[i],
                clear,
            ) by {
                assert(block_filtered(va@[i], vb@[i], clear));
                assert(block_filtered(vb@[i], vc@[i], clear));
            }
        },
        _ => {},
    }
}

/// With no capability stated, filtering keeps every field of the request
/// (system prompt blocks keep their type, text and cache directive).
pub proof fn law_filter_default_caps_keeps_request(req: MessageRequest, r: MessageRequest)
    requires
        request_filtered(req, caps_none(), r),
    ensures
        r.model == req.model,
        r.messages == req.messages,
        r.thinking == req.thinking,
        r.reasoning_effort == req.reasoning_effort,
        r.tools == req.tools,
        r.tool_choice == req.tool_choice,
        r.stream == req.stream,
        system_filtered(req.system, r.system, false),
{
}

} // verus!
