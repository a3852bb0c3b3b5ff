//! The state of one exchange: for each direction the phase of its body, and
//! the events that move it.

use vstd::prelude::*;
use crate::accumulator::ByteAccumulator;
use crate::assoc::{lemma_lookup_with_entry, lookup, with_entry};
use crate::headers::{
    header_rules_spec, header_view, put_header, HeaderContext, HeaderRule, HeaderRuleEngine,
    Headers,
};
use crate::json_rules::{transform_spec, JsonContext, JsonRule, JsonRuleEngine};
use crate::text::{decimal_digits, decimal_text};

verus! {

/// Where the body of one direction stands.
#[derive(Clone, Copy, Debug, PartialEq, Eq, Structural)]
pub enum Phase {
    /// Nothing has arrived yet.
    Idle,
    /// Headers or chunks have arrived, the end of the stream has not.
    Accumulating,
    /// The whole body has arrived and has been transformed.
    Finalized,
}

/// What the host is told after a header event.
#[derive(Clone, Copy, Debug, PartialEq, Eq, Structural)]
pub enum Directive {
    Continue,
    Pause,
}

/// What the host is told after a chunk.
pub enum ChunkOutcome {
    /// Keep buffering: nothing goes downstream yet.
    Hold,
    /// The body is complete: replace it by `body`, set the content length
    /// to `content_length`, and go on.
    Release { body: Vec<u8>, content_length: String },
}

impl ChunkOutcome {
    /// What the outcome tells the host: pause while the body is held,
    /// continue once it is released.
    pub open spec fn directive_spec(&self) -> Directive {
        match self {
            ChunkOutcome::Hold => Directive::Pause,
            ChunkOutcome::Release { .. } => Directive::Continue,
        }
    }

    pub fn directive(&self) -> (r: Directive)
        ensures
            r == self.directive_spec(),
    {
        match self {
            ChunkOutcome::Hold => Directive::Pause,
            ChunkOutcome::Release { .. } => Directive::Continue,
        }
    }
}

/// The name of the header that carries the length of the body.
pub open spec fn content_length_name() -> Seq<char> {
    "content-length"@
}

/// The length of `body` as the value of a content-length header.
pub fn content_length_text(body: &[u8]) -> (r: String)
    ensures
        r@ == decimal_digits(body@.len()),
{
    decimal_text(body.len() as u128)
}

/// Sets the content-length header to the length of `body`.
pub fn write_content_length(headers: &mut Vec<(String, String)>, body: &[u8])
    ensures
        header_view(final(headers)@) == with_entry(
            header_view(old(headers)@),
            content_length_name(),
            decimal_digits(body@.len()),
        ),
{
    let name = String::from_str("content-length");
    put_header(headers, &name, content_length_text(body));
}

/// After `write_content_length` the content-length header reads the length
/// of the body that was written back, whatever the header list held before.
pub proof fn law_content_length_matches_body(hs: Headers, body: Seq<u8>)
    ensures
        lookup(
            with_entry(hs, content_length_name(), decimal_digits(body.len())),
            content_length_name(),
        ) == Some(decimal_digits(body.len())),
{
    lemma_lookup_with_entry(
        hs,
        content_length_name(),
        decimal_digits(body.len()),
        content_length_name(),
    );
}

/// The body of one direction of an exchange.
pub struct DirectionState {
    accumulator: ByteAccumulator,
    started: bool,
}

/// What a chunk does to a direction. Before the end of the stream the chunk
/// is added to the bytes held and the host is told to hold. At the end of
/// the stream the direction is finalized, the bytes held are the transformed
/// body, and the host is handed that body together with its length as a
/// decimal numeral.
pub open spec fn chunk_effect(
    before: DirectionState,
    after: DirectionState,
    outcome: ChunkOutcome,
    chunk: Seq<u8>,
    end_of_stream: bool,
    rules: Seq<JsonRule>,
    ctx: JsonContext,
) -> bool {
    if end_of_stream {
        &&& after.phase() == Phase::Finalized
        &&& after.bytes() == transform_spec(before.bytes() + chunk, rules, ctx)
        &&& match outcome {
            ChunkOutcome::Release { body, content_length } => {
                &&& body@ == after.bytes()
                &&& content_length@ == decimal_digits(body@.len())
            },
            ChunkOutcome::Hold => false,
        }
    } else {
        &&& outcome is Hold
        &&& after.phase() == Phase::Accumulating
        &&& after.bytes() == before.bytes() + chunk
    }
}

impl DirectionState {
    /// The bytes held: what has been collected, or, once finalized, the
    /// transformed body.
    pub closed spec fn bytes(&self) -> Seq<u8> {
        self.accumulator.bytes()
    }

    /// The phase of the direction.
    pub closed spec fn phase(&self) -> Phase {
        if self.accumulator.finalized() {
            Phase::Finalized
        } else if self.started {
            Phase::Accumulating
        } else {
            Phase::Idle
        }
    }

    pub fn new() -> (r: Self)
        ensures
            r.phase() == Phase::Idle,
            r.bytes() == Seq::<u8>::empty(),
    {
        DirectionState { accumulator: ByteAccumulator::new(), started: false }
    }

    pub fn current_phase(&self) -> (r: Phase)
        ensures
            r == self.phase(),
    {
        if self.accumulator.is_finalized() {
            Phase::Finalized
        } else if self.started {
            Phase::Accumulating
        } else {
            Phase::Idle
        }
    }

    /// The headers of the direction have arrived: an idle direction starts
    /// to accumulate.
    pub fn on_headers(&mut self)
        ensures
            final(self).bytes() == old(self).bytes(),
            final(self).phase() == if old(self).phase() == Phase::Idle {
                Phase::Accumulating
            } else {
                old(self).phase()
            },
    {
        self.started = true;
    }

    /// A chunk has arrived. Before the end of the stream it is only kept.
    /// At the end the whole body is transformed once, and handed out with
    /// its length.
    pub fn on_chunk(
        &mut self,
        chunk: &[u8],
        end_of_stream: bool,
        engine: &JsonRuleEngine,
        ctx: &JsonContext,
    ) -> (r: ChunkOutcome)
        requires
            old(self).phase() != Phase::Finalized,
        ensures
            chunk_effect(
                *old(self),
                *final(self),
                r,
                chunk@,
                end_of_stream,
                engine.rules(),
                *ctx,
            ),
    {
        self.started = true;
        self.accumulator.append(chunk, end_of_stream);
        if end_of_stream {
            let body = engine.transform(self.accumulator.as_slice(), ctx);
            let content_length = content_length_text(body.as_slice());
            self.accumulator.replace(body.clone());
            ChunkOutcome::Release { body, content_length }
        } else {
            ChunkOutcome::Hold
        }
    }

    /// A chunk has arrived, in whatever phase. A finalized direction takes
    /// no chunk: it stays as it is and nothing is handed out. Any other
    /// direction takes the chunk as `on_chunk` does.
    pub fn offer_chunk(
        &mut self,
        chunk: &[u8],
        end_of_stream: bool,
        engine: &JsonRuleEngine,
        ctx: &JsonContext,
    ) -> (r: Option<ChunkOutcome>)
        ensures
            old(self).phase() == Phase::Finalized ==> r is None && *final(self) == *old(self),
            old(self).phase() != Phase::Finalized ==> r is Some && chunk_effect(
                *old(self),
                *final(self),
                r.unwrap(),
                chunk@,
                end_of_stream,
                engine.rules(),
                *ctx,
            ),
    {
        if self.accumulator.is_finalized() {
            None
        } else {
            Some(self.on_chunk(chunk, end_of_stream, engine, ctx))
        }
    }

    /// The exchange was torn down: the bytes are dropped and nothing is
    /// transformed.
    pub fn abort(&mut self)
        ensures
            final(self).bytes() == Seq::<u8>::empty(),
            final(self).phase() == old(self).phase(),
    {
        self.accumulator.release();
    }
}

/// One exchange: the body state of both directions, and the rules of each.
pub struct ExchangeContext {
    request: DirectionState,
    response: DirectionState,
    request_header_engine: HeaderRuleEngine,
    response_header_engine: HeaderRuleEngine,
    request_body_engine: JsonRuleEngine,
    response_body_engine: JsonRuleEngine,
}

impl ExchangeContext {
    pub closed spec fn request(&self) -> DirectionState {
        self.request
    }

    pub closed spec fn response(&self) -> DirectionState {
        self.response
    }

    pub closed spec fn request_header_rules(&self) -> Seq<HeaderRule> {
        self.request_header_engine.rules()
    }

    pub closed spec fn response_header_rules(&self) -> Seq<HeaderRule> {
        self.response_header_engine.rules()
    }

    pub closed spec fn request_body_rules(&self) -> Seq<JsonRule> {
        self.request_body_engine.rules()
    }

    pub closed spec fn response_body_rules(&self) -> Seq<JsonRule> {
        self.response_body_engine.rules()
    }

    /// Whether both contexts have the same four rule lists.
    pub open spec fn same_rules(&self, other: &Self) -> bool {
        &&& self.request_header_rules() == other.request_header_rules()
        &&& self.response_header_rules() == other.response_header_rules()
        &&& self.request_body_rules() == other.request_body_rules()
        &&& self.response_body_rules() == other.response_body_rules()
    }

    /// A fresh exchange with its rules; both directions are idle.
    pub fn new(
        request_header_rules: Vec<HeaderRule>,
        response_header_rules: Vec<HeaderRule>,
        request_body_rules: Vec<JsonRule>,
        response_body_rules: Vec<JsonRule>,
    ) -> (r: Self)
        ensures
            r.request().phase() == Phase::Idle,
            r.request().bytes() == Seq::<u8>::empty(),
            r.response().phase() == Phase::Idle,
            r.response().bytes() == Seq::<u8>::empty(),
            r.request_header_rules() == request_header_rules@,
            r.response_header_rules() == response_header_rules@,
            r.request_body_rules() == request_body_rules@,
            r.response_body_rules() == response_body_rules@,
    {
        ExchangeContext {
            request: DirectionState::new(),
            response: DirectionState::new(),
            request_header_engine: HeaderRuleEngine::new(request_header_rules),
            response_header_engine: HeaderRuleEngine::new(response_header_rules),
            request_body_engine: JsonRuleEngine::new(request_body_rules),
            response_body_engine: JsonRuleEngine::new(response_body_rules),
        }
    }

    pub fn request_phase(&self) -> (r: Phase)
        ensures
            r == self.request().phase(),
    {
        self.request.current_phase()
    }

    pub fn response_phase(&self) -> (r: Phase)
        ensures
            r == self.response().phase(),
    {
        self.response.current_phase()
    }

    /// The request headers have arrived: the request header rules run once
    /// on them, and the request body starts to accumulate.
    pub fn on_request_headers(
        &mut self,
        headers: &mut Vec<(String, String)>,
        ctx: &HeaderContext,
    ) -> (r: Directive)
        ensures
            r == Directive::Continue,
            header_view(final(headers)@) == header_rules_spec(
                header_view(old(headers)@),
                old(self).request_header_rules(),
                *ctx,
            ),
            final(self).same_rules(old(self)),
            final(self).response() == old(self).response(),
            final(self).request().bytes() == old(self).request().bytes(),
            final(self).request().phase() == if old(self).request().phase() == Phase::Idle {
                Phase::Accumulating
            } else {
                old(self).request().phase()
            },
    {
        self.request_header_engine.apply(headers, ctx);
        self.request.on_headers();
        Directive::Continue
    }

    /// The response headers have arrived: the response header rules run
    /// once on them, and the response body starts to accumulate.
    pub fn on_response_headers(
        &mut self,
        headers: &mut Vec<(String, String)>,
        ctx: &HeaderContext,
    ) -> (r: Directive)
        ensures
            r == Directive::Continue,
            header_view(final(headers)@) == header_rules_spec(
                header_view(old(headers)@),
                old(self).response_header_rules(),
                *ctx,
            ),
            final(self).same_rules(old(self)),
            final(self).request() == old(self).request(),
            final(self).response().bytes() == old(self).response().bytes(),
            final(self).response().phase() == if old(self).response().phase() == Phase::Idle {
                Phase::Accumulating
            } else {
                old(self).response().phase()
            },
    {
        self.response_header_engine.apply(headers, ctx);
        self.response.on_headers();
        Directive::Continue
    }

    /// A chunk of the request body has arrived.
    pub fn on_request_body_chunk(
        &mut self,
        chunk: &[u8],
        end_of_stream: bool,
        ctx: &JsonContext,
    ) -> (r: ChunkOutcome)
        requires
            old(self).request().phase() != Phase::Finalized,
        ensures
            final(self).same_rules(old(self)),
            final(self).response() == old(self).response(),
            chunk_effect(
                old(self).request(),
                final(self).request(),
                r,
                chunk@,
                end_of_stream,
                old(self).request_body_rules(),
                *ctx,
            ),
    {
        self.request.on_chunk(chunk, end_of_stream, &self.request_body_engine, ctx)
    }

    /// A chunk of the response body has arrived.
    pub fn on_response_body_chunk(
        &mut self,
        chunk: &[u8],
        end_of_stream: bool,
        ctx: &JsonContext,
    ) -> (r: ChunkOutcome)
        requires
            old(self).response().phase() != Phase::Finalized,
        ensures
            final(self).same_rules(old(self)),
            final(self).request() == old(self).request(),
            chunk_effect(
                old(self).response(),
                final(self).response(),
                r,
                chunk@,
                end_of_stream,
                old(self).response_body_rules(),
                *ctx,
            ),
    {
        self.response.on_chunk(chunk, end_of_stream, &self.response_body_engine, ctx)
    }

    /// A chunk of the request body has arrived, in whatever phase. Once the
    /// request body is finalized a further chunk changes nothing and nothing
    /// is handed out: no second body, no second length.
    pub fn offer_request_body_chunk(
        &mut self,
        chunk: &[u8],
        end_of_stream: bool,
        ctx: &JsonContext,
    ) -> (r: Option<ChunkOutcome>)
        ensures
            final(self).same_rules(old(self)),
            final(self).response() == old(self).response(),
            old(self).request().phase() == Phase::Finalized ==> r is None && final(self).request() == old(self).request(),
            old(self).request().phase() != Phase::Finalized ==> r is Some && chunk_effect(
                old(self).request(),
                final(self).request(),
                r.unwrap(),
                chunk@,
                end_of_stream,
                old(self).request_body_rules(),
                *ctx,
            ),
    {
        self.request.offer_chunk(chunk, end_of_stream, &self.request_body_engine, ctx)
    }

    /// A chunk of the response body has arrived, in whatever phase. Once the
    /// response body is finalized a further chunk changes nothing and nothing
    /// is handed out: no second body, no second length.
    pub fn offer_response_body_chunk(
        &mut self,
        chunk: &[u8],
        end_of_stream: bool,
        ctx: &JsonContext,
    ) -> (r: Option<ChunkOutcome>)
        ensures
            final(self).same_rules(old(self)),
            final(self).request() == old(self).request(),
            old(self).response().phase() == Phase::Finalized ==> r is None && final(self).response() == old(self).response(),
            old(self).response().phase() != Phase::Finalized ==> r is Some && chunk_effect(
                old(self).response(),
                final(self).response(),
                r.unwrap(),
                chunk@,
                end_of_stream,
                old(self).response_body_rules(),
                *ctx,
            ),
    {
        self.response.offer_chunk(chunk, end_of_stream, &self.response_body_engine, ctx)
    }

    /// The host tears the exchange down: both buffers are dropped, nothing
    /// is transformed or written back.
    pub fn abort(&mut self)
        ensures
            final(self).same_rules(old(self)),
            final(self).request().bytes() == Seq::<u8>::empty(),
            final(self).response().bytes() == Seq::<u8>::empty(),
            final(self).request().phase() == old(self).request().phase(),
            final(self).response().phase() == old(self).response().phase(),
    {
        self.request.abort();
        self.response.abort();
    }
}

} // verus!
