//! The frame processor: cuts an unbounded byte stream into top-level documents
//! by counting how deep the tags nest.
//!
//! The processor is fed bytes as they arrive and asked for one step at a time.
//! A step looks at the token at the head of what has arrived and not been used
//! yet. Opening tags, closing tags and text are copied into the document under
//! construction; when a closing tag brings the depth back to zero the document
//! is handed out. Depth is counted on tags alone: a closing tag need not bear
//! the name of the tag it closes.
//!
//! The model is in two layers. [`apply_token`] says what one token does to the
//! document under construction, and [`run`] folds it over a sequence of tokens;
//! the laws on splitting a stream and on well-nested documents are proved of
//! that fold. [`FrameProcessor::next`] is stated over [`apply_token`] and the
//! token that [`head_of`](crate::xml::head_of) finds in the bytes.

use crate::xml::{head_of, kind_advances, lemma_head_span, take_head, HeadKind};
use vstd::prelude::*;

verus! {

/// Why a step could not use the token it found. The document under
/// construction is dropped; the stream goes on behind the token.
#[derive(Clone, Copy, Debug, PartialEq, Eq, Structural)]
pub enum FrameError {
    /// A closing tag arrived while no tag was open.
    UnbalancedEnd,
    /// A comment, CDATA section, declaration, processing instruction, DOCTYPE
    /// or byte-order mark arrived: the protocol has none of them.
    Unhandled,
    /// The bytes are not XML.
    Malformed,
    /// More tags are open than can be counted.
    TooDeep,
}

/// What one step of the processor produced.
#[derive(Debug)]
pub enum FrameStep {
    /// A complete top-level document.
    Document(Vec<u8>),
    /// A token was used; no document is complete yet.
    Advanced,
    /// No complete token has arrived; the transport is still open.
    NeedMoreData,
    /// No complete token has arrived and none will: the transport has ended.
    EndOfStream,
}

/// The mathematical value of a [`FrameStep`].
pub ghost enum FrameStepView {
    Document(Seq<u8>),
    Advanced,
    NeedMoreData,
    EndOfStream,
}

impl View for FrameStep {
    type V = FrameStepView;

    open spec fn view(&self) -> FrameStepView {
        match self {
            FrameStep::Document(d) => FrameStepView::Document(d@),
            FrameStep::Advanced => FrameStepView::Advanced,
            FrameStep::NeedMoreData => FrameStepView::NeedMoreData,
            FrameStep::EndOfStream => FrameStepView::EndOfStream,
        }
    }
}

/// The values of a list of byte vectors, in order.
pub open spec fn byte_views(documents: Seq<Vec<u8>>) -> Seq<Seq<u8>> {
    documents.map_values(|d: Vec<u8>| d@)
}

/// The document under construction: the bytes collected so far and the number
/// of tags that are open.
pub ghost struct FrameState {
    pub buffer: Seq<u8>,
    pub depth: nat,
}

/// A token as the fold sees it: its kind and its content.
pub ghost struct Token {
    pub kind: HeadKind,
    pub content: Seq<u8>,
}

/// What a token did.
pub ghost enum Effect {
    /// It completed a document.
    Document(Seq<u8>),
    /// It was used and no document is complete.
    Advanced,
    /// It was refused.
    Failed(FrameError),
}

/// The state with nothing collected and no tag open.
pub open spec fn idle() -> FrameState {
    FrameState { buffer: Seq::empty(), depth: 0 }
}

/// The bytes that a token contributes to a document: an opening tag as
/// `<content>`, a closing tag as `</content>`, text as it is, anything else
/// nothing.
pub open spec fn rendered(token: Token) -> Seq<u8> {
    match token.kind {
        HeadKind::Start => seq![0x3Cu8] + token.content + seq![0x3Eu8],
        HeadKind::End => seq![0x3Cu8, 0x2Fu8] + token.content + seq![0x3Eu8],
        HeadKind::Text => token.content,
        _ => Seq::empty(),
    }
}

/// What one token does to the document under construction.
pub open spec fn apply_token(state: FrameState, token: Token) -> (FrameState, Effect) {
    match token.kind {
        HeadKind::Start => if state.depth >= usize::MAX {
            (idle(), Effect::Failed(FrameError::TooDeep))
        } else {
            (
                FrameState { buffer: state.buffer + rendered(token), depth: state.depth + 1 },
                Effect::Advanced,
            )
        },
        HeadKind::End => if state.depth == 0 {
            (idle(), Effect::Failed(FrameError::UnbalancedEnd))
        } else if state.depth == 1 {
            (idle(), Effect::Document(state.buffer + rendered(token)))
        } else {
            (
                FrameState {
                    buffer: state.buffer + rendered(token),
                    depth: (state.depth - 1) as nat,
                },
                Effect::Advanced,
            )
        },
        HeadKind::Text => (
            FrameState { buffer: state.buffer + rendered(token), depth: state.depth },
            Effect::Advanced,
        ),
        HeadKind::Empty => (state, Effect::Advanced),
        HeadKind::Other => (idle(), Effect::Failed(FrameError::Unhandled)),
        HeadKind::Broken => (idle(), Effect::Failed(FrameError::Malformed)),
        HeadKind::Blank | HeadKind::Partial => (state, Effect::Advanced),
    }
}

/// The documents that an effect hands out: one or none.
pub open spec fn documents_of(effect: Effect) -> Seq<Seq<u8>> {
    match effect {
        Effect::Document(d) => seq![d],
        _ => Seq::empty(),
    }
}

/// Folds [`apply_token`] over `tokens`: the state afterwards and the documents
/// completed on the way, in order.
pub open spec fn run(state: FrameState, tokens: Seq<Token>) -> (FrameState, Seq<Seq<u8>>)
    decreases tokens.len(),
{
    if tokens.len() == 0 {
        (state, Seq::empty())
    } else {
        let first = apply_token(state, tokens[0]);
        let rest = run(first.0, tokens.drop_first());
        (rest.0, documents_of(first.1) + rest.1)
    }
}

/// Whether `tokens`, met with `depth` tags open, close the last of them with
/// their last token and not before, and hold nothing but tags and text.
pub open spec fn closes(tokens: Seq<Token>, depth: nat) -> bool
    decreases tokens.len(),
{
    tokens.len() > 0 && match tokens[0].kind {
        HeadKind::Start => depth < usize::MAX && closes(tokens.drop_first(), depth + 1),
        HeadKind::End => if depth <= 1 {
            depth == 1 && tokens.len() == 1
        } else {
            closes(tokens.drop_first(), (depth - 1) as nat)
        },
        HeadKind::Text | HeadKind::Empty => closes(tokens.drop_first(), depth),
        _ => false,
    }
}

/// Whether `tokens` are one well-nested document: an opening tag, then tags and
/// text that close it with the last token.
pub open spec fn well_nested(tokens: Seq<Token>) -> bool {
    tokens.len() > 0 && tokens[0].kind == HeadKind::Start && closes(tokens.drop_first(), 1)
}

/// The bytes of a document given as tokens.
pub open spec fn rendered_all(tokens: Seq<Token>) -> Seq<u8>
    decreases tokens.len(),
{
    if tokens.len() == 0 {
        Seq::empty()
    } else {
        rendered(tokens[0]) + rendered_all(tokens.drop_first())
    }
}

/// The tokens of several documents, one after the other.
pub open spec fn concatenated(documents: Seq<Seq<Token>>) -> Seq<Token>
    decreases documents.len(),
{
    if documents.len() == 0 {
        Seq::empty()
    } else {
        documents[0] + concatenated(documents.drop_first())
    }
}

/// Cutting a token stream in two and resuming loses and repeats nothing: the
/// fold over `a + b` ends in the state, and hands out the documents, of the fold
/// over `a` followed by the fold over `b` from where `a` left off.
pub proof fn lemma_run_split(state: FrameState, a: Seq<Token>, b: Seq<Token>)
    ensures
        run(state, a + b).0 == run(run(state, a).0, b).0,
        run(state, a + b).1 == run(state, a).1 + run(run(state, a).0, b).1,
    decreases a.len(),
{
    if a.len() == 0 {
        assert(a + b =~= b);
        assert(run(state, a).1 + run(run(state, a).0, b).1 =~= run(state, b).1);
    } else {
        let first = apply_token(state, a[0]);
        assert((a + b)[0] == a[0]);
        assert((a + b).drop_first() =~= a.drop_first() + b);
        lemma_run_split(first.0, a.drop_first(), b);
        assert(run(state, a + b).1 =~= run(state, a).1 + run(run(state, a).0, b).1);
    }
}

/// Tokens that close the open tags complete exactly one document: what was
/// collected before them followed by their own bytes. The processor is idle
/// afterwards.
pub proof fn lemma_run_closes(state: FrameState, tokens: Seq<Token>)
    requires
        closes(tokens, state.depth),
    ensures
        run(state, tokens).0 == idle(),
        run(state, tokens).1 == seq![state.buffer + rendered_all(tokens)],
    decreases tokens.len(),
{
    let first = apply_token(state, tokens[0]);
    let rest = tokens.drop_first();
    if tokens[0].kind == HeadKind::End && state.depth == 1 {
        assert(rest.len() == 0);
        assert(rendered_all(rest) =~= Seq::<u8>::empty());
        assert(rendered_all(tokens) =~= rendered(tokens[0]));
        assert(run(state, tokens).1 =~= seq![state.buffer + rendered_all(tokens)]);
    } else {
        lemma_run_closes(first.0, rest);
        assert(first.0.buffer + rendered_all(rest) =~= state.buffer + rendered_all(tokens));
        assert(run(state, tokens).1 =~= seq![state.buffer + rendered_all(tokens)]);
    }
}

/// One well-nested document, met by an idle processor, comes out as one
/// document with exactly its bytes, and leaves the processor idle.
pub proof fn lemma_run_document(tokens: Seq<Token>)
    requires
        well_nested(tokens),
    ensures
        run(idle(), tokens).0 == idle(),
        run(idle(), tokens).1 == seq![rendered_all(tokens)],
{
    let first = apply_token(idle(), tokens[0]);
    lemma_run_closes(first.0, tokens.drop_first());
    assert(first.0.buffer + rendered_all(tokens.drop_first()) =~= rendered_all(tokens));
    assert(run(idle(), tokens).1 =~= seq![rendered_all(tokens)]);
}

/// Well-nested documents sent back to back with nothing between them come out
/// one by one, in the order sent, each with exactly its bytes.
pub proof fn lemma_run_documents(documents: Seq<Seq<Token>>)
    requires
        forall|i: int| 0 <= i < documents.len() ==> well_nested(#[trigger] documents[i]),
    ensures
        run(idle(), concatenated(documents)).0 == idle(),
        run(idle(), concatenated(documents)).1 == documents.map_values(
            |d: Seq<Token>| rendered_all(d),
        ),
    decreases documents.len(),
{
    let rendering = |d: Seq<Token>| rendered_all(d);
    if documents.len() == 0 {
        assert(run(idle(), concatenated(documents)).1 =~= documents.map_values(rendering));
    } else {
        let rest = documents.drop_first();
        assert(forall|i: int| 0 <= i < rest.len() ==> well_nested(#[trigger] rest[i])) by {
            assert(forall|i: int| 0 <= i < rest.len() ==> rest[i] == documents[i + 1]);
        }
        lemma_run_document(documents[0]);
        lemma_run_documents(rest);
        lemma_run_split(idle(), documents[0], concatenated(rest));
        assert(run(idle(), concatenated(documents)).1 =~= documents.map_values(rendering));
    }
}

/// However a token stream is cut into chunks, folding chunk after chunk hands
/// out the documents of the fold over the whole stream.
pub open spec fn run_chunks(state: FrameState, chunks: Seq<Seq<Token>>) -> (
    FrameState,
    Seq<Seq<u8>>,
)
    decreases chunks.len(),
{
    if chunks.len() == 0 {
        (state, Seq::empty())
    } else {
        let first = run(state, chunks[0]);
        let rest = run_chunks(first.0, chunks.drop_first());
        (rest.0, first.1 + rest.1)
    }
}

/// Folding chunk by chunk is folding the whole: no way of cutting the stream
/// changes the documents or their order.
pub proof fn lemma_run_chunks(state: FrameState, chunks: Seq<Seq<Token>>)
    ensures
        run_chunks(state, chunks) == run(state, concatenated(chunks)),
    decreases chunks.len(),
{
    if chunks.len() == 0 {
    } else {
        let first = run(state, chunks[0]);
        lemma_run_chunks(first.0, chunks.drop_first());
        lemma_run_split(state, chunks[0], concatenated(chunks.drop_first()));
    }
}

/// How a run of steps ended.
pub ghost enum Halt {
    /// With a complete document.
    Document(Seq<u8>),
    /// With a token that was refused.
    Failed(FrameError),
    /// For want of a complete token.
    Starved,
}

/// Steps taken one after another until a document is complete, a token is
/// refused, or no complete token is left: the pending bytes and the state
/// afterwards, and how the run ended.
pub open spec fn advanced(pending: Seq<u8>, state: FrameState) -> (Seq<u8>, FrameState, Halt)
    decreases pending.len(),
{
    let head = head_of(pending);
    let rest = pending.skip(head.2);
    if !kind_advances(head.0) || head.2 <= 0 || head.2 > pending.len() {
        (rest, state, Halt::Starved)
    } else {
        let applied = apply_token(state, Token { kind: head.0, content: head.1 });
        match applied.1 {
            Effect::Document(d) => (rest, applied.0, Halt::Document(d)),
            Effect::Failed(e) => (rest, applied.0, Halt::Failed(e)),
            Effect::Advanced => advanced(rest, applied.0),
        }
    }
}

/// The complete tokens at the head of `pending`, one after the other, up to
/// the first place where no complete token stands.
pub open spec fn tokens_in(pending: Seq<u8>) -> Seq<Token>
    decreases pending.len(),
{
    let head = head_of(pending);
    if !kind_advances(head.0) || head.2 <= 0 || head.2 > pending.len() {
        Seq::empty()
    } else {
        seq![Token { kind: head.0, content: head.1 }] + tokens_in(pending.skip(head.2))
    }
}

/// What is left of `pending` behind its complete tokens. Whitespace that
/// stands alone at the end is dropped.
pub open spec fn residue(pending: Seq<u8>) -> Seq<u8>
    decreases pending.len(),
{
    let head = head_of(pending);
    if !kind_advances(head.0) || head.2 <= 0 || head.2 > pending.len() {
        pending.skip(head.2)
    } else {
        residue(pending.skip(head.2))
    }
}

/// Every step that the pending bytes allow, taken: what is left of the bytes,
/// the state afterwards, and the documents completed on the way, in order.
/// A token that is refused costs the document under construction and nothing
/// else.
pub open spec fn drained(pending: Seq<u8>, state: FrameState) -> (
    Seq<u8>,
    FrameState,
    Seq<Seq<u8>>,
) {
    (residue(pending), run(state, tokens_in(pending)).0, run(state, tokens_in(pending)).1)
}

/// Taking the first token and draining the rest is draining the whole.
pub proof fn lemma_drained_step(pending: Seq<u8>, state: FrameState)
    requires
        kind_advances(head_of(pending).0),
    ensures
        ({
            let head = head_of(pending);
            let applied = apply_token(state, Token { kind: head.0, content: head.1 });
            let later = drained(pending.skip(head.2), applied.0);
            drained(pending, state) == (later.0, later.1, documents_of(applied.1) + later.2)
        }),
{
    lemma_head_span(pending);
    let head = head_of(pending);
    let tokens = tokens_in(pending);
    assert(tokens.drop_first() =~= tokens_in(pending.skip(head.2)));
}

/// Feeding bytes in two parts, and draining after each, hands out what
/// draining the whole hands out, wherever the tokenizer finds in the whole the
/// tokens that it finds in the parts.
pub proof fn lemma_drained_in_two(a: Seq<u8>, b: Seq<u8>, state: FrameState)
    requires
        tokens_in(a + b) == tokens_in(a) + tokens_in(residue(a) + b),
        residue(a + b) == residue(residue(a) + b),
    ensures
        ({
            let first = drained(a, state);
            let second = drained(first.0 + b, first.1);
            drained(a + b, state) == (second.0, second.1, first.2 + second.2)
        }),
{
    lemma_run_split(state, tokens_in(a), tokens_in(residue(a) + b));
}

/// Incremental framing of a byte stream.
pub struct FrameProcessor {
    /// Bytes that have arrived and belong to no token yet.
    pending: Vec<u8>,
    /// The document under construction.
    buffer: Vec<u8>,
    /// How many tags are open.
    depth: usize,
    /// Whether the transport has reported its end.
    ended: bool,
}

impl FrameProcessor {
    /// The bytes that have arrived and belong to no token yet.
    pub closed spec fn pending(&self) -> Seq<u8> {
        self.pending@
    }

    /// The document under construction.
    pub closed spec fn state(&self) -> FrameState {
        FrameState { buffer: self.buffer@, depth: self.depth as nat }
    }

    /// Whether the transport has reported its end.
    pub closed spec fn ended(&self) -> bool {
        self.ended
    }

    /// The token at the head of the pending bytes.
    pub open spec fn head(&self) -> Token {
        Token { kind: head_of(self.pending()).0, content: head_of(self.pending()).1 }
    }

    /// A processor that has seen nothing.
    pub fn new() -> (r: Self)
        ensures
            r.pending() == Seq::<u8>::empty(),
            r.state() == idle(),
            !r.ended(),
    {
        FrameProcessor { pending: Vec::new(), buffer: Vec::new(), depth: 0, ended: false }
    }

    /// Hands the processor bytes that the transport delivered.
    pub fn feed(&mut self, bytes: &[u8])
        ensures
            final(self).pending() == old(self).pending() + bytes@,
            final(self).state() == old(self).state(),
            final(self).ended() == old(self).ended(),
    {
        self.pending.extend_from_slice(bytes);
    }

    /// Tells the processor that the transport will deliver nothing more.
    pub fn finish(&mut self)
        ensures
            final(self).pending() == old(self).pending(),
            final(self).state() == old(self).state(),
            final(self).ended(),
    {
        self.ended = true;
    }

    /// How many tags are open.
    pub fn depth(&self) -> (r: usize)
        ensures
            r == self.state().depth,
    {
        self.depth
    }

    /// How many bytes wait for a token to complete.
    pub fn pending_len(&self) -> (r: usize)
        ensures
            r == self.pending().len(),
    {
        self.pending.len()
    }

    /// Whether a step would stop for want of a complete token.
    pub fn should_quit(&self) -> (r: bool)
        ensures
            r == !kind_advances(self.head().kind),
    {
        let head = take_head(self.pending.as_slice());
        match head.kind {
            HeadKind::Blank | HeadKind::Partial => true,
            _ => false,
        }
    }

    /// Uses one token: what [`apply_token`] says of the token and of the
    /// document under construction happens. The pending bytes stay as they
    /// are.
    ///
    /// The token completes a document, which is handed out, or it is used and
    /// no document is complete, or it is refused and the document under
    /// construction is dropped.
    pub fn accept(&mut self, kind: HeadKind, content: &[u8]) -> (r: Result<
        (FrameStep, bool),
        FrameError,
    >)
        ensures
            final(self).ended() == old(self).ended(),
            final(self).pending() == old(self).pending(),
            final(self).state() == apply_token(old(self).state(), Token { kind, content: content@ }).0,
            match apply_token(old(self).state(), Token { kind, content: content@ }).1 {
                Effect::Document(d) => r matches Ok((step, true)) && step@
                    == FrameStepView::Document(d),
                Effect::Advanced => r matches Ok((step, true)) && step@ == FrameStepView::Advanced,
                Effect::Failed(e) => r == Err::<(FrameStep, bool), FrameError>(e),
            },
    {
        let ghost token = Token { kind, content: content@ };
        match kind {
            HeadKind::Start => {
                if self.depth == usize::MAX {
                    self.reset();
                    Err(FrameError::TooDeep)
                } else {
                    self.buffer.push(0x3Cu8);
                    self.buffer.extend_from_slice(content);
                    self.buffer.push(0x3Eu8);
                    self.depth = self.depth + 1;
                    proof {
                        assert(self.buffer@ =~= old(self).buffer@ + rendered(token));
                    }
                    Ok((FrameStep::Advanced, true))
                }
            },
            HeadKind::End => {
                if self.depth == 0 {
                    self.reset();
                    Err(FrameError::UnbalancedEnd)
                } else {
                    self.buffer.push(0x3Cu8);
                    self.buffer.push(0x2Fu8);
                    self.buffer.extend_from_slice(content);
                    self.buffer.push(0x3Eu8);
                    proof {
                        assert(self.buffer@ =~= old(self).buffer@ + rendered(token));
                    }
                    if self.depth == 1 {
                        let mut document: Vec<u8> = Vec::new();
                        std::mem::swap(&mut document, &mut self.buffer);
                        self.depth = 0;
                        proof {
                            assert(self.buffer@ =~= Seq::<u8>::empty());
                        }
                        Ok((FrameStep::Document(document), true))
                    } else {
                        self.depth = self.depth - 1;
                        Ok((FrameStep::Advanced, true))
                    }
                }
            },
            HeadKind::Text => {
                self.buffer.extend_from_slice(content);
                proof {
                    assert(self.buffer@ =~= old(self).buffer@ + rendered(token));
                }
                Ok((FrameStep::Advanced, true))
            },
            HeadKind::Empty | HeadKind::Blank | HeadKind::Partial => Ok(
                (FrameStep::Advanced, true),
            ),
            HeadKind::Other => {
                self.reset();
                Err(FrameError::Unhandled)
            },
            HeadKind::Broken => {
                self.reset();
                Err(FrameError::Malformed)
            },
        }
    }

    /// One step: uses the token at the head of the pending bytes, if a complete
    /// one is there.
    ///
    /// With no complete token the step reports `NeedMoreData`, or `EndOfStream`
    /// once the transport has ended, and tells the caller not to continue;
    /// whitespace that stands alone is dropped. Otherwise the token's bytes
    /// leave the pending bytes and the token is used as
    /// [`accept`](Self::accept) says: the step hands out a document, or reports
    /// that it advanced, or fails; in the first two cases the caller is told to
    /// continue.
    pub fn next(&mut self) -> (r: Result<(FrameStep, bool), FrameError>)
        ensures
            final(self).ended() == old(self).ended(),
            final(self).pending() == old(self).pending().skip(head_of(old(self).pending()).2),
            !kind_advances(old(self).head().kind) ==> {
                &&& final(self).state() == old(self).state()
                &&& r matches Ok((step, false))
                &&& step@ == if old(self).ended() {
                    FrameStepView::EndOfStream
                } else {
                    FrameStepView::NeedMoreData
                }
            },
            kind_advances(old(self).head().kind) ==> {
                &&& final(self).state() == apply_token(old(self).state(), old(self).head()).0
                &&& match apply_token(old(self).state(), old(self).head()).1 {
                    Effect::Document(d) => r matches Ok((step, true)) && step@
                        == FrameStepView::Document(d),
                    Effect::Advanced => r matches Ok((step, true)) && step@
                        == FrameStepView::Advanced,
                    Effect::Failed(e) => r == Err::<(FrameStep, bool), FrameError>(e),
                }
            },
    {
        let head = take_head(self.pending.as_slice());
        let rest = self.pending.split_off(head.span);
        self.pending = rest;
        match head.kind {
            HeadKind::Blank | HeadKind::Partial => {
                if self.ended {
                    Ok((FrameStep::EndOfStream, false))
                } else {
                    Ok((FrameStep::NeedMoreData, false))
                }
            },
            _ => self.accept(head.kind, head.content.as_slice()),
        }
    }

    /// Takes steps until a document is complete, a token is refused, or no
    /// complete token is left.
    ///
    /// `Ok(Some(..))` hands out the document, `Ok(None)` says that more bytes
    /// are needed (or, once the transport has ended, that none will come), and
    /// `Err(..)` names the refusal. What [`advanced`] says of the pending bytes
    /// and the state before the call holds of them afterwards.
    pub fn next_document(&mut self) -> (r: Result<Option<Vec<u8>>, FrameError>)
        ensures
            final(self).ended() == old(self).ended(),
            final(self).pending() == advanced(old(self).pending(), old(self).state()).0,
            final(self).state() == advanced(old(self).pending(), old(self).state()).1,
            match advanced(old(self).pending(), old(self).state()).2 {
                Halt::Document(d) => r matches Ok(Some(document)) && document@ == d,
                Halt::Failed(e) => r == Err::<Option<Vec<u8>>, FrameError>(e),
                Halt::Starved => r matches Ok(None),
            },
    {
        loop
            invariant
                self.ended() == old(self).ended(),
                advanced(self.pending(), self.state()) == advanced(
                    old(self).pending(),
                    old(self).state(),
                ),
            decreases self.pending().len(),
        {
            proof {
                lemma_head_span(self.pending());
            }
            match self.next() {
                Ok((FrameStep::Document(document), _)) => {
                    return Ok(Some(document));
                },
                Ok((FrameStep::Advanced, _)) => {},
                Ok((_, _)) => {
                    return Ok(None);
                },
                Err(e) => {
                    return Err(e);
                },
            }
        }
    }

    /// Takes every step that the pending bytes allow and hands out the
    /// documents completed on the way, in the order in which they were
    /// completed. Tokens that are refused are passed over.
    pub fn drain(&mut self) -> (r: Vec<Vec<u8>>)
        ensures
            final(self).ended() == old(self).ended(),
            final(self).pending() == drained(old(self).pending(), old(self).state()).0,
            final(self).state() == drained(old(self).pending(), old(self).state()).1,
            byte_views(r@) == drained(old(self).pending(), old(self).state()).2,
    {
        let mut documents: Vec<Vec<u8>> = Vec::new();
        proof {
            assert(byte_views(documents@) =~= Seq::empty());
        }
        loop
            invariant
                self.ended() == old(self).ended(),
                drained(old(self).pending(), old(self).state()).0 == drained(
                    self.pending(),
                    self.state(),
                ).0,
                drained(old(self).pending(), old(self).state()).1 == drained(
                    self.pending(),
                    self.state(),
                ).1,
                drained(old(self).pending(), old(self).state()).2 == byte_views(documents@)
                    + drained(self.pending(), self.state()).2,
            decreases self.pending().len(),
        {
            let ghost pending = self.pending();
            let ghost state = self.state();
            let ghost before = byte_views(documents@);
            proof {
                lemma_head_span(pending);
                if kind_advances(head_of(pending).0) {
                    lemma_drained_step(pending, state);
                }
            }
            match self.next() {
                Ok((FrameStep::Document(document), _)) => {
                    let ghost d = document@;
                    documents.push(document);
                    proof {
                        assert(byte_views(documents@) =~= before.push(d));
                        assert(before.push(d) + drained(self.pending(), self.state()).2 =~= before
                            + (seq![d] + drained(self.pending(), self.state()).2));
                    }
                },
                Ok((FrameStep::Advanced, _)) => {
                    proof {
                        assert(Seq::<Seq<u8>>::empty() + drained(self.pending(), self.state()).2
                            =~= drained(self.pending(), self.state()).2);
                    }
                },
                Ok((_, _)) => {
                    proof {
                        assert(before + Seq::<Seq<u8>>::empty() =~= before);
                    }
                    return documents;
                },
                Err(_) => {
                    proof {
                        assert(Seq::<Seq<u8>>::empty() + drained(self.pending(), self.state()).2
                            =~= drained(self.pending(), self.state()).2);
                    }
                },
            }
        }
    }

    /// Drops the document under construction.
    fn reset(&mut self)
        ensures
            final(self).pending() == old(self).pending(),
            final(self).ended() == old(self).ended(),
            final(self).state() == idle(),
    {
        self.buffer.clear();
        self.depth = 0;
    }
}

} // verus!
