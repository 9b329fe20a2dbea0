//! The gateway's side of a sensor connection: it reads length-prefixed
//! frames, keeps the UTF-8 payloads as messages and hands them on to the
//! broker in batches of a fixed size.
//!
//! [`GatewaySession`] decides; the caller reads from the connection and
//! publishes to the broker as each [`SessionAction`] says, and reports what
//! it read back to the session.
use vstd::prelude::*;
use vstd::utf8::{decode_utf8, valid_utf8};
use crate::framing::{be_value, frame_len};
use crate::text::string_from_utf8;

verus! {

/// Why a session ends in error.
#[derive(PartialEq, Eq, Structural, Debug, Clone, Copy)]
pub enum SessionError {
    /// The connection ended or failed inside a payload.
    PayloadUnreadable,
    /// A payload is not valid UTF-8.
    InvalidUtf8,
}

/// What the caller does next.
pub enum SessionAction {
    /// Read the next frame header (four bytes).
    ReadHeader,
    /// Read exactly this many payload bytes.
    ReadPayload(usize),
    /// Publish these messages to the broker as one batch, then read the
    /// next frame header.
    Send(Vec<String>),
    /// The sensor has gone: end the session without error.
    Close,
    /// End the session with this error.
    Fail(SessionError),
}

/// The texts of a sequence of strings.
pub open spec fn texts(v: Seq<String>) -> Seq<Seq<char>> {
    v.map_values(|s: String| s@)
}

/// One accepted message `m` joins the pending messages `pending`; when that
/// makes a full batch of `batch_size`, the whole batch leaves. Returns the
/// messages left pending and the batch that leaves, if one does.
pub open spec fn accept(pending: Seq<Seq<char>>, batch_size: nat, m: Seq<char>) -> (
    Seq<Seq<char>>,
    Option<Seq<Seq<char>>>,
) {
    let all = pending.push(m);
    if all.len() == batch_size {
        (Seq::empty(), Some(all))
    } else {
        (all, None)
    }
}

/// Messages `msgs` accepted one after another by a session that starts with
/// nothing pending: the messages left pending and the batches published, in
/// order.
pub open spec fn accept_all(batch_size: nat, msgs: Seq<Seq<char>>) -> (
    Seq<Seq<char>>,
    Seq<Seq<Seq<char>>>,
)
    decreases msgs.len(),
{
    if msgs.len() == 0 {
        (Seq::empty(), Seq::empty())
    } else {
        let (rest, sent) = accept_all(batch_size, msgs.drop_last());
        let (rest2, out) = accept(rest, batch_size, msgs.last());
        (rest2, if out is Some { sent.push(out->0) } else { sent })
    }
}

/// Over a whole session, the published batches followed by the messages
/// still pending are exactly the accepted messages, in the order they
/// arrived; every published batch holds the batch size of messages, and
/// fewer than a batch are left pending.
pub proof fn lemma_batches_keep_order(batch_size: nat, msgs: Seq<Seq<char>>)
    ensures
        ({
            let (rest, sent) = accept_all(batch_size, msgs);
            &&& sent.flatten_alt() + rest == msgs
            &&& forall|i: int| 0 <= i < sent.len() ==> (#[trigger] sent[i]).len() == batch_size
            &&& batch_size > 0 ==> rest.len() < batch_size
        }),
    decreases msgs.len(),
{
    if msgs.len() > 0 {
        lemma_batches_keep_order(batch_size, msgs.drop_last());
        let (rest, sent) = accept_all(batch_size, msgs.drop_last());
        let (rest2, out) = accept(rest, batch_size, msgs.last());
        assert(msgs.drop_last().push(msgs.last()) =~= msgs);
        if out is Some {
            let sent2 = sent.push(out->0);
            assert(sent2.drop_last() =~= sent);
            assert(sent2.flatten_alt() == sent.flatten_alt() + rest.push(msgs.last()));
            assert(sent2.flatten_alt() + rest2 =~= msgs);
            assert forall|i: int| 0 <= i < sent2.len() implies (#[trigger] sent2[i]).len()
                == batch_size by {
                if i < sent.len() {
                    assert(sent2[i] == sent[i]);
                }
            }
        } else {
            assert(sent.flatten_alt() + rest2 =~= msgs);
        }
    } else {
        assert(Seq::<Seq<Seq<char>>>::empty().flatten_alt() + Seq::<Seq<char>>::empty() =~= msgs);
    }
}

/// A sensor connection as the gateway sees it.
pub struct GatewaySession {
    /// Messages published together.
    messages_per_batch: usize,
    /// Accepted messages not yet published, oldest first.
    pending: Vec<String>,
    /// The length of the payload being read, between a header and its payload.
    awaiting: Option<usize>,
}

impl GatewaySession {
    /// Batch size of the session.
    pub closed spec fn batch_size(&self) -> nat {
        self.messages_per_batch as nat
    }

    /// Texts of the accepted messages not yet published, oldest first.
    pub closed spec fn pending(&self) -> Seq<Seq<char>> {
        texts(self.pending@)
    }

    /// The payload length expected next, or `None` when a header is.
    pub closed spec fn awaiting(&self) -> Option<usize> {
        self.awaiting
    }

    /// Fewer messages wait than make a batch (with a positive batch size).
    pub open spec fn wf(&self) -> bool {
        self.batch_size() > 0 ==> self.pending().len() < self.batch_size()
    }

    /// A new session that publishes `messages_per_batch` messages at a time
    /// and waits for a frame header.
    pub fn new(messages_per_batch: usize) -> (s: GatewaySession)
        ensures
            s.wf(),
            s.batch_size() == messages_per_batch,
            s.pending() == Seq::<Seq<char>>::empty(),
            s.awaiting() is None,
    {
        let s = GatewaySession { messages_per_batch, pending: Vec::new(), awaiting: None };
        assert(texts(s.pending@) =~= Seq::<Seq<char>>::empty());
        s
    }

    /// The first action of a session: read a header.
    pub fn start(&self) -> (a: SessionAction)
        ensures
            a is ReadHeader,
    {
        SessionAction::ReadHeader
    }

    /// Takes the outcome of reading a header: `None` when the connection
    /// ended or failed before a full header, which closes the session;
    /// otherwise the payload length that the header announces is read next.
    pub fn on_header(&mut self, header: Option<[u8; 4]>) -> (a: SessionAction)
        requires
            old(self).awaiting() is None,
        ensures
            final(self).batch_size() == old(self).batch_size(),
            final(self).pending() == old(self).pending(),
            header is None ==> a is Close && final(self).awaiting() is None,
            header matches Some(h) ==> (a matches SessionAction::ReadPayload(n) && n as int
                == be_value(h@) as int && final(self).awaiting() == Some(n)),
    {
        match header {
            None => SessionAction::Close,
            Some(h) => {
                let n = frame_len(h) as usize;
                self.awaiting = Some(n);
                SessionAction::ReadPayload(n)
            },
        }
    }

    /// Takes the outcome of reading the announced payload: `None` when the
    /// connection ended or failed first. A payload that is not UTF-8 ends
    /// the session in error; a UTF-8 payload is accepted as a message, and a
    /// full batch is handed out to be published.
    pub fn on_payload(&mut self, payload: Option<Vec<u8>>) -> (a: SessionAction)
        requires
            old(self).awaiting() is Some,
            payload matches Some(p) ==> p@.len() == old(self).awaiting()->0,
        ensures
            final(self).batch_size() == old(self).batch_size(),
            final(self).awaiting() is None,
            old(self).wf() ==> final(self).wf(),
            payload is None ==> (a == SessionAction::Fail(SessionError::PayloadUnreadable)
                && final(self).pending() == old(self).pending()),
            payload matches Some(p) && !valid_utf8(p@) ==> (a == SessionAction::Fail(
                SessionError::InvalidUtf8,
            ) && final(self).pending() == old(self).pending()),
            payload is Some && valid_utf8(payload->0@) ==> ({
                let (rest, out) = accept(
                    old(self).pending(),
                    old(self).batch_size(),
                    decode_utf8(payload->0@),
                );
                &&& final(self).pending() == rest
                &&& out is None ==> a is ReadHeader
                &&& out matches Some(b) ==> (a matches SessionAction::Send(v) && texts(v@) == b)
            }),
    {
        self.awaiting = None;
        let bytes = match payload {
            None => return SessionAction::Fail(SessionError::PayloadUnreadable),
            Some(p) => p,
        };
        let text = match string_from_utf8(bytes) {
            None => return SessionAction::Fail(SessionError::InvalidUtf8),
            Some(t) => t,
        };
        let ghost before = self.pending@;
        self.pending.push(text);
        assert(texts(self.pending@) =~= texts(before).push(text@));
        if self.pending.len() == self.messages_per_batch {
            let mut batch: Vec<String> = Vec::new();
            std::mem::swap(&mut batch, &mut self.pending);
            assert(texts(self.pending@) =~= Seq::<Seq<char>>::empty());
            SessionAction::Send(batch)
        } else {
            SessionAction::ReadHeader
        }
    }
}

} // verus!
