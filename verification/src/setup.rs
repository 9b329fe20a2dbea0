//! Setting up the gateway's stream and topic on the broker. Each is created;
//! when creating fails because it exists already, the existing one is
//! fetched and used instead.
//!
//! [`Setup`] decides; the caller makes the broker calls that each
//! [`SetupAction`] names and reports their outcome.
use vstd::prelude::*;

verus! {

/// Error when a stream that could not be created cannot be found either.
pub const STREAM_NOT_FOUND: &'static str = "stream not found after create-already-exists";

/// Error when a topic that could not be created cannot be found either.
pub const TOPIC_NOT_FOUND: &'static str = "topic not found after create-already-exists";

/// The broker call to make next, or the end of the setup.
#[derive(PartialEq, Eq, Debug, Clone, Copy)]
pub enum SetupAction {
    /// Create the stream.
    CreateStream,
    /// Fetch the existing stream by name.
    GetStream,
    /// Create the topic in the stream.
    CreateTopic,
    /// Fetch the existing topic by name.
    GetTopic,
    /// Setup is complete, with these identifiers.
    Done { stream_id: u32, topic_id: u32 },
    /// Setup failed with this error.
    Fail(&'static str),
    /// Setup failed with the error of the broker call just made.
    Abort,
}

/// Where a setup stands.
#[derive(PartialEq, Eq, Structural, Debug, Clone, Copy)]
pub enum SetupPhase {
    CreatingStream,
    FetchingStream,
    CreatingTopic { stream_id: u32 },
    FetchingTopic { stream_id: u32 },
    Finished,
}

/// The next phase and action once the stream or topic of `phase` is known
/// to have identifier `id`.
pub open spec fn settled(phase: SetupPhase, id: u32) -> (SetupPhase, SetupAction) {
    match phase {
        SetupPhase::CreatingStream | SetupPhase::FetchingStream => (
            SetupPhase::CreatingTopic { stream_id: id },
            SetupAction::CreateTopic,
        ),
        SetupPhase::CreatingTopic { stream_id } | SetupPhase::FetchingTopic { stream_id } => (
            SetupPhase::Finished,
            SetupAction::Done { stream_id, topic_id: id },
        ),
        SetupPhase::Finished => (SetupPhase::Finished, SetupAction::Abort),
    }
}

/// Where a setup stands, and what it asks for, after `created` is reported
/// for a create call.
pub open spec fn after_created(phase: SetupPhase, created: Option<u32>) -> (SetupPhase, SetupAction) {
    match created {
        Some(id) => settled(phase, id),
        None => match phase {
            SetupPhase::CreatingTopic { stream_id } => (
                SetupPhase::FetchingTopic { stream_id },
                SetupAction::GetTopic,
            ),
            _ => (SetupPhase::FetchingStream, SetupAction::GetStream),
        },
    }
}

/// Where a setup stands, and what it asks for, after `fetched` is reported
/// for a fetch call.
pub open spec fn after_fetched(phase: SetupPhase, fetched: Result<Option<u32>, ()>) -> (
    SetupPhase,
    SetupAction,
) {
    match fetched {
        Err(_) => (SetupPhase::Finished, SetupAction::Abort),
        Ok(None) => (
            SetupPhase::Finished,
            SetupAction::Fail(
                if phase is FetchingStream {
                    STREAM_NOT_FOUND
                } else {
                    TOPIC_NOT_FOUND
                },
            ),
        ),
        Ok(Some(id)) => settled(phase, id),
    }
}

/// The phase and action once the stream has identifier `s`, whether it was
/// created (`existed` false) or found existing and fetched.
pub open spec fn stream_settled(s: u32, existed: bool) -> (SetupPhase, SetupAction) {
    if existed {
        after_fetched(after_created(SetupPhase::CreatingStream, None).0, Ok(Some(s)))
    } else {
        after_created(SetupPhase::CreatingStream, Some(s))
    }
}

/// The phase and action once, after the stream, the topic has identifier
/// `t`, whether it was created (`existed` false) or found existing.
pub open spec fn topic_settled(phase: SetupPhase, t: u32, existed: bool) -> (SetupPhase, SetupAction) {
    if existed {
        after_fetched(after_created(phase, None).0, Ok(Some(t)))
    } else {
        after_created(phase, Some(t))
    }
}

/// Whatever the identifiers are and however they compare, and whether the
/// stream and topic were created or already existed, a setup ends with the
/// stream's identifier as `stream_id` and the topic's as `topic_id`; after
/// the stream is known it goes on to create the topic.
pub proof fn lemma_setup_reports_both_ids(s: u32, t: u32, stream_existed: bool, topic_existed: bool)
    ensures
        stream_settled(s, stream_existed).1 == SetupAction::CreateTopic,
        topic_settled(stream_settled(s, stream_existed).0, t, topic_existed) == (
            SetupPhase::Finished,
            SetupAction::Done { stream_id: s, topic_id: t },
        ),
{
}

/// A stream or topic that cannot be fetched fails the setup with its own
/// message, and a failed fetch call aborts, at either step.
pub proof fn lemma_setup_failures(s: u32, stream_existed: bool)
    ensures
        after_fetched(SetupPhase::FetchingStream, Ok(None)).1 == SetupAction::Fail(STREAM_NOT_FOUND),
        after_fetched(
            after_created(stream_settled(s, stream_existed).0, None).0,
            Ok(None),
        ).1 == SetupAction::Fail(TOPIC_NOT_FOUND),
        after_fetched(SetupPhase::FetchingStream, Err(())).1 == SetupAction::Abort,
        after_fetched(after_created(stream_settled(s, stream_existed).0, None).0, Err(())).1
            == SetupAction::Abort,
{
}

/// A setup of stream and topic in progress.
pub struct Setup {
    phase: SetupPhase,
}

impl Setup {
    /// Where the setup stands.
    pub closed spec fn phase(&self) -> SetupPhase {
        self.phase
    }

    /// A setup that begins by creating the stream.
    pub fn new() -> (s: Setup)
        ensures
            s.phase() == SetupPhase::CreatingStream,
    {
        Setup { phase: SetupPhase::CreatingStream }
    }

    /// The first broker call: create the stream.
    pub fn start(&self) -> (a: SetupAction)
        ensures
            a == SetupAction::CreateStream,
    {
        SetupAction::CreateStream
    }

    /// Takes the outcome of creating the stream or topic: its identifier, or
    /// `None` when creation failed, in which case the existing one is
    /// fetched next.
    pub fn on_created(&mut self, created: Option<u32>) -> (a: SetupAction)
        requires
            old(self).phase() is CreatingStream || old(self).phase() is CreatingTopic,
        ensures
            (final(self).phase(), a) == after_created(old(self).phase(), created),
            created matches Some(id) ==> (final(self).phase(), a) == settled(old(self).phase(), id),
            created is None && old(self).phase() is CreatingStream ==> (final(self).phase()
                == SetupPhase::FetchingStream && a == SetupAction::GetStream),
            created is Some && old(self).phase() is CreatingStream ==> (final(self).phase() == (
            SetupPhase::CreatingTopic { stream_id: created->0 }) && a == SetupAction::CreateTopic),
            created is Some && old(self).phase() is CreatingTopic ==> (final(self).phase()
                == SetupPhase::Finished && a == (SetupAction::Done {
                stream_id: old(self).phase()->CreatingTopic_stream_id,
                topic_id: created->0,
            })),
            created is None && old(self).phase() is CreatingTopic ==> (final(self).phase() == (
            SetupPhase::FetchingTopic { stream_id: old(self).phase()->CreatingTopic_stream_id })
                && a == SetupAction::GetTopic),
    {
        match created {
            Some(id) => self.settle(id),
            None => match self.phase {
                SetupPhase::CreatingTopic { stream_id } => {
                    self.phase = SetupPhase::FetchingTopic { stream_id };
                    SetupAction::GetTopic
                },
                _ => {
                    self.phase = SetupPhase::FetchingStream;
                    SetupAction::GetStream
                },
            },
        }
    }

    /// Takes the outcome of fetching the stream or topic: `Err` when the
    /// call failed, which aborts with that error; `Ok(None)` when there is
    /// none, which fails the setup; else its identifier.
    pub fn on_fetched(&mut self, fetched: Result<Option<u32>, ()>) -> (a: SetupAction)
        requires
            old(self).phase() is FetchingStream || old(self).phase() is FetchingTopic,
        ensures
            (final(self).phase(), a) == after_fetched(old(self).phase(), fetched),
            fetched matches Ok(Some(id)) ==> (final(self).phase(), a) == settled(
                old(self).phase(),
                id,
            ),
            fetched is Ok && fetched->Ok_0 is Some && old(self).phase() is FetchingStream ==> (
            final(self).phase() == (SetupPhase::CreatingTopic {
                stream_id: fetched->Ok_0->0,
            }) && a == SetupAction::CreateTopic),
            fetched is Ok && fetched->Ok_0 is Some && old(self).phase() is FetchingTopic ==> (
            final(self).phase() == SetupPhase::Finished && a == (SetupAction::Done {
                stream_id: old(self).phase()->FetchingTopic_stream_id,
                topic_id: fetched->Ok_0->0,
            })),
            fetched is Err ==> (a == SetupAction::Abort && final(self).phase()
                == SetupPhase::Finished),
            fetched == Ok::<Option<u32>, ()>(None) ==> (final(self).phase() == SetupPhase::Finished
                && a == SetupAction::Fail(
                if old(self).phase() is FetchingStream {
                    STREAM_NOT_FOUND
                } else {
                    TOPIC_NOT_FOUND
                },
            )),
    {
        match fetched {
            Err(_) => {
                self.phase = SetupPhase::Finished;
                SetupAction::Abort
            },
            Ok(None) => {
                let err = match self.phase {
                    SetupPhase::FetchingStream => STREAM_NOT_FOUND,
                    _ => TOPIC_NOT_FOUND,
                };
                self.phase = SetupPhase::Finished;
                SetupAction::Fail(err)
            },
            Ok(Some(id)) => self.settle(id),
        }
    }

    fn settle(&mut self, id: u32) -> (a: SetupAction)
        requires
            !(old(self).phase() is Finished),
        ensures
            (final(self).phase(), a) == settled(old(self).phase(), id),
    {
        match self.phase {
            SetupPhase::CreatingTopic { stream_id } | SetupPhase::FetchingTopic { stream_id } => {
                self.phase = SetupPhase::Finished;
                SetupAction::Done { stream_id, topic_id: id }
            },
            _ => {
                self.phase = SetupPhase::CreatingTopic { stream_id: id };
                SetupAction::CreateTopic
            },
        }
    }
}

} // verus!
