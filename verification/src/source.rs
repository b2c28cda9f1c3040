//! Decisions of the source builder: how a discovered elementary stream is
//! classified and routed to a selector, and in which order a finished
//! source's resources are reclaimed. The engine discovers streams and
//! executes the routing and the teardown; the choices are made here.

use vstd::prelude::*;

verus! {

/// Whether one sequence of characters is a prefix of another.
pub open spec fn is_prefix_of(p: Seq<char>, s: Seq<char>) -> bool {
    p.len() <= s.len() && s.subrange(0, p.len() as int) == p
}

/// Relies on str::starts_with: true exactly when the pattern is a prefix of
/// the string slice.
#[verifier::external_body]
fn str_starts_with(s: &str, prefix: &str) -> (r: bool)
    ensures
        r == is_prefix_of(prefix@, s@),
{
    s.starts_with(prefix)
}

/// The media kind of a discovered elementary stream.
#[derive(Clone, Copy, Debug, PartialEq, Eq, Structural)]
pub enum MediaKind {
    Video,
    Audio,
    /// Neither video nor audio; such a stream is not routed.
    Other,
}

/// Classify a discovered stream by the prefix of its media type name:
/// `video/...` is video, `audio/...` is audio, anything else is not routed.
pub fn classify_stream(media_type: &str) -> (k: MediaKind)
    ensures
        k is Video <==> is_prefix_of("video/"@, media_type@),
        k is Audio <==> !is_prefix_of("video/"@, media_type@) && is_prefix_of(
            "audio/"@,
            media_type@,
        ),
        k is Other <==> !is_prefix_of("video/"@, media_type@) && !is_prefix_of(
            "audio/"@,
            media_type@,
        ),
{
    if str_starts_with(media_type, "video/") {
        MediaKind::Video
    } else if str_starts_with(media_type, "audio/") {
        MediaKind::Audio
    } else {
        MediaKind::Other
    }
}

/// What the engine should do with one discovered stream.
#[derive(Clone, Copy, Debug, PartialEq, Eq, Structural)]
pub enum StreamRoute {
    /// Request an input on the video selector and link the stream to it;
    /// when `make_active` holds, this is the first video stream of the
    /// source, and the new input becomes the selector's active one.
    LinkVideo { make_active: bool },
    /// The audio counterpart of `LinkVideo`.
    LinkAudio { make_active: bool },
    /// Not a video or audio stream: leave it unrouted.
    Ignore,
}

/// Route one discovered stream of a new source. `video_linked` and
/// `audio_linked` say whether a stream of that kind from this source was
/// already linked; only the first stream of each kind becomes the
/// selector's active input.
pub fn route_stream(media_type: &str, video_linked: bool, audio_linked: bool) -> (r: StreamRoute)
    ensures
        is_prefix_of("video/"@, media_type@) ==> r == (StreamRoute::LinkVideo {
            make_active: !video_linked,
        }),
        !is_prefix_of("video/"@, media_type@) && is_prefix_of("audio/"@, media_type@) ==> r == (
        StreamRoute::LinkAudio { make_active: !audio_linked }),
        !is_prefix_of("video/"@, media_type@) && !is_prefix_of("audio/"@, media_type@) ==> r
            is Ignore,
{
    match classify_stream(media_type) {
        MediaKind::Video => StreamRoute::LinkVideo { make_active: !video_linked },
        MediaKind::Audio => StreamRoute::LinkAudio { make_active: !audio_linked },
        MediaKind::Other => StreamRoute::Ignore,
    }
}

/// One step of reclaiming a finished source.
#[derive(Clone, Copy, Debug, PartialEq, Eq, Structural)]
pub enum TeardownStep {
    /// Halt the source's internal activity by taking it to an inactive state.
    DeactivateSource,
    /// Release every selector input whose peer belongs to the source.
    ReleaseSelectorInputs,
    /// Remove the source's subgraph from the session graph.
    RemoveSource,
}

/// The reclamation order for a finished source. The order matters: the
/// source is halted before its selector inputs are released, and removed
/// only after, so no input is released while its peer still produces data.
/// The steps run on the engine's own serialized context, never on the
/// event-listening thread, and never synchronously inside a switch.
pub fn teardown_steps() -> (r: Vec<TeardownStep>)
    ensures
        r@ == seq![
            TeardownStep::DeactivateSource,
            TeardownStep::ReleaseSelectorInputs,
            TeardownStep::RemoveSource,
        ],
{
    let mut steps: Vec<TeardownStep> = Vec::new();
    steps.push(TeardownStep::DeactivateSource);
    steps.push(TeardownStep::ReleaseSelectorInputs);
    steps.push(TeardownStep::RemoveSource);
    proof {
        assert(steps@ =~= seq![
            TeardownStep::DeactivateSource,
            TeardownStep::ReleaseSelectorInputs,
            TeardownStep::RemoveSource,
        ]);
    }
    steps
}

} // verus!
