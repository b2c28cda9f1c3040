//! Planner for the persistent processing graph of one session: two selector
//! stages feeding a fixed downstream chain (conversion, rate normalization,
//! optional scaling, encode, mux, network publish). The plan is data; the
//! engine that realizes it lives outside the library. The planned subgraph
//! is built once per session and never rebuilt: only the upstream sources
//! in front of the selectors are swapped.

use vstd::prelude::*;
use crate::models::EncodingSettings;

verus! {

/// One stage of the persistent graph.
#[derive(Clone, Copy, Debug, PartialEq, Eq, Structural)]
pub enum StageKind {
    /// Selector with one active input among several candidate video inputs.
    VideoSelector,
    /// Selector with one active input among several candidate audio inputs.
    AudioSelector,
    /// Video format conversion.
    VideoConvert,
    /// Video frame-rate normalization.
    VideoRate,
    /// Output resizing; present only when scaling is enabled.
    VideoScale,
    /// Constrains the scaled video to the configured width and height;
    /// present only when scaling is enabled.
    ScaleCaps,
    /// The configured video encoder.
    VideoEncode,
    /// Audio format conversion.
    AudioConvert,
    /// Audio sample-rate normalization.
    AudioResample,
    /// The configured audio encoder.
    AudioEncode,
    /// Container mux.
    Mux,
    /// Network publish to the destination URL.
    NetSink,
}

/// A directed connection from one stage's output to another's input, both
/// named by their position in the plan's stage list.
#[derive(Clone, Copy, Debug, PartialEq, Eq, Structural)]
pub struct StageLink {
    pub from: usize,
    pub to: usize,
}

/// The full build order for one session's persistent graph.
#[derive(Debug)]
pub struct GraphPlan {
    /// Stages, in build order; links index into this list.
    pub stages: Vec<StageKind>,
    /// Connections between the stages.
    pub links: Vec<StageLink>,
    /// Factory name of the video encoder stage.
    pub video_encoder: String,
    /// Factory name of the audio encoder stage.
    pub audio_encoder: String,
    /// Target video bitrate.
    pub bitrate_kbps: u32,
    /// Speed/quality tradeoff label for the video encoder.
    pub speed_preset: String,
    /// Fixed keyframe interval in frames, tuned for low end-to-end latency.
    pub keyframe_interval: u32,
    /// Fixed audio bitrate in bits per second.
    pub audio_bitrate_bps: u32,
    /// Whether the scaling stages are present.
    pub scale_enabled: bool,
    /// Target width when scaling is enabled.
    pub scale_width: u32,
    /// Target height when scaling is enabled.
    pub scale_height: u32,
    /// Destination publish URL.
    pub sink_url: String,
    /// Best-effort, non-blocking synchronization at the publish stage.
    pub sink_sync: bool,
    /// Quality-of-service handling at the publish stage.
    pub sink_qos: bool,
    /// Bounded lateness tolerance at the publish stage, in nanoseconds, so a
    /// slow downstream does not stall upstream indefinitely.
    pub sink_max_lateness_ns: u64,
}

/// The stage list of a session graph: both selectors first, then the video
/// chain (with the two scaling stages exactly when scaling is enabled), the
/// audio chain, the mux and the network sink.
pub open spec fn spec_stages(scale: bool) -> Seq<StageKind> {
    if scale {
        seq![
            StageKind::VideoSelector,
            StageKind::AudioSelector,
            StageKind::VideoConvert,
            StageKind::VideoRate,
            StageKind::VideoScale,
            StageKind::ScaleCaps,
            StageKind::VideoEncode,
            StageKind::AudioConvert,
            StageKind::AudioResample,
            StageKind::AudioEncode,
            StageKind::Mux,
            StageKind::NetSink,
        ]
    } else {
        seq![
            StageKind::VideoSelector,
            StageKind::AudioSelector,
            StageKind::VideoConvert,
            StageKind::VideoRate,
            StageKind::VideoEncode,
            StageKind::AudioConvert,
            StageKind::AudioResample,
            StageKind::AudioEncode,
            StageKind::Mux,
            StageKind::NetSink,
        ]
    }
}

/// The connections of a session graph: the video chain from its selector
/// through conversion, rate, optional scaling and encode into the mux; the
/// audio chain from its selector through conversion, resample and encode
/// into the mux; the mux into the network sink.
pub open spec fn spec_links(scale: bool) -> Seq<StageLink> {
    if scale {
        seq![
            (StageLink { from: 0, to: 2 }),
            (StageLink { from: 2, to: 3 }),
            (StageLink { from: 3, to: 4 }),
            (StageLink { from: 4, to: 5 }),
            (StageLink { from: 5, to: 6 }),
            (StageLink { from: 6, to: 10 }),
            (StageLink { from: 1, to: 7 }),
            (StageLink { from: 7, to: 8 }),
            (StageLink { from: 8, to: 9 }),
            (StageLink { from: 9, to: 10 }),
            (StageLink { from: 10, to: 11 }),
        ]
    } else {
        seq![
            (StageLink { from: 0, to: 2 }),
            (StageLink { from: 2, to: 3 }),
            (StageLink { from: 3, to: 4 }),
            (StageLink { from: 4, to: 8 }),
            (StageLink { from: 1, to: 5 }),
            (StageLink { from: 5, to: 6 }),
            (StageLink { from: 6, to: 7 }),
            (StageLink { from: 7, to: 8 }),
            (StageLink { from: 8, to: 9 }),
        ]
    }
}

/// What a graph plan must say for a given destination and settings.
pub open spec fn plan_matches(g: GraphPlan, url: Seq<char>, s: EncodingSettings) -> bool {
    &&& g.stages@ == spec_stages(s.scale_enabled)
    &&& g.links@ == spec_links(s.scale_enabled)
    &&& g.video_encoder@ == s.video_encoder@
    &&& g.audio_encoder@ == s.audio_encoder@
    &&& g.bitrate_kbps == s.bitrate_kbps
    &&& g.speed_preset@ == s.speed_preset@
    &&& g.keyframe_interval == 60
    &&& g.audio_bitrate_bps == 128000
    &&& g.scale_enabled == s.scale_enabled
    &&& g.scale_width == s.scale_width
    &&& g.scale_height == s.scale_height
    &&& g.sink_url@ == url
    &&& !g.sink_sync
    &&& g.sink_qos
    &&& g.sink_max_lateness_ns == 500000000
}

/// Every link's endpoints name stages of the plan.
pub open spec fn links_in_range(stages: Seq<StageKind>, links: Seq<StageLink>) -> bool {
    forall|k: int|
        0 <= k < links.len() ==> (#[trigger] links[k]).from < stages.len() && links[k].to
            < stages.len()
}

/// Plan the persistent graph for one session: which stages to build, in which
/// order to connect them, and how each is configured. The shape depends only
/// on whether scaling is enabled; encoder choice, bitrate and preset come
/// from the settings; the publish stage is non-blocking with a bounded
/// lateness tolerance.
pub fn build_graph_plan(rtmp_url: &str, settings: &EncodingSettings) -> (g: GraphPlan)
    ensures
        plan_matches(g, rtmp_url@, *settings),
{
    let mut stages: Vec<StageKind> = Vec::new();
    stages.push(StageKind::VideoSelector);
    stages.push(StageKind::AudioSelector);
    stages.push(StageKind::VideoConvert);
    stages.push(StageKind::VideoRate);
    if settings.scale_enabled {
        stages.push(StageKind::VideoScale);
        stages.push(StageKind::ScaleCaps);
    }
    stages.push(StageKind::VideoEncode);
    stages.push(StageKind::AudioConvert);
    stages.push(StageKind::AudioResample);
    stages.push(StageKind::AudioEncode);
    stages.push(StageKind::Mux);
    stages.push(StageKind::NetSink);

    let mut links: Vec<StageLink> = Vec::new();
    if settings.scale_enabled {
        links.push(StageLink { from: 0, to: 2 });
        links.push(StageLink { from: 2, to: 3 });
        links.push(StageLink { from: 3, to: 4 });
        links.push(StageLink { from: 4, to: 5 });
        links.push(StageLink { from: 5, to: 6 });
        links.push(StageLink { from: 6, to: 10 });
        links.push(StageLink { from: 1, to: 7 });
        links.push(StageLink { from: 7, to: 8 });
        links.push(StageLink { from: 8, to: 9 });
        links.push(StageLink { from: 9, to: 10 });
        links.push(StageLink { from: 10, to: 11 });
    } else {
        links.push(StageLink { from: 0, to: 2 });
        links.push(StageLink { from: 2, to: 3 });
        links.push(StageLink { from: 3, to: 4 });
        links.push(StageLink { from: 4, to: 8 });
        links.push(StageLink { from: 1, to: 5 });
        links.push(StageLink { from: 5, to: 6 });
        links.push(StageLink { from: 6, to: 7 });
        links.push(StageLink { from: 7, to: 8 });
        links.push(StageLink { from: 8, to: 9 });
    }
    proof {
        assert(stages@ =~= spec_stages(settings.scale_enabled));
        assert(links@ =~= spec_links(settings.scale_enabled));
    }
    GraphPlan {
        stages,
        links,
        video_encoder: settings.video_encoder.clone(),
        audio_encoder: settings.audio_encoder.clone(),
        bitrate_kbps: settings.bitrate_kbps,
        speed_preset: settings.speed_preset.clone(),
        keyframe_interval: 60,
        audio_bitrate_bps: 128000,
        scale_enabled: settings.scale_enabled,
        scale_width: settings.scale_width,
        scale_height: settings.scale_height,
        sink_url: rtmp_url.to_owned(),
        sink_sync: false,
        sink_qos: true,
        sink_max_lateness_ns: 500000000,
    }
}

/// The planned links are well formed: every endpoint names a stage, no
/// stage feeds itself, nothing feeds back into a selector, every chain
/// ends in the mux feeding the network sink, and both selectors feed the
/// graph.
pub proof fn lemma_plan_links_valid(scale: bool)
    ensures
        links_in_range(spec_stages(scale), spec_links(scale)),
        forall|k: int|
            0 <= k < spec_links(scale).len() ==> (#[trigger] spec_links(scale)[k]).from
                != spec_links(scale)[k].to,
        forall|k: int|
            0 <= k < spec_links(scale).len() ==> (#[trigger] spec_links(scale)[k]).to != 0
                && spec_links(scale)[k].to != 1,
        spec_stages(scale)[spec_links(scale).last().from as int] is Mux,
        spec_stages(scale)[spec_links(scale).last().to as int] is NetSink,
        spec_stages(scale)[spec_links(scale)[0].from as int] is VideoSelector,
        spec_links(scale)[0].to == 2,
        spec_stages(scale)[2] is VideoConvert,
{
}

/// The engine factory that realizes one stage. Fixed stages map to fixed
/// processing elements; the two encode stages take the names the caller
/// configured in the settings.
pub fn stage_factory(kind: StageKind, settings: &EncodingSettings) -> (r: String)
    ensures
        kind is VideoSelector ==> r@ == "input-selector"@,
        kind is AudioSelector ==> r@ == "input-selector"@,
        kind is VideoConvert ==> r@ == "videoconvert"@,
        kind is VideoRate ==> r@ == "videorate"@,
        kind is VideoScale ==> r@ == "videoscale"@,
        kind is ScaleCaps ==> r@ == "capsfilter"@,
        kind is VideoEncode ==> r@ == settings.video_encoder@,
        kind is AudioConvert ==> r@ == "audioconvert"@,
        kind is AudioResample ==> r@ == "audioresample"@,
        kind is AudioEncode ==> r@ == settings.audio_encoder@,
        kind is Mux ==> r@ == "flvmux"@,
        kind is NetSink ==> r@ == "rtmpsink"@,
{
    match kind {
        StageKind::VideoSelector => "input-selector".to_owned(),
        StageKind::AudioSelector => "input-selector".to_owned(),
        StageKind::VideoConvert => "videoconvert".to_owned(),
        StageKind::VideoRate => "videorate".to_owned(),
        StageKind::VideoScale => "videoscale".to_owned(),
        StageKind::ScaleCaps => "capsfilter".to_owned(),
        StageKind::VideoEncode => settings.video_encoder.clone(),
        StageKind::AudioConvert => "audioconvert".to_owned(),
        StageKind::AudioResample => "audioresample".to_owned(),
        StageKind::AudioEncode => settings.audio_encoder.clone(),
        StageKind::Mux => "flvmux".to_owned(),
        StageKind::NetSink => "rtmpsink".to_owned(),
    }
}

} // verus!
