use hayai_playout_core::graph::{build_graph_plan, stage_factory, StageKind};
use hayai_playout_core::source::{
    classify_stream, route_stream, teardown_steps, MediaKind, StreamRoute, TeardownStep,
};
use hayai_playout_core::EncodingSettings;

#[test]
fn default_settings_match_the_documented_values() {
    let s = EncodingSettings::default();
    assert_eq!(s.video_encoder, "x264enc");
    assert_eq!(s.audio_encoder, "faac");
    assert_eq!(s.bitrate_kbps, 4000);
    assert_eq!(s.speed_preset, "ultrafast");
    assert!(!s.scale_enabled);
    assert_eq!(s.scale_width, 1920);
    assert_eq!(s.scale_height, 1080);
}

#[test]
fn plan_without_scaling_has_the_fixed_chain() {
    let s = EncodingSettings::default();
    let g = build_graph_plan("rtmp://example/live", &s);
    assert_eq!(
        g.stages,
        vec![
            StageKind::VideoSelector,
            StageKind::AudioSelector,
            StageKind::VideoConvert,
            StageKind::VideoRate,
            StageKind::VideoEncode,
            StageKind::AudioConvert,
            StageKind::AudioResample,
            StageKind::AudioEncode,
            StageKind::Mux,
            StageKind::NetSink,
        ]
    );
    assert_eq!(g.links.len(), 9);
    for l in &g.links {
        assert!(l.from < g.stages.len());
        assert!(l.to < g.stages.len());
    }
    let last = g.links.last().unwrap();
    assert_eq!(g.stages[last.from], StageKind::Mux);
    assert_eq!(g.stages[last.to], StageKind::NetSink);
}

#[test]
fn plan_with_scaling_inserts_the_scale_stages() {
    let mut s = EncodingSettings::default();
    s.scale_enabled = true;
    s.scale_width = 1280;
    s.scale_height = 720;
    let g = build_graph_plan("rtmp://example/live", &s);
    assert_eq!(g.stages.len(), 12);
    assert_eq!(g.stages[4], StageKind::VideoScale);
    assert_eq!(g.stages[5], StageKind::ScaleCaps);
    assert!(g.scale_enabled);
    assert_eq!(g.scale_width, 1280);
    assert_eq!(g.scale_height, 720);
    // The scale stages sit between rate normalization and encode.
    assert!(g.links.contains(&hayai_playout_core::graph::StageLink { from: 3, to: 4 }));
    assert!(g.links.contains(&hayai_playout_core::graph::StageLink { from: 4, to: 5 }));
    assert!(g.links.contains(&hayai_playout_core::graph::StageLink { from: 5, to: 6 }));
}

#[test]
fn plan_carries_the_session_configuration() {
    let mut s = EncodingSettings::default();
    s.video_encoder = "openh264enc".to_string();
    s.audio_encoder = "avenc_aac".to_string();
    s.bitrate_kbps = 2500;
    s.speed_preset = "fast".to_string();
    let g = build_graph_plan("rtmp://host/app/key", &s);
    assert_eq!(g.video_encoder, "openh264enc");
    assert_eq!(g.audio_encoder, "avenc_aac");
    assert_eq!(g.bitrate_kbps, 2500);
    assert_eq!(g.speed_preset, "fast");
    assert_eq!(g.keyframe_interval, 60);
    assert_eq!(g.audio_bitrate_bps, 128000);
    assert_eq!(g.sink_url, "rtmp://host/app/key");
    assert!(!g.sink_sync);
    assert!(g.sink_qos);
    assert_eq!(g.sink_max_lateness_ns, 500_000_000);
}

#[test]
fn stage_factories_name_the_engine_elements() {
    let s = EncodingSettings::default();
    assert_eq!(stage_factory(StageKind::VideoSelector, &s), "input-selector");
    assert_eq!(stage_factory(StageKind::AudioSelector, &s), "input-selector");
    assert_eq!(stage_factory(StageKind::VideoConvert, &s), "videoconvert");
    assert_eq!(stage_factory(StageKind::VideoRate, &s), "videorate");
    assert_eq!(stage_factory(StageKind::VideoScale, &s), "videoscale");
    assert_eq!(stage_factory(StageKind::ScaleCaps, &s), "capsfilter");
    assert_eq!(stage_factory(StageKind::VideoEncode, &s), "x264enc");
    assert_eq!(stage_factory(StageKind::AudioConvert, &s), "audioconvert");
    assert_eq!(stage_factory(StageKind::AudioResample, &s), "audioresample");
    assert_eq!(stage_factory(StageKind::AudioEncode, &s), "faac");
    assert_eq!(stage_factory(StageKind::Mux, &s), "flvmux");
    assert_eq!(stage_factory(StageKind::NetSink, &s), "rtmpsink");
}

#[test]
fn streams_classify_by_media_type_prefix() {
    assert_eq!(classify_stream("video/x-raw"), MediaKind::Video);
    assert_eq!(classify_stream("video/x-h264"), MediaKind::Video);
    assert_eq!(classify_stream("audio/x-raw"), MediaKind::Audio);
    assert_eq!(classify_stream("audio/mpeg"), MediaKind::Audio);
    assert_eq!(classify_stream("text/x-raw"), MediaKind::Other);
    assert_eq!(classify_stream("video"), MediaKind::Other);
    assert_eq!(classify_stream("audiobook/x"), MediaKind::Other);
    assert_eq!(classify_stream(""), MediaKind::Other);
}

#[test]
fn only_the_first_stream_of_a_kind_becomes_active() {
    assert_eq!(
        route_stream("video/x-raw", false, false),
        StreamRoute::LinkVideo { make_active: true }
    );
    assert_eq!(
        route_stream("video/x-raw", true, false),
        StreamRoute::LinkVideo { make_active: false }
    );
    assert_eq!(
        route_stream("audio/x-raw", false, false),
        StreamRoute::LinkAudio { make_active: true }
    );
    assert_eq!(
        route_stream("audio/x-raw", false, true),
        StreamRoute::LinkAudio { make_active: false }
    );
    assert_eq!(route_stream("application/x-id3", false, false), StreamRoute::Ignore);
}

#[test]
fn teardown_halts_then_releases_then_removes() {
    assert_eq!(
        teardown_steps(),
        vec![
            TeardownStep::DeactivateSource,
            TeardownStep::ReleaseSelectorInputs,
            TeardownStep::RemoveSource,
        ]
    );
}
