//! Value types shared by the playlist store, the switch controller and the
//! graph planner.

use vstd::prelude::*;

verus! {

/// One playlist entry. Its identity is the `id`, never its position:
/// positions shift on add, remove and move, ids are unique and never reused.
#[derive(Debug)]
pub struct PlaylistItem {
    pub id: u64,
    pub uri: String,
}

impl Clone for PlaylistItem {
    fn clone(&self) -> (r: Self)
        ensures
            r == *self,
    {
        PlaylistItem { id: self.id, uri: self.uri.clone() }
    }
}

/// Encoder and output configuration for one streaming session.
/// Immutable for the lifetime of the session; supplied at start time.
#[derive(Debug)]
pub struct EncodingSettings {
    pub video_encoder: String,
    pub audio_encoder: String,
    pub bitrate_kbps: u32,
    pub speed_preset: String,
    pub scale_enabled: bool,
    pub scale_width: u32,
    pub scale_height: u32,
}

impl Clone for EncodingSettings {
    fn clone(&self) -> (r: Self)
        ensures
            r == *self,
    {
        EncodingSettings {
            video_encoder: self.video_encoder.clone(),
            audio_encoder: self.audio_encoder.clone(),
            bitrate_kbps: self.bitrate_kbps,
            speed_preset: self.speed_preset.clone(),
            scale_enabled: self.scale_enabled,
            scale_width: self.scale_width,
            scale_height: self.scale_height,
        }
    }
}

impl Default for EncodingSettings {
    /// A software video encoder at 4000 kbps, its fastest preset, no scaling.
    fn default() -> (r: Self)
        ensures
            r.video_encoder@ == "x264enc"@,
            r.audio_encoder@ == "faac"@,
            r.bitrate_kbps == 4000,
            r.speed_preset@ == "ultrafast"@,
            !r.scale_enabled,
            r.scale_width == 1920,
            r.scale_height == 1080,
    {
        EncodingSettings {
            video_encoder: "x264enc".to_owned(),
            audio_encoder: "faac".to_owned(),
            bitrate_kbps: 4000,
            speed_preset: "ultrafast".to_owned(),
            scale_enabled: false,
            scale_width: 1920,
            scale_height: 1080,
        }
    }
}

} // verus!
