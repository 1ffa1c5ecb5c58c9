//! The Live object model's command vocabulary, addressed by signed ids as
//! Live's own API numbers them.
use vstd::prelude::*;

use crate::ableton::{
    CLIP_GET_PATH, CLIP_LAUNCH_PATH, CLIP_STOP_PATH, DEVICE_PARAM_PATH, PLAY_PATH, RECORD_PATH,
    SCENE_LAUNCH_PATH, SESSION_GET_PATH, STOP_PATH, TEMPO_PATH, TRACK_ARM_PATH, TRACK_GET_PATH,
    TRACK_MUTE_PATH, TRACK_PAN_PATH, TRACK_SOLO_PATH, TRACK_VOLUME_PATH,
};

verus! {

/// A command in Live's object model. Float values are carried as their
/// IEEE-754 single-precision bit pattern.
#[derive(PartialEq, Eq, Structural, Debug, Clone, Copy)]
pub enum LiveCommand {
    Play,
    Stop,
    Record,
    SetTempo(u32),
    SetTrackVolume { track_id: i32, volume: u32 },
    SetTrackPan { track_id: i32, pan: u32 },
    SetTrackMute { track_id: i32, mute: bool },
    SetTrackSolo { track_id: i32, solo: bool },
    ArmTrack { track_id: i32, armed: bool },
    LaunchClip { track_id: i32, clip_id: i32 },
    StopClip { track_id: i32, clip_id: i32 },
    LaunchScene { scene_id: i32 },
    SetDeviceParameter { device_id: i32, param_id: i32, value: u32 },
    GetLiveSet,
    GetTrack { track_id: i32 },
    GetClip { track_id: i32, clip_id: i32 },
}

/// The OSC address of each Live command.
pub open spec fn live_osc_path(c: LiveCommand) -> Seq<char> {
    match c {
        LiveCommand::Play => PLAY_PATH@,
        LiveCommand::Stop => STOP_PATH@,
        LiveCommand::Record => RECORD_PATH@,
        LiveCommand::SetTempo(_) => TEMPO_PATH@,
        LiveCommand::SetTrackVolume { .. } => TRACK_VOLUME_PATH@,
        LiveCommand::SetTrackPan { .. } => TRACK_PAN_PATH@,
        LiveCommand::SetTrackMute { .. } => TRACK_MUTE_PATH@,
        LiveCommand::SetTrackSolo { .. } => TRACK_SOLO_PATH@,
        LiveCommand::ArmTrack { .. } => TRACK_ARM_PATH@,
        LiveCommand::LaunchClip { .. } => CLIP_LAUNCH_PATH@,
        LiveCommand::StopClip { .. } => CLIP_STOP_PATH@,
        LiveCommand::LaunchScene { .. } => SCENE_LAUNCH_PATH@,
        LiveCommand::SetDeviceParameter { .. } => DEVICE_PARAM_PATH@,
        LiveCommand::GetLiveSet => SESSION_GET_PATH@,
        LiveCommand::GetTrack { .. } => TRACK_GET_PATH@,
        LiveCommand::GetClip { .. } => CLIP_GET_PATH@,
    }
}

impl LiveCommand {
    /// The command's OSC address.
    pub fn to_osc_path(&self) -> (r: String)
        ensures
            r@ == live_osc_path(*self),
    {
        let p = match self {
            LiveCommand::Play => PLAY_PATH,
            LiveCommand::Stop => STOP_PATH,
            LiveCommand::Record => RECORD_PATH,
            LiveCommand::SetTempo(_) => TEMPO_PATH,
            LiveCommand::SetTrackVolume { .. } => TRACK_VOLUME_PATH,
            LiveCommand::SetTrackPan { .. } => TRACK_PAN_PATH,
            LiveCommand::SetTrackMute { .. } => TRACK_MUTE_PATH,
            LiveCommand::SetTrackSolo { .. } => TRACK_SOLO_PATH,
            LiveCommand::ArmTrack { .. } => TRACK_ARM_PATH,
            LiveCommand::LaunchClip { .. } => CLIP_LAUNCH_PATH,
            LiveCommand::StopClip { .. } => CLIP_STOP_PATH,
            LiveCommand::LaunchScene { .. } => SCENE_LAUNCH_PATH,
            LiveCommand::SetDeviceParameter { .. } => DEVICE_PARAM_PATH,
            LiveCommand::GetLiveSet => SESSION_GET_PATH,
            LiveCommand::GetTrack { .. } => TRACK_GET_PATH,
            LiveCommand::GetClip { .. } => CLIP_GET_PATH,
        };
        p.to_owned()
    }
}

} // verus!
