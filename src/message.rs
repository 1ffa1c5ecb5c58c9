//! The messages exchanged between the parts of Orbit.
use vstd::prelude::*;

use crate::ableton::{AbletonCommand, AbletonControlResponse};

verus! {

/// What a message between the parts of Orbit is about.
#[derive(PartialEq, Eq, Structural, Debug, Clone, Copy)]
pub enum MessageType {
    MidiGeneration,
    StemSeparation,
    ScreenContext,
    AudioContext,
    Status,
    AbletonControl,
}

/// A part of a mix that stem separation can isolate.
#[derive(PartialEq, Eq, Structural, Debug, Clone, Copy)]
pub enum StemType {
    Drums,
    Bass,
    Vocals,
    Other,
}

/// A request to split an audio file into stems.
#[derive(Debug, Clone)]
pub struct StemSeparationRequest {
    pub audio_path: String,
    pub output_path: String,
    pub stems: Vec<StemType>,
}

/// A request to generate MIDI from a prompt. The tempo, when given, is the
/// IEEE-754 single-precision bit pattern of the beats per minute.
#[derive(Debug, Clone)]
pub struct MidiGenerationRequest {
    pub prompt: String,
    pub style: Option<String>,
    pub duration_bars: Option<u32>,
    pub bpm: Option<u32>,
}

/// A request to control Ableton Live.
#[derive(Debug, Clone, Copy)]
pub struct AbletonControlRequest {
    pub command: AbletonCommand,
}

/// What a message carries.
#[derive(Debug)]
pub enum MessagePayload {
    Empty,
    /// A command for Ableton Live.
    AbletonControl(AbletonControlRequest),
    /// The reply to a command for Ableton Live.
    ControlResponse(AbletonControlResponse),
    /// An error report.
    Error(String),
}

/// A message between the parts of Orbit. The id and the RFC 3339 timestamp
/// are given by the sender.
#[derive(Debug)]
pub struct OrbitMessage {
    pub id: String,
    pub timestamp: String,
    pub message_type: MessageType,
    pub payload: MessagePayload,
}

impl OrbitMessage {
    /// A message of type `message_type` carrying `payload`.
    pub fn new(id: String, timestamp: String, message_type: MessageType, payload: MessagePayload) -> (r: Self)
        ensures
            r.id == id,
            r.timestamp == timestamp,
            r.message_type == message_type,
            r.payload == payload,
    {
        OrbitMessage { id, timestamp, message_type, payload }
    }

    /// A control message carrying `command` for Ableton Live.
    pub fn ableton_control(id: String, timestamp: String, command: AbletonCommand) -> (r: Self)
        ensures
            r.id == id,
            r.timestamp == timestamp,
            r.message_type == MessageType::AbletonControl,
            r.payload == MessagePayload::AbletonControl(AbletonControlRequest { command }),
    {
        OrbitMessage::new(
            id,
            timestamp,
            MessageType::AbletonControl,
            MessagePayload::AbletonControl(AbletonControlRequest { command }),
        )
    }
}

} // verus!
