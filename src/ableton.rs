//! The Ableton command protocol: the typed command set, its OSC addresses and
//! arguments, and the connector that guards command execution.
//!
//! Values that Ableton reads as single-precision floats (tempo, volume, pan,
//! device values) are carried as their IEEE-754 bit pattern in a `u32`, so
//! that they reach the wire exactly as given.
use vstd::prelude::*;
use vstd::string::*;

use crate::text::same_text;

verus! {

pub const PLAY_PATH: &'static str = "/live/play";
pub const STOP_PATH: &'static str = "/live/stop";
pub const RECORD_PATH: &'static str = "/live/record";
pub const TEMPO_PATH: &'static str = "/live/tempo";
pub const TRACK_VOLUME_PATH: &'static str = "/live/track/volume";
pub const TRACK_PAN_PATH: &'static str = "/live/track/pan";
pub const TRACK_MUTE_PATH: &'static str = "/live/track/mute";
pub const TRACK_SOLO_PATH: &'static str = "/live/track/solo";
pub const TRACK_ARM_PATH: &'static str = "/live/track/arm";
pub const CLIP_LAUNCH_PATH: &'static str = "/live/clip/launch";
pub const CLIP_STOP_PATH: &'static str = "/live/clip/stop";
pub const SCENE_LAUNCH_PATH: &'static str = "/live/scene/launch";
pub const DEVICE_PARAM_PATH: &'static str = "/live/device/param";
pub const SESSION_GET_PATH: &'static str = "/live/get";
pub const TRACK_GET_PATH: &'static str = "/live/track/get";
pub const CLIP_GET_PATH: &'static str = "/live/clip/get";

/// A command for Ableton Live. Track ids are 0-based.
#[derive(PartialEq, Eq, Structural, Debug, Clone, Copy)]
pub enum AbletonCommand {
    Play,
    Stop,
    Record,
    SetTempo { bpm: u32 },
    SetTrackVolume { track_id: u32, volume: u32 },
    SetTrackPan { track_id: u32, pan: u32 },
    SetTrackMute { track_id: u32, mute: bool },
    SetTrackSolo { track_id: u32, solo: bool },
    ArmTrack { track_id: u32, armed: bool },
    LaunchClip { track_id: u32, clip_id: u32 },
    StopClip { track_id: u32, clip_id: u32 },
    LaunchScene { scene_id: u32 },
    SetDeviceParameter { device_id: u32, param_id: u32, value: u32 },
    GetSessionInfo,
    GetTrack { track_id: u32 },
    GetClip { track_id: u32, clip_id: u32 },
}

/// One OSC argument: a 32-bit integer, or a 32-bit float given by its bits.
#[derive(PartialEq, Eq, Structural, Debug, Clone, Copy)]
pub enum OscArg {
    Int(i32),
    Float(u32),
}

/// An OSC message: an address and its arguments.
#[derive(Debug, Clone)]
pub struct OscMessage {
    pub addr: String,
    pub args: Vec<OscArg>,
}

/// The fixed OSC address of each command.
pub open spec fn osc_path(c: AbletonCommand) -> Seq<char> {
    match c {
        AbletonCommand::Play => PLAY_PATH@,
        AbletonCommand::Stop => STOP_PATH@,
        AbletonCommand::Record => RECORD_PATH@,
        AbletonCommand::SetTempo { .. } => TEMPO_PATH@,
        AbletonCommand::SetTrackVolume { .. } => TRACK_VOLUME_PATH@,
        AbletonCommand::SetTrackPan { .. } => TRACK_PAN_PATH@,
        AbletonCommand::SetTrackMute { .. } => TRACK_MUTE_PATH@,
        AbletonCommand::SetTrackSolo { .. } => TRACK_SOLO_PATH@,
        AbletonCommand::ArmTrack { .. } => TRACK_ARM_PATH@,
        AbletonCommand::LaunchClip { .. } => CLIP_LAUNCH_PATH@,
        AbletonCommand::StopClip { .. } => CLIP_STOP_PATH@,
        AbletonCommand::LaunchScene { .. } => SCENE_LAUNCH_PATH@,
        AbletonCommand::SetDeviceParameter { .. } => DEVICE_PARAM_PATH@,
        AbletonCommand::GetSessionInfo => SESSION_GET_PATH@,
        AbletonCommand::GetTrack { .. } => TRACK_GET_PATH@,
        AbletonCommand::GetClip { .. } => CLIP_GET_PATH@,
    }
}

/// The commands that the wire mapping carries.
pub open spec fn is_implemented(c: AbletonCommand) -> bool {
    match c {
        AbletonCommand::Play | AbletonCommand::Stop | AbletonCommand::SetTempo { .. }
        | AbletonCommand::SetTrackVolume { .. } | AbletonCommand::SetTrackPan { .. }
        | AbletonCommand::SetTrackMute { .. } | AbletonCommand::LaunchClip { .. }
        | AbletonCommand::LaunchScene { .. } => true,
        _ => false,
    }
}

/// An id on the wire: an OSC int32 with the same bits.
pub open spec fn id_arg(id: u32) -> OscArg {
    OscArg::Int(id as i32)
}

/// A flag on the wire: 1 or 0.
pub open spec fn flag_arg(b: bool) -> OscArg {
    OscArg::Int(if b { 1i32 } else { 0i32 })
}

/// The arguments of an implemented command: ids first, then the payload.
pub open spec fn osc_args(c: AbletonCommand) -> Seq<OscArg> {
    match c {
        AbletonCommand::SetTempo { bpm } => seq![OscArg::Float(bpm)],
        AbletonCommand::SetTrackVolume { track_id, volume } => seq![id_arg(track_id), OscArg::Float(volume)],
        AbletonCommand::SetTrackPan { track_id, pan } => seq![id_arg(track_id), OscArg::Float(pan)],
        AbletonCommand::SetTrackMute { track_id, mute } => seq![id_arg(track_id), flag_arg(mute)],
        AbletonCommand::LaunchClip { track_id, clip_id } => seq![id_arg(track_id), id_arg(clip_id)],
        AbletonCommand::LaunchScene { scene_id } => seq![id_arg(scene_id)],
        _ => Seq::empty(),
    }
}

/// `addr` and `args` are the OSC message of the implemented command `c`.
pub open spec fn is_message_of(c: AbletonCommand, addr: Seq<char>, args: Seq<OscArg>) -> bool {
    is_implemented(c) && osc_path(c) == addr && osc_args(c) == args
}

fn id_to_wire(id: u32) -> (r: OscArg)
    ensures
        r == id_arg(id),
{
    OscArg::Int(id as i32)
}

fn flag_to_wire(b: bool) -> (r: OscArg)
    ensures
        r == flag_arg(b),
{
    OscArg::Int(if b { 1i32 } else { 0i32 })
}

fn message(path: &str, args: Vec<OscArg>) -> (r: OscMessage)
    ensures
        r.addr@ == path@,
        r.args@ == args@,
{
    OscMessage { addr: path.to_owned(), args }
}

impl AbletonCommand {
    /// The command's OSC address.
    pub fn to_osc_path(&self) -> (r: String)
        ensures
            r@ == osc_path(*self),
    {
        let p = match self {
            AbletonCommand::Play => PLAY_PATH,
            AbletonCommand::Stop => STOP_PATH,
            AbletonCommand::Record => RECORD_PATH,
            AbletonCommand::SetTempo { .. } => TEMPO_PATH,
            AbletonCommand::SetTrackVolume { .. } => TRACK_VOLUME_PATH,
            AbletonCommand::SetTrackPan { .. } => TRACK_PAN_PATH,
            AbletonCommand::SetTrackMute { .. } => TRACK_MUTE_PATH,
            AbletonCommand::SetTrackSolo { .. } => TRACK_SOLO_PATH,
            AbletonCommand::ArmTrack { .. } => TRACK_ARM_PATH,
            AbletonCommand::LaunchClip { .. } => CLIP_LAUNCH_PATH,
            AbletonCommand::StopClip { .. } => CLIP_STOP_PATH,
            AbletonCommand::LaunchScene { .. } => SCENE_LAUNCH_PATH,
            AbletonCommand::SetDeviceParameter { .. } => DEVICE_PARAM_PATH,
            AbletonCommand::GetSessionInfo => SESSION_GET_PATH,
            AbletonCommand::GetTrack { .. } => TRACK_GET_PATH,
            AbletonCommand::GetClip { .. } => CLIP_GET_PATH,
        };
        p.to_owned()
    }

    /// The OSC message of an implemented command, or `None` for a command
    /// that the wire mapping does not carry.
    pub fn to_osc_message(&self) -> (r: Option<OscMessage>)
        ensures
            r is Some <==> is_implemented(*self),
            r matches Some(m) ==> m.addr@ == osc_path(*self) && m.args@ == osc_args(*self),
    {
        match *self {
            AbletonCommand::Play => Some(message(PLAY_PATH, vec![])),
            AbletonCommand::Stop => Some(message(STOP_PATH, vec![])),
            AbletonCommand::SetTempo { bpm } => Some(message(TEMPO_PATH, vec![OscArg::Float(bpm)])),
            AbletonCommand::SetTrackVolume { track_id, volume } => Some(
                message(TRACK_VOLUME_PATH, vec![id_to_wire(track_id), OscArg::Float(volume)]),
            ),
            AbletonCommand::SetTrackPan { track_id, pan } => Some(
                message(TRACK_PAN_PATH, vec![id_to_wire(track_id), OscArg::Float(pan)]),
            ),
            AbletonCommand::SetTrackMute { track_id, mute } => Some(
                message(TRACK_MUTE_PATH, vec![id_to_wire(track_id), flag_to_wire(mute)]),
            ),
            AbletonCommand::LaunchClip { track_id, clip_id } => Some(
                message(CLIP_LAUNCH_PATH, vec![id_to_wire(track_id), id_to_wire(clip_id)]),
            ),
            AbletonCommand::LaunchScene { scene_id } => Some(
                message(SCENE_LAUNCH_PATH, vec![id_to_wire(scene_id)]),
            ),
            _ => None,
        }
    }
}

/// Reads a command back from an OSC address and its arguments; `None` when
/// they are not the message of an implemented command.
pub fn decode_osc(addr: &str, args: &Vec<OscArg>) -> (r: Option<AbletonCommand>)
    ensures
        r matches Some(c) ==> is_message_of(c, addr@, args@),
        r is None ==> forall|c: AbletonCommand| !is_message_of(c, addr@, args@),
{
    let r = {
        if args.len() == 0 {
            if same_text(addr, PLAY_PATH) {
                Some(AbletonCommand::Play)
            } else if same_text(addr, STOP_PATH) {
                Some(AbletonCommand::Stop)
            } else {
                None
            }
        } else if args.len() == 1 {
            match args[0] {
                OscArg::Float(bpm) => if same_text(addr, TEMPO_PATH) {
                    Some(AbletonCommand::SetTempo { bpm })
                } else {
                    None
                },
                OscArg::Int(i) => if same_text(addr, SCENE_LAUNCH_PATH) {
                    proof {
                        lemma_wire_id_round_trip(i);
                    }
                    Some(AbletonCommand::LaunchScene { scene_id: #[verifier::truncate] (i as u32) })
                } else {
                    None
                },
            }
        } else if args.len() == 2 {
            match (args[0], args[1]) {
                (OscArg::Int(t), OscArg::Float(v)) => if same_text(addr, TRACK_VOLUME_PATH) {
                    proof {
                        lemma_wire_id_round_trip(t);
                    }
                    Some(AbletonCommand::SetTrackVolume { track_id: #[verifier::truncate] (t as u32), volume: v })
                } else if same_text(addr, TRACK_PAN_PATH) {
                    proof {
                        lemma_wire_id_round_trip(t);
                    }
                    Some(AbletonCommand::SetTrackPan { track_id: #[verifier::truncate] (t as u32), pan: v })
                } else {
                    None
                },
                (OscArg::Int(t), OscArg::Int(x)) => if same_text(addr, TRACK_MUTE_PATH) && (x == 0
                    || x == 1) {
                    proof {
                        lemma_wire_id_round_trip(t);
                    }
                    Some(AbletonCommand::SetTrackMute { track_id: #[verifier::truncate] (t as u32), mute: x == 1 })
                } else if same_text(addr, CLIP_LAUNCH_PATH) {
                    proof {
                        lemma_wire_id_round_trip(t);
                        lemma_wire_id_round_trip(x);
                    }
                    Some(AbletonCommand::LaunchClip { track_id: #[verifier::truncate] (t as u32), clip_id: #[verifier::truncate] (x as u32) })
                } else {
                    None
                },
                _ => None,
            }
        } else {
            None
        }
    };
    proof {
        if let Some(c) = r {
            assert(osc_args(c) =~= args@);
        }
    }
    r
}

/// An id survives its trip through an OSC int32.
pub proof fn lemma_id_round_trip(id: u32)
    ensures
        (id as i32) as u32 == id,
{
    assert((id as i32) as u32 == id) by (bit_vector);
}

/// An OSC int32 read as an id is sent back as the same int32.
pub proof fn lemma_wire_id_round_trip(v: i32)
    ensures
        (v as u32) as i32 == v,
{
    assert((v as u32) as i32 == v) by (bit_vector);
}

/// No two implemented commands share an address and arguments: the OSC
/// message determines the command with all its fields.
pub proof fn law_osc_injective(c1: AbletonCommand, c2: AbletonCommand)
    requires
        is_implemented(c1),
        is_implemented(c2),
        osc_path(c1) == osc_path(c2),
        osc_args(c1) == osc_args(c2),
    ensures
        c1 == c2,
{
    reveal_strlit("/live/play");
    reveal_strlit("/live/stop");
    reveal_strlit("/live/track/volume");
    reveal_strlit("/live/track/pan");
    reveal_strlit("/live/track/mute");
    reveal_strlit("/live/clip/launch");
    assert(STOP_PATH@[6] != PLAY_PATH@[6]);
    assert(TRACK_PAN_PATH@.len() != TRACK_VOLUME_PATH@.len());
    assert(CLIP_LAUNCH_PATH@.len() != TRACK_MUTE_PATH@.len());
    let a1 = osc_args(c1);
    let a2 = osc_args(c2);
    if a1.len() > 0 {
        assert(a1[0] == a2[0]);
    }
    if a1.len() > 1 {
        assert(a1[1] == a2[1]);
    }
    match c1 {
        AbletonCommand::SetTrackVolume { track_id, .. } | AbletonCommand::SetTrackPan { track_id, .. }
        | AbletonCommand::SetTrackMute { track_id, .. } | AbletonCommand::LaunchScene {
            scene_id: track_id,
        } => {
            lemma_id_round_trip(track_id);
            match c2 {
                AbletonCommand::SetTrackVolume { track_id: t2, .. } | AbletonCommand::SetTrackPan {
                    track_id: t2,
                    ..
                } | AbletonCommand::SetTrackMute { track_id: t2, .. } | AbletonCommand::LaunchScene {
                    scene_id: t2,
                } => lemma_id_round_trip(t2),
                _ => {},
            }
        },
        AbletonCommand::LaunchClip { track_id, clip_id } => {
            lemma_id_round_trip(track_id);
            lemma_id_round_trip(clip_id);
            match c2 {
                AbletonCommand::LaunchClip { track_id: t2, clip_id: k2 } => {
                    lemma_id_round_trip(t2);
                    lemma_id_round_trip(k2);
                },
                AbletonCommand::SetTrackMute { track_id: t2, .. } => lemma_id_round_trip(t2),
                _ => {},
            }
        },
        _ => {},
    }
}

/// Every implemented command has a non-empty address, its message is its
/// own, and no other command has that message: decoding it with
/// `decode_osc` gives the command back with every field intact.
pub proof fn law_osc_round_trip(c: AbletonCommand)
    requires
        is_implemented(c),
    ensures
        osc_path(c).len() > 0,
        is_message_of(c, osc_path(c), osc_args(c)),
        forall|d: AbletonCommand| is_message_of(d, osc_path(c), osc_args(c)) ==> d == c,
{
    reveal_strlit("/live/play");
    reveal_strlit("/live/stop");
    reveal_strlit("/live/tempo");
    reveal_strlit("/live/track/volume");
    reveal_strlit("/live/track/pan");
    reveal_strlit("/live/track/mute");
    reveal_strlit("/live/clip/launch");
    reveal_strlit("/live/scene/launch");
    assert forall|d: AbletonCommand| is_message_of(d, osc_path(c), osc_args(c)) implies d == c by {
        law_osc_injective(d, c);
    }
}

/// The name of a command's variant.
pub open spec fn command_name(c: AbletonCommand) -> Seq<char> {
    match c {
        AbletonCommand::Play => "Play"@,
        AbletonCommand::Stop => "Stop"@,
        AbletonCommand::Record => "Record"@,
        AbletonCommand::SetTempo { .. } => "SetTempo"@,
        AbletonCommand::SetTrackVolume { .. } => "SetTrackVolume"@,
        AbletonCommand::SetTrackPan { .. } => "SetTrackPan"@,
        AbletonCommand::SetTrackMute { .. } => "SetTrackMute"@,
        AbletonCommand::SetTrackSolo { .. } => "SetTrackSolo"@,
        AbletonCommand::ArmTrack { .. } => "ArmTrack"@,
        AbletonCommand::LaunchClip { .. } => "LaunchClip"@,
        AbletonCommand::StopClip { .. } => "StopClip"@,
        AbletonCommand::LaunchScene { .. } => "LaunchScene"@,
        AbletonCommand::SetDeviceParameter { .. } => "SetDeviceParameter"@,
        AbletonCommand::GetSessionInfo => "GetSessionInfo"@,
        AbletonCommand::GetTrack { .. } => "GetTrack"@,
        AbletonCommand::GetClip { .. } => "GetClip"@,
    }
}

/// What a failed send reports first, for each command.
pub open spec fn failure_label(c: AbletonCommand) -> Seq<char> {
    match c {
        AbletonCommand::Play => "Play command failed: "@,
        AbletonCommand::Stop => "Stop command failed: "@,
        AbletonCommand::SetTempo { .. } => "Set tempo failed: "@,
        AbletonCommand::SetTrackVolume { .. } => "Set track volume failed: "@,
        AbletonCommand::SetTrackPan { .. } => "Set track pan failed: "@,
        AbletonCommand::SetTrackMute { .. } => "Set track mute failed: "@,
        AbletonCommand::LaunchClip { .. } => "Launch clip failed: "@,
        AbletonCommand::LaunchScene { .. } => "Launch scene failed: "@,
        _ => "Command failed: "@,
    }
}

impl AbletonCommand {
    /// The name of this command's variant.
    pub fn name(&self) -> (r: &'static str)
        ensures
            r@ == command_name(*self),
    {
        match self {
            AbletonCommand::Play => "Play",
            AbletonCommand::Stop => "Stop",
            AbletonCommand::Record => "Record",
            AbletonCommand::SetTempo { .. } => "SetTempo",
            AbletonCommand::SetTrackVolume { .. } => "SetTrackVolume",
            AbletonCommand::SetTrackPan { .. } => "SetTrackPan",
            AbletonCommand::SetTrackMute { .. } => "SetTrackMute",
            AbletonCommand::SetTrackSolo { .. } => "SetTrackSolo",
            AbletonCommand::ArmTrack { .. } => "ArmTrack",
            AbletonCommand::LaunchClip { .. } => "LaunchClip",
            AbletonCommand::StopClip { .. } => "StopClip",
            AbletonCommand::LaunchScene { .. } => "LaunchScene",
            AbletonCommand::SetDeviceParameter { .. } => "SetDeviceParameter",
            AbletonCommand::GetSessionInfo => "GetSessionInfo",
            AbletonCommand::GetTrack { .. } => "GetTrack",
            AbletonCommand::GetClip { .. } => "GetClip",
        }
    }

    fn failure_label(&self) -> (r: &'static str)
        ensures
            r@ == failure_label(*self),
    {
        match self {
            AbletonCommand::Play => "Play command failed: ",
            AbletonCommand::Stop => "Stop command failed: ",
            AbletonCommand::SetTempo { .. } => "Set tempo failed: ",
            AbletonCommand::SetTrackVolume { .. } => "Set track volume failed: ",
            AbletonCommand::SetTrackPan { .. } => "Set track pan failed: ",
            AbletonCommand::SetTrackMute { .. } => "Set track mute failed: ",
            AbletonCommand::LaunchClip { .. } => "Launch clip failed: ",
            AbletonCommand::LaunchScene { .. } => "Launch scene failed: ",
            _ => "Command failed: ",
        }
    }
}

/// Told to a caller that sends a command while Ableton is not connected.
pub const NOT_CONNECTED_MESSAGE: &'static str = "Not connected to Ableton Live";

/// Told to a caller whose message needs Ableton before any connector exists.
pub const NOT_ATTACHED_MESSAGE: &'static str = "Ableton not connected";

/// An error of the command layer.
#[derive(Debug)]
pub enum AbletonError {
    /// The connector holds no bound socket.
    NotConnected,
    /// No connector to Ableton has been attached.
    NotAttached,
    /// The connector is connected but its caller holds no socket.
    HandlerNotInitialized,
    /// A control message that carries no command.
    InvalidRequest,
    /// The wire mapping does not carry this command.
    UnimplementedCommand(AbletonCommand),
    /// The local socket refused the datagram.
    SendFailed { command: AbletonCommand, detail: String },
}

/// The text of an error of the command layer.
pub open spec fn ableton_error_text(e: AbletonError) -> Seq<char> {
    match e {
        AbletonError::NotConnected => NOT_CONNECTED_MESSAGE@,
        AbletonError::NotAttached => NOT_ATTACHED_MESSAGE@,
        AbletonError::HandlerNotInitialized => "OSC handler not initialized"@,
        AbletonError::InvalidRequest => "Control message carries no command"@,
        AbletonError::UnimplementedCommand(c) => "Command "@ + command_name(c) + " not yet implemented"@,
        AbletonError::SendFailed { command, detail } => failure_label(command) + detail@,
    }
}

impl AbletonError {
    /// The text of this error.
    pub fn message(&self) -> (r: String)
        ensures
            r@ == ableton_error_text(*self),
    {
        match self {
            AbletonError::NotConnected => NOT_CONNECTED_MESSAGE.to_owned(),
            AbletonError::NotAttached => NOT_ATTACHED_MESSAGE.to_owned(),
            AbletonError::HandlerNotInitialized => "OSC handler not initialized".to_owned(),
            AbletonError::InvalidRequest => "Control message carries no command".to_owned(),
            AbletonError::UnimplementedCommand(c) => {
                let mut r = "Command ".to_owned();
                r.append(c.name());
                r.append(" not yet implemented");
                r
            },
            AbletonError::SendFailed { command, detail } => {
                let mut r = command.failure_label().to_owned();
                r.append(detail.as_str());
                r
            },
        }
    }
}

/// The lifecycle of the connection to Ableton. `Connected` means that a local
/// UDP socket is bound; the DAW never confirms that it is reachable.
#[derive(PartialEq, Eq, Structural, Debug, Clone, Copy)]
pub enum ConnectorState {
    Disconnected,
    Connecting,
    Connected,
}

/// What a call to `begin_connect` asks of the caller.
#[derive(PartialEq, Eq, Structural, Debug, Clone, Copy)]
pub enum BindStep {
    /// Bind the local socket, then report with `finish_connect`.
    Bind,
    /// The connector is connected already: nothing to do.
    AlreadyConnected,
    /// Another connect attempt is in flight.
    InFlight,
}

/// The local UDP port that the connector binds.
pub const LOCAL_OSC_PORT: u16 = 12000;

/// Owns the connection state towards one Ableton host and decides what each
/// command puts on the wire. The socket itself belongs to the caller, which
/// binds it between `begin_connect` and `finish_connect`.
#[derive(Debug)]
pub struct AbletonConnector {
    host: String,
    port: u16,
    state: ConnectorState,
}

impl AbletonConnector {
    /// The host that commands are sent to.
    pub closed spec fn host_spec(&self) -> Seq<char> {
        self.host@
    }

    /// The port that commands are sent to.
    pub closed spec fn port_spec(&self) -> u16 {
        self.port
    }

    /// The connection state.
    pub closed spec fn state_spec(&self) -> ConnectorState {
        self.state
    }

    /// A disconnected connector towards `host:port`.
    pub fn new(host: &str, port: u16) -> (r: Self)
        ensures
            r.host_spec() == host@,
            r.port_spec() == port,
            r.state_spec() == ConnectorState::Disconnected,
    {
        AbletonConnector { host: host.to_owned(), port, state: ConnectorState::Disconnected }
    }

    /// The host that commands are sent to.
    pub fn host(&self) -> (r: &str)
        ensures
            r@ == self.host_spec(),
    {
        self.host.as_str()
    }

    /// The port that commands are sent to.
    pub fn port(&self) -> (r: u16)
        ensures
            r == self.port_spec(),
    {
        self.port
    }

    /// The connection state.
    pub fn state(&self) -> (r: ConnectorState)
        ensures
            r == self.state_spec(),
    {
        self.state
    }

    /// Whether commands can be sent.
    pub fn is_connected(&self) -> (r: bool)
        ensures
            r == (self.state_spec() == ConnectorState::Connected),
    {
        self.state == ConnectorState::Connected
    }

    /// Starts a connection. Only a disconnected connector binds: it becomes
    /// `Connecting`, the caller binds the local socket and reports with
    /// `finish_connect`, and a command sent meanwhile is refused. A connected
    /// connector, or one with an attempt in flight, is left as it is.
    pub fn begin_connect(&mut self) -> (r: BindStep)
        ensures
            final(self).host_spec() == old(self).host_spec(),
            final(self).port_spec() == old(self).port_spec(),
            old(self).state_spec() == ConnectorState::Disconnected ==> r is Bind && final(self).state_spec()
                == ConnectorState::Connecting,
            old(self).state_spec() == ConnectorState::Connected ==> r is AlreadyConnected
                && final(self).state_spec() == ConnectorState::Connected,
            old(self).state_spec() == ConnectorState::Connecting ==> r is InFlight && final(self).state_spec()
                == ConnectorState::Connecting,
    {
        match self.state {
            ConnectorState::Disconnected => {
                self.state = ConnectorState::Connecting;
                BindStep::Bind
            },
            ConnectorState::Connected => BindStep::AlreadyConnected,
            ConnectorState::Connecting => BindStep::InFlight,
        }
    }

    /// Ends a connection attempt: connected when the socket was bound,
    /// disconnected otherwise.
    pub fn finish_connect(&mut self, bound: bool)
        requires
            old(self).state_spec() == ConnectorState::Connecting,
        ensures
            final(self).state_spec() == if bound {
                ConnectorState::Connected
            } else {
                ConnectorState::Disconnected
            },
            final(self).host_spec() == old(self).host_spec(),
            final(self).port_spec() == old(self).port_spec(),
    {
        self.state = if bound {
            ConnectorState::Connected
        } else {
            ConnectorState::Disconnected
        };
    }

    /// Drops the connection; the caller drops the socket.
    pub fn disconnect(&mut self)
        ensures
            final(self).state_spec() == ConnectorState::Disconnected,
            final(self).host_spec() == old(self).host_spec(),
            final(self).port_spec() == old(self).port_spec(),
    {
        self.state = ConnectorState::Disconnected;
    }

    /// Whether a message may go to Ableton: only while connected.
    pub fn send_message(&self) -> (r: Result<(), AbletonError>)
        ensures
            self.state_spec() == ConnectorState::Connected ==> r is Ok,
            self.state_spec() != ConnectorState::Connected ==> r == Err::<(), AbletonError>(
                AbletonError::NotConnected,
            ),
    {
        if self.state != ConnectorState::Connected {
            return Err(AbletonError::NotConnected);
        }
        Ok(())
    }

    /// The OSC message to send for `command`. Refused with `NotConnected`
    /// unless connected, and with `UnimplementedCommand` for a command that
    /// the wire mapping does not carry.
    pub fn execute_command(&self, command: &AbletonCommand) -> (r: Result<OscMessage, AbletonError>)
        ensures
            self.state_spec() != ConnectorState::Connected ==> r == Err::<OscMessage, AbletonError>(
                AbletonError::NotConnected,
            ),
            self.state_spec() == ConnectorState::Connected && !is_implemented(*command) ==> r == Err::<
                OscMessage,
                AbletonError,
            >(AbletonError::UnimplementedCommand(*command)),
            self.state_spec() == ConnectorState::Connected && is_implemented(*command) ==> (r matches Ok(
                m,
            ) && m.addr@ == osc_path(*command) && m.args@ == osc_args(*command)),
    {
        if self.state != ConnectorState::Connected {
            return Err(AbletonError::NotConnected);
        }
        match command.to_osc_message() {
            Some(m) => Ok(m),
            None => Err(AbletonError::UnimplementedCommand(*command)),
        }
    }
}

/// The outcome of a command once the caller tried to send its message:
/// the command itself when the send succeeded.
pub fn after_send(command: AbletonCommand, send_error: Option<String>) -> (r: Result<AbletonCommand, AbletonError>)
    ensures
        send_error is None ==> r == Ok::<AbletonCommand, AbletonError>(command),
        send_error matches Some(d) ==> r == Err::<AbletonCommand, AbletonError>(
            AbletonError::SendFailed { command, detail: d },
        ),
{
    match send_error {
        None => Ok(command),
        Some(detail) => Err(AbletonError::SendFailed { command, detail }),
    }
}

/// The reply to a command execution. On success `data` holds the command
/// whose values were applied; no acknowledgement comes from the DAW.
#[derive(Debug)]
pub struct AbletonControlResponse {
    pub success: bool,
    pub message: Option<String>,
    pub data: Option<AbletonCommand>,
}

impl AbletonControlResponse {
    /// The reply to the result of a command execution.
    pub fn from_result(result: Result<AbletonCommand, AbletonError>) -> (r: Self)
        ensures
            r.success == result is Ok,
            result matches Ok(c) ==> r.data == Some(c) && r.message is None,
            result matches Err(e) ==> r.data is None && (r.message matches Some(m) && m@
                == ableton_error_text(e)),
    {
        match result {
            Ok(c) => AbletonControlResponse { success: true, message: None, data: Some(c) },
            Err(e) => AbletonControlResponse { success: false, message: Some(e.message()), data: None },
        }
    }
}

} // verus!
