//! The DAW-facing side of Orbit: routes control messages to the connector
//! for Ableton Live, when one is attached.
use vstd::prelude::*;

use crate::ableton::{
    is_implemented, osc_args, osc_path, AbletonCommand, AbletonConnector, AbletonError, ConnectorState,
    OscMessage,
};
use crate::message::{MessagePayload, MessageType, OrbitMessage};

verus! {

/// The host that Ableton's OSC surface listens on.
pub const ABLETON_HOST: &'static str = "127.0.0.1";

/// The port that Ableton's OSC surface listens on.
pub const ABLETON_PORT: u16 = 11000;

/// The host of Orbit's own OSC endpoint.
pub const ORBIT_OSC_HOST: &'static str = "127.0.0.1";

/// The port of Orbit's own OSC endpoint.
pub const ORBIT_OSC_PORT: u16 = 8000;

/// Routes Orbit's messages to the DAW.
#[derive(Debug)]
pub struct OrbitConnector {
    pub osc_host: String,
    pub osc_port: u16,
    ableton: Option<AbletonConnector>,
}

/// What handling a control message for `command` produces, given the
/// attached connector.
pub open spec fn control_result_holds(
    ableton: Option<AbletonConnector>,
    command: AbletonCommand,
    r: Result<OscMessage, AbletonError>,
) -> bool {
    match ableton {
        None => r == Err::<OscMessage, AbletonError>(AbletonError::NotAttached),
        Some(a) => if a.state_spec() != ConnectorState::Connected {
            r == Err::<OscMessage, AbletonError>(AbletonError::NotConnected)
        } else if !is_implemented(command) {
            r == Err::<OscMessage, AbletonError>(AbletonError::UnimplementedCommand(command))
        } else {
            r matches Ok(m) && m.addr@ == osc_path(command) && m.args@ == osc_args(command)
        },
    }
}

impl OrbitConnector {
    /// The connector attached to Ableton, if any.
    pub closed spec fn ableton_spec(&self) -> Option<AbletonConnector> {
        self.ableton
    }

    /// The host of Orbit's OSC endpoint.
    pub closed spec fn osc_host_spec(&self) -> Seq<char> {
        self.osc_host@
    }

    /// The port of Orbit's OSC endpoint.
    pub closed spec fn osc_port_spec(&self) -> u16 {
        self.osc_port
    }

    /// A connector on Orbit's OSC endpoint with no connection to Ableton.
    pub fn new() -> (r: Self)
        ensures
            r.osc_host_spec() == ORBIT_OSC_HOST@,
            r.osc_port_spec() == ORBIT_OSC_PORT,
            r.ableton_spec() is None,
    {
        OrbitConnector { osc_host: ORBIT_OSC_HOST.to_owned(), osc_port: ORBIT_OSC_PORT, ableton: None }
    }

    /// A disconnected connector towards Ableton's OSC surface.
    pub fn ableton_connector() -> (r: AbletonConnector)
        ensures
            r.host_spec() == ABLETON_HOST@,
            r.port_spec() == ABLETON_PORT,
            r.state_spec() == ConnectorState::Disconnected,
    {
        AbletonConnector::new(ABLETON_HOST, ABLETON_PORT)
    }

    /// Whether a connector to Ableton is attached.
    pub fn has_ableton(&self) -> (r: bool)
        ensures
            r == self.ableton_spec() is Some,
    {
        self.ableton.is_some()
    }

    /// Attaches a connector to Ableton, replacing any earlier one.
    pub fn attach_ableton(&mut self, ableton: AbletonConnector)
        ensures
            final(self).ableton_spec() == Some(ableton),
            final(self).osc_host_spec() == old(self).osc_host_spec(),
            final(self).osc_port_spec() == old(self).osc_port_spec(),
    {
        self.ableton = Some(ableton);
    }

    /// Detaches the connector to Ableton, disconnected, for the caller to
    /// drop its socket.
    pub fn detach_ableton(&mut self) -> (r: Option<AbletonConnector>)
        ensures
            final(self).ableton_spec() is None,
            final(self).osc_host_spec() == old(self).osc_host_spec(),
            final(self).osc_port_spec() == old(self).osc_port_spec(),
            old(self).ableton_spec() is None ==> r is None,
            old(self).ableton_spec() matches Some(a) ==> (r matches Some(b) && b.state_spec()
                == ConnectorState::Disconnected && b.host_spec() == a.host_spec() && b.port_spec()
                == a.port_spec()),
    {
        match self.ableton.take() {
            Some(mut a) => {
                a.disconnect();
                Some(a)
            },
            None => None,
        }
    }

    /// Handles a message of type `message_type` carrying `command`. Only
    /// control messages are handled; they are refused while no connector is
    /// attached, and otherwise executed by the attached one.
    pub fn handle_command(&self, message_type: MessageType, command: &AbletonCommand) -> (r: Option<
        Result<OscMessage, AbletonError>,
    >)
        ensures
            message_type != MessageType::AbletonControl ==> r is None,
            message_type == MessageType::AbletonControl ==> (r matches Some(x) && control_result_holds(
                self.ableton_spec(),
                *command,
                x,
            )),
    {
        if message_type != MessageType::AbletonControl {
            return None;
        }
        match &self.ableton {
            None => Some(Err(AbletonError::NotAttached)),
            Some(a) => Some(a.execute_command(command)),
        }
    }

    /// Handles a message. Only control messages are handled; one that
    /// carries no command is refused as invalid.
    pub fn handle_message(&self, message: &OrbitMessage) -> (r: Option<Result<OscMessage, AbletonError>>)
        ensures
            message.message_type != MessageType::AbletonControl ==> r is None,
            message.message_type == MessageType::AbletonControl && !(message.payload is AbletonControl)
                ==> r == Some(Err::<OscMessage, AbletonError>(AbletonError::InvalidRequest)),
            message.message_type == MessageType::AbletonControl && message.payload is AbletonControl ==> (r matches Some(
                x,
            ) && control_result_holds(self.ableton_spec(), message.payload->AbletonControl_0.command, x)),
    {
        if message.message_type != MessageType::AbletonControl {
            return None;
        }
        match &message.payload {
            MessagePayload::AbletonControl(req) => self.handle_command(message.message_type, &req.command),
            _ => Some(Err(AbletonError::InvalidRequest)),
        }
    }
}

impl Default for OrbitConnector {
    /// A connector on Orbit's OSC endpoint with no connection to Ableton.
    fn default() -> (r: Self)
        ensures
            r.osc_host_spec() == ORBIT_OSC_HOST@,
            r.osc_port_spec() == ORBIT_OSC_PORT,
            r.ableton_spec() is None,
    {
        OrbitConnector::new()
    }
}

} // verus!
