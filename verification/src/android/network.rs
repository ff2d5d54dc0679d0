//! What messages about the network, devices and permissions lead to.

use std::collections::HashSet;
use vstd::prelude::*;

use crate::android::messages::FromJavaMessage;
#[allow(unused_imports)]
use crate::android::messages::MessageGroup;

verus! {

/// What a permission is known to be.
#[derive(Clone, Copy, PartialEq, Eq, Structural, Debug)]
pub enum PermissionStatus {
    NotDetermined,
    Granted,
    DeniedCanRetry,
    DeniedPermanent,
}

/// The status for a number; an unknown number counts as the most restrictive one.
pub open spec fn status_of(code: i32) -> PermissionStatus {
    if code == 0 {
        PermissionStatus::NotDetermined
    } else if code == 1 {
        PermissionStatus::Granted
    } else if code == 2 {
        PermissionStatus::DeniedCanRetry
    } else {
        PermissionStatus::DeniedPermanent
    }
}

/// Reads the status of a permission.
pub fn permission_status(code: i32) -> (status: PermissionStatus)
    ensures
        status == status_of(code),
{
    match code {
        0 => PermissionStatus::NotDetermined,
        1 => PermissionStatus::Granted,
        2 => PermissionStatus::DeniedCanRetry,
        _ => PermissionStatus::DeniedPermanent,
    }
}

/// A permission counts as granted only where the number says so.
pub proof fn law_only_one_number_grants(code: i32)
    ensures
        status_of(code) == PermissionStatus::Granted <==> code == 1,
{
}

/// Something that a message about the network leads to.
pub enum NetworkAction {
    /// A response came: scripts are told, then everyone.
    HttpResponse {
        request_id: u64,
        metadata_id: u64,
        status_code: u16,
        headers: String,
        body: Vec<u8>,
    },
    /// A request failed: scripts are told, then everyone.
    HttpError { request_id: u64, metadata_id: u64, error: String },
    /// Start a parser for a socket.
    StartParser(u64),
    /// Give bytes to the parser of a socket.
    Parse { sender: u64, message: Vec<u8> },
    /// Drop the parser of a socket.
    DropParser(u64),
    /// Tell the owner of a socket that it is closed.
    SendClosed(u64),
    /// Tell the owner of a socket that it failed.
    SendError { sender: u64, error: String },
    OpenMidiDevice { name: String, midi_device: u64 },
    /// A permission, by its number, was decided.
    Permission { permission: u64, request_id: i32, status: PermissionStatus },
}

/// The sockets that have a parser.
pub struct NetworkState {
    pub parsers: HashSet<u64>,
}

/// What a message about the network leads to. `permission` is the number of the
/// permission that a message names, or nothing for a name that is not known.
pub open spec fn network_actions(
    parsers: Set<u64>,
    message: FromJavaMessage,
    permission: Option<u64>,
) -> Seq<NetworkAction> {
    match message {
        FromJavaMessage::HttpResponse { request_id, metadata_id, status_code, headers, body } => seq![
            NetworkAction::HttpResponse { request_id, metadata_id, status_code, headers, body },
        ],
        FromJavaMessage::HttpRequestError { request_id, metadata_id, error, url } => seq![
            NetworkAction::HttpError { request_id, metadata_id, error },
        ],
        FromJavaMessage::WebSocketMessage { message, sender } => if parsers.contains(sender) {
            seq![NetworkAction::Parse { sender, message }]
        } else {
            seq![NetworkAction::StartParser(sender), NetworkAction::Parse { sender, message }]
        },
        FromJavaMessage::WebSocketClosed { sender } => if parsers.contains(sender) {
            seq![NetworkAction::DropParser(sender), NetworkAction::SendClosed(sender)]
        } else {
            seq![NetworkAction::SendClosed(sender)]
        },
        FromJavaMessage::WebSocketError { error, sender } => if parsers.contains(sender) {
            seq![NetworkAction::DropParser(sender), NetworkAction::SendError { sender, error }]
        } else {
            seq![NetworkAction::SendError { sender, error }]
        },
        FromJavaMessage::MidiDeviceOpened { name, midi_device } => seq![
            NetworkAction::OpenMidiDevice { name, midi_device },
        ],
        FromJavaMessage::PermissionResult { permission: name, request_id, status } => match permission {
            Some(permission) => seq![
                NetworkAction::Permission { permission, request_id, status: status_of(status) },
            ],
            None => seq![],
        },
        _ => seq![],
    }
}

/// The sockets that have a parser after a message.
pub open spec fn parsers_after(parsers: Set<u64>, message: FromJavaMessage) -> Set<u64> {
    match message {
        FromJavaMessage::WebSocketMessage { message, sender } => parsers.insert(sender),
        FromJavaMessage::WebSocketClosed { sender } => parsers.remove(sender),
        FromJavaMessage::WebSocketError { error, sender } => parsers.remove(sender),
        _ => parsers,
    }
}

impl NetworkState {
    /// No socket has a parser.
    pub fn new() -> (state: NetworkState)
        ensures
            state.parsers@ == Set::<u64>::empty(),
    {
        broadcast use vstd::std_specs::hash::group_hash_axioms;

        NetworkState { parsers: HashSet::new() }
    }

    /// Takes a message about the network, and says what it leads to, in order.
    pub fn handle_android_network_message(
        &mut self,
        message: FromJavaMessage,
        permission: Option<u64>,
    ) -> (actions: Vec<NetworkAction>)
        requires
            message.group() == MessageGroup::Network,
        ensures
            actions@ == network_actions(old(self).parsers@, message, permission),
            final(self).parsers@ == parsers_after(old(self).parsers@, message),
    {
        broadcast use vstd::std_specs::hash::group_hash_axioms;

        let ghost wanted = network_actions(self.parsers@, message, permission);
        let mut actions: Vec<NetworkAction> = Vec::new();
        match message {
            FromJavaMessage::HttpResponse {
                request_id,
                metadata_id,
                status_code,
                headers,
                body,
            } => {
                actions.push(
                    NetworkAction::HttpResponse {
                        request_id,
                        metadata_id,
                        status_code,
                        headers,
                        body,
                    },
                );
            },
            FromJavaMessage::HttpRequestError { request_id, metadata_id, error, url: _ } => {
                actions.push(NetworkAction::HttpError { request_id, metadata_id, error });
            },
            FromJavaMessage::WebSocketMessage { message, sender } => {
                if !self.parsers.contains(&sender) {
                    actions.push(NetworkAction::StartParser(sender));
                }
                self.parsers.insert(sender);
                actions.push(NetworkAction::Parse { sender, message });
            },
            FromJavaMessage::WebSocketClosed { sender } => {
                if self.parsers.contains(&sender) {
                    actions.push(NetworkAction::DropParser(sender));
                }
                self.parsers.remove(&sender);
                actions.push(NetworkAction::SendClosed(sender));
            },
            FromJavaMessage::WebSocketError { error, sender } => {
                if self.parsers.contains(&sender) {
                    actions.push(NetworkAction::DropParser(sender));
                }
                self.parsers.remove(&sender);
                actions.push(NetworkAction::SendError { sender, error });
            },
            FromJavaMessage::MidiDeviceOpened { name, midi_device } => {
                actions.push(NetworkAction::OpenMidiDevice { name, midi_device });
            },
            FromJavaMessage::PermissionResult { permission: _, request_id, status } => {
                match permission {
                    Some(permission) => {
                        actions.push(
                            NetworkAction::Permission {
                                permission,
                                request_id,
                                status: permission_status(status),
                            },
                        );
                    },
                    None => {},
                }
            },
            _ => {},
        }
        assert(actions@ =~= wanted);
        actions
    }
}

/// What the parser of a socket found.
pub enum ParsedMessage {
    Text(String),
    Binary(Vec<u8>),
    /// Something that is no message of its own.
    Control,
    Failed,
}

/// What the owner of a socket is sent.
pub enum WebSocketMessage {
    String(String),
    Binary(Vec<u8>),
    Closed,
    Error(String),
}

/// What the owner of a socket is sent for what the parser found: messages, and nothing
/// else.
pub fn forward_websocket(parsed: ParsedMessage) -> (message: Option<WebSocketMessage>)
    ensures
        message == (match parsed {
            ParsedMessage::Text(text) => Some(WebSocketMessage::String(text)),
            ParsedMessage::Binary(data) => Some(WebSocketMessage::Binary(data)),
            _ => None,
        }),
{
    match parsed {
        ParsedMessage::Text(text) => Some(WebSocketMessage::String(text)),
        ParsedMessage::Binary(data) => Some(WebSocketMessage::Binary(data)),
        _ => None,
    }
}

/// A socket that is closed or failed has no parser left; one that sent bytes has one.
pub proof fn law_parsers_follow_sockets(parsers: Set<u64>, message: FromJavaMessage)
    ensures
        message matches FromJavaMessage::WebSocketMessage { sender, .. } ==> parsers_after(
            parsers,
            message,
        ).contains(sender),
        message matches FromJavaMessage::WebSocketClosed { sender } ==> !parsers_after(
            parsers,
            message,
        ).contains(sender),
        message matches FromJavaMessage::WebSocketError { sender, .. } ==> !parsers_after(
            parsers,
            message,
        ).contains(sender),
{
}

/// What came over the network is handed on to those it is for, with all that it carries.
pub proof fn law_network_messages_are_handed_on(
    parsers: Set<u64>,
    message: FromJavaMessage,
    permission: Option<u64>,
)
    ensures
        ({
            let actions = network_actions(parsers, message, permission);
            &&& message is HttpResponse ==> actions.len() == 1 && actions[0] is HttpResponse && {
                &&& actions[0]->HttpResponse_request_id == message->HttpResponse_request_id
                &&& actions[0]->HttpResponse_metadata_id == message->HttpResponse_metadata_id
                &&& actions[0]->status_code == message->status_code
                &&& actions[0]->headers == message->headers
                &&& actions[0]->body == message->body
            }
            &&& message is HttpRequestError ==> actions.len() == 1 && actions[0] is HttpError && {
                &&& actions[0]->HttpError_request_id == message->HttpRequestError_request_id
                &&& actions[0]->HttpError_metadata_id == message->HttpRequestError_metadata_id
                &&& actions[0]->HttpError_error == message->HttpRequestError_error
            }
            &&& message is WebSocketMessage ==> actions.len() > 0 && actions.last() is Parse && {
                &&& actions.last()->Parse_sender == message->WebSocketMessage_sender
                &&& actions.last()->Parse_message == message->WebSocketMessage_message
                &&& actions.len() == 2 <==> !parsers.contains(message->WebSocketMessage_sender)
            }
            &&& message is WebSocketClosed ==> actions.last() == NetworkAction::SendClosed(
                message->WebSocketClosed_sender,
            )
            &&& message is WebSocketError ==> actions.last() is SendError && {
                &&& actions.last()->SendError_sender == message->WebSocketError_sender
                &&& actions.last()->SendError_error == message->WebSocketError_error
            }
            &&& message is WebSocketClosed && parsers.contains(message->WebSocketClosed_sender)
                ==> actions[0] == NetworkAction::DropParser(message->WebSocketClosed_sender)
            &&& message is WebSocketError && parsers.contains(message->WebSocketError_sender)
                ==> actions[0] == NetworkAction::DropParser(message->WebSocketError_sender)
            &&& message is MidiDeviceOpened ==> actions.len() == 1 && actions[0] is OpenMidiDevice
                && actions[0]->OpenMidiDevice_name == message->MidiDeviceOpened_name
                && actions[0]->OpenMidiDevice_midi_device == message->MidiDeviceOpened_midi_device
            &&& message is PermissionResult && permission is Some ==> actions.len() == 1
                && actions[0] is Permission && actions[0]->Permission_permission == permission->0
                && actions[0]->Permission_request_id == message->PermissionResult_request_id && (
            actions[0]->Permission_status is Granted <==> message->PermissionResult_status == 1)
            &&& message is PermissionResult && permission is None ==> actions.len() == 0
        }),
{
}

/// Each status has its number, and any other number denies for good.
pub proof fn law_permission_numbers(code: i32)
    ensures
        status_of(code) is NotDetermined <==> code == 0,
        status_of(code) is Granted <==> code == 1,
        status_of(code) is DeniedCanRetry <==> code == 2,
        status_of(code) is DeniedPermanent <==> code < 0 || code > 2,
{
}

/// A socket has a parser from its first message until it closes or fails; other sockets
/// keep theirs.
pub proof fn law_parsers_live_with_their_socket(
    parsers: Set<u64>,
    message: FromJavaMessage,
    other: u64,
)
    ensures
        message is WebSocketMessage ==> parsers_after(parsers, message).contains(
            message->WebSocketMessage_sender,
        ),
        message is WebSocketClosed ==> !parsers_after(parsers, message).contains(
            message->WebSocketClosed_sender,
        ),
        message is WebSocketError ==> !parsers_after(parsers, message).contains(
            message->WebSocketError_sender,
        ),
        message is WebSocketMessage && other != message->WebSocketMessage_sender ==> parsers_after(
            parsers,
            message,
        ).contains(other) == parsers.contains(other),
        message is WebSocketClosed && other != message->WebSocketClosed_sender ==> parsers_after(
            parsers,
            message,
        ).contains(other) == parsers.contains(other),
        message is WebSocketError && other != message->WebSocketError_sender ==> parsers_after(
            parsers,
            message,
        ).contains(other) == parsers.contains(other),
        !(message is WebSocketMessage) && !(message is WebSocketClosed) && !(
        message is WebSocketError) ==> parsers_after(parsers, message) == parsers,
{
}

} // verus!
