//! The client: which frames it sends, and what it remembers of them.
//!
//! The client holds the transport and never uses it. Each operation returns
//! the bytes that are to be written in full, and where the client's state
//! depends on the outcome of the writing, a second operation takes that
//! outcome. A client without a transport refuses every operation with
//! [`ClientError::NotConnected`], but for closing, which then does nothing.

use crate::ipc::error::ClientError;
use crate::ipc::reader::FrameReader;
use crate::ipc::utils::{checked_frame, frame, frame_of, header, header_bytes, payload_view};
use crate::util::text::{decimal, decimal_text, lemma_decimal_is_ascii, lemma_decimal_len_u64};
use vstd::prelude::*;
use vstd::string::*;
use vstd::utf8::*;

verus! {

/// The opcode of the frame that opens a conversation.
pub const OPCODE_HANDSHAKE: u32 = 0;

/// The opcode of the frame that announces an activity, or takes it back.
pub const OPCODE_FRAME: u32 = 1;

/// The opcode of the frame that ends a conversation.
pub const OPCODE_CLOSE: u32 = 2;

/// An activity as it is announced: its serialized text. Two activities are
/// the same where their texts are.
#[derive(Debug, Clone, PartialEq, Eq)]
pub struct ActivityPayload {
    pub text: String,
}

impl View for ActivityPayload {
    type V = Seq<char>;

    open spec fn view(&self) -> Seq<char> {
        self.text@
    }
}

impl ActivityPayload {
    /// The activity with the serialized text `text`.
    pub fn new(text: String) -> (payload: ActivityPayload)
        ensures
            payload@ == text@,
    {
        ActivityPayload { text }
    }

    /// Whether `other` is the same activity.
    pub fn same_as(&self, other: &ActivityPayload) -> (same: bool)
        ensures
            same == (self@ == other@),
    {
        self.text == other.text
    }

    /// The bytes that announce the activity.
    pub fn as_bytes(&self) -> (bytes: &[u8])
        ensures
            bytes@ == encode_utf8(self@),
    {
        self.text.as_str().as_bytes()
    }
}

/// The text of the payload that opens a conversation for the client
/// `client_id`.
pub open spec fn handshake_text(client_id: u64) -> Seq<char> {
    "{\"v\": 1,\"client_id\":\""@ + decimal(client_id as nat) + "\"}"@
}

/// The payload that opens a conversation for the client `client_id`.
pub open spec fn handshake_payload(client_id: u64) -> Seq<u8> {
    encode_utf8(handshake_text(client_id))
}

/// The text of the payload that opens a conversation for the client
/// `client_id`: the version of the protocol, and the client's identifier in
/// base ten as a string.
pub fn handshake_message(client_id: u64) -> (text: String)
    ensures
        text@ == handshake_text(client_id),
{
    let mut text = "{\"v\": 1,\"client_id\":\"".to_owned();
    text.append(decimal_text(client_id).as_str());
    text.append("\"}");
    text
}

/// The payload that opens a conversation is short and written in ASCII: it
/// has as many bytes as characters, and a header can state its length.
pub proof fn lemma_handshake_payload_fits(client_id: u64)
    ensures
        handshake_payload(client_id).len() == handshake_text(client_id).len(),
        handshake_payload(client_id).len() <= 44,
{
    reveal_strlit("{\"v\": 1,\"client_id\":\"");
    reveal_strlit("\"}");
    lemma_decimal_len_u64(client_id);
    lemma_decimal_is_ascii(client_id as nat);
    is_ascii_chars_encode_utf8(handshake_text(client_id));
}

/// What a client holds: its identifier, the transport while it is connected,
/// and the text of the activity that it announced last.
pub struct ClientView<T> {
    pub client_id: u64,
    pub transport: Option<T>,
    pub last_activity: Option<Seq<char>>,
}

/// A client of the daemon. `T` is the transport, which the client owns from
/// the connection to the closing.
pub struct IpcClient<T> {
    client_id: u64,
    transport: Option<T>,
    last_activity: Option<ActivityPayload>,
}

/// An activity that is being announced: the frame that announces it is to be
/// written, and the outcome handed to [`IpcClient::finish_update`].
pub struct Announcement {
    activity: ActivityPayload,
    frame: Vec<u8>,
}

/// What an [`Announcement`] holds: the text of the activity, and the frame.
pub struct AnnouncementView {
    pub activity: Seq<char>,
    pub frame: Seq<u8>,
}

impl View for Announcement {
    type V = AnnouncementView;

    closed spec fn view(&self) -> AnnouncementView {
        AnnouncementView { activity: self.activity@, frame: self.frame@ }
    }
}

/// Whether the frame of an announcement is the one that holds its activity.
pub open spec fn is_announcement(announcement: AnnouncementView) -> bool {
    checked_frame(OPCODE_FRAME, encode_utf8(announcement.activity)) == Some(announcement.frame)
}

impl Announcement {
    #[verifier::type_invariant]
    spec fn holds_its_activity(self) -> bool {
        is_announcement(self@)
    }

    /// The frame that is to be written in full: the one that holds the
    /// activity.
    pub fn frame(&self) -> (bytes: &Vec<u8>)
        ensures
            bytes@ == self@.frame,
            is_announcement(self@),
    {
        proof {
            use_type_invariant(self);
        }
        &self.frame
    }

    /// The activity that is announced.
    pub fn activity(&self) -> (activity: &ActivityPayload)
        ensures
            activity@ == self@.activity,
    {
        &self.activity
    }
}

/// The bytes of a frame that was made, or the error.
pub open spec fn frame_view(made: Result<Vec<u8>, ClientError>) -> Result<Seq<u8>, ClientError> {
    match made {
        Ok(bytes) => Ok(bytes@),
        Err(error) => Err(error),
    }
}

/// What an announcement that was planned holds, or the error.
pub open spec fn plan_view(planned: Result<Option<Announcement>, ClientError>) -> Result<
    Option<AnnouncementView>,
    ClientError,
> {
    match planned {
        Ok(Some(announcement)) => Ok(Some(announcement@)),
        Ok(None) => Ok(None),
        Err(error) => Err(error),
    }
}

/// The frame that a client writes for the given opcode and payload: none
/// without a transport, and none for a payload that is too long.
pub open spec fn written<T>(client: ClientView<T>, opcode: u32, payload: Seq<u8>) -> Result<
    Seq<u8>,
    ClientError,
> {
    if client.transport is None {
        Err(ClientError::NotConnected)
    } else {
        match checked_frame(opcode, payload) {
            Some(bytes) => Ok(bytes),
            None => Err(ClientError::PayloadTooLarge),
        }
    }
}

/// What a client does to announce `activity`: nothing where it announced the
/// same activity last, and else it writes the frame that holds the activity.
pub open spec fn announced<T>(client: ClientView<T>, activity: Seq<char>) -> Result<
    Option<AnnouncementView>,
    ClientError,
> {
    if client.transport is None {
        Err(ClientError::NotConnected)
    } else if client.last_activity == Some(activity) {
        Ok(None)
    } else {
        match checked_frame(OPCODE_FRAME, encode_utf8(activity)) {
            Some(bytes) => Ok(Some(AnnouncementView { activity: activity, frame: bytes })),
            None => Err(ClientError::PayloadTooLarge),
        }
    }
}

/// The client after the frame of `announcement` was written, or was not: it
/// remembers the activity only where the frame was delivered.
pub open spec fn finished<T>(
    client: ClientView<T>,
    announcement: AnnouncementView,
    delivered: bool,
) -> ClientView<T> {
    if delivered {
        ClientView { last_activity: Some(announcement.activity), ..client }
    } else {
        client
    }
}

/// The client after closing: it holds no transport.
pub open spec fn closed<T>(client: ClientView<T>) -> ClientView<T> {
    ClientView { transport: None, ..client }
}

/// What closing hands out: the transport with the frame that ends the
/// conversation, where the client held a transport, and else nothing.
pub open spec fn released<T>(client: ClientView<T>) -> Option<(T, Seq<u8>)> {
    match client.transport {
        Some(transport) => Some((transport, header(OPCODE_CLOSE, 0))),
        None => None,
    }
}

/// What closing handed out: the transport and the bytes of the frame.
pub open spec fn release_view<T>(handed: Option<(T, Vec<u8>)>) -> Option<(T, Seq<u8>)> {
    match handed {
        Some((transport, bytes)) => Some((transport, bytes@)),
        None => None,
    }
}

impl<T> View for IpcClient<T> {
    type V = ClientView<T>;

    closed spec fn view(&self) -> ClientView<T> {
        ClientView {
            client_id: self.client_id,
            transport: self.transport,
            last_activity: match self.last_activity {
                Some(activity) => Some(activity@),
                None => None,
            },
        }
    }
}

impl<T> IpcClient<T> {
    /// The client that a connection gives: it holds `transport`, and has
    /// announced nothing yet.
    pub fn new(client_id: u64, transport: T) -> (client: IpcClient<T>)
        ensures
            client@ == (ClientView {
                client_id: client_id,
                transport: Some(transport),
                last_activity: None,
            }),
    {
        IpcClient { client_id: client_id, transport: Some(transport), last_activity: None }
    }

    /// The client's identifier.
    pub fn client_id(&self) -> (client_id: u64)
        ensures
            client_id == self@.client_id,
    {
        self.client_id
    }

    /// Whether the client holds a transport.
    pub fn is_connected(&self) -> (connected: bool)
        ensures
            connected == self@.transport is Some,
    {
        self.transport.is_some()
    }

    /// The activity that the client announced last.
    pub fn last_activity(&self) -> (activity: Option<&ActivityPayload>)
        ensures
            match activity {
                Some(a) => self@.last_activity == Some(a@),
                None => self@.last_activity is None,
            },
    {
        self.last_activity.as_ref()
    }

    /// The transport, for the caller to write to and read from.
    pub fn transport(&self) -> (transport: Option<&T>)
        ensures
            match transport {
                Some(t) => self@.transport == Some(*t),
                None => self@.transport is None,
            },
    {
        self.transport.as_ref()
    }

    /// The transport, for the caller to write to and read from. What the
    /// caller does with it changes nothing else of the client.
    pub fn transport_mut(&mut self) -> (transport: Option<&mut T>)
        ensures
            match transport {
                Some(t) => old(self)@.transport == Some(*t) && final(self)@ == (ClientView {
                    transport: Some(*final(t)),
                    ..old(self)@
                }),
                None => old(self)@.transport is None && final(self)@ == old(self)@,
            },
    {
        self.transport.as_mut()
    }

    /// A reader for the next frame that the daemon sends.
    pub fn read(&self) -> (reader: Result<FrameReader, ClientError>)
        ensures
            match reader {
                Ok(r) => self@.transport is Some && r@ is None,
                Err(error) => self@.transport is None && error == ClientError::NotConnected,
            },
    {
        if self.transport.is_none() {
            return Err(ClientError::NotConnected);
        }
        Ok(FrameReader::new())
    }

    /// The frame with the given opcode and payload, to be written in full.
    pub fn write(&self, opcode: u32, payload: Option<&[u8]>) -> (bytes: Result<Vec<u8>, ClientError>)
        ensures
            frame_view(bytes) == written(self@, opcode, payload_view(payload)),
    {
        if self.transport.is_none() {
            return Err(ClientError::NotConnected);
        }
        match frame_of(opcode, payload) {
            Some(bytes) => Ok(bytes),
            None => Err(ClientError::PayloadTooLarge),
        }
    }

    /// The frame that opens the conversation, to be written in full before
    /// any other. A client that holds a transport always gets it.
    pub fn handshake(&self) -> (bytes: Result<Vec<u8>, ClientError>)
        ensures
            frame_view(bytes) == written(
                self@,
                OPCODE_HANDSHAKE,
                handshake_payload(self@.client_id),
            ),
            self@.transport is Some ==> frame_view(bytes) == Ok::<Seq<u8>, ClientError>(
                frame(OPCODE_HANDSHAKE, handshake_payload(self@.client_id)),
            ),
    {
        proof {
            lemma_handshake_payload_fits(self.client_id);
        }
        let text = handshake_message(self.client_id);
        self.write(OPCODE_HANDSHAKE, Some(text.as_str().as_bytes()))
    }

    /// What is to be done to announce `new_activity`: nothing where the client
    /// announced the same activity last, and else the frame that holds it is
    /// to be written in full, and the outcome handed to
    /// [`IpcClient::finish_update`].
    pub fn update(&self, new_activity: ActivityPayload) -> (planned: Result<
        Option<Announcement>,
        ClientError,
    >)
        ensures
            plan_view(planned) == announced(self@, new_activity@),
    {
        if self.transport.is_none() {
            return Err(ClientError::NotConnected);
        }
        let known = match &self.last_activity {
            Some(last) => last.same_as(&new_activity),
            None => false,
        };
        if known {
            return Ok(None);
        }
        match frame_of(OPCODE_FRAME, Some(new_activity.as_bytes())) {
            Some(bytes) => Ok(Some(Announcement { activity: new_activity, frame: bytes })),
            None => Err(ClientError::PayloadTooLarge),
        }
    }

    /// Takes the outcome of writing the frame of `announcement`: where it was
    /// delivered, the client remembers the activity; where it was not, the
    /// client is as it was, and the failure is returned.
    pub fn finish_update(&mut self, announcement: Announcement, delivered: bool) -> (outcome: Result<
        (),
        ClientError,
    >)
        ensures
            final(self)@ == finished(old(self)@, announcement@, delivered),
            outcome == if delivered {
                Ok::<(), ClientError>(())
            } else {
                Err::<(), ClientError>(ClientError::Transport)
            },
    {
        if delivered {
            self.last_activity = Some(announcement.activity);
            Ok(())
        } else {
            Err(ClientError::Transport)
        }
    }

    /// The frame that takes the announced activity back, to be written in
    /// full: a frame without payload. The client still remembers the activity
    /// that it announced last.
    pub fn clear(&self) -> (bytes: Result<Vec<u8>, ClientError>)
        ensures
            frame_view(bytes) == written(self@, OPCODE_FRAME, Seq::<u8>::empty()),
    {
        self.write(OPCODE_FRAME, None)
    }

    /// Closes the client. Where it holds a transport, it hands the transport
    /// out with the frame that ends the conversation: the frame is to be
    /// written in full and flushed, and the transport released. The client
    /// holds no transport afterwards, however the writing ends. Where it holds
    /// none, nothing is handed out and nothing changes.
    pub fn close(&mut self) -> (handed: Option<(T, Vec<u8>)>)
        ensures
            release_view(handed) == released(old(self)@),
            final(self)@ == closed(old(self)@),
    {
        match self.transport.take() {
            Some(transport) => Some((transport, header_bytes(OPCODE_CLOSE, 0))),
            None => None,
        }
    }
}

/// A client announces an activity where it differs from the one that it
/// delivered last, and only there. So an activity that is announced twice in
/// a row is written once; a different one after it is written; and the first
/// one after that is written again, since the client remembers the last
/// activity alone.
pub proof fn lemma_update_after_delivery<T>(
    client: ClientView<T>,
    delivered: AnnouncementView,
    next: Seq<char>,
)
    requires
        client.transport is Some,
    ensures
        announced(finished(client, delivered, true), next) == Ok::<
            Option<AnnouncementView>,
            ClientError,
        >(None) <==> next == delivered.activity,
        next != delivered.activity && encode_utf8(next).len() <= u32::MAX ==> announced(
            finished(client, delivered, true),
            next,
        ) == Ok::<Option<AnnouncementView>, ClientError>(
            Some(
                AnnouncementView {
                    activity: next,
                    frame: frame(OPCODE_FRAME, encode_utf8(next)),
                },
            ),
        ),
{
}

/// A frame that was not delivered changes nothing: the client announces
/// afterwards what it would have announced before.
pub proof fn lemma_update_after_failure<T>(
    client: ClientView<T>,
    failed: AnnouncementView,
    next: Seq<char>,
)
    ensures
        announced(finished(client, failed, false), next) == announced(client, next),
{
}

/// Closing twice is closing once: a client that was closed hands nothing
/// out, so the frame that ends the conversation is not sent again, and the
/// client stays as it is.
pub proof fn lemma_close_is_idempotent<T>(client: ClientView<T>)
    ensures
        released(closed(client)) is None,
        closed(closed(client)) == closed(client),
{
}

/// A client that was closed refuses to write and to announce.
pub proof fn lemma_closed_client_refuses<T>(
    client: ClientView<T>,
    opcode: u32,
    payload: Seq<u8>,
    activity: Seq<char>,
)
    ensures
        written(closed(client), opcode, payload) == Err::<Seq<u8>, ClientError>(
            ClientError::NotConnected,
        ),
        announced(closed(client), activity) == Err::<Option<AnnouncementView>, ClientError>(
            ClientError::NotConnected,
        ),
{
}

} // verus!
