//! Events that the client hands to the application.

use vstd::prelude::*;

use crate::jid::Jid;
use crate::message::Message;
use crate::stanza::Stanza;
use crate::peer::Chat;

verus! {

/// One or more messages deleted from a conversation.
#[derive(Clone, Debug)]
pub struct MessageDeletion {
    pub chat: Chat,
    pub message_ids: Vec<String>,
}

/// Whether a receipt confirms delivery or reading.
#[derive(Clone, Copy, Debug, PartialEq, Eq, Structural)]
pub enum ReceiptType {
    Delivered,
    Read,
}

/// Delivery or read receipt for one or more messages.
#[derive(Clone, Debug)]
pub struct Receipt {
    pub chat: Chat,
    pub message_ids: Vec<String>,
    pub receipt_type: ReceiptType,
    /// Unix timestamp (seconds) of the receipt.
    pub timestamp: u64,
}

/// A contact's online/offline presence.
#[derive(Clone, Debug)]
pub struct Presence {
    pub chat: Chat,
    pub available: bool,
    pub last_seen: Option<u64>,
}

/// A contact's chat-activity state (composing / paused).
#[derive(Clone, Debug)]
pub struct ChatPresence {
    pub chat: Chat,
    pub sender: Chat,
    pub state: ChatPresenceState,
}

/// A single synced conversation from a history-sync chunk.
#[derive(Debug)]
pub struct SyncedConversation {
    pub jid: Jid,
    pub name: Option<String>,
    pub messages: Vec<Message>,
    pub pinned: bool,
    pub archived: bool,
    pub muted: bool,
    pub unread_count: u32,
}

/// A chunk of history-sync data containing one or more conversations.
#[derive(Debug)]
pub struct HistorySyncChunk {
    pub conversations: Vec<SyncedConversation>,
    pub progress: Option<u32>,
    pub sync_type: Option<i32>,
}

/// Chat-activity state.
#[derive(Clone, Copy, Debug, PartialEq, Eq, Structural)]
pub enum ChatPresenceState {
    /// The contact is typing a message.
    Composing,
    /// The contact stopped typing.
    Paused,
}

/// A contact's profile information was updated.
#[derive(Clone, Debug)]
pub struct ContactUpdate {
    pub jid: Jid,
    pub name: Option<String>,
    pub push_name: Option<String>,
}

/// A group's metadata or participant list changed.
#[derive(Clone, Debug)]
pub struct GroupUpdate {
    pub jid: Jid,
    pub name: Option<String>,
    pub participants: Vec<Jid>,
}

/// A pairing attempt failed.
#[derive(Clone, Debug)]
pub struct PairError {
    pub id: Jid,
    pub lid: Jid,
    pub business_name: String,
    pub platform: String,
    pub error: String,
}

/// Type of unavailability for undecryptable messages.
#[derive(Clone, Copy, Debug, PartialEq, Eq, Structural)]
pub enum UnavailableType {
    Unknown,
    ViewOnce,
    Hosted,
    Bot,
}

/// How the client should handle a decrypt failure.
#[derive(Clone, Copy, Debug, PartialEq, Eq, Structural)]
pub enum DecryptFailMode {
    Show,
    Hide,
}

/// An inbound message could not be decrypted.
#[derive(Clone, Debug)]
pub struct UndecryptableMessage {
    pub sender: Option<Jid>,
    pub chat: Option<Jid>,
    pub is_unavailable: bool,
    pub unavailable_type: UnavailableType,
    pub decrypt_fail_mode: DecryptFailMode,
}

/// A contact's profile picture was updated or removed.
#[derive(Clone, Debug)]
pub struct PictureUpdate {
    pub jid: Jid,
    pub author: Option<Jid>,
    pub timestamp: u64,
    pub removed: bool,
    pub picture_id: Option<String>,
}

/// A contact's about/status text changed.
#[derive(Clone, Debug)]
pub struct UserAboutUpdate {
    pub jid: Jid,
    pub status: String,
    pub timestamp: u64,
}

/// A contact's profile changed (server notification).
#[derive(Clone, Debug)]
pub struct ContactUpdated {
    pub jid: Jid,
    pub timestamp: u64,
}

/// A contact changed their phone number.
#[derive(Clone, Debug)]
pub struct ContactNumberChanged {
    pub old_jid: Jid,
    pub new_jid: Jid,
    pub old_lid: Option<Jid>,
    pub new_lid: Option<Jid>,
    pub timestamp: u64,
}

/// Server requests a full contact re-sync.
#[derive(Clone, Debug)]
pub struct ContactSyncRequested {
    pub after: Option<u64>,
    pub timestamp: u64,
}

/// A contact changed their push name.
#[derive(Clone, Debug)]
pub struct PushNameUpdate {
    pub jid: Jid,
    pub old_push_name: String,
    pub new_push_name: String,
}

/// Our own push name was updated.
#[derive(Clone, Debug)]
pub struct SelfPushNameUpdated {
    pub from_server: bool,
    pub old_name: String,
    pub new_name: String,
}

/// Simple boolean flag update for a chat (pin/mute/archive/mark-as-read).
#[derive(Clone, Debug)]
pub struct ChatFlagUpdate {
    pub jid: Jid,
    pub timestamp: u64,
    pub on: bool,
    pub from_full_sync: bool,
}

/// A message was starred or unstarred.
#[derive(Clone, Debug)]
pub struct StarUpdate {
    pub chat_jid: Jid,
    pub participant_jid: Option<Jid>,
    pub message_id: String,
    pub from_me: bool,
    pub timestamp: u64,
    pub starred: bool,
    pub from_full_sync: bool,
}

/// A chat was deleted.
#[derive(Clone, Debug)]
pub struct DeleteChatUpdate {
    pub jid: Jid,
    pub timestamp: u64,
    pub delete_media: bool,
    pub from_full_sync: bool,
}

/// A chat's messages were cleared.
#[derive(Clone, Debug)]
pub struct ClearChatUpdate {
    pub jid: Jid,
    pub timestamp: u64,
    pub delete_starred: bool,
    pub delete_media: bool,
    pub from_full_sync: bool,
}

/// A contact/group/newsletter's status updates were muted/unmuted.
#[derive(Clone, Debug)]
pub struct UserStatusMuteUpdate {
    pub jid: Jid,
    pub muted: bool,
    pub timestamp: u64,
    pub from_full_sync: bool,
}

/// A message was deleted for me only.
#[derive(Clone, Debug)]
pub struct DeleteMessageForMeUpdate {
    pub chat_jid: Jid,
    pub participant_jid: Option<Jid>,
    pub message_id: String,
    pub from_me: bool,
    pub timestamp: u64,
    pub from_full_sync: bool,
}

/// A label was created, renamed, or deleted.
#[derive(Clone, Debug)]
pub struct LabelEditUpdate {
    pub label_id: String,
    pub timestamp: u64,
    pub deleted: bool,
    pub from_full_sync: bool,
}

/// A label was associated with or removed from a chat.
#[derive(Clone, Debug)]
pub struct LabelAssociationUpdate {
    pub label_id: String,
    pub chat_jid: Jid,
    pub timestamp: u64,
    pub labeled: bool,
    pub from_full_sync: bool,
}

/// Type of device list update.
#[derive(Clone, Copy, Debug, PartialEq, Eq, Structural)]
pub enum DeviceListUpdateType {
    Add,
    Remove,
    Update,
}

/// Device information from a device list notification.
#[derive(Clone, Copy, Debug, PartialEq, Eq, Structural)]
pub struct DeviceNotificationInfo {
    pub device_id: u32,
    pub key_index: Option<u32>,
}

/// A user's device list changed.
#[derive(Clone, Debug)]
pub struct DeviceListUpdate {
    pub user: Jid,
    pub lid_user: Option<Jid>,
    pub update_type: DeviceListUpdateType,
    pub devices: Vec<DeviceNotificationInfo>,
}

/// A user's identity key changed.
#[derive(Clone, Debug)]
pub struct IdentityChange {
    pub user: Jid,
    pub lid_user: Option<Jid>,
    pub implicit: bool,
}

/// Type of business status update.
#[derive(Clone, Copy, Debug, PartialEq, Eq, Structural)]
pub enum BusinessUpdateType {
    RemovedAsBusiness,
    VerifiedNameChanged,
    ProfileUpdated,
    ProductsUpdated,
    CollectionsUpdated,
    Unknown,
}

/// A business account's status changed.
#[derive(Clone, Debug)]
pub struct BusinessStatusUpdate {
    pub jid: Jid,
    pub update_type: BusinessUpdateType,
    pub timestamp: u64,
    pub target_jid: Option<Jid>,
    pub verified_name: Option<String>,
}

/// The account was temporarily banned.
#[derive(Clone, Copy, Debug, PartialEq, Eq, Structural)]
pub struct TemporaryBan {
    pub code: i32,
    /// Unix timestamp (seconds) when the ban expires.
    pub expire: u64,
}

/// Connection failed with a reason code.
#[derive(Clone, Debug)]
pub struct ConnectFailure {
    pub reason: ConnectFailureReason,
    pub message: String,
}

/// A stream error occurred.
#[derive(Clone, Debug)]
pub struct StreamError {
    pub code: String,
}

/// A contact changed their default disappearing messages setting.
#[derive(Clone, Debug)]
pub struct DisappearingModeChanged {
    pub from: Jid,
    pub duration: u32,
    pub setting_timestamp: u64,
}

/// A reaction count in a newsletter live update.
#[derive(Clone, Debug)]
pub struct NewsletterLiveUpdateReaction {
    pub code: String,
    pub count: u64,
}

/// A single message in a newsletter live update.
#[derive(Clone, Debug)]
pub struct NewsletterLiveUpdateMessage {
    pub server_id: u64,
    pub reactions: Vec<NewsletterLiveUpdateReaction>,
}

/// A newsletter live update (reaction counts, etc.).
#[derive(Clone, Debug)]
pub struct NewsletterLiveUpdate {
    pub newsletter_jid: Jid,
    pub messages: Vec<NewsletterLiveUpdateMessage>,
}

/// A server-pushed MEX (GraphQL) notification.
#[derive(Clone, Debug)]
pub struct MexNotification {
    pub op_name: String,
    pub from: Option<Jid>,
    pub stanza_id: Option<String>,
    pub offline: Option<String>,
}

/// Server requested a WebAuthn assertion for companion linking.
#[derive(Clone, Debug)]
pub struct PairPasskeyRequest {
    pub request_options_json: String,
}

/// Passkey linking reached verification stage.
#[derive(Clone, Debug)]
pub struct PairPasskeyConfirmation {
    pub code: String,
    pub skip_handoff_ux: bool,
}

/// Passkey linking failed.
#[derive(Clone, Debug)]
pub struct PairPasskeyError {
    pub error: String,
    pub continuation: bool,
}


/// Reason for a connection failure, decoded from the server's numeric code.
#[derive(Clone, Copy, Debug, PartialEq, Eq, Structural)]
pub enum ConnectFailureReason {
    Generic,
    LoggedOut,
    TempBanned,
    AccountLocked,
    UnknownLogout,
    ClientOutdated,
    BadUserAgent,
    CatExpired,
    CatInvalid,
    NotFound,
    ClientUnknown,
    InternalServerError,
    Experimental,
    ServiceUnavailable,
    Unknown(i32),
}

/// The reason that a server failure code stands for.
pub open spec fn reason_for_code(code: i32) -> ConnectFailureReason {
    if code == 400 { ConnectFailureReason::Generic }
    else if code == 401 { ConnectFailureReason::LoggedOut }
    else if code == 402 { ConnectFailureReason::TempBanned }
    else if code == 403 { ConnectFailureReason::AccountLocked }
    else if code == 405 { ConnectFailureReason::ClientOutdated }
    else if code == 406 { ConnectFailureReason::UnknownLogout }
    else if code == 409 { ConnectFailureReason::BadUserAgent }
    else if code == 413 { ConnectFailureReason::CatExpired }
    else if code == 414 { ConnectFailureReason::CatInvalid }
    else if code == 415 { ConnectFailureReason::NotFound }
    else if code == 418 { ConnectFailureReason::ClientUnknown }
    else if code == 500 { ConnectFailureReason::InternalServerError }
    else if code == 501 { ConnectFailureReason::Experimental }
    else if code == 503 { ConnectFailureReason::ServiceUnavailable }
    else { ConnectFailureReason::Unknown(code) }
}

/// High-level event emitted by the client to the application.
#[derive(Debug)]
pub enum Update {
    NewMessage(Message),
    MessageEdited(Message),
    MessageDeleted(MessageDeletion),
    Receipt(Receipt),
    Presence(Presence),
    ChatPresence(ChatPresence),
    Connected,
    Disconnected,
    LoggedOut,
    HistorySync(HistorySyncChunk),
    ContactUpdate(ContactUpdate),
    GroupUpdate(GroupUpdate),
    PairingQrCode { code: String, timeout: u64 },
    PairingCode { code: String, timeout: u64 },
    PairSuccess,
    HistorySyncCompleted,
    OfflineSyncPreview { count: u32 },
    OfflineSyncCompleted { count: u32 },
    PairError(PairError),
    PairingCodeRefresh { force_manual: bool },
    QrScannedWithoutMultidevice,
    ClientOutdated,
    UndecryptableMessage(UndecryptableMessage),
    PictureUpdate(PictureUpdate),
    UserAboutUpdate(UserAboutUpdate),
    ContactUpdated(ContactUpdated),
    ContactNumberChanged(ContactNumberChanged),
    ContactSyncRequested(ContactSyncRequested),
    PushNameUpdate(PushNameUpdate),
    SelfPushNameUpdated(SelfPushNameUpdated),
    PinUpdate(ChatFlagUpdate),
    MuteUpdate(ChatFlagUpdate),
    ArchiveUpdate(ChatFlagUpdate),
    StarUpdate(StarUpdate),
    MarkChatAsReadUpdate(ChatFlagUpdate),
    DeleteChatUpdate(DeleteChatUpdate),
    ClearChatUpdate(ClearChatUpdate),
    UserStatusMuteUpdate(UserStatusMuteUpdate),
    DeleteMessageForMeUpdate(DeleteMessageForMeUpdate),
    LabelEditUpdate(LabelEditUpdate),
    LabelAssociationUpdate(LabelAssociationUpdate),
    DeviceListUpdate(DeviceListUpdate),
    IdentityChange(IdentityChange),
    BusinessStatusUpdate(BusinessStatusUpdate),
    StreamReplaced,
    TemporaryBan(TemporaryBan),
    ConnectFailure(ConnectFailure),
    StreamError(StreamError),
    DisappearingModeChanged(DisappearingModeChanged),
    NewsletterLiveUpdate(NewsletterLiveUpdate),
    MexNotification(MexNotification),
    PairPasskeyRequest(PairPasskeyRequest),
    PairPasskeyConfirmation(PairPasskeyConfirmation),
    PairPasskeyError(PairPasskeyError),
    Raw(Stanza),
}

impl ConnectFailureReason {
    /// Whether this reason means the session was logged out.
    pub open spec fn spec_is_logged_out(&self) -> bool {
        self is LoggedOut || self is AccountLocked || self is UnknownLogout
    }

    pub fn from_i32(code: i32) -> (r: Self)
        ensures
            r == reason_for_code(code),
    {
        match code {
            400 => ConnectFailureReason::Generic,
            401 => ConnectFailureReason::LoggedOut,
            402 => ConnectFailureReason::TempBanned,
            403 => ConnectFailureReason::AccountLocked,
            405 => ConnectFailureReason::ClientOutdated,
            406 => ConnectFailureReason::UnknownLogout,
            409 => ConnectFailureReason::BadUserAgent,
            413 => ConnectFailureReason::CatExpired,
            414 => ConnectFailureReason::CatInvalid,
            415 => ConnectFailureReason::NotFound,
            418 => ConnectFailureReason::ClientUnknown,
            500 => ConnectFailureReason::InternalServerError,
            501 => ConnectFailureReason::Experimental,
            503 => ConnectFailureReason::ServiceUnavailable,
            _ => ConnectFailureReason::Unknown(code),
        }
    }

    #[verifier::when_used_as_spec(spec_is_logged_out)]
    pub fn is_logged_out(&self) -> (r: bool)
        ensures
            r == self.spec_is_logged_out(),
    {
        match self {
            ConnectFailureReason::LoggedOut
            | ConnectFailureReason::AccountLocked
            | ConnectFailureReason::UnknownLogout => true,
            _ => false,
        }
    }
}

/// Only the codes 401, 403 and 406 decode to a logged-out reason.
pub proof fn lemma_logged_out_codes(code: i32)
    ensures
        reason_for_code(code).spec_is_logged_out() <==> (code == 401 || code == 403 || code == 406),
{
}

} // verus!
