//! The vocabulary shared with the platform: what the service asks of it,
//! what it answers, and how a workflow can fail.

use vstd::prelude::*;
use crate::channel::GuildChannel;

verus! {

/// The custom id of the button that starts a rename.
pub const RENAME_BUTTON_ID: &'static str = "rename_button";

/// The custom id of the rename dialog.
pub const RENAME_DIALOG_ID: &'static str = "rename_title";

/// The custom id of the dialog's text field.
pub const RENAME_FIELD_ID: &'static str = "rename_text";

/// The name given to a thread when the voice channel's name cannot be read.
pub const UNKNOWN_CHANNEL_NAME: &'static str = "不明なチャンネル";

/// A message the service posts.
#[derive(Debug, Clone, PartialEq, Eq)]
pub enum Notice {
    /// `member` has joined the voice channel of this thread.
    MemberJoined { member: u64 },
    /// `member` has opened the voice channel `voice`. It mentions both, and
    /// pings nobody.
    VoiceOpened { member: u64, voice: u64 },
    /// Points the voice channel's own chat at `thread`.
    ThreadPointer { thread: u64 },
    /// Welcomes `member` to the thread of the channel called `name`, with
    /// the rename button attached.
    Welcome { member: u64, name: String },
}

/// An answer to an interaction.
#[derive(Debug, Clone, Copy, PartialEq, Eq, Structural)]
pub enum Answer {
    /// Only the invoker sees it: the voice channel is gone.
    VoiceGone,
    /// Only the invoker sees it: the invoker may not rename the channel.
    NotOwner,
    /// Opens the rename dialog with its single short text field.
    RenameDialog,
    /// Only the invoker sees it: the channel was renamed.
    Renamed,
}

/// One call to the platform.
#[derive(Debug, Clone, PartialEq, Eq)]
pub enum Request {
    GetThreadMembers { thread: u64 },
    GetChannelName { channel: u64 },
    GetChannel { channel: u64 },
    /// The effective permissions of `user` on `channel`.
    PermissionsFor { channel: u64, user: u64 },
    SendMessage { channel: u64, notice: Notice },
    /// A public thread in `channel`, attached to `message`.
    CreatePublicThread { channel: u64, message: u64, name: String },
    ArchiveThread { thread: u64 },
    RenameThread { thread: u64, name: String },
    RenameChannel { channel: u64, name: String },
    /// Answers the interaction that started the workflow.
    Respond { answer: Answer },
}

/// What the platform said to a request.
#[derive(Debug, Clone, PartialEq, Eq)]
pub enum Reply {
    /// The call failed.
    Failed,
    /// The call went through; there is nothing to report.
    Completed,
    /// The user of each thread member, where the platform names one.
    ThreadMembers(Vec<Option<u64>>),
    ChannelName(String),
    /// The channel, or `None` for one that belongs to no guild.
    Channel(Option<GuildChannel>),
    /// A permission set, as its bits.
    Permissions(u64),
    /// The id of the message that was posted.
    MessageSent(u64),
    /// The id of the thread that was created.
    ThreadCreated(u64),
}

/// The step at which a workflow failed.
#[derive(Debug, Clone, Copy, PartialEq, Eq, Structural)]
pub enum Failure {
    ChannelFetch,
    NotGuildChannel,
    ThreadMembers,
    JoinNotice,
    Announcement,
    ThreadCreation,
    ThreadPointer,
    Welcome,
    ThreadArchive,
    ThreadRename,
    Permissions,
    ErrorAnswer,
    Dialog,
    MissingInput,
    ChannelRename,
    ResultAnswer,
}

impl Notice {
    /// Only the announcement of a new voice channel is posted with user
    /// mentions switched off.
    pub open spec fn mutes_user_mentions(&self) -> bool {
        *self is VoiceOpened
    }

    /// Only the welcome carries the rename button.
    pub open spec fn has_rename_button(&self) -> bool {
        *self is Welcome
    }

    /// Tells whether the message is posted so that it pings no user.
    pub fn without_user_mentions(&self) -> (muted: bool)
        ensures
            muted == self.mutes_user_mentions(),
    {
        match self {
            Notice::VoiceOpened { .. } => true,
            _ => false,
        }
    }

    /// The custom id of the button under the message, if it has one.
    pub fn button(&self) -> (id: Option<&'static str>)
        ensures
            id.is_some() == self.has_rename_button(),
            id.is_some() ==> id.unwrap()@ == RENAME_BUTTON_ID@,
    {
        match self {
            Notice::Welcome { .. } => Some(RENAME_BUTTON_ID),
            _ => None,
        }
    }
}

impl Answer {
    /// Every answer but the dialog is a message for the invoker's eyes only.
    pub open spec fn ephemeral(&self) -> bool {
        !(*self is RenameDialog)
    }

    /// Tells whether the answer is a message that only the invoker sees.
    pub fn is_ephemeral(&self) -> (hidden: bool)
        ensures
            hidden == self.ephemeral(),
    {
        match self {
            Answer::RenameDialog => false,
            _ => true,
        }
    }
}

/// A notice with its text as a sequence of characters.
pub enum NoticeView {
    MemberJoined { member: u64 },
    VoiceOpened { member: u64, voice: u64 },
    ThreadPointer { thread: u64 },
    Welcome { member: u64, name: Seq<char> },
}

/// A request with its texts as sequences of characters.
pub enum RequestView {
    GetThreadMembers { thread: u64 },
    GetChannelName { channel: u64 },
    GetChannel { channel: u64 },
    PermissionsFor { channel: u64, user: u64 },
    SendMessage { channel: u64, notice: NoticeView },
    CreatePublicThread { channel: u64, message: u64, name: Seq<char> },
    ArchiveThread { thread: u64 },
    RenameThread { thread: u64, name: Seq<char> },
    RenameChannel { channel: u64, name: Seq<char> },
    Respond { answer: Answer },
}

/// A reply with its text and its list as sequences.
pub enum ReplyView {
    Failed,
    Completed,
    ThreadMembers(Seq<Option<u64>>),
    ChannelName(Seq<char>),
    Channel(Option<GuildChannel>),
    Permissions(u64),
    MessageSent(u64),
    ThreadCreated(u64),
}

/// The view of a text that may be missing.
pub open spec fn text_view(text: Option<String>) -> Option<Seq<char>> {
    match text {
        Some(t) => Some(t@),
        None => None,
    }
}

impl View for Notice {
    type V = NoticeView;

    open spec fn view(&self) -> NoticeView {
        match *self {
            Notice::MemberJoined { member } => NoticeView::MemberJoined { member },
            Notice::VoiceOpened { member, voice } => NoticeView::VoiceOpened { member, voice },
            Notice::ThreadPointer { thread } => NoticeView::ThreadPointer { thread },
            Notice::Welcome { member, name } => NoticeView::Welcome { member, name: name@ },
        }
    }
}

impl View for Request {
    type V = RequestView;

    open spec fn view(&self) -> RequestView {
        match *self {
            Request::GetThreadMembers { thread } => RequestView::GetThreadMembers { thread },
            Request::GetChannelName { channel } => RequestView::GetChannelName { channel },
            Request::GetChannel { channel } => RequestView::GetChannel { channel },
            Request::PermissionsFor { channel, user } => RequestView::PermissionsFor {
                channel,
                user,
            },
            Request::SendMessage { channel, notice } => RequestView::SendMessage {
                channel,
                notice: notice@,
            },
            Request::CreatePublicThread { channel, message, name } => {
                RequestView::CreatePublicThread { channel, message, name: name@ }
            },
            Request::ArchiveThread { thread } => RequestView::ArchiveThread { thread },
            Request::RenameThread { thread, name } => RequestView::RenameThread {
                thread,
                name: name@,
            },
            Request::RenameChannel { channel, name } => RequestView::RenameChannel {
                channel,
                name: name@,
            },
            Request::Respond { answer } => RequestView::Respond { answer },
        }
    }
}

impl View for Reply {
    type V = ReplyView;

    open spec fn view(&self) -> ReplyView {
        match *self {
            Reply::Failed => ReplyView::Failed,
            Reply::Completed => ReplyView::Completed,
            Reply::ThreadMembers(members) => ReplyView::ThreadMembers(members@),
            Reply::ChannelName(name) => ReplyView::ChannelName(name@),
            Reply::Channel(channel) => ReplyView::Channel(channel),
            Reply::Permissions(bits) => ReplyView::Permissions(bits),
            Reply::MessageSent(message) => ReplyView::MessageSent(message),
            Reply::ThreadCreated(thread) => ReplyView::ThreadCreated(thread),
        }
    }
}

/// Whether a permission set with these bits lets its holder manage
/// channels: the bit of value 16 is set.
pub open spec fn manages_channels(bits: u64) -> bool {
    bits & 0x10 == 0x10
}

/// Calls serenity's `Permissions::from_bits_truncate` and then
/// `Permissions::manage_channels` on the result. The set is a bit field in
/// which "manage channels" is the flag `1 << 4`; truncation only drops bits
/// that name no flag, and the method tests that the flag is contained.
#[verifier::external_body]
pub(crate) fn permits_channel_management(bits: u64) -> (yes: bool)
    ensures
        yes == manages_channels(bits),
{
    serenity::model::Permissions::from_bits_truncate(bits).manage_channels()
}

} // verus!
