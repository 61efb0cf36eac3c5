//! The text of the messages, answers and failure reports of the service.

use vstd::prelude::*;
use vstd::string::StringExecFns;
use crate::platform::{
    Answer, Failure, Notice, NoticeView, RENAME_DIALOG_ID, RENAME_FIELD_ID,
};

verus! {

/// What follows the member's mention in a join notice.
pub const JOINED_TEXT: &'static str = " さんが参加しました。";

/// What stands between the member's mention and the voice channel's in an
/// announcement.
pub const OPENED_TEXT: &'static str = " さんが新しいVCを作成しました。\nVCに参加する→ ";

/// What precedes the thread's mention in the voice channel's chat.
pub const POINTER_TEXT: &'static str = "VCチャット→ ";

/// What stands between the member's mention and the channel's name in a
/// welcome.
pub const WELCOME_OPEN: &'static str = " `";

/// What follows the channel's name in a welcome.
pub const WELCOME_TEXT: &'static str =
    "`へようこそ。\n興味を引くチャンネル名に変えてみんなを呼び込もう！";

/// The label of the rename button.
pub const RENAME_BUTTON_LABEL: &'static str = "📝チャンネル名を変える";

/// The title of the rename dialog.
pub const RENAME_DIALOG_TITLE: &'static str = "✏️チャンネル名を変える";

/// The label of the dialog's text field.
pub const RENAME_FIELD_LABEL: &'static str = "VCのテーマは？";

/// The hint shown in the empty text field.
pub const RENAME_FIELD_PLACEHOLDER: &'static str = "フォートナイト, しりとり, カラオケ,...";

/// The character of one decimal digit.
pub open spec fn digit(d: nat) -> char {
    if d == 0 {
        '0'
    } else if d == 1 {
        '1'
    } else if d == 2 {
        '2'
    } else if d == 3 {
        '3'
    } else if d == 4 {
        '4'
    } else if d == 5 {
        '5'
    } else if d == 6 {
        '6'
    } else if d == 7 {
        '7'
    } else if d == 8 {
        '8'
    } else {
        '9'
    }
}

/// A number written in decimal, without leading zeros.
pub open spec fn decimal(n: nat) -> Seq<char>
    decreases n,
{
    if n < 10 {
        seq![digit(n)]
    } else {
        decimal(n / 10).push(digit(n % 10))
    }
}

/// The mention of the user `id`, as it stands in a message.
pub open spec fn user_mention(id: u64) -> Seq<char> {
    seq!['<', '@'] + decimal(id as nat) + seq!['>']
}

/// The mention of the channel `id`, as it stands in a message.
pub open spec fn channel_mention(id: u64) -> Seq<char> {
    seq!['<', '#'] + decimal(id as nat) + seq!['>']
}

/// The text of a notice.
pub open spec fn wording(notice: NoticeView) -> Seq<char> {
    match notice {
        NoticeView::MemberJoined { member } => user_mention(member) + JOINED_TEXT@,
        NoticeView::VoiceOpened { member, voice } => user_mention(member) + OPENED_TEXT@
            + channel_mention(voice),
        NoticeView::ThreadPointer { thread } => POINTER_TEXT@ + channel_mention(thread),
        NoticeView::Welcome { member, name } => user_mention(member) + WELCOME_OPEN@ + name
            + WELCOME_TEXT@,
    }
}

/// Renders a user's mention with serenity: `mention` on a `UserId` gives a
/// `Mention::User`, and its `Display` writes `<@`, the id as a decimal
/// number and `>`.
#[verifier::external_body]
pub(crate) fn mention_user(id: u64) -> (text: String)
    ensures
        text@ == user_mention(id),
{
    serenity::model::mention::Mentionable::mention(&serenity::model::id::UserId(id)).to_string()
}

/// Renders a channel's mention with serenity: `mention` on a `ChannelId`
/// gives a `Mention::Channel`, and its `Display` writes `<#`, the id as a
/// decimal number and `>`.
#[verifier::external_body]
pub(crate) fn mention_channel(id: u64) -> (text: String)
    ensures
        text@ == channel_mention(id),
{
    serenity::model::mention::Mentionable::mention(&serenity::model::id::ChannelId(id)).to_string()
}

impl Notice {
    /// The text of the message.
    pub fn content(&self) -> (text: String)
        ensures
            text@ == wording(self@),
    {
        match self {
            Notice::MemberJoined { member } => mention_user(*member).concat(JOINED_TEXT),
            Notice::VoiceOpened { member, voice } => {
                let link = mention_channel(*voice);
                mention_user(*member).concat(OPENED_TEXT).concat(link.as_str())
            },
            Notice::ThreadPointer { thread } => {
                let link = mention_channel(*thread);
                POINTER_TEXT.to_owned().concat(link.as_str())
            },
            Notice::Welcome { member, name } => {
                mention_user(*member).concat(WELCOME_OPEN).concat(name.as_str()).concat(
                    WELCOME_TEXT,
                )
            },
        }
    }
}

/// The one text field of a dialog.
#[derive(Debug, Clone, Copy, PartialEq, Eq)]
pub struct DialogField {
    pub custom_id: &'static str,
    pub label: &'static str,
    pub placeholder: &'static str,
    /// A single line, as opposed to a paragraph.
    pub short: bool,
}

/// A dialog with one text field.
#[derive(Debug, Clone, Copy, PartialEq, Eq)]
pub struct Dialog {
    pub custom_id: &'static str,
    pub title: &'static str,
    pub field: DialogField,
}

impl Answer {
    /// The dialog that the answer opens, where it opens one: the rename
    /// dialog, with a single short text field for the new name.
    pub fn dialog(&self) -> (dialog: Option<Dialog>)
        ensures
            dialog.is_some() == (*self is RenameDialog),
            dialog.is_some() ==> {
                &&& dialog.unwrap().custom_id@ == RENAME_DIALOG_ID@
                &&& dialog.unwrap().title@ == RENAME_DIALOG_TITLE@
                &&& dialog.unwrap().field.custom_id@ == RENAME_FIELD_ID@
                &&& dialog.unwrap().field.label@ == RENAME_FIELD_LABEL@
                &&& dialog.unwrap().field.placeholder@ == RENAME_FIELD_PLACEHOLDER@
                &&& dialog.unwrap().field.short
            },
    {
        match self {
            Answer::RenameDialog => Some(
                Dialog {
                    custom_id: RENAME_DIALOG_ID,
                    title: RENAME_DIALOG_TITLE,
                    field: DialogField {
                        custom_id: RENAME_FIELD_ID,
                        label: RENAME_FIELD_LABEL,
                        placeholder: RENAME_FIELD_PLACEHOLDER,
                        short: true,
                    },
                },
            ),
            _ => None,
        }
    }

    /// The text of an answer that is a message; the dialog has none.
    pub open spec fn text(&self) -> Option<Seq<char>> {
        match *self {
            Answer::VoiceGone => Some("❌そのVCは既に解散しています"@),
            Answer::NotOwner => Some("❌VCのオーナーのみが名前を変更できます"@),
            Answer::Renamed => Some("✅名前を変更しました"@),
            Answer::RenameDialog => None,
        }
    }

    /// The text of the answer, where it is a message.
    pub fn content(&self) -> (text: Option<&'static str>)
        ensures
            text.is_some() == self.text().is_some(),
            text.is_some() ==> text.unwrap()@ == self.text().unwrap(),
            text.is_some() == self.ephemeral(),
    {
        match self {
            Answer::VoiceGone => Some("❌そのVCは既に解散しています"),
            Answer::NotOwner => Some("❌VCのオーナーのみが名前を変更できます"),
            Answer::Renamed => Some("✅名前を変更しました"),
            Answer::RenameDialog => None,
        }
    }
}

impl Failure {
    /// What went wrong, in words.
    pub open spec fn context(&self) -> Seq<char> {
        match *self {
            Failure::ChannelFetch => "チャンネル取得失敗"@,
            Failure::NotGuildChannel => "チャンネルが存在しません"@,
            Failure::ThreadMembers => "スレッドメンバーの取得に失敗"@,
            Failure::JoinNotice => "参加メッセージの送信に失敗"@,
            Failure::Announcement => "作成メッセージの送信に失敗"@,
            Failure::ThreadCreation => "スレッドの作成に失敗"@,
            Failure::ThreadPointer => "VCチャットの案内メッセージ作成に失敗"@,
            Failure::Welcome => "参加メッセージの作成に失敗"@,
            Failure::ThreadArchive => "スレッドのアーカイブに失敗"@,
            Failure::ThreadRename => "スレッドのリネームに失敗"@,
            Failure::Permissions => "VCチャンネルのパーミッション取得に失敗"@,
            Failure::ErrorAnswer => "エラー内容の応答に失敗"@,
            Failure::Dialog => "ダイアログの作成に失敗"@,
            Failure::MissingInput => "コンポーネントが見つかりません"@,
            Failure::ChannelRename => "VC名前変更に失敗"@,
            Failure::ResultAnswer => "結果の応答に失敗"@,
        }
    }

    /// Describes the failure for a log or a report.
    pub fn describe(&self) -> (text: &'static str)
        ensures
            text@ == self.context(),
    {
        match self {
            Failure::ChannelFetch => "チャンネル取得失敗",
            Failure::NotGuildChannel => "チャンネルが存在しません",
            Failure::ThreadMembers => "スレッドメンバーの取得に失敗",
            Failure::JoinNotice => "参加メッセージの送信に失敗",
            Failure::Announcement => "作成メッセージの送信に失敗",
            Failure::ThreadCreation => "スレッドの作成に失敗",
            Failure::ThreadPointer => "VCチャットの案内メッセージ作成に失敗",
            Failure::Welcome => "参加メッセージの作成に失敗",
            Failure::ThreadArchive => "スレッドのアーカイブに失敗",
            Failure::ThreadRename => "スレッドのリネームに失敗",
            Failure::Permissions => "VCチャンネルのパーミッション取得に失敗",
            Failure::ErrorAnswer => "エラー内容の応答に失敗",
            Failure::Dialog => "ダイアログの作成に失敗",
            Failure::MissingInput => "コンポーネントが見つかりません",
            Failure::ChannelRename => "VC名前変更に失敗",
            Failure::ResultAnswer => "結果の応答に失敗",
        }
    }
}

} // verus!
