use vc_thread_link::platform::{Answer, Failure, Notice};
use vc_thread_link::wording::{
    JOINED_TEXT, OPENED_TEXT, POINTER_TEXT, RENAME_BUTTON_LABEL, RENAME_DIALOG_TITLE,
    RENAME_FIELD_LABEL, RENAME_FIELD_PLACEHOLDER, WELCOME_OPEN, WELCOME_TEXT,
};

#[test]
fn join_notice_mentions_the_member() {
    let notice = Notice::MemberJoined { member: 31 };
    assert_eq!(notice.content(), "<@31> さんが参加しました。");
}

#[test]
fn announcement_mentions_member_and_voice_channel() {
    let notice = Notice::VoiceOpened { member: 31, voice: 11 };
    assert_eq!(
        notice.content(),
        "<@31> さんが新しいVCを作成しました。\nVCに参加する→ <#11>"
    );
    assert!(notice.without_user_mentions());
}

#[test]
fn pointer_mentions_the_thread() {
    let notice = Notice::ThreadPointer { thread: 1000 };
    assert_eq!(notice.content(), "VCチャット→ <#1000>");
}

#[test]
fn welcome_names_member_and_channel() {
    let notice = Notice::Welcome { member: 9, name: "Lobby".to_string() };
    assert_eq!(
        notice.content(),
        "<@9> `Lobby`へようこそ。\n興味を引くチャンネル名に変えてみんなを呼び込もう！"
    );
    let unnamed = Notice::Welcome { member: 9, name: String::new() };
    assert_eq!(
        unnamed.content(),
        "<@9> ``へようこそ。\n興味を引くチャンネル名に変えてみんなを呼び込もう！"
    );
}

#[test]
fn mentions_write_ids_in_decimal() {
    assert_eq!(Notice::MemberJoined { member: 0 }.content(), format!("<@0>{}", JOINED_TEXT));
    assert_eq!(Notice::MemberJoined { member: 10 }.content(), format!("<@10>{}", JOINED_TEXT));
    assert_eq!(
        Notice::MemberJoined { member: u64::MAX }.content(),
        format!("<@18446744073709551615>{}", JOINED_TEXT)
    );
    assert_eq!(
        Notice::ThreadPointer { thread: u64::MAX }.content(),
        format!("{}<#18446744073709551615>", POINTER_TEXT)
    );
    assert_eq!(
        Notice::VoiceOpened { member: 1234567890, voice: 9876543210 }.content(),
        format!("<@1234567890>{}<#9876543210>", OPENED_TEXT)
    );
    assert_eq!(
        Notice::Welcome { member: 105, name: "a`b".to_string() }.content(),
        format!("<@105>{}a`b{}", WELCOME_OPEN, WELCOME_TEXT)
    );
}

#[test]
fn answers_have_their_texts() {
    assert_eq!(Answer::VoiceGone.content(), Some("❌そのVCは既に解散しています"));
    assert_eq!(Answer::NotOwner.content(), Some("❌VCのオーナーのみが名前を変更できます"));
    assert_eq!(Answer::Renamed.content(), Some("✅名前を変更しました"));
    assert_eq!(Answer::RenameDialog.content(), None);
}

#[test]
fn failures_are_described() {
    let all = [
        (Failure::ChannelFetch, "チャンネル取得失敗"),
        (Failure::NotGuildChannel, "チャンネルが存在しません"),
        (Failure::ThreadMembers, "スレッドメンバーの取得に失敗"),
        (Failure::JoinNotice, "参加メッセージの送信に失敗"),
        (Failure::Announcement, "作成メッセージの送信に失敗"),
        (Failure::ThreadCreation, "スレッドの作成に失敗"),
        (Failure::ThreadPointer, "VCチャットの案内メッセージ作成に失敗"),
        (Failure::Welcome, "参加メッセージの作成に失敗"),
        (Failure::ThreadArchive, "スレッドのアーカイブに失敗"),
        (Failure::ThreadRename, "スレッドのリネームに失敗"),
        (Failure::Permissions, "VCチャンネルのパーミッション取得に失敗"),
        (Failure::ErrorAnswer, "エラー内容の応答に失敗"),
        (Failure::Dialog, "ダイアログの作成に失敗"),
        (Failure::MissingInput, "コンポーネントが見つかりません"),
        (Failure::ChannelRename, "VC名前変更に失敗"),
        (Failure::ResultAnswer, "結果の応答に失敗"),
    ];
    for (failure, text) in all {
        assert_eq!(failure.describe(), text);
    }
}

#[test]
fn button_and_dialog_have_their_labels() {
    assert_eq!(RENAME_BUTTON_LABEL, "📝チャンネル名を変える");
    assert_eq!(RENAME_DIALOG_TITLE, "✏️チャンネル名を変える");
    assert_eq!(RENAME_FIELD_LABEL, "VCのテーマは？");
    assert_eq!(RENAME_FIELD_PLACEHOLDER, "フォートナイト, しりとり, カラオケ,...");
}

#[test]
fn only_the_dialog_answer_opens_a_dialog() {
    assert_eq!(Answer::VoiceGone.dialog(), None);
    assert_eq!(Answer::NotOwner.dialog(), None);
    assert_eq!(Answer::Renamed.dialog(), None);
    let dialog = Answer::RenameDialog.dialog().unwrap();
    assert_eq!(dialog.custom_id, "rename_title");
    assert_eq!(dialog.title, "✏️チャンネル名を変える");
    assert_eq!(dialog.field.custom_id, "rename_text");
    assert_eq!(dialog.field.label, "VCのテーマは？");
    assert_eq!(dialog.field.placeholder, "フォートナイト, しりとり, カラオケ,...");
    assert!(dialog.field.short);
}
