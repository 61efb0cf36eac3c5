use vc_thread_link::app_config::{AppConfig, DiscordConfig};
use vc_thread_link::channel::{ChannelType, GuildChannel};
use vc_thread_link::event_handler::Handler;
use vc_thread_link::interaction::{ActionRow, ActionRowComponent, Interaction};
use vc_thread_link::platform::{Answer, Failure, Notice, Reply, Request};
use vc_thread_link::workflow::{Pending, Step};

const CATEGORY: u64 = 100;
const ANNOUNCEMENTS: u64 = 200;
const V1: u64 = 11;
const T1: u64 = 21;
const M1: u64 = 31;
const M2: u64 = 32;
const MANAGE_CHANNELS: u64 = 1 << 4;

fn handler() -> Handler {
    let discord = DiscordConfig {
        vc_category: CATEGORY,
        thread_channel: ANNOUNCEMENTS,
        vc_ignored_channels: vec![7],
    };
    Handler::new(AppConfig { discord }).unwrap()
}

fn voice_channel(id: u64) -> GuildChannel {
    GuildChannel { id, kind: ChannelType::Voice, parent_id: Some(CATEGORY) }
}

/// Feeds `replies` to the workflow that starts at `step` and returns the
/// requests it made with the step it ended at.
fn drive(handler: &mut Handler, step: Step, replies: Vec<Reply>) -> (Vec<Request>, Step) {
    let mut requests = Vec::new();
    let mut step = step;
    let mut replies = replies.into_iter();
    loop {
        match step {
            Step::Call { request, pending } => {
                requests.push(request.clone());
                match replies.next() {
                    Some(reply) => step = handler.resume(pending, reply),
                    None => return (requests, Step::Call { request, pending }),
                }
            },
            other => return (requests, other),
        }
    }
}

/// A handler in which `V1` is linked to `T1`.
fn linked_handler() -> Handler {
    let mut handler = handler();
    let step = handler.resume(Pending::OpenWelcome { voice: V1, thread: T1 }, Reply::MessageSent(1));
    assert_eq!(step, Step::Finished);
    handler
}

fn button(custom_id: &str, channel_id: u64, user: u64) -> Interaction {
    Interaction::MessageComponent { custom_id: custom_id.to_string(), channel_id, user }
}

fn modal(custom_id: &str, channel_id: u64, user: u64, field: &str, value: &str) -> Interaction {
    let input = ActionRowComponent::InputText {
        custom_id: field.to_string(),
        value: value.to_string(),
    };
    Interaction::ModalSubmit {
        custom_id: custom_id.to_string(),
        channel_id,
        user,
        components: vec![ActionRow { components: vec![input] }],
    }
}

#[test]
fn new_handler_has_no_links() {
    let handler = handler();
    assert_eq!(handler.get_thread(V1), None);
    assert_eq!(handler.get_vc(T1), None);
}

#[test]
fn handler_classifies_channels() {
    let handler = handler();
    assert!(handler.is_custom_vc(&voice_channel(V1)));
    assert!(!handler.is_custom_vc(&voice_channel(7)));
    assert!(!handler.is_custom_vc(&GuildChannel {
        id: V1,
        kind: ChannelType::Text,
        parent_id: Some(CATEGORY)
    }));
    assert!(!handler.is_custom_vc(&GuildChannel {
        id: V1,
        kind: ChannelType::Voice,
        parent_id: None
    }));
    assert!(!handler.is_custom_vc(&GuildChannel {
        id: V1,
        kind: ChannelType::Voice,
        parent_id: Some(CATEGORY + 1)
    }));
}

#[test]
fn first_join_opens_a_thread_and_links_it() {
    let mut handler = handler();
    let start = handler.voice_state_update(Some(V1), Some(M1));
    let replies = vec![
        Reply::Channel(Some(voice_channel(V1))),
        Reply::ChannelName("Lobby".to_string()),
        Reply::MessageSent(500),
        Reply::ThreadCreated(T1),
        Reply::MessageSent(501),
        Reply::MessageSent(502),
    ];
    let (requests, end) = drive(&mut handler, start, replies);
    assert_eq!(end, Step::Finished);
    assert_eq!(
        requests,
        vec![
            Request::GetChannel { channel: V1 },
            Request::GetChannelName { channel: V1 },
            Request::SendMessage {
                channel: ANNOUNCEMENTS,
                notice: Notice::VoiceOpened { member: M1, voice: V1 },
            },
            Request::CreatePublicThread {
                channel: ANNOUNCEMENTS,
                message: 500,
                name: "Lobby".to_string(),
            },
            Request::SendMessage { channel: V1, notice: Notice::ThreadPointer { thread: T1 } },
            Request::SendMessage {
                channel: T1,
                notice: Notice::Welcome { member: M1, name: "Lobby".to_string() },
            },
        ]
    );
    match &requests[2] {
        Request::SendMessage { notice, .. } => {
            assert!(notice.content().contains("<@31>"));
            assert!(notice.content().contains("<#11>"));
            assert!(notice.without_user_mentions());
        },
        _ => unreachable!(),
    }
    match &requests[5] {
        Request::SendMessage { notice, .. } => assert_eq!(notice.button(), Some("rename_button")),
        _ => unreachable!(),
    }
    assert_eq!(handler.get_thread(V1), Some(T1));
    assert_eq!(handler.get_vc(T1), Some(V1));
}

#[test]
fn link_is_recorded_only_after_the_welcome() {
    let mut handler = handler();
    let start = handler.create_or_mention_thread(V1, M1);
    let replies = vec![
        Reply::ChannelName("Lobby".to_string()),
        Reply::MessageSent(500),
        Reply::ThreadCreated(T1),
        Reply::MessageSent(501),
    ];
    let (requests, end) = drive(&mut handler, start, replies);
    assert_eq!(requests.len(), 5);
    assert!(matches!(end, Step::Call { pending: Pending::OpenWelcome { voice: V1, thread: T1 }, .. }));
    assert_eq!(handler.get_thread(V1), None);
    assert_eq!(handler.get_vc(T1), None);
}

#[test]
fn later_join_of_a_new_member_posts_one_notice() {
    let mut handler = linked_handler();
    let start = handler.voice_state_update(Some(V1), Some(M2));
    let replies = vec![
        Reply::Channel(Some(voice_channel(V1))),
        Reply::ThreadMembers(vec![Some(M1), None]),
        Reply::MessageSent(600),
    ];
    let (requests, end) = drive(&mut handler, start, replies);
    assert_eq!(end, Step::Finished);
    assert_eq!(
        requests,
        vec![
            Request::GetChannel { channel: V1 },
            Request::GetThreadMembers { thread: T1 },
            Request::SendMessage { channel: T1, notice: Notice::MemberJoined { member: M2 } },
        ]
    );
    assert_eq!(handler.get_thread(V1), Some(T1));
    assert_eq!(handler.get_vc(T1), Some(V1));
}

#[test]
fn later_join_of_a_thread_member_posts_nothing() {
    let mut handler = linked_handler();
    let start = handler.create_or_mention_thread(V1, M1);
    let (requests, end) =
        drive(&mut handler, start, vec![Reply::ThreadMembers(vec![None, Some(M2), Some(M1)])]);
    assert_eq!(end, Step::Finished);
    assert_eq!(requests, vec![Request::GetThreadMembers { thread: T1 }]);
}

#[test]
fn two_joins_in_a_row_open_one_thread() {
    let mut handler = handler();
    let first = handler.create_or_mention_thread(V1, M1);
    let replies = vec![
        Reply::ChannelName("Lobby".to_string()),
        Reply::MessageSent(500),
        Reply::ThreadCreated(T1),
        Reply::MessageSent(501),
        Reply::MessageSent(502),
    ];
    let (first_requests, first_end) = drive(&mut handler, first, replies);
    assert_eq!(first_end, Step::Finished);
    let second = handler.create_or_mention_thread(V1, M1);
    let (second_requests, second_end) = drive(
        &mut handler,
        second,
        vec![Reply::ThreadMembers(vec![]), Reply::MessageSent(503)],
    );
    assert_eq!(second_end, Step::Finished);
    let created = first_requests
        .iter()
        .chain(second_requests.iter())
        .filter(|r| matches!(r, Request::CreatePublicThread { .. }))
        .count();
    assert_eq!(created, 1);
    assert_eq!(
        second_requests,
        vec![
            Request::GetThreadMembers { thread: T1 },
            Request::SendMessage { channel: T1, notice: Notice::MemberJoined { member: M1 } },
        ]
    );
    assert_eq!(handler.get_thread(V1), Some(T1));
}

#[test]
fn unreadable_channel_name_gets_the_stand_in() {
    let mut handler = handler();
    let start = handler.create_or_mention_thread(V1, M1);
    let replies = vec![
        Reply::Failed,
        Reply::MessageSent(500),
        Reply::ThreadCreated(T1),
        Reply::MessageSent(501),
        Reply::MessageSent(502),
    ];
    let (requests, end) = drive(&mut handler, start, replies);
    assert_eq!(end, Step::Finished);
    assert_eq!(
        requests[2],
        Request::CreatePublicThread {
            channel: ANNOUNCEMENTS,
            message: 500,
            name: "不明なチャンネル".to_string(),
        }
    );
    assert_eq!(
        requests[4],
        Request::SendMessage {
            channel: T1,
            notice: Notice::Welcome { member: M1, name: "不明なチャンネル".to_string() },
        }
    );
}

#[test]
fn voice_state_without_channel_or_member_is_passed_over() {
    let handler = handler();
    assert_eq!(handler.voice_state_update(None, Some(M1)), Step::Finished);
    assert_eq!(handler.voice_state_update(Some(V1), None), Step::Finished);
    assert_eq!(handler.voice_state_update(None, None), Step::Finished);
}

#[test]
fn join_of_an_unmanaged_channel_is_passed_over() {
    let mut handler = handler();
    let start = handler.voice_state_update(Some(7), Some(M1));
    let (requests, end) = drive(&mut handler, start, vec![Reply::Channel(Some(voice_channel(7)))]);
    assert_eq!(end, Step::Finished);
    assert_eq!(requests, vec![Request::GetChannel { channel: 7 }]);
}

#[test]
fn join_fails_when_the_channel_cannot_be_fetched() {
    let mut handler = handler();
    let start = handler.voice_state_update(Some(V1), Some(M1));
    let (_, end) = drive(&mut handler, start, vec![Reply::Failed]);
    assert_eq!(end, Step::Aborted(Failure::ChannelFetch));
    let start = handler.voice_state_update(Some(V1), Some(M1));
    let (_, end) = drive(&mut handler, start, vec![Reply::Channel(None)]);
    assert_eq!(end, Step::Aborted(Failure::NotGuildChannel));
}

#[test]
fn opening_fails_at_each_call() {
    let good = vec![
        Reply::ChannelName("Lobby".to_string()),
        Reply::MessageSent(500),
        Reply::ThreadCreated(T1),
        Reply::MessageSent(501),
        Reply::MessageSent(502),
    ];
    let failures = [
        (1, Failure::Announcement),
        (2, Failure::ThreadCreation),
        (3, Failure::ThreadPointer),
        (4, Failure::Welcome),
    ];
    for (at, failure) in failures {
        let mut handler = handler();
        let mut replies = good.clone();
        replies[at] = Reply::Failed;
        replies.truncate(at + 1);
        let start = handler.create_or_mention_thread(V1, M1);
        let (requests, end) = drive(&mut handler, start, replies);
        assert_eq!(end, Step::Aborted(failure));
        assert_eq!(requests.len(), at + 1);
        assert_eq!(handler.get_thread(V1), None);
        assert_eq!(handler.get_vc(T1), None);
    }
}

#[test]
fn join_notice_fails_at_each_call() {
    let mut handler = linked_handler();
    let start = handler.create_or_mention_thread(V1, M2);
    let (_, end) = drive(&mut handler, start, vec![Reply::Failed]);
    assert_eq!(end, Step::Aborted(Failure::ThreadMembers));
    let start = handler.create_or_mention_thread(V1, M2);
    let (_, end) = drive(&mut handler, start, vec![Reply::ThreadMembers(vec![]), Reply::Failed]);
    assert_eq!(end, Step::Aborted(Failure::JoinNotice));
}

#[test]
fn rename_of_the_voice_channel_retitles_the_thread() {
    let mut handler = linked_handler();
    let start = handler.channel_update(Some(voice_channel(V1)));
    let (requests, end) = drive(
        &mut handler,
        start,
        vec![Reply::ChannelName("New Name".to_string()), Reply::Completed],
    );
    assert_eq!(end, Step::Finished);
    assert_eq!(
        requests,
        vec![
            Request::GetChannelName { channel: V1 },
            Request::RenameThread { thread: T1, name: "New Name".to_string() },
        ]
    );
    assert_eq!(handler.get_thread(V1), Some(T1));
    assert_eq!(handler.get_vc(T1), Some(V1));
}

#[test]
fn retitle_uses_the_stand_in_and_reports_failure() {
    let mut handler = linked_handler();
    let start = handler.rename_thread(V1);
    let (requests, end) = drive(&mut handler, start, vec![Reply::Failed, Reply::Failed]);
    assert_eq!(end, Step::Aborted(Failure::ThreadRename));
    assert_eq!(
        requests[1],
        Request::RenameThread { thread: T1, name: "不明なチャンネル".to_string() }
    );
}

#[test]
fn update_of_other_channels_is_passed_over() {
    let handler = linked_handler();
    assert_eq!(handler.channel_update(None), Step::Finished);
    assert_eq!(handler.channel_update(Some(voice_channel(7))), Step::Finished);
    assert_eq!(handler.channel_update(Some(voice_channel(12))), Step::Finished);
    assert_eq!(handler.rename_thread(12), Step::Finished);
    let text = GuildChannel { id: V1, kind: ChannelType::Text, parent_id: Some(CATEGORY) };
    assert_eq!(handler.channel_update(Some(text)), Step::Finished);
}

#[test]
fn deletion_of_the_voice_channel_archives_the_thread() {
    let mut handler = linked_handler();
    let start = handler.channel_delete(&voice_channel(V1));
    let (requests, end) = drive(&mut handler, start, vec![Reply::Completed]);
    assert_eq!(end, Step::Finished);
    assert_eq!(requests, vec![Request::ArchiveThread { thread: T1 }]);
    assert_eq!(handler.get_thread(V1), Some(T1));
    assert_eq!(handler.get_vc(T1), Some(V1));
}

#[test]
fn archive_without_link_asks_nothing() {
    let mut handler = handler();
    let start = handler.archive_thread(V1);
    assert_eq!(start, Step::Finished);
    let (requests, end) = drive(&mut handler, start, vec![Reply::Completed]);
    assert_eq!(end, Step::Finished);
    assert!(requests.is_empty());
    assert_eq!(handler.channel_delete(&voice_channel(V1)), Step::Finished);
}

#[test]
fn deletion_of_other_channels_is_passed_over() {
    let handler = linked_handler();
    let text = GuildChannel { id: V1, kind: ChannelType::Text, parent_id: Some(CATEGORY) };
    assert_eq!(handler.channel_delete(&text), Step::Finished);
    assert_eq!(handler.channel_delete(&voice_channel(7)), Step::Finished);
}

#[test]
fn archive_reports_failure() {
    let mut handler = linked_handler();
    let start = handler.archive_thread(V1);
    let (_, end) = drive(&mut handler, start, vec![Reply::Failed]);
    assert_eq!(end, Step::Aborted(Failure::ThreadArchive));
}

#[test]
fn button_opens_the_dialog_for_a_manager() {
    let mut handler = linked_handler();
    let start = handler.interaction_create(&button("rename_button", T1, M1));
    let replies = vec![
        Reply::Channel(Some(voice_channel(V1))),
        Reply::Permissions(MANAGE_CHANNELS | 1),
        Reply::Completed,
    ];
    let (requests, end) = drive(&mut handler, start, replies);
    assert_eq!(end, Step::Finished);
    assert_eq!(
        requests,
        vec![
            Request::GetChannel { channel: V1 },
            Request::PermissionsFor { channel: V1, user: M1 },
            Request::Respond { answer: Answer::RenameDialog },
        ]
    );
}

#[test]
fn button_refuses_a_user_without_permission() {
    let mut handler = linked_handler();
    let start = handler.interaction_create(&button("rename_button", T1, M2));
    let replies = vec![
        Reply::Channel(Some(voice_channel(V1))),
        Reply::Permissions(!MANAGE_CHANNELS),
        Reply::Completed,
    ];
    let (requests, end) = drive(&mut handler, start, replies);
    assert_eq!(end, Step::Finished);
    assert_eq!(
        requests,
        vec![
            Request::GetChannel { channel: V1 },
            Request::PermissionsFor { channel: V1, user: M2 },
            Request::Respond { answer: Answer::NotOwner },
        ]
    );
}

#[test]
fn permission_is_read_from_the_manage_channels_bit_alone() {
    for (bits, answer) in [
        (0, Answer::NotOwner),
        (1, Answer::NotOwner),
        (8, Answer::NotOwner),
        (32, Answer::NotOwner),
        (16, Answer::RenameDialog),
        (17, Answer::RenameDialog),
        (u64::MAX, Answer::RenameDialog),
        (u64::MAX - 16, Answer::NotOwner),
    ] {
        let mut handler = linked_handler();
        let step = handler.resume(Pending::ButtonPermissions, Reply::Permissions(bits));
        match step {
            Step::Call { request, .. } => assert_eq!(request, Request::Respond { answer }),
            _ => unreachable!(),
        }
    }
}

#[test]
fn button_in_an_unlinked_thread_reports_the_channel_gone() {
    let mut handler = handler();
    let start = handler.button_pressed(T1, M1);
    let (requests, end) = drive(&mut handler, start, vec![Reply::Completed]);
    assert_eq!(end, Step::Finished);
    assert_eq!(requests, vec![Request::Respond { answer: Answer::VoiceGone }]);
}

#[test]
fn button_reports_the_channel_gone_when_it_cannot_be_fetched() {
    for reply in [Reply::Failed, Reply::Channel(None)] {
        let mut handler = linked_handler();
        let start = handler.button_pressed(T1, M1);
        let (requests, end) = drive(&mut handler, start, vec![reply, Reply::Failed]);
        assert_eq!(end, Step::Aborted(Failure::ErrorAnswer));
        assert_eq!(
            requests,
            vec![
                Request::GetChannel { channel: V1 },
                Request::Respond { answer: Answer::VoiceGone },
            ]
        );
    }
}

#[test]
fn button_fails_without_permissions_or_dialog() {
    let mut handler = linked_handler();
    let start = handler.button_pressed(T1, M1);
    let (_, end) =
        drive(&mut handler, start, vec![Reply::Channel(Some(voice_channel(V1))), Reply::Failed]);
    assert_eq!(end, Step::Aborted(Failure::Permissions));
    let start = handler.button_pressed(T1, M1);
    let replies = vec![
        Reply::Channel(Some(voice_channel(V1))),
        Reply::Permissions(MANAGE_CHANNELS),
        Reply::Failed,
    ];
    let (_, end) = drive(&mut handler, start, replies);
    assert_eq!(end, Step::Aborted(Failure::Dialog));
}

#[test]
fn dialog_renames_the_voice_channel_for_a_manager() {
    let mut handler = linked_handler();
    let start =
        handler.interaction_create(&modal("rename_title", T1, M1, "rename_text", "Karaoke"));
    let replies = vec![
        Reply::Channel(Some(voice_channel(V1))),
        Reply::Permissions(MANAGE_CHANNELS),
        Reply::Completed,
        Reply::Completed,
    ];
    let (requests, end) = drive(&mut handler, start, replies);
    assert_eq!(end, Step::Finished);
    assert_eq!(
        requests,
        vec![
            Request::GetChannel { channel: V1 },
            Request::PermissionsFor { channel: V1, user: M1 },
            Request::RenameChannel { channel: V1, name: "Karaoke".to_string() },
            Request::Respond { answer: Answer::Renamed },
        ]
    );
}

#[test]
fn dialog_refuses_a_user_without_permission() {
    let mut handler = linked_handler();
    let start =
        handler.interaction_create(&modal("rename_title", T1, M2, "rename_text", "Karaoke"));
    let replies =
        vec![Reply::Channel(Some(voice_channel(V1))), Reply::Permissions(0), Reply::Completed];
    let (requests, end) = drive(&mut handler, start, replies);
    assert_eq!(end, Step::Finished);
    assert_eq!(
        requests,
        vec![
            Request::GetChannel { channel: V1 },
            Request::PermissionsFor { channel: V1, user: M2 },
            Request::Respond { answer: Answer::NotOwner },
        ]
    );
    assert!(!requests.iter().any(|r| matches!(r, Request::RenameChannel { .. })));
}

#[test]
fn dialog_without_the_field_fails_after_the_permission_check() {
    let mut handler = linked_handler();
    let start = handler.interaction_create(&modal("rename_title", T1, M1, "something", "Karaoke"));
    let replies =
        vec![Reply::Channel(Some(voice_channel(V1))), Reply::Permissions(MANAGE_CHANNELS)];
    let (requests, end) = drive(&mut handler, start, replies);
    assert_eq!(end, Step::Aborted(Failure::MissingInput));
    assert_eq!(requests.len(), 2);
    let start = handler.rename_vc(T1, M2, None);
    let replies = vec![Reply::Channel(Some(voice_channel(V1))), Reply::Permissions(0)];
    let (requests, _) = drive(&mut handler, start, replies);
    assert_eq!(requests[2], Request::Respond { answer: Answer::NotOwner });
}

#[test]
fn dialog_in_an_unlinked_thread_reports_the_channel_gone() {
    let mut handler = handler();
    let start = handler.rename_vc(T1, M1, Some("Karaoke".to_string()));
    let (requests, end) = drive(&mut handler, start, vec![Reply::Completed]);
    assert_eq!(end, Step::Finished);
    assert_eq!(requests, vec![Request::Respond { answer: Answer::VoiceGone }]);
}

#[test]
fn dialog_fails_at_each_call() {
    let mut handler = linked_handler();
    let start = handler.rename_vc(T1, M1, Some("Karaoke".to_string()));
    let (_, end) =
        drive(&mut handler, start, vec![Reply::Channel(Some(voice_channel(V1))), Reply::Failed]);
    assert_eq!(end, Step::Aborted(Failure::Permissions));
    let start = handler.rename_vc(T1, M1, Some("Karaoke".to_string()));
    let replies = vec![
        Reply::Channel(Some(voice_channel(V1))),
        Reply::Permissions(MANAGE_CHANNELS),
        Reply::Failed,
    ];
    let (_, end) = drive(&mut handler, start, replies);
    assert_eq!(end, Step::Aborted(Failure::ChannelRename));
    let start = handler.rename_vc(T1, M1, Some("Karaoke".to_string()));
    let replies = vec![
        Reply::Channel(Some(voice_channel(V1))),
        Reply::Permissions(MANAGE_CHANNELS),
        Reply::Completed,
        Reply::Failed,
    ];
    let (_, end) = drive(&mut handler, start, replies);
    assert_eq!(end, Step::Aborted(Failure::ResultAnswer));
}

#[test]
fn other_interactions_are_passed_over() {
    let handler = linked_handler();
    assert_eq!(handler.interaction_create(&Interaction::Other), Step::Finished);
    assert_eq!(handler.interaction_create(&button("rename_title", T1, M1)), Step::Finished);
    assert_eq!(handler.interaction_create(&button("Rename_button", T1, M1)), Step::Finished);
    assert_eq!(
        handler.interaction_create(&modal("rename_button", T1, M1, "rename_text", "x")),
        Step::Finished
    );
    assert_eq!(
        handler.interaction_create(&modal("rename_text", T1, M1, "rename_text", "x")),
        Step::Finished
    );
}

#[test]
fn unexpected_reply_counts_as_failure_where_a_value_is_needed() {
    let mut handler = handler();
    let step = handler.resume(
        Pending::OpenAnnouncement { voice: V1, member: M1, name: "n".to_string() },
        Reply::Completed,
    );
    assert_eq!(step, Step::Aborted(Failure::Announcement));
    let step = handler.resume(
        Pending::OpenThread { voice: V1, member: M1, name: "n".to_string() },
        Reply::MessageSent(1),
    );
    assert_eq!(step, Step::Aborted(Failure::ThreadCreation));
    let step = handler.resume(Pending::JoinMembers { thread: T1, member: M1 }, Reply::Completed);
    assert_eq!(step, Step::Aborted(Failure::ThreadMembers));
}
