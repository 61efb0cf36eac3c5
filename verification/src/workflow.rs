//! The workflows as a state machine: where a workflow waits, and what it
//! does with the platform's reply.

use vstd::prelude::*;
use crate::app_config::DiscordConfig;
use crate::channel::managed;
use crate::platform::{
    manages_channels, text_view, Answer, Failure, NoticeView, ReplyView, Request, RequestView,
    UNKNOWN_CHANNEL_NAME,
};
use crate::registry::{lookup, mirrored, paired};

verus! {

/// What a workflow is waiting for, with what it needs to go on.
#[derive(Debug, Clone, PartialEq, Eq)]
pub enum Pending {
    /// A member entered `voice`; the channel is being fetched.
    JoinChannel { voice: u64, member: u64 },
    /// The members of the existing thread are being fetched.
    JoinMembers { thread: u64, member: u64 },
    /// The join notice is being posted.
    JoinNotice,
    /// The name of the voice channel is being read for a new thread.
    OpenName { voice: u64, member: u64 },
    /// The announcement is being posted.
    OpenAnnouncement { voice: u64, member: u64, name: String },
    /// The thread is being created.
    OpenThread { voice: u64, member: u64, name: String },
    /// The pointer to the thread is being posted in the voice channel.
    OpenPointer { voice: u64, member: u64, name: String, thread: u64 },
    /// The welcome is being posted; the link is recorded once it is out.
    OpenWelcome { voice: u64, thread: u64 },
    /// The thread is being archived.
    Archive,
    /// The name of the voice channel is being read to retitle `thread`.
    RetitleName { thread: u64 },
    /// The thread is being retitled.
    Retitle,
    /// The button was pressed; the voice channel is being fetched.
    ButtonChannel { voice: u64, user: u64 },
    /// The permissions of the user who pressed the button are being read.
    ButtonPermissions,
    /// The dialog was submitted; the voice channel is being fetched.
    /// `name` is the submitted text, if the form held any.
    ModalChannel { voice: u64, user: u64, name: Option<String> },
    /// The permissions of the user who submitted the dialog are being read.
    ModalPermissions { voice: u64, name: Option<String> },
    /// The voice channel is being renamed.
    ModalRename,
    /// A refusal is being sent.
    ErrorAnswer,
    /// The dialog is being opened.
    DialogAnswer,
    /// The acknowledgement of the rename is being sent.
    ResultAnswer,
}

/// A waiting point with its texts as sequences of characters.
pub enum PendingView {
    JoinChannel { voice: u64, member: u64 },
    JoinMembers { thread: u64, member: u64 },
    JoinNotice,
    OpenName { voice: u64, member: u64 },
    OpenAnnouncement { voice: u64, member: u64, name: Seq<char> },
    OpenThread { voice: u64, member: u64, name: Seq<char> },
    OpenPointer { voice: u64, member: u64, name: Seq<char>, thread: u64 },
    OpenWelcome { voice: u64, thread: u64 },
    Archive,
    RetitleName { thread: u64 },
    Retitle,
    ButtonChannel { voice: u64, user: u64 },
    ButtonPermissions,
    ModalChannel { voice: u64, user: u64, name: Option<Seq<char>> },
    ModalPermissions { voice: u64, name: Option<Seq<char>> },
    ModalRename,
    ErrorAnswer,
    DialogAnswer,
    ResultAnswer,
}

impl View for Pending {
    type V = PendingView;

    open spec fn view(&self) -> PendingView {
        match *self {
            Pending::JoinChannel { voice, member } => PendingView::JoinChannel { voice, member },
            Pending::JoinMembers { thread, member } => PendingView::JoinMembers { thread, member },
            Pending::JoinNotice => PendingView::JoinNotice,
            Pending::OpenName { voice, member } => PendingView::OpenName { voice, member },
            Pending::OpenAnnouncement { voice, member, name } => PendingView::OpenAnnouncement {
                voice,
                member,
                name: name@,
            },
            Pending::OpenThread { voice, member, name } => PendingView::OpenThread {
                voice,
                member,
                name: name@,
            },
            Pending::OpenPointer { voice, member, name, thread } => PendingView::OpenPointer {
                voice,
                member,
                name: name@,
                thread,
            },
            Pending::OpenWelcome { voice, thread } => PendingView::OpenWelcome { voice, thread },
            Pending::Archive => PendingView::Archive,
            Pending::RetitleName { thread } => PendingView::RetitleName { thread },
            Pending::Retitle => PendingView::Retitle,
            Pending::ButtonChannel { voice, user } => PendingView::ButtonChannel { voice, user },
            Pending::ButtonPermissions => PendingView::ButtonPermissions,
            Pending::ModalChannel { voice, user, name } => PendingView::ModalChannel {
                voice,
                user,
                name: text_view(name),
            },
            Pending::ModalPermissions { voice, name } => PendingView::ModalPermissions {
                voice,
                name: text_view(name),
            },
            Pending::ModalRename => PendingView::ModalRename,
            Pending::ErrorAnswer => PendingView::ErrorAnswer,
            Pending::DialogAnswer => PendingView::DialogAnswer,
            Pending::ResultAnswer => PendingView::ResultAnswer,
        }
    }
}

/// What a workflow wants next.
#[derive(Debug, Clone, PartialEq, Eq)]
pub enum Step {
    /// Make `request`, then resume the workflow at `pending` with the reply.
    Call { request: Request, pending: Pending },
    /// The workflow is over.
    Finished,
    /// The workflow gave up at the named step.
    Aborted(Failure),
}

/// A step over the views of its request and waiting point.
pub enum StepView {
    Call { request: RequestView, pending: PendingView },
    Finished,
    Aborted(Failure),
}

impl View for Step {
    type V = StepView;

    open spec fn view(&self) -> StepView {
        match *self {
            Step::Call { request, pending } => StepView::Call {
                request: request@,
                pending: pending@,
            },
            Step::Finished => StepView::Finished,
            Step::Aborted(failure) => StepView::Aborted(failure),
        }
    }
}

/// The name a reply gives to a channel: the one it carries, or the
/// stand-in where it carries none.
pub open spec fn display_name(reply: ReplyView) -> Seq<char> {
    match reply {
        ReplyView::ChannelName(name) => name,
        _ => UNKNOWN_CHANNEL_NAME@,
    }
}

/// A call went through: any reply but a failure.
pub open spec fn succeeded(reply: ReplyView) -> bool {
    !(reply is Failed)
}

/// Ends a workflow whose last call was answered by `reply`.
pub open spec fn conclude(reply: ReplyView, failure: Failure) -> StepView {
    if succeeded(reply) {
        StepView::Finished
    } else {
        StepView::Aborted(failure)
    }
}

/// The first step when `member` has entered the managed channel `voice`:
/// with a thread, look at its members; without one, start to open one.
pub open spec fn join_start(links: Map<u64, u64>, voice: u64, member: u64) -> StepView {
    match lookup(links, voice) {
        Some(thread) => StepView::Call {
            request: RequestView::GetThreadMembers { thread },
            pending: PendingView::JoinMembers { thread, member },
        },
        None => StepView::Call {
            request: RequestView::GetChannelName { channel: voice },
            pending: PendingView::OpenName { voice, member },
        },
    }
}

/// The first step when the managed channel `voice` was deleted.
pub open spec fn archive_start(links: Map<u64, u64>, voice: u64) -> StepView {
    match lookup(links, voice) {
        Some(thread) => StepView::Call {
            request: RequestView::ArchiveThread { thread },
            pending: PendingView::Archive,
        },
        None => StepView::Finished,
    }
}

/// The first step when the managed channel `voice` was changed.
pub open spec fn retitle_start(links: Map<u64, u64>, voice: u64) -> StepView {
    match lookup(links, voice) {
        Some(thread) => StepView::Call {
            request: RequestView::GetChannelName { channel: voice },
            pending: PendingView::RetitleName { thread },
        },
        None => StepView::Finished,
    }
}

/// Sends `answer` as a refusal.
pub open spec fn refuse(answer: Answer) -> StepView {
    StepView::Call { request: RequestView::Respond { answer }, pending: PendingView::ErrorAnswer }
}

/// The first step when `user` pressed the rename button in `thread`.
pub open spec fn button_start(threads: Map<u64, u64>, thread: u64, user: u64) -> StepView {
    match lookup(threads, thread) {
        Some(voice) => StepView::Call {
            request: RequestView::GetChannel { channel: voice },
            pending: PendingView::ButtonChannel { voice, user },
        },
        None => refuse(Answer::VoiceGone),
    }
}

/// The first step when `user` submitted the rename dialog in `thread`
/// with `name` in its text field.
pub open spec fn modal_start(
    threads: Map<u64, u64>,
    thread: u64,
    user: u64,
    name: Option<Seq<char>>,
) -> StepView {
    match lookup(threads, thread) {
        Some(voice) => StepView::Call {
            request: RequestView::GetChannel { channel: voice },
            pending: PendingView::ModalChannel { voice, user, name },
        },
        None => refuse(Answer::VoiceGone),
    }
}

/// The step that follows when a workflow waiting at `pending` gets `reply`.
pub open spec fn after_reply(
    links: Map<u64, u64>,
    config: DiscordConfig,
    pending: PendingView,
    reply: ReplyView,
) -> StepView {
    match pending {
        PendingView::JoinChannel { voice, member } => match reply {
            ReplyView::Channel(Some(channel)) => if managed(channel, config) {
                join_start(links, voice, member)
            } else {
                StepView::Finished
            },
            ReplyView::Channel(None) => StepView::Aborted(Failure::NotGuildChannel),
            _ => StepView::Aborted(Failure::ChannelFetch),
        },
        PendingView::JoinMembers { thread, member } => match reply {
            ReplyView::ThreadMembers(members) => if members.contains(Some(member)) {
                StepView::Finished
            } else {
                StepView::Call {
                    request: RequestView::SendMessage {
                        channel: thread,
                        notice: NoticeView::MemberJoined { member },
                    },
                    pending: PendingView::JoinNotice,
                }
            },
            _ => StepView::Aborted(Failure::ThreadMembers),
        },
        PendingView::JoinNotice => conclude(reply, Failure::JoinNotice),
        PendingView::OpenName { voice, member } => StepView::Call {
            request: RequestView::SendMessage {
                channel: config.thread_channel,
                notice: NoticeView::VoiceOpened { member, voice },
            },
            pending: PendingView::OpenAnnouncement { voice, member, name: display_name(reply) },
        },
        PendingView::OpenAnnouncement { voice, member, name } => match reply {
            ReplyView::MessageSent(message) => StepView::Call {
                request: RequestView::CreatePublicThread {
                    channel: config.thread_channel,
                    message,
                    name,
                },
                pending: PendingView::OpenThread { voice, member, name },
            },
            _ => StepView::Aborted(Failure::Announcement),
        },
        PendingView::OpenThread { voice, member, name } => match reply {
            ReplyView::ThreadCreated(thread) => StepView::Call {
                request: RequestView::SendMessage {
                    channel: voice,
                    notice: NoticeView::ThreadPointer { thread },
                },
                pending: PendingView::OpenPointer { voice, member, name, thread },
            },
            _ => StepView::Aborted(Failure::ThreadCreation),
        },
        PendingView::OpenPointer { voice, member, name, thread } => if succeeded(reply) {
            StepView::Call {
                request: RequestView::SendMessage {
                    channel: thread,
                    notice: NoticeView::Welcome { member, name },
                },
                pending: PendingView::OpenWelcome { voice, thread },
            }
        } else {
            StepView::Aborted(Failure::ThreadPointer)
        },
        PendingView::OpenWelcome { voice, thread } => conclude(reply, Failure::Welcome),
        PendingView::Archive => conclude(reply, Failure::ThreadArchive),
        PendingView::RetitleName { thread } => StepView::Call {
            request: RequestView::RenameThread { thread, name: display_name(reply) },
            pending: PendingView::Retitle,
        },
        PendingView::Retitle => conclude(reply, Failure::ThreadRename),
        PendingView::ButtonChannel { voice, user } => match reply {
            ReplyView::Channel(Some(_)) => StepView::Call {
                request: RequestView::PermissionsFor { channel: voice, user },
                pending: PendingView::ButtonPermissions,
            },
            _ => refuse(Answer::VoiceGone),
        },
        PendingView::ButtonPermissions => match reply {
            ReplyView::Permissions(bits) => if manages_channels(bits) {
                StepView::Call {
                    request: RequestView::Respond { answer: Answer::RenameDialog },
                    pending: PendingView::DialogAnswer,
                }
            } else {
                refuse(Answer::NotOwner)
            },
            _ => StepView::Aborted(Failure::Permissions),
        },
        PendingView::ModalChannel { voice, user, name } => match reply {
            ReplyView::Channel(Some(_)) => StepView::Call {
                request: RequestView::PermissionsFor { channel: voice, user },
                pending: PendingView::ModalPermissions { voice, name },
            },
            _ => refuse(Answer::VoiceGone),
        },
        PendingView::ModalPermissions { voice, name } => match reply {
            ReplyView::Permissions(bits) => if manages_channels(bits) {
                match name {
                    Some(name) => StepView::Call {
                        request: RequestView::RenameChannel { channel: voice, name },
                        pending: PendingView::ModalRename,
                    },
                    None => StepView::Aborted(Failure::MissingInput),
                }
            } else {
                refuse(Answer::NotOwner)
            },
            _ => StepView::Aborted(Failure::Permissions),
        },
        PendingView::ModalRename => if succeeded(reply) {
            StepView::Call {
                request: RequestView::Respond { answer: Answer::Renamed },
                pending: PendingView::ResultAnswer,
            }
        } else {
            StepView::Aborted(Failure::ChannelRename)
        },
        PendingView::ErrorAnswer => conclude(reply, Failure::ErrorAnswer),
        PendingView::DialogAnswer => conclude(reply, Failure::Dialog),
        PendingView::ResultAnswer => conclude(reply, Failure::ResultAnswer),
    }
}

/// The links, from voice channel to thread, after `reply` has reached a
/// workflow waiting at `pending`.
pub open spec fn links_after(
    links: Map<u64, u64>,
    threads: Map<u64, u64>,
    pending: PendingView,
    reply: ReplyView,
) -> Map<u64, u64> {
    match pending {
        PendingView::OpenWelcome { voice, thread } if succeeded(reply) => paired(
            links,
            threads,
            voice,
            thread,
        ),
        _ => links,
    }
}

/// The links, from thread to voice channel, after `reply` has reached a
/// workflow waiting at `pending`.
pub open spec fn threads_after(
    links: Map<u64, u64>,
    threads: Map<u64, u64>,
    pending: PendingView,
    reply: ReplyView,
) -> Map<u64, u64> {
    match pending {
        PendingView::OpenWelcome { voice, thread } if succeeded(reply) => paired(
            threads,
            links,
            thread,
            voice,
        ),
        _ => threads,
    }
}

/// A workflow carried through a series of replies: the requests it made,
/// in order, the step it stands at, and the links it leaves.
pub struct Run {
    pub requests: Seq<RequestView>,
    pub last: StepView,
    pub links: Map<u64, u64>,
    pub threads: Map<u64, u64>,
}

/// The run that starts at `step` and is fed `replies` one by one, for as
/// long as the workflow asks for one.
pub open spec fn run(
    links: Map<u64, u64>,
    threads: Map<u64, u64>,
    config: DiscordConfig,
    step: StepView,
    replies: Seq<ReplyView>,
) -> Run
    decreases replies.len(),
{
    match step {
        StepView::Call { request, pending } => if replies.len() == 0 {
            Run { requests: seq![request], last: step, links, threads }
        } else {
            let rest = run(
                links_after(links, threads, pending, replies[0]),
                threads_after(links, threads, pending, replies[0]),
                config,
                after_reply(links, config, pending, replies[0]),
                replies.drop_first(),
            );
            Run {
                requests: seq![request] + rest.requests,
                last: rest.last,
                links: rest.links,
                threads: rest.threads,
            }
        },
        _ => Run { requests: Seq::empty(), last: step, links, threads },
    }
}

/// A first join that runs to its end opens exactly one thread, as the third
/// of its five requests, and links it to the voice channel.
pub proof fn law_first_join_opens_one_thread(
    links: Map<u64, u64>,
    threads: Map<u64, u64>,
    config: DiscordConfig,
    voice: u64,
    member: u64,
    replies: Seq<ReplyView>,
)
    requires
        mirrored(links, threads),
        !links.contains_key(voice),
        run(links, threads, config, join_start(links, voice, member), replies).last is Finished,
    ensures
        ({
            let first = run(links, threads, config, join_start(links, voice, member), replies);
            &&& replies.len() >= 5
            &&& replies[2] is ThreadCreated
            &&& first.requests.len() == 5
            &&& first.requests[2] is CreatePublicThread
            &&& forall|i: int| 0 <= i < 5 && i != 2 ==> !(first.requests[i] is CreatePublicThread)
            &&& lookup(first.links, voice) == Some(replies[2]->ThreadCreated_0)
            &&& lookup(first.threads, replies[2]->ThreadCreated_0) == Some(voice)
            &&& mirrored(first.links, first.threads)
        }),
{
    reveal_with_fuel(run, 7);
}

/// A join of a voice channel that is linked already opens no thread and
/// leaves the links alone, whatever the platform replies: it fetches the
/// thread's members and at most posts one join notice in the thread.
pub proof fn law_later_join_opens_no_thread(
    links: Map<u64, u64>,
    threads: Map<u64, u64>,
    config: DiscordConfig,
    voice: u64,
    member: u64,
    replies: Seq<ReplyView>,
)
    requires
        links.contains_key(voice),
    ensures
        ({
            let later = run(links, threads, config, join_start(links, voice, member), replies);
            let thread = links[voice];
            &&& later.links == links
            &&& later.threads == threads
            &&& 1 <= later.requests.len() <= 2
            &&& later.requests[0] == RequestView::GetThreadMembers { thread }
            &&& later.requests.len() == 2 ==> later.requests[1] == RequestView::SendMessage {
                channel: thread,
                notice: NoticeView::MemberJoined { member },
            }
            &&& later.requests.len() == 2 ==> replies[0] is ThreadMembers
                && !replies[0]->ThreadMembers_0.contains(Some(member))
        }),
{
    reveal_with_fuel(run, 4);
}

/// Without the permission to manage channels a user is refused at the
/// button and at the dialog alike: the only request that follows is the
/// refusal, the voice channel is not renamed, and the links stay.
pub proof fn law_rename_is_refused_without_permission(
    links: Map<u64, u64>,
    threads: Map<u64, u64>,
    config: DiscordConfig,
    voice: u64,
    name: Option<Seq<char>>,
    bits: u64,
    replies: Seq<ReplyView>,
)
    requires
        !manages_channels(bits),
    ensures
        ({
            let pressed = after_reply(
                links,
                config,
                PendingView::ButtonPermissions,
                ReplyView::Permissions(bits),
            );
            let submitted = after_reply(
                links,
                config,
                PendingView::ModalPermissions { voice, name },
                ReplyView::Permissions(bits),
            );
            let rest = run(links, threads, config, refuse(Answer::NotOwner), replies);
            &&& pressed == refuse(Answer::NotOwner)
            &&& submitted == refuse(Answer::NotOwner)
            &&& rest.requests == seq![RequestView::Respond { answer: Answer::NotOwner }]
            &&& rest.links == links
            &&& rest.threads == threads
        }),
{
    reveal_with_fuel(run, 3);
}

/// Two joins of one voice channel, one after the other, open one thread
/// between them: when the first has run to its end, the only request of
/// either run that creates a thread is the third of the first.
pub proof fn law_two_joins_open_one_thread(
    links: Map<u64, u64>,
    threads: Map<u64, u64>,
    config: DiscordConfig,
    voice: u64,
    member: u64,
    first_replies: Seq<ReplyView>,
    second_replies: Seq<ReplyView>,
)
    requires
        mirrored(links, threads),
        !links.contains_key(voice),
        run(links, threads, config, join_start(links, voice, member), first_replies).last
            is Finished,
    ensures
        ({
            let first = run(links, threads, config, join_start(links, voice, member), first_replies);
            let second = run(
                first.links,
                first.threads,
                config,
                join_start(first.links, voice, member),
                second_replies,
            );
            let all = first.requests + second.requests;
            &&& all.len() > 2
            &&& forall|i: int| 0 <= i < all.len() ==> (all[i] is CreatePublicThread <==> i == 2)
            &&& second.links == first.links
            &&& second.threads == first.threads
        }),
{
    law_first_join_opens_one_thread(links, threads, config, voice, member, first_replies);
    let first = run(links, threads, config, join_start(links, voice, member), first_replies);
    law_later_join_opens_no_thread(
        first.links,
        first.threads,
        config,
        voice,
        member,
        second_replies,
    );
}

/// In a thread without a link the rename is refused at the button and at
/// the dialog alike: the user is told that the voice channel is gone, and
/// nothing else is asked of the platform.
pub proof fn law_rename_is_refused_without_link(
    links: Map<u64, u64>,
    threads: Map<u64, u64>,
    config: DiscordConfig,
    thread: u64,
    user: u64,
    name: Option<Seq<char>>,
    replies: Seq<ReplyView>,
)
    requires
        !threads.contains_key(thread),
    ensures
        ({
            let rest = run(links, threads, config, refuse(Answer::VoiceGone), replies);
            &&& button_start(threads, thread, user) == refuse(Answer::VoiceGone)
            &&& modal_start(threads, thread, user, name) == refuse(Answer::VoiceGone)
            &&& rest.requests == seq![RequestView::Respond { answer: Answer::VoiceGone }]
            &&& rest.links == links
            &&& rest.threads == threads
        }),
{
    reveal_with_fuel(run, 3);
}

/// The links pair voice channels and threads one to one at every point of
/// every workflow, whatever the platform replies.
pub proof fn law_links_stay_paired(
    links: Map<u64, u64>,
    threads: Map<u64, u64>,
    config: DiscordConfig,
    step: StepView,
    replies: Seq<ReplyView>,
)
    requires
        mirrored(links, threads),
    ensures
        mirrored(
            run(links, threads, config, step, replies).links,
            run(links, threads, config, step, replies).threads,
        ),
    decreases replies.len(),
{
    if let StepView::Call { request, pending } = step {
        if replies.len() > 0 {
            law_links_stay_paired(
                links_after(links, threads, pending, replies[0]),
                threads_after(links, threads, pending, replies[0]),
                config,
                after_reply(links, config, pending, replies[0]),
                replies.drop_first(),
            );
        }
    }
}

/// The archival and the retitling of a thread never change the links.
pub proof fn law_archive_and_retitle_keep_links(
    links: Map<u64, u64>,
    threads: Map<u64, u64>,
    config: DiscordConfig,
    voice: u64,
    replies: Seq<ReplyView>,
)
    ensures
        run(links, threads, config, archive_start(links, voice), replies).links == links,
        run(links, threads, config, archive_start(links, voice), replies).threads == threads,
        run(links, threads, config, retitle_start(links, voice), replies).links == links,
        run(links, threads, config, retitle_start(links, voice), replies).threads == threads,
        !links.contains_key(voice) ==> run(
            links,
            threads,
            config,
            archive_start(links, voice),
            replies,
        ).requests == Seq::<RequestView>::empty(),
{
    reveal_with_fuel(run, 4);
}

} // verus!
