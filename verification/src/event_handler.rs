//! The handler of platform events: it classifies each event, starts the
//! workflow that the event calls for and carries it from reply to reply.

use vstd::prelude::*;
use crate::app_config::{AppConfig, DiscordConfig};
use crate::channel::{is_managed, managed, ChannelType, GuildChannel};
use crate::interaction::{find_in_rows, reads, text_in_rows, Interaction};
use crate::platform::{
    permits_channel_management, text_view, Answer, Failure, Notice, Reply, Request, RequestView,
    RENAME_BUTTON_ID, RENAME_DIALOG_ID, RENAME_FIELD_ID, UNKNOWN_CHANNEL_NAME,
};
use crate::registry::{lookup, mirrored, LinkRegistry};
use crate::workflow::{
    after_reply, archive_start, button_start, conclude, display_name, join_start, links_after,
    modal_start, refuse, retitle_start, succeeded, threads_after, Pending, PendingView, Step,
    StepView,
};

verus! {

/// The event handler: the configuration and the registry of links.
///
/// A workflow never holds on to the handler between two steps, so a caller
/// that shares one handler among concurrent events locks it for the length
/// of a call and makes the platform request with the lock released. Two
/// first joins of one voice channel that run side by side can therefore
/// both find no thread and both open one; the later link replaces the
/// earlier. A link also outlives the archival of its thread.
pub struct Handler {
    app_config: AppConfig,
    links: LinkRegistry,
}

/// The step that an interaction starts: the rename button and the rename
/// dialog start their workflows, anything else is passed over.
pub open spec fn interaction_start(threads: Map<u64, u64>, interaction: Interaction) -> StepView {
    match interaction {
        Interaction::MessageComponent { custom_id, channel_id, user } => if custom_id@
            == RENAME_BUTTON_ID@ {
            button_start(threads, channel_id, user)
        } else {
            StepView::Finished
        },
        Interaction::ModalSubmit { custom_id, channel_id, user, components } => if custom_id@
            == RENAME_DIALOG_ID@ {
            modal_start(threads, channel_id, user, text_in_rows(components@, RENAME_FIELD_ID@))
        } else {
            StepView::Finished
        },
        Interaction::Other => StepView::Finished,
    }
}

/// The step that a change of voice state starts: with a channel and a
/// member, the channel is fetched; otherwise nothing is done.
pub open spec fn voice_state_start(channel_id: Option<u64>, member: Option<u64>) -> StepView {
    match (channel_id, member) {
        (Some(voice), Some(member)) => StepView::Call {
            request: RequestView::GetChannel { channel: voice },
            pending: PendingView::JoinChannel { voice, member },
        },
        _ => StepView::Finished,
    }
}

/// Tells whether `member` is the user of one of `members`.
fn lists_member(members: &Vec<Option<u64>>, member: u64) -> (found: bool)
    ensures
        found == members@.contains(Some(member)),
{
    let mut i: usize = 0;
    while i < members.len()
        invariant
            i <= members.len(),
            forall|j: int| 0 <= j < i ==> members@[j] != Some(member),
        decreases members.len() - i,
    {
        if let Some(user) = members[i] {
            if user == member {
                return true;
            }
        }
        i += 1;
    }
    false
}

/// The channel name that `reply` carries, or the stand-in.
fn name_from(reply: Reply) -> (name: String)
    ensures
        name@ == display_name(reply@),
{
    match reply {
        Reply::ChannelName(name) => name,
        _ => UNKNOWN_CHANNEL_NAME.to_owned(),
    }
}

/// Tells whether `reply` reports a call that went through.
fn went_through(reply: &Reply) -> (yes: bool)
    ensures
        yes == succeeded(reply@),
{
    match reply {
        Reply::Failed => false,
        _ => true,
    }
}

/// Ends a workflow on `reply`, with `failure` where the call failed.
fn finish(reply: &Reply, failure: Failure) -> (step: Step)
    ensures
        step@ == conclude(reply@, failure),
{
    if went_through(reply) {
        Step::Finished
    } else {
        Step::Aborted(failure)
    }
}

/// Sends `answer` as a refusal.
fn refusal(answer: Answer) -> (step: Step)
    ensures
        step@ == refuse(answer),
{
    Step::Call { request: Request::Respond { answer }, pending: Pending::ErrorAnswer }
}

impl Handler {
    /// The configuration the handler was made with.
    pub closed spec fn config(&self) -> DiscordConfig {
        self.app_config.discord
    }

    /// The links, from voice channel to thread.
    pub closed spec fn links(&self) -> Map<u64, u64> {
        self.links@
    }

    /// The links, from thread to voice channel.
    pub closed spec fn threads(&self) -> Map<u64, u64> {
        self.links.threads()
    }

    /// The links pair voice channels and threads one to one.
    pub open spec fn wf(&self) -> bool {
        mirrored(self.links(), self.threads())
    }

    /// A handler for `app_config` that knows of no link yet.
    pub fn new(app_config: AppConfig) -> (made: Result<Handler, Failure>)
        ensures
            made is Ok,
            made.unwrap().wf(),
            made.unwrap().config() == app_config.discord,
            made.unwrap().links() == Map::<u64, u64>::empty(),
            made.unwrap().threads() == Map::<u64, u64>::empty(),
    {
        Ok(Handler { app_config, links: LinkRegistry::new() })
    }

    /// Decides whether `channel` is a managed voice channel: a voice
    /// channel directly under the configured category that is not ignored.
    pub fn is_custom_vc(&self, channel: &GuildChannel) -> (yes: bool)
        ensures
            yes == managed(*channel, self.config()),
            channel.kind != ChannelType::Voice ==> !yes,
            channel.parent_id != Some(self.config().vc_category) ==> !yes,
            self.config().ignores(channel.id) ==> !yes,
    {
        is_managed(channel, &self.app_config.discord)
    }

    /// The thread linked to `voice`, if any.
    pub fn get_thread(&self, voice: u64) -> (thread: Option<u64>)
        ensures
            thread == lookup(self.links(), voice),
    {
        self.links.lookup_thread(voice)
    }

    /// The voice channel linked to `thread`, if any.
    pub fn get_vc(&self, thread: u64) -> (voice: Option<u64>)
        ensures
            voice == lookup(self.threads(), thread),
    {
        self.links.lookup_voice(thread)
    }

    /// Starts the work for `member` having entered the managed channel
    /// `voice`: the members of its thread are fetched or, without a thread,
    /// the channel's name is read to open one.
    pub fn create_or_mention_thread(&self, voice: u64, member: u64) -> (step: Step)
        ensures
            step@ == join_start(self.links(), voice, member),
    {
        match self.links.lookup_thread(voice) {
            Some(thread) => Step::Call {
                request: Request::GetThreadMembers { thread },
                pending: Pending::JoinMembers { thread, member },
            },
            None => Step::Call {
                request: Request::GetChannelName { channel: voice },
                pending: Pending::OpenName { voice, member },
            },
        }
    }

    /// Starts the archival of the thread of `voice`. Without a link there
    /// is nothing to do and nothing is asked of the platform. The link
    /// itself stays.
    pub fn archive_thread(&self, voice: u64) -> (step: Step)
        ensures
            step@ == archive_start(self.links(), voice),
            !self.links().contains_key(voice) ==> step@ is Finished,
    {
        match self.links.lookup_thread(voice) {
            Some(thread) => Step::Call {
                request: Request::ArchiveThread { thread },
                pending: Pending::Archive,
            },
            None => Step::Finished,
        }
    }

    /// Starts to retitle the thread of `voice` after the channel's current
    /// name. Without a link there is nothing to do.
    pub fn rename_thread(&self, voice: u64) -> (step: Step)
        ensures
            step@ == retitle_start(self.links(), voice),
    {
        match self.links.lookup_thread(voice) {
            Some(thread) => Step::Call {
                request: Request::GetChannelName { channel: voice },
                pending: Pending::RetitleName { thread },
            },
            None => Step::Finished,
        }
    }

    /// Starts the work for `user` having pressed the rename button in the
    /// thread `channel_id`: the linked voice channel is fetched, or the user
    /// is told that it is gone.
    pub fn button_pressed(&self, channel_id: u64, user: u64) -> (step: Step)
        ensures
            step@ == button_start(self.threads(), channel_id, user),
    {
        match self.links.lookup_voice(channel_id) {
            Some(voice) => Step::Call {
                request: Request::GetChannel { channel: voice },
                pending: Pending::ButtonChannel { voice, user },
            },
            None => refusal(Answer::VoiceGone),
        }
    }

    /// Starts the work for `user` having submitted the rename dialog in the
    /// thread `channel_id` with `name` in its text field: the linked voice
    /// channel is fetched, or the user is told that it is gone.
    pub fn rename_vc(&self, channel_id: u64, user: u64, name: Option<String>) -> (step: Step)
        ensures
            step@ == modal_start(self.threads(), channel_id, user, text_view(name)),
    {
        match self.links.lookup_voice(channel_id) {
            Some(voice) => Step::Call {
                request: Request::GetChannel { channel: voice },
                pending: Pending::ModalChannel { voice, user, name },
            },
            None => refusal(Answer::VoiceGone),
        }
    }

    /// Routes an interaction: the rename button and the rename dialog start
    /// their workflows; every other interaction is passed over.
    pub fn interaction_create(&self, interaction: &Interaction) -> (step: Step)
        ensures
            step@ == interaction_start(self.threads(), *interaction),
    {
        match interaction {
            Interaction::MessageComponent { custom_id, channel_id, user } => {
                if reads(custom_id, RENAME_BUTTON_ID) {
                    self.button_pressed(*channel_id, *user)
                } else {
                    Step::Finished
                }
            },
            Interaction::ModalSubmit { custom_id, channel_id, user, components } => {
                if reads(custom_id, RENAME_DIALOG_ID) {
                    let name = find_in_rows(components, RENAME_FIELD_ID);
                    self.rename_vc(*channel_id, *user, name)
                } else {
                    Step::Finished
                }
            },
            Interaction::Other => Step::Finished,
        }
    }

    /// Routes the deletion of `channel`: the thread of a managed channel is
    /// archived; any other channel is passed over.
    pub fn channel_delete(&self, channel: &GuildChannel) -> (step: Step)
        ensures
            step@ == if managed(*channel, self.config()) {
                archive_start(self.links(), channel.id)
            } else {
                StepView::Finished
            },
    {
        if !self.is_custom_vc(channel) {
            return Step::Finished;
        }
        self.archive_thread(channel.id)
    }

    /// Routes the change of a channel, given in its new state, or `None`
    /// where it belongs to no guild: the thread of a managed channel is
    /// retitled; any other channel is passed over.
    pub fn channel_update(&self, new: Option<GuildChannel>) -> (step: Step)
        ensures
            step@ == match new {
                Some(channel) => if managed(channel, self.config()) {
                    retitle_start(self.links(), channel.id)
                } else {
                    StepView::Finished
                },
                None => StepView::Finished,
            },
    {
        let channel = match new {
            Some(channel) => channel,
            None => {
                return Step::Finished;
            },
        };
        if !self.is_custom_vc(&channel) {
            return Step::Finished;
        }
        self.rename_thread(channel.id)
    }

    /// Routes a change of voice state, given by the channel and the member
    /// of the new state: with both, the channel is fetched, to be
    /// classified when the reply is in.
    pub fn voice_state_update(&self, channel_id: Option<u64>, member: Option<u64>) -> (step: Step)
        ensures
            step@ == voice_state_start(channel_id, member),
    {
        match (channel_id, member) {
            (Some(voice), Some(member)) => Step::Call {
                request: Request::GetChannel { channel: voice },
                pending: Pending::JoinChannel { voice, member },
            },
            _ => Step::Finished,
        }
    }

    /// Carries a workflow that waits at `pending` on with the platform's
    /// `reply`. The only reply that changes the links is the posted welcome
    /// in a new thread: it records the pair.
    pub fn resume(&mut self, pending: Pending, reply: Reply) -> (step: Step)
        ensures
            old(self).wf() ==> final(self).wf(),
            final(self).config() == old(self).config(),
            step@ == after_reply(old(self).links(), old(self).config(), pending@, reply@),
            final(self).links() == links_after(
                old(self).links(),
                old(self).threads(),
                pending@,
                reply@,
            ),
            final(self).threads() == threads_after(
                old(self).links(),
                old(self).threads(),
                pending@,
                reply@,
            ),
    {
        match pending {
            Pending::JoinChannel { voice, member } => match reply {
                Reply::Channel(Some(channel)) => {
                    if self.is_custom_vc(&channel) {
                        self.create_or_mention_thread(voice, member)
                    } else {
                        Step::Finished
                    }
                },
                Reply::Channel(None) => Step::Aborted(Failure::NotGuildChannel),
                _ => Step::Aborted(Failure::ChannelFetch),
            },
            Pending::JoinMembers { thread, member } => match reply {
                Reply::ThreadMembers(members) => {
                    if lists_member(&members, member) {
                        Step::Finished
                    } else {
                        Step::Call {
                            request: Request::SendMessage {
                                channel: thread,
                                notice: Notice::MemberJoined { member },
                            },
                            pending: Pending::JoinNotice,
                        }
                    }
                },
                _ => Step::Aborted(Failure::ThreadMembers),
            },
            Pending::JoinNotice => finish(&reply, Failure::JoinNotice),
            Pending::OpenName { voice, member } => {
                let name = name_from(reply);
                Step::Call {
                    request: Request::SendMessage {
                        channel: self.app_config.discord.thread_channel,
                        notice: Notice::VoiceOpened { member, voice },
                    },
                    pending: Pending::OpenAnnouncement { voice, member, name },
                }
            },
            Pending::OpenAnnouncement { voice, member, name } => match reply {
                Reply::MessageSent(message) => Step::Call {
                    request: Request::CreatePublicThread {
                        channel: self.app_config.discord.thread_channel,
                        message,
                        name: name.clone(),
                    },
                    pending: Pending::OpenThread { voice, member, name },
                },
                _ => Step::Aborted(Failure::Announcement),
            },
            Pending::OpenThread { voice, member, name } => match reply {
                Reply::ThreadCreated(thread) => Step::Call {
                    request: Request::SendMessage {
                        channel: voice,
                        notice: Notice::ThreadPointer { thread },
                    },
                    pending: Pending::OpenPointer { voice, member, name, thread },
                },
                _ => Step::Aborted(Failure::ThreadCreation),
            },
            Pending::OpenPointer { voice, member, name, thread } => {
                if went_through(&reply) {
                    Step::Call {
                        request: Request::SendMessage {
                            channel: thread,
                            notice: Notice::Welcome { member, name },
                        },
                        pending: Pending::OpenWelcome { voice, thread },
                    }
                } else {
                    Step::Aborted(Failure::ThreadPointer)
                }
            },
            Pending::OpenWelcome { voice, thread } => {
                if went_through(&reply) {
                    self.links.insert(voice, thread);
                    Step::Finished
                } else {
                    Step::Aborted(Failure::Welcome)
                }
            },
            Pending::Archive => finish(&reply, Failure::ThreadArchive),
            Pending::RetitleName { thread } => {
                let name = name_from(reply);
                Step::Call {
                    request: Request::RenameThread { thread, name },
                    pending: Pending::Retitle,
                }
            },
            Pending::Retitle => finish(&reply, Failure::ThreadRename),
            Pending::ButtonChannel { voice, user } => match reply {
                Reply::Channel(Some(_)) => Step::Call {
                    request: Request::PermissionsFor { channel: voice, user },
                    pending: Pending::ButtonPermissions,
                },
                _ => refusal(Answer::VoiceGone),
            },
            Pending::ButtonPermissions => match reply {
                Reply::Permissions(bits) => {
                    if permits_channel_management(bits) {
                        Step::Call {
                            request: Request::Respond { answer: Answer::RenameDialog },
                            pending: Pending::DialogAnswer,
                        }
                    } else {
                        refusal(Answer::NotOwner)
                    }
                },
                _ => Step::Aborted(Failure::Permissions),
            },
            Pending::ModalChannel { voice, user, name } => match reply {
                Reply::Channel(Some(_)) => Step::Call {
                    request: Request::PermissionsFor { channel: voice, user },
                    pending: Pending::ModalPermissions { voice, name },
                },
                _ => refusal(Answer::VoiceGone),
            },
            Pending::ModalPermissions { voice, name } => match reply {
                Reply::Permissions(bits) => {
                    if permits_channel_management(bits) {
                        match name {
                            Some(name) => Step::Call {
                                request: Request::RenameChannel { channel: voice, name },
                                pending: Pending::ModalRename,
                            },
                            None => Step::Aborted(Failure::MissingInput),
                        }
                    } else {
                        refusal(Answer::NotOwner)
                    }
                },
                _ => Step::Aborted(Failure::Permissions),
            },
            Pending::ModalRename => {
                if went_through(&reply) {
                    Step::Call {
                        request: Request::Respond { answer: Answer::Renamed },
                        pending: Pending::ResultAnswer,
                    }
                } else {
                    Step::Aborted(Failure::ChannelRename)
                }
            },
            Pending::ErrorAnswer => finish(&reply, Failure::ErrorAnswer),
            Pending::DialogAnswer => finish(&reply, Failure::Dialog),
            Pending::ResultAnswer => finish(&reply, Failure::ResultAnswer),
        }
    }
}

} // verus!
