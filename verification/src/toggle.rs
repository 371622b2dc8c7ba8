//! One ToggleCycle: resolve the target command, enable it, hold it
//! enabled for a fixed window, then disable it again.
//!
//! The cycle is a state machine.  Each REST call and the hold window
//! are performed by the surrounding program, which feeds every reply
//! back through [`cycle_step`]; the machine decides what the reply
//! means and which call comes next.  A cycle that fails never asks for
//! another call: a failed state accepts no further reply.

use vstd::prelude::*;
use vstd::string::StringExecFns;

use crate::log::StatusLog;

verus! {

/// How long one cycle holds the command enabled, in seconds.
pub const HOLD_SECONDS: u64 = 300;

/// Why one toggle cycle failed.
#[derive(Clone, Debug)]
pub enum ToggleError {
    /// No entry of the user listing names the streamer's channel.
    ChannelNotFound,
    /// The channel has no command of the configured name.
    CommandNotFound { command_name: String },
    /// The enabling update was committed but the echo did not confirm it.
    EnableRejected,
    /// The disabling update was committed but the echo did not confirm it.
    DisableRejected,
}

impl ToggleError {
    /// A failure to resolve the channel or the command is the
    /// `NotFound` outcome of the command-toggle collaborator.
    pub open spec fn is_not_found(&self) -> bool {
        self is ChannelNotFound || self is CommandNotFound
    }

    /// An unconfirmed commit is the `UpdateRejected` outcome.
    pub open spec fn is_update_rejected(&self) -> bool {
        self is EnableRejected || self is DisableRejected
    }

    pub open spec fn message_spec(&self) -> Seq<char> {
        match self {
            ToggleError::ChannelNotFound => "channel_id not found"@,
            ToggleError::CommandNotFound { command_name } => "command \""@ + command_name@
                + "\" not found"@,
            ToggleError::EnableRejected => "command not enabled correctly"@,
            ToggleError::DisableRejected => "command not disabled correctly"@,
        }
    }

    /// The line the transcript gets when this failure is logged.
    pub fn message(&self) -> (r: String)
        ensures
            r@ == self.message_spec(),
    {
        match self {
            ToggleError::ChannelNotFound => "channel_id not found".to_owned(),
            ToggleError::CommandNotFound { command_name } => {
                let mut s = "command \"".to_owned();
                s.append(command_name.as_str());
                s.append("\" not found");
                s
            },
            ToggleError::EnableRejected => "command not enabled correctly".to_owned(),
            ToggleError::DisableRejected => "command not disabled correctly".to_owned(),
        }
    }
}

/// One entry of the user listing, reduced to the fields the relay reads.
#[derive(Clone, Debug)]
pub struct UserAccess {
    pub username: String,
    pub channel_id: String,
}

/// One chat command of the channel, reduced to the fields the relay
/// reads and writes: its identifier, its name, and the flag the cycle
/// toggles.
#[derive(Clone, Debug)]
pub struct BotCommand {
    pub id: String,
    pub command: String,
    pub enabled_online: bool,
}

impl BotCommand {
    /// A field-for-field copy with a known specification, since the
    /// derived clone says nothing.
    pub fn duplicate(&self) -> (r: BotCommand)
        ensures
            r == *self,
    {
        BotCommand {
            id: self.id.clone(),
            command: self.command.clone(),
            enabled_online: self.enabled_online,
        }
    }
}

pub open spec fn user_matches(entry: UserAccess, username: Seq<char>) -> bool {
    entry.username@ == username
}

pub open spec fn some_user_matches(entries: Seq<UserAccess>, username: Seq<char>) -> bool {
    exists|i: int| 0 <= i < entries.len() && #[trigger] user_matches(entries[i], username)
}

pub open spec fn command_matches(entry: BotCommand, name: Seq<char>) -> bool {
    entry.command@ == name
}

pub open spec fn some_command_matches(entries: Seq<BotCommand>, name: Seq<char>) -> bool {
    exists|i: int| 0 <= i < entries.len() && #[trigger] command_matches(entries[i], name)
}

/// Picks the channel id out of the user listing: the id of the first
/// entry whose username is exactly the streamer's, `NotFound` when no
/// entry matches.
pub fn resolve_channel_id(entries: &Vec<UserAccess>, streamer: &String) -> (r: Result<
    String,
    ToggleError,
>)
    ensures
        r is Ok <==> some_user_matches(entries@, streamer@),
        r matches Ok(id) ==> exists|i: int|
            0 <= i < entries@.len() && #[trigger] user_matches(entries@[i], streamer@) && id@
                == entries@[i].channel_id@ && (forall|j: int|
                0 <= j < i ==> !user_matches(entries@[j], streamer@)),
        r matches Err(e) ==> e is ChannelNotFound,
{
    let mut k: usize = 0;
    while k < entries.len()
        invariant
            k <= entries@.len(),
            forall|j: int| 0 <= j < k ==> !user_matches(entries@[j], streamer@),
        decreases entries@.len() - k,
    {
        if entries[k].username == *streamer {
            proof {
                assert(user_matches(entries@[k as int], streamer@));
            }
            return Ok(entries[k].channel_id.clone());
        }
        k += 1;
    }
    proof {
        assert(forall|i: int| 0 <= i < entries@.len() ==> !user_matches(entries@[i], streamer@));
    }
    Err(ToggleError::ChannelNotFound)
}

/// Picks the command out of the channel's command listing: a copy of
/// the first command whose name matches exactly, `NotFound` when none
/// does.
pub fn find_command(entries: &Vec<BotCommand>, command_name: &String) -> (r: Result<
    BotCommand,
    ToggleError,
>)
    ensures
        r is Ok <==> some_command_matches(entries@, command_name@),
        r matches Ok(c) ==> exists|i: int|
            0 <= i < entries@.len() && #[trigger] command_matches(entries@[i], command_name@) && c
                == entries@[i] && (forall|j: int|
                0 <= j < i ==> !command_matches(entries@[j], command_name@)),
        r matches Err(e) ==> e == (ToggleError::CommandNotFound { command_name: *command_name }),
{
    let mut k: usize = 0;
    while k < entries.len()
        invariant
            k <= entries@.len(),
            forall|j: int| 0 <= j < k ==> !command_matches(entries@[j], command_name@),
        decreases entries@.len() - k,
    {
        if entries[k].command == *command_name {
            proof {
                assert(command_matches(entries@[k as int], command_name@));
            }
            return Ok(entries[k].duplicate());
        }
        k += 1;
    }
    proof {
        assert(forall|i: int|
            0 <= i < entries@.len() ==> !command_matches(entries@[i], command_name@));
    }
    Err(ToggleError::CommandNotFound { command_name: command_name.clone() })
}

/// Where one toggle cycle stands.  It advances only through
/// [`cycle_step`], one external reply at a time; `Done` and `Failed`
/// accept no further reply.
#[derive(Clone, Debug)]
pub enum ToggleState {
    /// Waiting for the user listing that resolves the channel.
    ResolveChannel,
    /// Waiting for the channel's command listing.
    ResolveCommand { channel_id: String },
    /// Waiting for the echo of the enabling commit.
    AwaitEnableEcho { channel_id: String, command: BotCommand },
    /// The command is enabled; the hold window is running.
    Hold { channel_id: String, command: BotCommand },
    /// Waiting for the echo of the disabling commit.
    AwaitDisableEcho { channel_id: String, command: BotCommand },
    /// The cycle ran to completion: enabled, held, disabled.
    Done,
    /// The cycle stopped at the step that failed.
    Failed { error: ToggleError },
}

/// What the cycle asks its driver to do next.
#[derive(Clone, Debug)]
pub enum ToggleAction {
    /// Fetch the user listing.
    FetchUsers,
    /// Fetch the channel's command listing.
    FetchCommands { channel_id: String },
    /// Commit the given command state and bring back the echo.
    CommitUpdate { channel_id: String, command: BotCommand },
    /// Hold the command enabled for [`HOLD_SECONDS`] seconds.
    Sleep { seconds: u64 },
    /// The cycle is over; report its state and take the next signal.
    Halt,
}

/// One external reply, fed back into the cycle.
#[derive(Clone, Debug)]
pub enum ToggleReply {
    /// The user listing arrived.
    Users { entries: Vec<UserAccess> },
    /// The command listing arrived.
    Commands { entries: Vec<BotCommand> },
    /// A commit returned this echo.
    UpdateEcho { echo: BotCommand },
    /// The hold window elapsed.
    Held,
}

/// Which reply a cycle state is waiting for.  `Done` and `Failed` wait
/// for none: a finished cycle cannot be driven further, so a cycle that
/// failed before its commit can never reach the hold or the disable.
pub open spec fn cycle_expects(state: ToggleState, reply: ToggleReply) -> bool {
    match state {
        ToggleState::ResolveChannel => reply is Users,
        ToggleState::ResolveCommand { .. } => reply is Commands,
        ToggleState::AwaitEnableEcho { .. } => reply is UpdateEcho,
        ToggleState::Hold { .. } => reply is Held,
        ToggleState::AwaitDisableEcho { .. } => reply is UpdateEcho,
        ToggleState::Done => false,
        ToggleState::Failed { .. } => false,
    }
}

/// Opens one cycle: nothing is resolved yet, the driver must fetch the
/// user listing first.
pub fn cycle_start() -> (r: (ToggleState, ToggleAction))
    ensures
        r.0 is ResolveChannel,
        r.1 is FetchUsers,
{
    (ToggleState::ResolveChannel, ToggleAction::FetchUsers)
}

/// Advances one cycle by one external reply.
///
/// The transitions, in the order the driver meets them:
/// - user listing: resolve the channel id, then ask for the command
///   listing — or fail with `NotFound` and halt;
/// - command listing: pick the configured command, mark it enabled and
///   ask for the commit — or fail with `NotFound` and halt;
/// - enabling echo: a confirmed echo is logged and starts the hold;
///   an unconfirmed one fails the cycle before any sleep or disable;
/// - hold elapsed: mark the command disabled and ask for the commit;
/// - disabling echo: a confirmed echo is logged and completes the
///   cycle; an unconfirmed one fails it.
///
/// An echo confirms a commit when it carries a non-empty command name.
pub fn cycle_step(
    state: ToggleState,
    reply: ToggleReply,
    config: &crate::config::Config,
    output: &mut StatusLog,
) -> (r: (ToggleState, ToggleAction))
    requires
        cycle_expects(state, reply),
    ensures
        state is ResolveChannel ==> ({
            let entries = reply->Users_entries;
            &&& some_user_matches(entries@, config.streamer@) ==> (r.0 matches
            ToggleState::ResolveCommand { channel_id } && r.1 == (ToggleAction::FetchCommands {
                channel_id,
            }) && (exists|i: int|
                0 <= i < entries@.len() && #[trigger] user_matches(entries@[i], config.streamer@)
                    && channel_id@ == entries@[i].channel_id@ && (forall|j: int|
                    0 <= j < i ==> !user_matches(entries@[j], config.streamer@))))
            &&& !some_user_matches(entries@, config.streamer@) ==> r.0 == (ToggleState::Failed {
                error: ToggleError::ChannelNotFound,
            }) && r.1 is Halt
            &&& final(output)@ == old(output)@
        }),
        state matches ToggleState::ResolveCommand { channel_id } ==> ({
            let entries = reply->Commands_entries;
            &&& some_command_matches(entries@, config.command_name@) ==> (exists|i: int|
                0 <= i < entries@.len() && #[trigger] command_matches(
                    entries@[i],
                    config.command_name@,
                ) && (forall|j: int| 0 <= j < i ==> !command_matches(entries@[j], config.command_name@))
                    && r.0 == (ToggleState::AwaitEnableEcho {
                    channel_id,
                    command: BotCommand {
                        id: entries@[i].id,
                        command: entries@[i].command,
                        enabled_online: true,
                    },
                }) && r.1 == (ToggleAction::CommitUpdate {
                    channel_id,
                    command: BotCommand {
                        id: entries@[i].id,
                        command: entries@[i].command,
                        enabled_online: true,
                    },
                }))
            &&& !some_command_matches(entries@, config.command_name@) ==> r.0 == (
            ToggleState::Failed {
                error: ToggleError::CommandNotFound { command_name: config.command_name },
            }) && r.1 is Halt
            &&& final(output)@ == old(output)@
        }),
        state matches ToggleState::AwaitEnableEcho { channel_id, command } ==> ({
            let echo = reply->UpdateEcho_echo;
            &&& echo.command@.len() > 0 ==> r.0 == (ToggleState::Hold { channel_id, command: echo })
                && r.1 == (ToggleAction::Sleep { seconds: HOLD_SECONDS }) && final(output)@ == old(output)@.push("Enabled command!"@).push(
                "Waiting 5 minutes..."@,
            )
            &&& echo.command@.len() == 0 ==> r.0 == (ToggleState::Failed {
                error: ToggleError::EnableRejected,
            }) && r.1 is Halt && !(r.1 is Sleep) && final(output)@ == old(output)@
        }),
        state matches ToggleState::Hold { channel_id, command } ==> ({
            let disabled = BotCommand {
                id: command.id,
                command: command.command,
                enabled_online: false,
            };
            &&& r.0 == (ToggleState::AwaitDisableEcho { channel_id, command: disabled })
            &&& r.1 == (ToggleAction::CommitUpdate { channel_id, command: disabled })
            &&& final(output)@ == old(output)@
        }),
        state matches ToggleState::AwaitDisableEcho { channel_id, command } ==> ({
            let echo = reply->UpdateEcho_echo;
            &&& echo.command@.len() > 0 ==> r.0 is Done && r.1 is Halt && final(output)@ == old(output)@.push(
                "Disabled command!"@,
            )
            &&& echo.command@.len() == 0 ==> r.0 == (ToggleState::Failed {
                error: ToggleError::DisableRejected,
            }) && r.1 is Halt && final(output)@ == old(output)@
        }),
{
    match state {
        ToggleState::ResolveChannel => {
            let entries = match reply {
                ToggleReply::Users { entries } => entries,
                // excluded by the precondition: this state waits for
                // the user listing
                _ => { return (ToggleState::ResolveChannel, ToggleAction::FetchUsers) },
            };
            match resolve_channel_id(&entries, &config.streamer) {
                Ok(channel_id) => {
                    let next = ToggleState::ResolveCommand { channel_id: channel_id.clone() };
                    (next, ToggleAction::FetchCommands { channel_id })
                },
                Err(error) => (ToggleState::Failed { error }, ToggleAction::Halt),
            }
        },
        ToggleState::ResolveCommand { channel_id } => {
            let entries = match reply {
                ToggleReply::Commands { entries } => entries,
                // excluded by the precondition
                _ => { return (ToggleState::ResolveChannel, ToggleAction::FetchUsers) },
            };
            match find_command(&entries, &config.command_name) {
                Ok(found) => {
                    let enabled = BotCommand {
                        id: found.id,
                        command: found.command,
                        enabled_online: true,
                    };
                    let next = ToggleState::AwaitEnableEcho {
                        channel_id: channel_id.clone(),
                        command: enabled.duplicate(),
                    };
                    (next, ToggleAction::CommitUpdate { channel_id, command: enabled })
                },
                Err(error) => (ToggleState::Failed { error }, ToggleAction::Halt),
            }
        },
        ToggleState::AwaitEnableEcho { channel_id, command: _ } => {
            let echo = match reply {
                ToggleReply::UpdateEcho { echo } => echo,
                // excluded by the precondition
                _ => { return (ToggleState::ResolveChannel, ToggleAction::FetchUsers) },
            };
            if !echo.command.as_str().is_empty() {
                output.append("Enabled command!".to_owned());
                output.append("Waiting 5 minutes...".to_owned());
                (
                    ToggleState::Hold { channel_id, command: echo },
                    ToggleAction::Sleep { seconds: HOLD_SECONDS },
                )
            } else {
                (
                    ToggleState::Failed { error: ToggleError::EnableRejected },
                    ToggleAction::Halt,
                )
            }
        },
        ToggleState::Hold { channel_id, command } => {
            let disabled = BotCommand {
                id: command.id,
                command: command.command,
                enabled_online: false,
            };
            let next = ToggleState::AwaitDisableEcho {
                channel_id: channel_id.clone(),
                command: disabled.duplicate(),
            };
            (next, ToggleAction::CommitUpdate { channel_id, command: disabled })
        },
        ToggleState::AwaitDisableEcho { channel_id: _, command: _ } => {
            let echo = match reply {
                ToggleReply::UpdateEcho { echo } => echo,
                // excluded by the precondition
                _ => { return (ToggleState::ResolveChannel, ToggleAction::FetchUsers) },
            };
            if !echo.command.as_str().is_empty() {
                output.append("Disabled command!".to_owned());
                (ToggleState::Done, ToggleAction::Halt)
            } else {
                (
                    ToggleState::Failed { error: ToggleError::DisableRejected },
                    ToggleAction::Halt,
                )
            }
        },
        ToggleState::Done => (ToggleState::Done, ToggleAction::Halt),
        ToggleState::Failed { error } => (ToggleState::Failed { error }, ToggleAction::Halt),
    }
}

/// Law: a cycle that has failed — in particular one that failed at the
/// enabling step — is final.  It waits for no reply, so it can never
/// reach the hold or the disabling commit.
pub proof fn lemma_failed_cycle_is_final(state: ToggleState, reply: ToggleReply)
    requires
        state is Failed || state is Done,
    ensures
        !cycle_expects(state, reply),
{
}

} // verus!
