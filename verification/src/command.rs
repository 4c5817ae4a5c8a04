use crate::track::start_spec;
use crate::track::stop_spec;
use crate::track::TrackError;
use crate::track::Tracker;
use vstd::prelude::*;

verus! {

/// The commands the front end can hand to the core, already parsed.
#[derive(Debug, Clone, Copy, PartialEq, Eq, Structural)]
pub enum Command {
    Stats,
    Track,
    Untrack,
    Link,
    Unlink,
    Id,
    Help,
}

/// What the caller must do in response to a command. The core decides;
/// the surrounding program performs the fetching, storing and sending.
#[derive(Debug)]
pub enum CommandAction {
    ShowStats { player_id: String },
    BeginTracking { player_id: String, interval: u64 },
    StopAck,
    NotTracking,
    LinkAccount { player_id: String },
    UnlinkAccount,
    SearchId { name: String },
    ShowHelp,
    Rejected(TrackError),
}

/// The player a command applies to: the explicit target when one was
/// given, else the account linked to the caller.
pub open spec fn resolved_target(target: Option<String>, linked: Option<String>) -> Option<
    String,
> {
    if target is Some {
        target
    } else {
        linked
    }
}

/// Decides what a parsed command does: validates its inputs, applies
/// `start`/`stop` to the session registry, and tells the caller which
/// outward action to perform. Only `Track` and `Untrack` touch the
/// registry.
pub fn handle_command(
    tracker: &mut Tracker,
    ctx: u64,
    cmd: Command,
    target: Option<String>,
    interval: Option<u64>,
    linked: Option<String>,
) -> (r: CommandAction)
    ensures
        cmd == Command::Help ==> r == CommandAction::ShowHelp && final(tracker)@ == old(tracker)@,
        cmd == Command::Unlink ==> r == CommandAction::UnlinkAccount && final(tracker)@ == old(
            tracker,
        )@,
        cmd == Command::Stats ==> final(tracker)@ == old(tracker)@ && (match resolved_target(
            target,
            linked,
        ) {
            Some(id) => r matches CommandAction::ShowStats { player_id } && player_id@ == id@,
            None => r == CommandAction::Rejected(TrackError::InvalidArgument),
        }),
        cmd == Command::Id ==> final(tracker)@ == old(tracker)@ && (match target {
            Some(n) => r matches CommandAction::SearchId { name } && name@ == n@,
            None => r == CommandAction::Rejected(TrackError::InvalidArgument),
        }),
        cmd == Command::Link ==> final(tracker)@ == old(tracker)@ && (match target {
            Some(id) => r matches CommandAction::LinkAccount { player_id } && player_id@ == id@,
            None => r == CommandAction::Rejected(TrackError::InvalidArgument),
        }),
        cmd == Command::Untrack ==> final(tracker)@ == stop_spec(old(tracker)@, ctx).0 && r == (
        if stop_spec(old(tracker)@, ctx).1 {
            CommandAction::StopAck
        } else {
            CommandAction::NotTracking
        }),
        cmd == Command::Track ==> (match (resolved_target(target, linked), interval) {
            (Some(id), Some(iv)) => final(tracker)@ == start_spec(old(tracker)@, ctx, id, iv).0
                && (if start_spec(old(tracker)@, ctx, id, iv).1 is Ok {
                r matches CommandAction::BeginTracking { player_id, interval: riv } && player_id@
                    == id@ && riv == iv
            } else {
                r == CommandAction::Rejected(TrackError::InvalidArgument)
            }),
            _ => final(tracker)@ == old(tracker)@ && r == CommandAction::Rejected(
                TrackError::InvalidArgument,
            ),
        }),
{
    match cmd {
        Command::Help => CommandAction::ShowHelp,
        Command::Unlink => CommandAction::UnlinkAccount,
        Command::Stats => {
            let id_opt = match target {
                Some(t) => Some(t),
                None => linked,
            };
            match id_opt {
                Some(id) => CommandAction::ShowStats { player_id: id },
                None => CommandAction::Rejected(TrackError::InvalidArgument),
            }
        },
        Command::Id => match target {
            Some(n) => CommandAction::SearchId { name: n },
            None => CommandAction::Rejected(TrackError::InvalidArgument),
        },
        Command::Link => match target {
            Some(id) => CommandAction::LinkAccount { player_id: id },
            None => CommandAction::Rejected(TrackError::InvalidArgument),
        },
        Command::Untrack => {
            if tracker.stop(ctx) {
                CommandAction::StopAck
            } else {
                CommandAction::NotTracking
            }
        },
        Command::Track => {
            let id_opt = match target {
                Some(t) => Some(t),
                None => linked,
            };
            match (id_opt, interval) {
                (Some(id), Some(iv)) => {
                    let id_kept = id.clone();
                    match tracker.start(ctx, id, iv) {
                        Ok(()) => CommandAction::BeginTracking { player_id: id_kept, interval: iv },
                        Err(_) => CommandAction::Rejected(TrackError::InvalidArgument),
                    }
                },
                _ => CommandAction::Rejected(TrackError::InvalidArgument),
            }
        },
    }
}

} // verus!
