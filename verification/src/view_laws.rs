//! The values that contracts speak of are those that the fields hold.

use crate::args::Args;
use crate::command::{texts, Command};
use crate::driver::{Capability, DriverSession};
use crate::render::{Action, ActionView};
use crate::sequence::{FetchAction, FetchActionView};
use crate::start::{StartAction, StartActionView};
use crate::status::RenderState;
use vstd::prelude::*;

verus! {

/// The values of settings are those of their fields.
pub proof fn law_args_values(args: Args)
    ensures
        args@.origin == args.origin@,
        args@.sequence_origin == args.sequence_origin@,
        args@.driver_executable == args.driver_executable@,
        args@.ffmpeg_executable == args.ffmpeg_executable@,
        args@.renders == args.renders,
{
}

/// The values of a state are those of its fields.
pub proof fn law_state_values(state: RenderState)
    ensures
        state@.progress == state.progress@,
        state@.status == state.status,
{
}

/// The values of a command are its program and its arguments, in their order.
pub proof fn law_command_values(command: Command, i: int)
    ensures
        command@.program == command.program@,
        command@.args.len() == command.args@.len(),
        0 <= i < command.args@.len() ==> command@.args[i] == command.args@[i]@,
{
}

/// The texts in a list are those of its items, in their order.
pub proof fn law_texts(list: Seq<String>, i: int)
    ensures
        texts(list).len() == list.len(),
        0 <= i < list.len() ==> texts(list)[i] == list[i]@,
{
}

/// The values of a session, and of its capability, are those of the fields.
pub proof fn law_session_values(session: DriverSession, capability: Capability, i: int)
    ensures
        session@.address == session.address@,
        session@.page == session.page@,
        session@.profile_id == session.profile_id@,
        session@.capability == session.capability@,
        capability@.name == capability.name@,
        capability@.args.len() == capability.args@.len(),
        0 <= i < capability.args@.len() ==> capability@.args[i] == capability.args@[i]@,
        capability@.prefs.len() == capability.prefs@.len(),
        0 <= i < capability.prefs@.len() ==> capability@.prefs[i] == (
            capability.prefs@[i].0@,
            capability.prefs@[i].1@,
        ),
{
}

/// The values of a piece of work are those that it holds.
pub proof fn law_action_values(action: Action)
    ensures
        match action {
            Action::Pause(millis) => action@ == ActionView::Pause(millis as nat),
            Action::StartDriver { path } => action@ == ActionView::StartDriver { path: path@ },
            Action::Connect { origin, port } => action@ == ActionView::Connect {
                origin: origin@,
                port,
            },
            Action::Execute(script) => action@ == ActionView::Execute(script@),
            Action::Measure { time, length } => action@ == ActionView::Measure { time, length },
            Action::Write { path, data } => action@ == ActionView::Write {
                path: path@,
                data: data@,
            },
            Action::Convert(command) => action@ == ActionView::Convert(command@),
            Action::Close => action@ is Close,
            Action::StopDriver => action@ is StopDriver,
            Action::RemoveProfile { profile_id } => action@ == ActionView::RemoveProfile {
                profile_id: profile_id@,
            },
            Action::Finish(result) => action@ == ActionView::Finish(result),
        },
{
}

/// The values of what a request needs, and of what fetching needs, are those that they hold.
pub proof fn law_start_and_fetch_values(start: StartAction, fetch: FetchAction)
    ensures
        match start {
            StartAction::Reply(status) => start@ == StartActionView::Reply(status),
            StartAction::Fetch { origin } => start@ == StartActionView::Fetch { origin: origin@ },
            StartAction::Launch(job) => start@ == StartActionView::Launch(job@),
        },
        match fetch {
            FetchAction::Get { url } => fetch@ == FetchActionView::Get { url: url@ },
            FetchAction::ReadBody => fetch@ is ReadBody,
            FetchAction::Give(data) => fetch@ == FetchActionView::Give(data),
            FetchAction::Fail { message: Some(message) } => fetch@ == FetchActionView::Fail {
                message: Some(message@),
            },
            FetchAction::Fail { message: None } => fetch@ == FetchActionView::Fail { message: None },
        },
{
}

} // verus!
