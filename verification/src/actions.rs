//! The actions on an instance: what is asked of the EC2 API, and what the
//! user is told.
use vstd::prelude::*;
use crate::instance::Instance;
use crate::text::{debug_quoted, debug_text, push_all_str};

verus! {

/// An action on an instance.
#[derive(PartialEq, Eq, Structural, Clone, Copy, Debug, Hash)]
pub enum Actions {
    Start,
    Stop,
    Terminate,
    Reboot,
}

/// A request of an action on instances.
pub struct ActionRequest {
    pub action: Actions,
    pub dry_run: Option<bool>,
    pub instance_ids: Vec<String>,
}

/// The request of `action` on `inst` alone, as a dry run or not.
pub fn action_request(action: Actions, inst: &Instance, dry_run: bool) -> (r: ActionRequest)
    requires
        inst@.instance.instance_id is Some,
    ensures
        r.action == action,
        r.dry_run == Some(dry_run),
        r.instance_ids@.map_values(|s: String| s@) == seq![inst@.instance.instance_id->0],
{
    let mut ids: Vec<String> = Vec::new();
    ids.push(inst.instance.instance_id.as_ref().unwrap().clone());
    let r = ActionRequest { action, dry_run: Some(dry_run), instance_ids: ids };
    assert(r.instance_ids@.map_values(|s: String| s@) =~= seq![inst@.instance.instance_id->0]);
    r
}

/// The menu of actions: label and action, top to bottom.
pub open spec fn action_menu() -> Seq<(Seq<char>, Actions)> {
    seq![("start"@, Actions::Start), ("stop"@, Actions::Stop), ("terminate"@, Actions::Terminate), ("reboot"@, Actions::Reboot)]
}

/// The lower-case name of an action.
pub open spec fn action_name(a: Actions) -> Seq<char> {
    match a {
        Actions::Start => "start"@,
        Actions::Stop => "stop"@,
        Actions::Terminate => "terminate"@,
        Actions::Reboot => "reboot"@,
    }
}

/// The menu of actions.
pub fn action_choices() -> (r: Vec<(String, Actions)>)
    ensures
        r@.map_values(|c: (String, Actions)| (c.0@, c.1)) == action_menu(),
        forall|i: int| 0 <= i < r@.len() ==> (#[trigger] r@[i]).0@ == action_name(r@[i].1),
{
    let mut r: Vec<(String, Actions)> = Vec::new();
    r.push(("start".to_owned(), Actions::Start));
    r.push(("stop".to_owned(), Actions::Stop));
    r.push(("terminate".to_owned(), Actions::Terminate));
    r.push(("reboot".to_owned(), Actions::Reboot));
    assert(r@.map_values(|c: (String, Actions)| (c.0@, c.1)) =~= action_menu());
    r
}

/// The title of the dialog telling that an action was accepted.
pub open spec fn action_title(a: Actions) -> Seq<char> {
    match a {
        Actions::Start => "Start instance"@,
        Actions::Stop => "Stop instance"@,
        Actions::Terminate => "Stop instance"@,
        Actions::Reboot => "Reboot instance"@,
    }
}

/// The text of the dialog telling that an action was accepted.
pub open spec fn action_message(a: Actions) -> Seq<char> {
    match a {
        Actions::Start => "The instance will start."@,
        Actions::Stop => "The instance will be stopped."@,
        Actions::Terminate => "The instance will be terminated."@,
        Actions::Reboot => "The instance will reboot."@,
    }
}

/// The title of the dialog telling that an action failed.
pub open spec fn action_failure(a: Actions) -> Seq<char> {
    match a {
        Actions::Start => "Could not start instance."@,
        Actions::Stop => "Could not stop instance."@,
        Actions::Terminate => "Could not terminate instance."@,
        Actions::Reboot => "Could not reboot instance."@,
    }
}

/// What the user is told of an action.
pub struct ActionTexts {
    pub title: String,
    pub message: String,
    pub failure: String,
}

/// What the user is told of `a`.
pub fn action_texts(a: Actions) -> (r: ActionTexts)
    ensures
        r.title@ == action_title(a),
        r.message@ == action_message(a),
        r.failure@ == action_failure(a),
{
    match a {
        Actions::Start => ActionTexts {
            title: "Start instance".to_owned(),
            message: "The instance will start.".to_owned(),
            failure: "Could not start instance.".to_owned(),
        },
        Actions::Stop => ActionTexts {
            title: "Stop instance".to_owned(),
            message: "The instance will be stopped.".to_owned(),
            failure: "Could not stop instance.".to_owned(),
        },
        Actions::Terminate => ActionTexts {
            title: "Stop instance".to_owned(),
            message: "The instance will be terminated.".to_owned(),
            failure: "Could not terminate instance.".to_owned(),
        },
        Actions::Reboot => ActionTexts {
            title: "Reboot instance".to_owned(),
            message: "The instance will reboot.".to_owned(),
            failure: "Could not reboot instance.".to_owned(),
        },
    }
}

/// The title of the action menu for `inst`: `Action (instance-id)`.
pub fn action_menu_title(inst: &Instance) -> (r: String)
    requires
        inst@.instance.instance_id is Some,
    ensures
        r@ == "Action ("@ + inst@.instance.instance_id->0 + ")"@,
{
    let mut r = "Action (".to_owned();
    push_all_str(&mut r, inst.instance.instance_id.as_ref().unwrap().as_str());
    push_all_str(&mut r, ")");
    r
}


/// The shell command that opens a Session Manager session to an instance:
/// the profile and the region are written with `Debug` formatting inside
/// double quotes, the instance id as it is, and the command then waits for a
/// key before the pane closes.
pub open spec fn session_command_text(profile: Seq<char>, region: Seq<char>, id: Seq<char>) -> Seq<char> {
    "aws ssm start-session --profile \""@ + debug_text(profile) + "\" --region \""@ + debug_text(region)
        + "\" --target \""@ + id + "\"; read -n 1 -s -r -p \"Press any key to continue\""@
}

/// The shell command that opens a session to `inst` in its profile and
/// region.
pub fn session_command(inst: &Instance) -> (r: String)
    requires
        inst@.instance.instance_id is Some,
    ensures
        r@ == session_command_text(inst@.profile, inst@.region, inst@.instance.instance_id->0),
{
    let mut r = "aws ssm start-session --profile \"".to_owned();
    let p = debug_quoted(inst.profile.as_str());
    push_all_str(&mut r, p.as_str());
    push_all_str(&mut r, "\" --region \"");
    let g = debug_quoted(inst.region.as_str());
    push_all_str(&mut r, g.as_str());
    push_all_str(&mut r, "\" --target \"");
    push_all_str(&mut r, inst.instance.instance_id.as_ref().unwrap().as_str());
    push_all_str(&mut r, "\"; read -n 1 -s -r -p \"Press any key to continue\"");
    r
}

} // verus!
