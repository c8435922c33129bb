//! From what a resolution found to the command that starts the server.

use vstd::prelude::*;
use crate::command::{build_css_variables_command, css_variables_command_of, env_views,
    invocation, invocation_of, Command, CommandView};
use crate::release::Platform;
use crate::resolver::{Resolved, ResolvedView, Tier};
use crate::text::string_views;

verus! {

/// A binary from the search path is started through a login shell wherever
/// there is one: it may be a script that needs the user's own search path to
/// find its interpreter.
pub open spec fn runs_in_shell(tier: Tier, platform: Platform) -> bool {
    tier == Tier::AmbientPath && platform != Platform::Windows
}

/// The command that starts what was found.
///
/// The alternate channel's command is complete as it stands. A binary is run
/// with the configured arguments, in the host's environment with the extra
/// directories on its search path; directly, or through the shell where
/// `runs_in_shell` says so.
pub open spec fn launch_command_of(
    resolved: ResolvedView,
    platform: Platform,
    args: Seq<Seq<char>>,
    env: Seq<(Seq<char>, Seq<char>)>,
) -> CommandView {
    match resolved {
        ResolvedView::Command(command) => command,
        ResolvedView::Binary(binary) => if runs_in_shell(binary.tier, platform) {
            css_variables_command_of(Some(binary.path), args, env)->Ok_0
        } else {
            invocation_of(binary.path, args, env)
        },
    }
}

/// The command that starts what a resolution found.
pub fn launch_command(
    resolved: Resolved,
    platform: Platform,
    extra_args: &Vec<String>,
    env: &Vec<(String, String)>,
) -> (command: Command)
    ensures
        command@ == launch_command_of(
            resolved@,
            platform,
            string_views(extra_args@),
            env_views(env@),
        ),
{
    match resolved {
        Resolved::Command(command) => command,
        Resolved::Binary(binary) => {
            let on_search_path = match binary.tier {
                Tier::AmbientPath => true,
                _ => false,
            };
            let has_shell = match platform {
                Platform::Windows => false,
                _ => true,
            };
            if on_search_path && has_shell {
                match build_css_variables_command(Some(binary.path.as_str()), extra_args, env) {
                    Ok(command) => command,
                    Err(_) => invocation(binary.path.as_str(), extra_args, env),
                }
            } else {
                invocation(binary.path.as_str(), extra_args, env)
            }
        },
    }
}

} // verus!
