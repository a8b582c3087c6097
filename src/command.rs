use vstd::prelude::*;
use vstd::string::StringExecFns;

verus! {

/// The operating-system family the supervisor runs on.
#[derive(Clone, Copy, Debug, PartialEq, Eq, Structural)]
pub enum Platform {
    /// Windows: the start command goes through a command shell.
    Windows,
    /// Every other platform: `npm` is invoked directly.
    Unix,
}

/// A program and its arguments.
#[derive(Debug)]
pub struct LaunchCommand {
    pub program: String,
    pub args: Vec<String>,
}

impl LaunchCommand {
    /// The program's text and the texts of its arguments.
    pub open spec fn view_parts(&self) -> (Seq<char>, Seq<Seq<char>>) {
        (self.program@, self.args.deep_view())
    }
}

/// The command the server is started with on `platform` at the given
/// attempt: on Windows `cmd /C "npm run start"` first and, should that fail,
/// `powershell -Command "npm run start"`; elsewhere `npm run start` alone.
pub open spec fn command_spec(platform: Platform, attempt: nat) -> Option<
    (Seq<char>, Seq<Seq<char>>),
> {
    match platform {
        Platform::Windows => if attempt == 0 {
            Some(("cmd"@, seq!["/C"@, "npm run start"@]))
        } else if attempt == 1 {
            Some(("powershell"@, seq!["-Command"@, "npm run start"@]))
        } else {
            None
        },
        Platform::Unix => if attempt == 0 {
            Some(("npm"@, seq!["run"@, "start"@]))
        } else {
            None
        },
    }
}

/// How many ways of starting the server `platform` has.
pub open spec fn command_count(platform: Platform) -> nat {
    match platform {
        Platform::Windows => 2,
        Platform::Unix => 1,
    }
}

fn command_of(program: &str, first: &str, second: &str) -> (r: LaunchCommand)
    ensures
        r.view_parts() == (program@, seq![first@, second@]),
{
    let mut args: Vec<String> = Vec::new();
    args.push(String::from_str(first));
    args.push(String::from_str(second));
    assert(args.deep_view() =~= seq![first@, second@]);
    LaunchCommand { program: String::from_str(program), args }
}

/// The command of the given attempt at starting the server on `platform`,
/// or nothing once every way has been tried.
pub fn launch_command(platform: Platform, attempt: usize) -> (r: Option<LaunchCommand>)
    ensures
        match r {
            Some(c) => command_spec(platform, attempt as nat) == Some(c.view_parts()),
            None => command_spec(platform, attempt as nat) is None,
        },
{
    match platform {
        Platform::Windows => if attempt == 0 {
            Some(command_of("cmd", "/C", "npm run start"))
        } else if attempt == 1 {
            Some(command_of("powershell", "-Command", "npm run start"))
        } else {
            None
        },
        Platform::Unix => if attempt == 0 {
            Some(command_of("npm", "run", "start"))
        } else {
            None
        },
    }
}

} // verus!
