//! The commands that turn an unpacked base filesystem into a bootable guest.

use vstd::prelude::*;

verus! {

/// The hypervisor's executable.
pub const FIRECRACKER_BIN: &'static str = "firecracker";

/// The guest's package manager, as a path inside the guest.
pub const APK: &'static str = "/sbin/apk";

/// One program invocation: the program's path and its arguments, in order.
#[derive(Debug, PartialEq, Eq)]
pub struct SetupCommand {
    pub program: String,
    pub args: Vec<String>,
}

/// A [`SetupCommand`] as text.
pub struct SetupCommandView {
    pub program: Seq<char>,
    pub args: Seq<Seq<char>>,
}

/// The text of each string of a list, in order.
pub open spec fn texts(strings: Seq<String>) -> Seq<Seq<char>> {
    strings.map_values(|s: String| s@)
}

/// Each command of a list as text, in order.
pub open spec fn command_views(commands: Seq<SetupCommand>) -> Seq<SetupCommandView> {
    commands.map_values(|c: SetupCommand| c@)
}

impl View for SetupCommand {
    type V = SetupCommandView;

    open spec fn view(&self) -> SetupCommandView {
        SetupCommandView { program: self.program@, args: texts(self.args@) }
    }
}

/// A copy of a list of strings.
pub fn copy_strings(strings: &Vec<String>) -> (copy: Vec<String>)
    ensures
        texts(copy@) == texts(strings@),
{
    let mut copy: Vec<String> = Vec::new();
    let mut index: usize = 0;
    while index < strings.len()
        invariant
            index <= strings.len(),
            copy.len() == index,
            forall|i: int| 0 <= i < index ==> copy@[i]@ == strings@[i]@,
        decreases strings.len() - index,
    {
        copy.push(strings[index].clone());
        index += 1;
    }
    assert(texts(copy@) =~= texts(strings@));
    copy
}

impl SetupCommand {
    /// A command from its program and arguments.
    pub fn new(program: &str, args: Vec<String>) -> (command: SetupCommand)
        ensures
            command@ == (SetupCommandView { program: program@, args: texts(args@) }),
    {
        SetupCommand { program: program.to_owned(), args }
    }

    /// A copy of this command.
    pub fn duplicate(&self) -> (copy: SetupCommand)
        ensures
            copy@ == self@,
    {
        SetupCommand { program: self.program.clone(), args: copy_strings(&self.args) }
    }
}

/// A copy of a list of commands.
pub fn copy_commands(commands: &Vec<SetupCommand>) -> (copy: Vec<SetupCommand>)
    ensures
        command_views(copy@) == command_views(commands@),
{
    let mut copy: Vec<SetupCommand> = Vec::new();
    let mut index: usize = 0;
    while index < commands.len()
        invariant
            index <= commands.len(),
            copy.len() == index,
            forall|i: int| 0 <= i < index ==> copy@[i]@ == commands@[i]@,
        decreases commands.len() - index,
    {
        copy.push(commands[index].duplicate());
        index += 1;
    }
    assert(command_views(copy@) =~= command_views(commands@));
    copy
}

/// The setup of an Alpine guest: refresh the package index, install the
/// kernel and the base system, and prepare the serial console.
pub open spec fn alpine_setup_commands() -> Seq<SetupCommandView> {
    seq![
        SetupCommandView { program: "/sbin/apk"@, args: seq!["update"@] },
        SetupCommandView {
            program: "/sbin/apk"@,
            args: seq![
                "add"@,
                "linux-virt"@,
                "mkinitfs"@,
                "alpine-base"@,
                "util-linux"@,
                "openrc"@,
                "openssh"@,
                "sudo"@,
            ],
        },
        SetupCommandView {
            program: "/bin/ln"@,
            args: seq!["-s"@, "agetty"@, "/etc/init.d/agetty.ttyS0"@],
        },
        SetupCommandView {
            program: "/bin/echo"@,
            args: seq!["ttyS0"@, ">"@, "/etc/securetty"@],
        },
    ]
}

/// The commands that set up an Alpine guest, in the order in which they run.
pub fn get_alpine_setup_commands() -> (commands: Vec<SetupCommand>)
    ensures
        command_views(commands@) == alpine_setup_commands(),
{
    let mut update_args: Vec<String> = Vec::new();
    update_args.push("update".to_owned());
    assert(texts(update_args@) =~= seq!["update"@]);
    let update = SetupCommand::new(APK, update_args);

    let mut add_args: Vec<String> = Vec::new();
    add_args.push("add".to_owned());
    add_args.push("linux-virt".to_owned());
    add_args.push("mkinitfs".to_owned());
    add_args.push("alpine-base".to_owned());
    add_args.push("util-linux".to_owned());
    add_args.push("openrc".to_owned());
    add_args.push("openssh".to_owned());
    add_args.push("sudo".to_owned());
    assert(texts(add_args@) =~= seq![
        "add"@,
        "linux-virt"@,
        "mkinitfs"@,
        "alpine-base"@,
        "util-linux"@,
        "openrc"@,
        "openssh"@,
        "sudo"@,
    ]);
    let add = SetupCommand::new(APK, add_args);

    let mut link_args: Vec<String> = Vec::new();
    link_args.push("-s".to_owned());
    link_args.push("agetty".to_owned());
    link_args.push("/etc/init.d/agetty.ttyS0".to_owned());
    assert(texts(link_args@) =~= seq!["-s"@, "agetty"@, "/etc/init.d/agetty.ttyS0"@]);
    let link = SetupCommand::new("/bin/ln", link_args);

    let mut tty_args: Vec<String> = Vec::new();
    tty_args.push("ttyS0".to_owned());
    tty_args.push(">".to_owned());
    tty_args.push("/etc/securetty".to_owned());
    assert(texts(tty_args@) =~= seq!["ttyS0"@, ">"@, "/etc/securetty"@]);
    let tty = SetupCommand::new("/bin/echo", tty_args);

    let mut commands: Vec<SetupCommand> = Vec::new();
    commands.push(update);
    commands.push(add);
    commands.push(link);
    commands.push(tty);
    assert(command_views(commands@) =~= alpine_setup_commands());
    commands
}

} // verus!
