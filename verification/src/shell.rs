//! Shell flavors and how each one is named and invoked.

use crate::text::same_text;
use vstd::prelude::*;

verus! {

/// The command interpreter a generated command is meant for.
#[derive(Clone, Copy, Debug, PartialEq, Eq, Structural)]
pub enum Shell {
    Powershell,
    BornAgainShell,
    Zsh,
    Fish,
    DebianAlmquistShell,
    KornShell,
    CShell,
    Unknown,
}

impl Shell {
    /// The flavor that an interpreter's program name stands for.
    pub open spec fn of_program(program: Seq<char>) -> Shell {
        if program == "powershell"@ {
            Shell::Powershell
        } else if program == "bash"@ || program == "sh"@ {
            Shell::BornAgainShell
        } else if program == "zsh"@ {
            Shell::Zsh
        } else if program == "fish"@ {
            Shell::Fish
        } else if program == "dash"@ {
            Shell::DebianAlmquistShell
        } else if program == "ksh"@ {
            Shell::KornShell
        } else if program == "csh"@ {
            Shell::CShell
        } else {
            Shell::Unknown
        }
    }

    /// The flavor that an interpreter's program name stands for; a name
    /// that is not known stands for [`Shell::Unknown`].
    pub fn from_program(program: &str) -> (shell: Shell)
        ensures
            shell == Shell::of_program(program@),
    {
        if same_text(program, "powershell") {
            Shell::Powershell
        } else if same_text(program, "bash") || same_text(program, "sh") {
            Shell::BornAgainShell
        } else if same_text(program, "zsh") {
            Shell::Zsh
        } else if same_text(program, "fish") {
            Shell::Fish
        } else if same_text(program, "dash") {
            Shell::DebianAlmquistShell
        } else if same_text(program, "ksh") {
            Shell::KornShell
        } else if same_text(program, "csh") {
            Shell::CShell
        } else {
            Shell::Unknown
        }
    }

    /// The program that runs a command in this flavor, and the flag that
    /// goes before the command.
    pub open spec fn invocation(self) -> (Seq<char>, Seq<char>) {
        match self {
            Shell::Powershell => ("powershell"@, "-Command"@),
            Shell::BornAgainShell => ("bash"@, "-c"@),
            Shell::Zsh => ("zsh"@, "-c"@),
            Shell::Fish => ("fish"@, "-c"@),
            Shell::DebianAlmquistShell => ("dash"@, "-c"@),
            Shell::KornShell => ("ksh"@, "-c"@),
            Shell::CShell => ("csh"@, "-c"@),
            Shell::Unknown => ("sh"@, "-c"@),
        }
    }

    /// The program that runs a command in this flavor, and the flag that
    /// goes before the command.
    pub fn to_shell_command_and_command_arg(&self) -> (pair: (&'static str, &'static str))
        ensures
            pair.0@ == self.invocation().0,
            pair.1@ == self.invocation().1,
    {
        match self {
            Shell::Powershell => ("powershell", "-Command"),
            Shell::BornAgainShell => ("bash", "-c"),
            Shell::Zsh => ("zsh", "-c"),
            Shell::Fish => ("fish", "-c"),
            Shell::DebianAlmquistShell => ("dash", "-c"),
            Shell::KornShell => ("ksh", "-c"),
            Shell::CShell => ("csh", "-c"),
            Shell::Unknown => ("sh", "-c"),
        }
    }

    /// The name under which the flavor is described to a model.
    pub open spec fn label_text(self) -> Seq<char> {
        match self {
            Shell::Powershell => "Windows PowerShell"@,
            Shell::BornAgainShell => "Bourne Again Shell (bash / sh)"@,
            Shell::Zsh => "Z Shell (zsh)"@,
            Shell::Fish => "Friendly Interactive Shell (fish)"@,
            Shell::DebianAlmquistShell => "Debian Almquist Shell (dash)"@,
            Shell::KornShell => "Korn Shell (ksh)"@,
            Shell::CShell => "C Shell (csh)"@,
            Shell::Unknown => "a generic Unix-like shell"@,
        }
    }

    /// The name under which the flavor is described to a model.
    pub fn label(&self) -> (name: &'static str)
        ensures
            name@ == self.label_text(),
    {
        match self {
            Shell::Powershell => "Windows PowerShell",
            Shell::BornAgainShell => "Bourne Again Shell (bash / sh)",
            Shell::Zsh => "Z Shell (zsh)",
            Shell::Fish => "Friendly Interactive Shell (fish)",
            Shell::DebianAlmquistShell => "Debian Almquist Shell (dash)",
            Shell::KornShell => "Korn Shell (ksh)",
            Shell::CShell => "C Shell (csh)",
            Shell::Unknown => "a generic Unix-like shell",
        }
    }
}

} // verus!
