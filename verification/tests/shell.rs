use llm_term::shell::Shell;

#[test]
fn each_flavor_has_its_label() {
    assert_eq!(Shell::Powershell.label(), "Windows PowerShell");
    assert_eq!(Shell::BornAgainShell.label(), "Bourne Again Shell (bash / sh)");
    assert_eq!(Shell::Zsh.label(), "Z Shell (zsh)");
    assert_eq!(Shell::Fish.label(), "Friendly Interactive Shell (fish)");
    assert_eq!(Shell::DebianAlmquistShell.label(), "Debian Almquist Shell (dash)");
    assert_eq!(Shell::KornShell.label(), "Korn Shell (ksh)");
    assert_eq!(Shell::CShell.label(), "C Shell (csh)");
    assert_eq!(Shell::Unknown.label(), "a generic Unix-like shell");
}

#[test]
fn each_flavor_has_its_invocation() {
    assert_eq!(Shell::Powershell.to_shell_command_and_command_arg(), ("powershell", "-Command"));
    assert_eq!(Shell::BornAgainShell.to_shell_command_and_command_arg(), ("bash", "-c"));
    assert_eq!(Shell::Zsh.to_shell_command_and_command_arg(), ("zsh", "-c"));
    assert_eq!(Shell::Fish.to_shell_command_and_command_arg(), ("fish", "-c"));
    assert_eq!(Shell::DebianAlmquistShell.to_shell_command_and_command_arg(), ("dash", "-c"));
    assert_eq!(Shell::KornShell.to_shell_command_and_command_arg(), ("ksh", "-c"));
    assert_eq!(Shell::CShell.to_shell_command_and_command_arg(), ("csh", "-c"));
    assert_eq!(Shell::Unknown.to_shell_command_and_command_arg(), ("sh", "-c"));
}

#[test]
fn a_program_name_stands_for_its_flavor() {
    assert_eq!(Shell::from_program("bash"), Shell::BornAgainShell);
    assert_eq!(Shell::from_program("sh"), Shell::BornAgainShell);
    assert_eq!(Shell::from_program("zsh"), Shell::Zsh);
    assert_eq!(Shell::from_program("fish"), Shell::Fish);
    assert_eq!(Shell::from_program("dash"), Shell::DebianAlmquistShell);
    assert_eq!(Shell::from_program("ksh"), Shell::KornShell);
    assert_eq!(Shell::from_program("csh"), Shell::CShell);
    assert_eq!(Shell::from_program("powershell"), Shell::Powershell);
}

#[test]
fn an_unknown_program_name_is_the_unknown_flavor() {
    assert_eq!(Shell::from_program(""), Shell::Unknown);
    assert_eq!(Shell::from_program("Bash"), Shell::Unknown);
    assert_eq!(Shell::from_program("/bin/bash"), Shell::Unknown);
    assert_eq!(Shell::from_program("nu"), Shell::Unknown);
    assert_eq!(Shell::from_program("bash "), Shell::Unknown);
}
