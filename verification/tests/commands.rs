use usb_reattach::command::{CommandOutput, Invocation, Operation};
use usb_reattach::config::Config;

fn output_with(status: Option<i32>, stdout: &[u8], stderr: &[u8]) -> CommandOutput {
    CommandOutput { status, stdout: stdout.to_vec(), stderr: stderr.to_vec() }
}

#[test]
fn detach_command_line() {
    let invocation = Invocation::new(Operation::Detach, "vm1", "usb.xml");
    assert_eq!(invocation.program, "virsh");
    assert_eq!(invocation.args, vec!["detach-device", "vm1", "--file", "usb.xml"]);
}

#[test]
fn attach_command_line() {
    let invocation = Invocation::new(Operation::Attach, "vm1", "usb.xml");
    assert_eq!(invocation.program, "virsh");
    assert_eq!(invocation.args, vec!["attach-device", "vm1", "--file", "usb.xml"]);
}

#[test]
fn command_line_keeps_arguments_as_they_are() {
    let invocation = Invocation::new(Operation::Detach, "", "/tmp/my usb --file.xml");
    assert_eq!(invocation.args, vec!["detach-device", "", "--file", "/tmp/my usb --file.xml"]);
    let machine = "5f0c7b1e-ümlaut";
    let invocation = Invocation::new(Operation::Attach, machine, "d");
    assert_eq!(invocation.args.len(), 4);
    assert_eq!(invocation.args[1], machine);
    assert_eq!(invocation.args[3], "d");
}

#[test]
fn empty_error_stream_is_no_error() {
    assert!(!output_with(Some(0), b"Device detached successfully\n", b"").reports_error());
    assert!(!output_with(None, b"", b"").reports_error());
}

#[test]
fn any_error_output_is_an_error() {
    assert!(output_with(Some(1), b"", b"error: failed to get domain\n").reports_error());
    assert!(output_with(Some(0), b"", b"\n").reports_error());
    assert!(output_with(None, b"", b"\0").reports_error());
}

#[test]
fn exit_status_is_not_consulted() {
    assert!(!output_with(Some(1), b"", b"").reports_error());
    assert!(!output_with(Some(-1), b"out", b"").reports_error());
    assert!(output_with(Some(0), b"Device attached successfully\n", b"warning").reports_error());
    for status in [None, Some(0), Some(1), Some(255)] {
        assert_eq!(
            output_with(status, b"", b"x").reports_error(),
            output_with(Some(0), b"other", b"x").reports_error()
        );
    }
}

#[test]
fn launch_failure_texts() {
    assert_eq!(Operation::Detach.launch_failure(), "failed to detach usb");
    assert_eq!(Operation::Attach.launch_failure(), "failed to attach usb");
}

#[test]
fn config_hands_back_what_it_was_given() {
    let config = Config::new("vm1".to_string(), "usb.xml".to_string(), 9000);
    assert_eq!(config.machine(), "vm1");
    assert_eq!(config.usb_file(), "usb.xml");
    assert_eq!(config.port(), 9000);
    let config = Config::new(String::new(), String::new(), 0);
    assert_eq!(config.machine(), "");
    assert_eq!(config.usb_file(), "");
    assert_eq!(config.port(), 0);
    assert_eq!(Config::new("a".to_string(), "b".to_string(), 65535).port(), 65535);
}
