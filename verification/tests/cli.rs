use devicehub::cli::{
    headless_vnc, mcp_bind, parse_args, vnc_settings, Cli, Refused, StoredVnc, VncSettings,
};

fn parse(args: &[&str]) -> Result<Cli, Refused> {
    parse_args(&args.iter().map(|a| a.to_string()).collect())
}

fn message(args: &[&str]) -> Option<String> {
    parse(args).unwrap_err().message()
}

fn nothing_stored() -> StoredVnc {
    StoredVnc { host: None, port: None, password: None, enabled: None }
}

fn something_stored() -> StoredVnc {
    StoredVnc {
        host: Some("0.0.0.0".to_string()),
        port: Some("5901".to_string()),
        password: Some("stored".to_string()),
        enabled: Some(true),
    }
}

fn shown(vnc: &VncSettings) -> (bool, &str, &str) {
    (vnc.enabled, &vnc.addr, &vnc.password)
}

#[test]
fn no_arguments_open_the_window() {
    let cli = parse(&[]).unwrap();
    assert!(!cli.headless && !cli.vnc_enabled && cli.mcp_enabled);
    assert!(cli.udid.is_none() && cli.vnc_addr.is_none() && cli.vnc_password.is_none());
    assert!(cli.mcp_addr.is_none());
}

#[test]
fn headless_turns_the_servers_on() {
    let cli = parse(&["--headless", "00008120-0A"]).unwrap();
    assert!(cli.headless && cli.vnc_enabled && cli.mcp_enabled);
    assert_eq!(cli.udid.unwrap(), "00008120-0A");
}

#[test]
fn the_last_flag_wins() {
    assert!(!parse(&["--headless", "--no-vnc"]).unwrap().vnc_enabled);
    assert!(!parse(&["--no-vnc", "--headless"]).unwrap().vnc_enabled);
    assert!(parse(&["--no-vnc", "--vnc"]).unwrap().vnc_enabled);
    assert!(!parse(&["--vnc", "--no-vnc"]).unwrap().vnc_enabled);
    assert!(!parse(&["--mcp", "--no-mcp"]).unwrap().mcp_enabled);
    assert!(parse(&["--no-mcp", "--mcp"]).unwrap().mcp_enabled);
}

#[test]
fn a_value_follows_unless_it_is_an_option() {
    let cli = parse(&["--vnc", "0.0.0.0:1", "--mcp", "0.0.0.0:2", "udid"]).unwrap();
    assert_eq!(cli.vnc_addr.unwrap(), "0.0.0.0:1");
    assert_eq!(cli.mcp_addr.unwrap(), "0.0.0.0:2");
    assert_eq!(cli.udid.unwrap(), "udid");
    let cli = parse(&["--vnc", "--mcp", "--headless"]).unwrap();
    assert!(cli.vnc_addr.is_none() && cli.mcp_addr.is_none() && cli.headless);
    // A single dash makes an option, too.
    assert!(matches!(parse(&["--vnc", "-h"]), Err(Refused::Help)));
    assert!(matches!(parse(&["--mcp", "-h"]), Err(Refused::Help)));
    assert!(matches!(parse(&["--mcp", "-x"]), Err(Refused::UnknownOption(_))));
}

#[test]
fn a_password_is_taken_as_it_is() {
    let cli = parse(&["--vnc-password", "--vnc"]).unwrap();
    assert_eq!(cli.vnc_password.unwrap(), "--vnc");
    assert!(!cli.vnc_enabled);
    assert!(matches!(parse(&["--vnc-password"]), Err(Refused::MissingPassword)));
    assert_eq!(message(&["--vnc-password"]).unwrap(), "--vnc-password needs a value");
}

#[test]
fn the_help_is_answered_where_it_is_reached() {
    assert!(matches!(parse(&["-h"]), Err(Refused::Help)));
    assert!(matches!(parse(&["udid", "--help", "--bogus"]), Err(Refused::Help)));
    assert!(message(&["--help"]).is_none());
    assert!(matches!(parse(&["--bogus", "--help"]), Err(Refused::UnknownOption(_))));
}

#[test]
fn bad_command_lines_are_refused() {
    assert_eq!(message(&["--bogus"]).unwrap(), "unknown option: --bogus");
    assert_eq!(message(&["-x"]).unwrap(), "unknown option: -x");
    assert!(matches!(parse(&["a", "b"]), Err(Refused::ExtraUdid)));
    assert_eq!(message(&["a", "b"]).unwrap(), "more than one UDID given");
}

#[test]
fn stored_settings_are_used() {
    let cli = parse(&[]).unwrap();
    assert_eq!(
        shown(&vnc_settings(&something_stored(), &cli)),
        (true, "0.0.0.0:5901", "stored")
    );
    assert_eq!(
        shown(&vnc_settings(&nothing_stored(), &cli)),
        (false, "127.0.0.1:5900", "")
    );
    let port_only = StoredVnc { port: Some("1".to_string()), ..nothing_stored() };
    assert_eq!(vnc_settings(&port_only, &cli).addr, "127.0.0.1:1");
}

#[test]
fn the_command_line_goes_first() {
    let cli = parse(&["--vnc", "127.0.0.1:5900", "--vnc-password", "given"]).unwrap();
    assert_eq!(
        shown(&vnc_settings(&something_stored(), &cli)),
        (true, "127.0.0.1:5900", "given")
    );
    let off = StoredVnc { enabled: Some(false), ..something_stored() };
    assert!(vnc_settings(&off, &cli).enabled);
    let cli = parse(&["--vnc-password", ""]).unwrap();
    assert_eq!(vnc_settings(&something_stored(), &cli).password, "");
}

#[test]
fn without_a_window_the_command_line_decides() {
    let cli = parse(&["--headless"]).unwrap();
    assert_eq!(shown(&headless_vnc(&cli)), (true, "127.0.0.1:5900", ""));
    let cli = parse(&["--headless", "--vnc", "h:1", "--no-vnc", "--vnc-password", "p"]).unwrap();
    assert_eq!(shown(&headless_vnc(&cli)), (false, "h:1", "p"));
}

#[test]
fn the_mcp_address_counts_while_the_server_runs() {
    assert_eq!(mcp_bind(&parse(&["--mcp", "h:1"]).unwrap()).unwrap(), "h:1");
    assert!(mcp_bind(&parse(&["--mcp", "h:1", "--no-mcp"]).unwrap()).is_none());
    assert!(mcp_bind(&parse(&["--headless"]).unwrap()).is_none());
}

#[test]
fn the_last_flag_decides_wherever_it_stands() {
    let cli = parse(&["--no-vnc", "--vnc", "--headless", "--no-mcp", "udid"]).unwrap();
    assert!(cli.vnc_enabled && cli.headless && !cli.mcp_enabled);
    let cli = parse(&["--headless", "--vnc", "h:1", "--no-vnc", "--vnc-password", "p"]).unwrap();
    assert!(!cli.vnc_enabled && cli.mcp_enabled);
}

#[test]
fn an_options_value_is_no_flag() {
    for value in ["--vnc", "--no-vnc", "--mcp", "--no-mcp", "--headless"] {
        let cli = parse(&["--vnc-password", value]).unwrap();
        assert!(!cli.headless && !cli.vnc_enabled && cli.mcp_enabled, "{value}");
        let cli = parse(&["--headless", "--vnc-password", value]).unwrap();
        assert!(cli.headless && cli.vnc_enabled && cli.mcp_enabled, "{value}");
    }
}
