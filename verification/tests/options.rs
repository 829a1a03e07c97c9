use foxbox::options::{Args, ArgsError};

fn command_line(words: Vec<&str>) -> Vec<String> {
    words.into_iter().map(|w| w.to_owned()).collect()
}

#[test]
fn options_are_good() {
    // short form options
    {
        let argv = || vec!["foxbox", "-p", "1234", "-n", "foobar", "-w", "4567", "-v"];

        let args: Args = match Args::parse(&command_line(argv())) {
            Ok(args) => args,
            Err(_) => panic!("the short options were refused"),
        };

        assert_eq!(args.flag_verbose, true);
        assert_eq!(args.flag_name, Some("foobar".to_string()));
        assert_eq!(args.flag_port, Some(1234));
        assert_eq!(args.flag_wsport, Some(4567));
        assert_eq!(args.flag_help, false);
    }
    // long form options
    {
        let argv = || {
            vec!["foxbox", "--port", "1234", "--name", "foobar", "--wsport", "4567", "--verbose"]
        };

        let args: Args = match Args::parse(&command_line(argv())) {
            Ok(args) => args,
            Err(_) => panic!("the long options were refused"),
        };

        assert_eq!(args.flag_verbose, true);
        assert_eq!(args.flag_name, Some("foobar".to_string()));
        assert_eq!(args.flag_port, Some(1234));
        assert_eq!(args.flag_wsport, Some(4567));
        assert_eq!(args.flag_help, false);
    }
}

#[test]
fn no_options_leave_everything_unset() {
    let args = match Args::parse(&command_line(vec!["foxbox"])) {
        Ok(args) => args,
        Err(_) => panic!("an empty command line was refused"),
    };
    assert_eq!(args.flag_verbose, false);
    assert_eq!(args.flag_help, false);
    assert_eq!(args.flag_name, None);
    assert_eq!(args.flag_port, None);
    assert_eq!(args.flag_wsport, None);
    assert_eq!(args.flag_iface, None);
    assert_eq!(args.flag_register, None);
    assert_eq!(args.flag_tunnel, None);
}

#[test]
fn help_is_asked_for_not_failed() {
    match Args::parse(&command_line(vec!["foxbox", "--help"])) {
        Err(ArgsError::Help { text }) => assert!(text.contains("Usage: foxbox")),
        _ => panic!("--help did not ask for the help text"),
    }
}

#[test]
fn unknown_option_is_a_usage_error() {
    match Args::parse(&command_line(vec!["foxbox", "--frobnicate"])) {
        Err(ArgsError::Usage { .. }) => {}
        _ => panic!("an unknown option was not refused"),
    }
}

#[test]
fn port_out_of_range_is_refused() {
    match Args::parse(&command_line(vec!["foxbox", "-p", "65536"])) {
        Err(ArgsError::Number { flag, text }) => {
            assert_eq!(flag, "--port");
            assert_eq!(text, "65536");
        }
        _ => panic!("65536 was taken for a port"),
    }
    match Args::parse(&command_line(vec!["foxbox", "-w", "12ab"])) {
        Err(ArgsError::Number { flag, text }) => {
            assert_eq!(flag, "--wsport");
            assert_eq!(text, "12ab");
        }
        _ => panic!("12ab was taken for a port"),
    }
}

#[test]
fn largest_port_and_plus_sign_are_read() {
    let args = match Args::parse(&command_line(vec!["foxbox", "-p", "65535", "-w", "+80"])) {
        Ok(args) => args,
        Err(_) => panic!("valid ports were refused"),
    };
    assert_eq!(args.flag_port, Some(65535));
    assert_eq!(args.flag_wsport, Some(80));
}

#[test]
fn blank_port_counts_as_zero() {
    let args = match Args::parse(&command_line(vec!["foxbox", "-p", " "])) {
        Ok(args) => args,
        Err(_) => panic!("a blank port was refused"),
    };
    assert_eq!(args.flag_port, Some(0));
}

#[test]
fn decode_reads_the_eight_options_in_order() {
    let found = vec![
        (true, String::new()),
        (false, String::new()),
        (true, "foobar".to_owned()),
        (true, "1234".to_owned()),
        (false, String::new()),
        (true, "eth0".to_owned()),
        (true, "http://example.org/register".to_owned()),
        (true, "tunnel.example.org".to_owned()),
    ];
    let args = match Args::decode(&found) {
        Ok(args) => args,
        Err(_) => panic!("decode refused well-formed values"),
    };
    assert!(args.flag_verbose);
    assert!(!args.flag_help);
    assert_eq!(args.flag_name, Some("foobar".to_owned()));
    assert_eq!(args.flag_port, Some(1234));
    assert_eq!(args.flag_wsport, None);
    assert_eq!(args.flag_iface, Some("eth0".to_owned()));
    assert_eq!(args.flag_register, Some("http://example.org/register".to_owned()));
    assert_eq!(args.flag_tunnel, Some("tunnel.example.org".to_owned()));
}

#[test]
fn decode_takes_missing_options_for_absent() {
    let found = vec![(true, String::new())];
    let args = match Args::decode(&found) {
        Ok(args) => args,
        Err(_) => panic!("decode refused a short list"),
    };
    assert!(args.flag_verbose);
    assert_eq!(args.flag_name, None);
    assert_eq!(args.flag_port, None);
}

#[test]
fn errors_of_the_command_line_have_a_text_and_a_status() {
    let help = ArgsError::Help { text: "Usage: foxbox".to_owned() };
    assert_eq!(help.message(), "Usage: foxbox");
    assert_eq!(help.exit_status(), 0);
    let usage = ArgsError::Usage { text: "Unknown flag".to_owned() };
    assert_eq!(usage.message(), "Unknown flag");
    assert_eq!(usage.exit_status(), 1);
    let number = ArgsError::Number { flag: "--port".to_owned(), text: "http".to_owned() };
    assert_eq!(number.message(), "Could not deserialize 'http' to u16 for '--port'.");
    assert_eq!(number.exit_status(), 1);
}

#[test]
fn an_option_needs_its_value() {
    match Args::parse(&command_line(vec!["foxbox", "--port"])) {
        Err(ArgsError::Usage { .. }) => {}
        _ => panic!("--port without a value was not refused"),
    }
}

#[test]
fn all_options_are_read_together() {
    let args = match Args::parse(&command_line(vec![
        "foxbox", "-r", "http://localhost:4242/register", "-i", "eth0", "-t", "tunnel.example.org",
        "--name=box", "-p8080",
    ])) {
        Ok(args) => args,
        Err(_) => panic!("a full command line was refused"),
    };
    assert_eq!(args.flag_register, Some("http://localhost:4242/register".to_owned()));
    assert_eq!(args.flag_iface, Some("eth0".to_owned()));
    assert_eq!(args.flag_tunnel, Some("tunnel.example.org".to_owned()));
    assert_eq!(args.flag_name, Some("box".to_owned()));
    assert_eq!(args.flag_port, Some(8080));
    assert_eq!(args.flag_wsport, None);
    assert!(!args.flag_verbose);
}
