//! The command line of the gateway. `docopt` matches the arguments against the
//! usage text; what it found for each option is decoded here.

use vstd::prelude::*;
use vstd::string::*;
use crate::number::{parse_port, port_of};
use crate::text::{optional_view, texts};

verus! {

/// The usage text that the command line is matched against.
pub const USAGE: &'static str = "
Usage: foxbox [-v] [-h] [-n <hostname>] [-p <port>] [-w <wsport>] [-r <url>] [-i <iface>] [-t <tunnel>]

Options:
    -v, --verbose            Toggle verbose output.
    -n, --name <hostname>    Set local hostname.
    -p, --port <port>        Set port to listen on for http connections.
    -w, --wsport <wsport>    Set port to listen on for websocket.
    -r, --register <url>     Change the url of the registration endpoint.
    -i, --iface <iface>      Specify the local IP interface.
    -t, --tunnel <tunnel>    Set the tunnel endpoint's hostname. If omitted, the tunnel is disabled.
    -h, --help               Print this help menu.
";

/// What `docopt` finds for each of `keys` when it matches `argv` (the program's
/// name first) against `usage`: whether the option is present, and its text
/// (empty where it has none). Where `docopt` reports an error instead, `Err`
/// says whether the error is a failure (`true`) or the request for the help
/// text (`false`).
pub uninterp spec fn docopt_values(
    usage: Seq<char>,
    argv: Seq<Seq<char>>,
    keys: Seq<Seq<char>>,
) -> Result<Seq<(bool, Seq<char>)>, bool>;

/// The mathematical form of what was found for a list of options.
pub open spec fn found_view(found: Seq<(bool, String)>) -> Seq<(bool, Seq<char>)> {
    found.map_values(|f: (bool, String)| (f.0, f.1@))
}

/// Builds a `docopt::Docopt` from `usage`, hands it `argv` and calls its
/// `parse`. From the `ArgvMap` that comes back it reads `get_bool` and
/// `get_str` for each key; from an error, `fatal` and the text that `Display`
/// gives it.
///
/// Trusted: what is found, or else whether the error is a failure, is a
/// function of the three arguments alone, and `docopt_values` is the name of
/// that function. Nothing is claimed of the error's text, which may differ
/// from run to run. The usage text is held to [`USAGE`]: `docopt` slices a
/// word at the place of a short option counted in characters, which is safe
/// where every short option is ASCII, as in `USAGE`.
#[verifier::external_body]
pub(crate) fn match_argv(usage: &str, argv: &Vec<String>, keys: &Vec<String>) -> (r: Result<
    Vec<(bool, String)>,
    (bool, String),
>)
    requires
        usage@ == USAGE@,
    ensures
        match r {
            Ok(found) => docopt_values(usage@, texts(argv@), texts(keys@)) == Ok::<
                Seq<(bool, Seq<char>)>,
                bool,
            >(found_view(found@)),
            Err(refusal) => docopt_values(usage@, texts(argv@), texts(keys@)) == Err::<
                Seq<(bool, Seq<char>)>,
                bool,
            >(refusal.0),
        },
{
    match docopt::Docopt::new(usage).and_then(|d| d.argv(argv).parse()) {
        Ok(map) => Ok(keys.iter().map(|k| (map.get_bool(k), map.get_str(k).to_owned())).collect()),
        Err(e) => Err((e.fatal(), e.to_string())),
    }
}

/// The options of the gateway, as the command line gave them.
pub struct Args {
    pub flag_verbose: bool,
    pub flag_help: bool,
    pub flag_name: Option<String>,
    pub flag_port: Option<u16>,
    pub flag_wsport: Option<u16>,
    pub flag_iface: Option<String>,
    pub flag_register: Option<String>,
    pub flag_tunnel: Option<String>,
}

/// Mathematical form of [`Args`].
pub struct ArgsView {
    pub flag_verbose: bool,
    pub flag_help: bool,
    pub flag_name: Option<Seq<char>>,
    pub flag_port: Option<u16>,
    pub flag_wsport: Option<u16>,
    pub flag_iface: Option<Seq<char>>,
    pub flag_register: Option<Seq<char>>,
    pub flag_tunnel: Option<Seq<char>>,
}

impl View for Args {
    type V = ArgsView;

    open spec fn view(&self) -> ArgsView {
        ArgsView {
            flag_verbose: self.flag_verbose,
            flag_help: self.flag_help,
            flag_name: optional_view(self.flag_name),
            flag_port: self.flag_port,
            flag_wsport: self.flag_wsport,
            flag_iface: optional_view(self.flag_iface),
            flag_register: optional_view(self.flag_register),
            flag_tunnel: optional_view(self.flag_tunnel),
        }
    }
}

/// Why a command line gave no options.
pub enum ArgsError {
    /// The command line asked for the help text, which is `text`.
    Help { text: String },
    /// The command line does not fit the usage; `text` says why.
    Usage { text: String },
    /// The value `text` of the option `flag` is no port number.
    Number { flag: String, text: String },
}

/// What is printed for an error of the command line.
pub open spec fn args_error_text(error: ArgsError) -> Seq<char> {
    match error {
        ArgsError::Help { text } => text@,
        ArgsError::Usage { text } => text@,
        ArgsError::Number { flag, text } => "Could not deserialize '"@ + text@ + "' to u16 for '"@
            + flag@ + "'."@,
    }
}

impl ArgsError {
    /// What is printed for the error.
    pub fn message(&self) -> (r: String)
        ensures
            r@ == args_error_text(*self),
    {
        match self {
            ArgsError::Help { text } => text.clone(),
            ArgsError::Usage { text } => text.clone(),
            ArgsError::Number { flag, text } => {
                let mut r = String::from_str("Could not deserialize '");
                r.append(text.as_str());
                r.append("' to u16 for '");
                r.append(flag.as_str());
                r.append("'.");
                r
            },
        }
    }

    /// The status with which the program ends on the error: zero where the
    /// help text was asked for, one for a command line that is wrong.
    pub fn exit_status(&self) -> (r: i32)
        ensures
            r == if *self is Help {
                0i32
            } else {
                1i32
            },
    {
        match self {
            ArgsError::Help { .. } => 0,
            _ => 1,
        }
    }
}

/// The keys under which the options are looked up, in the order in which
/// [`decoded`] reads them.
pub open spec fn option_keys() -> Seq<Seq<char>> {
    seq![
        "--verbose"@,
        "--help"@,
        "--name"@,
        "--port"@,
        "--wsport"@,
        "--iface"@,
        "--register"@,
        "--tunnel"@,
    ]
}

/// `c` is white space, as Unicode defines it.
pub open spec fn is_space(c: char) -> bool {
    let u = c as int;
    (0x09 <= u <= 0x0D) || u == 0x20 || u == 0x85 || u == 0xA0 || u == 0x1680 || (0x2000 <= u
        <= 0x200A) || u == 0x2028 || u == 0x2029 || u == 0x202F || u == 0x205F || u == 0x3000
}

/// `s` holds nothing but white space.
pub open spec fn is_blank(s: Seq<char>) -> bool {
    forall|i: int| 0 <= i < s.len() ==> is_space(#[trigger] s[i])
}

/// The number that an option's text stands for: zero for a blank text, else
/// the port it writes.
pub open spec fn number_of(text: Seq<char>) -> Option<u16> {
    if is_blank(text) {
        Some(0u16)
    } else {
        port_of(text)
    }
}

/// What was found for the option at place `i`; an option that is not in the
/// list counts as absent.
pub open spec fn option_at(found: Seq<(bool, Seq<char>)>, i: int) -> (bool, Seq<char>) {
    if 0 <= i < found.len() {
        found[i]
    } else {
        (false, Seq::empty())
    }
}

/// The text of an option that takes a value, if the option is present.
pub open spec fn text_option(found: (bool, Seq<char>)) -> Option<Seq<char>> {
    if found.0 {
        Some(found.1)
    } else {
        None
    }
}

/// The port of an option that takes one: `Ok(None)` where the option is
/// absent, `Err` where its text is no number.
pub open spec fn port_option(found: (bool, Seq<char>)) -> Result<Option<u16>, ()> {
    if !found.0 {
        Ok(None)
    } else {
        match number_of(found.1) {
            Some(n) => Ok(Some(n)),
            None => Err(()),
        }
    }
}

/// The options that stand for what was found, or the key and text of the first
/// port that is no number.
pub open spec fn decoded(found: Seq<(bool, Seq<char>)>) -> Result<
    ArgsView,
    (Seq<char>, Seq<char>),
> {
    match port_option(option_at(found, 3)) {
        Err(_) => Err(("--port"@, option_at(found, 3).1)),
        Ok(port) => match port_option(option_at(found, 4)) {
            Err(_) => Err(("--wsport"@, option_at(found, 4).1)),
            Ok(wsport) => Ok(
                ArgsView {
                    flag_verbose: option_at(found, 0).0,
                    flag_help: option_at(found, 1).0,
                    flag_name: text_option(option_at(found, 2)),
                    flag_port: port,
                    flag_wsport: wsport,
                    flag_iface: text_option(option_at(found, 5)),
                    flag_register: text_option(option_at(found, 6)),
                    flag_tunnel: text_option(option_at(found, 7)),
                },
            ),
        },
    }
}

fn is_space_char(c: char) -> (r: bool)
    ensures
        r == is_space(c),
{
    let u: u32 = c as u32;
    (0x09 <= u && u <= 0x0D) || u == 0x20 || u == 0x85 || u == 0xA0 || u == 0x1680 || (0x2000 <= u
        && u <= 0x200A) || u == 0x2028 || u == 0x2029 || u == 0x202F || u == 0x205F || u
        == 0x3000
}

/// Whether `s` holds nothing but white space.
pub fn is_blank_text(s: &str) -> (r: bool)
    ensures
        r == is_blank(s@),
{
    let n = s.unicode_len();
    let mut i: usize = 0;
    while i < n
        invariant
            i <= n,
            n == s@.len(),
            forall|k: int| 0 <= k < i ==> is_space(#[trigger] s@[k]),
        decreases n - i,
    {
        if !is_space_char(s.get_char(i)) {
            return false;
        }
        i += 1;
    }
    true
}

/// Reads the number that an option's text stands for. `docopt` itself decodes
/// only into types that implement serde's `Deserialize`; the rule here is the
/// one it follows there: a blank text is zero, any other text is read as the
/// number type reads it.
pub fn parse_number(text: &str) -> (r: Option<u16>)
    ensures
        r == number_of(text@),
{
    if is_blank_text(text) {
        Some(0)
    } else {
        parse_port(text)
    }
}

fn found_at(found: &Vec<(bool, String)>, i: usize) -> (r: (bool, String))
    ensures
        (r.0, r.1@) == option_at(found_view(found@), i as int),
{
    if i < found.len() {
        (found[i].0, found[i].1.clone())
    } else {
        (false, String::new())
    }
}

fn text_of(found: (bool, String)) -> (r: Option<String>)
    ensures
        optional_view(r) == text_option((found.0, found.1@)),
{
    if found.0 {
        Some(found.1)
    } else {
        None
    }
}

fn port_from(found: &(bool, String)) -> (r: Result<Option<u16>, ()>)
    ensures
        r == port_option((found.0, found.1@)),
{
    if !found.0 {
        Ok(None)
    } else {
        match parse_number(found.1.as_str()) {
            Some(n) => Ok(Some(n)),
            None => Err(()),
        }
    }
}

impl Args {
    /// The options that stand for what was found on the command line for each
    /// key of [`option_keys`], in that order. `docopt` itself decodes only
    /// into types that implement serde's `Deserialize`; the rules here are
    /// the ones it follows there: a switch is set where it is present, an
    /// option with a value is `Some` where it is present, and a port is read
    /// by [`parse_number`].
    pub fn decode(found: &Vec<(bool, String)>) -> (r: Result<Args, ArgsError>)
        ensures
            match r {
                Ok(args) => decoded(found_view(found@)) == Ok::<ArgsView, (Seq<char>, Seq<char>)>(
                    args@,
                ),
                Err(e) => e matches ArgsError::Number { flag, text } && decoded(
                    found_view(found@),
                ) == Err::<ArgsView, (Seq<char>, Seq<char>)>((flag@, text@)),
            },
    {
        let port_found = found_at(found, 3);
        let port = match port_from(&port_found) {
            Ok(p) => p,
            Err(_) => {
                return Err(
                    ArgsError::Number { flag: String::from_str("--port"), text: port_found.1 },
                );
            },
        };
        let wsport_found = found_at(found, 4);
        let wsport = match port_from(&wsport_found) {
            Ok(p) => p,
            Err(_) => {
                return Err(
                    ArgsError::Number { flag: String::from_str("--wsport"), text: wsport_found.1 },
                );
            },
        };
        Ok(
            Args {
                flag_verbose: found_at(found, 0).0,
                flag_help: found_at(found, 1).0,
                flag_name: text_of(found_at(found, 2)),
                flag_port: port,
                flag_wsport: wsport,
                flag_iface: text_of(found_at(found, 5)),
                flag_register: text_of(found_at(found, 6)),
                flag_tunnel: text_of(found_at(found, 7)),
            },
        )
    }

    /// Reads the options from a command line, the program's name first. A
    /// command line that asks for the help text gives `Help`, one that does
    /// not fit the usage gives `Usage`, one with a port that is no number
    /// gives `Number`.
    pub fn parse(argv: &Vec<String>) -> (r: Result<Args, ArgsError>)
        ensures
            match docopt_values(USAGE@, texts(argv@), option_keys()) {
                Ok(found) => match r {
                    Ok(args) => decoded(found) == Ok::<ArgsView, (Seq<char>, Seq<char>)>(args@),
                    Err(e) => e matches ArgsError::Number { flag, text } && decoded(found) == Err::<
                        ArgsView,
                        (Seq<char>, Seq<char>),
                    >((flag@, text@)),
                },
                Err(failure) => r matches Err(e) && if failure {
                    e is Usage
                } else {
                    e is Help
                },
            },
    {
        let mut keys: Vec<String> = Vec::new();
        keys.push(String::from_str("--verbose"));
        keys.push(String::from_str("--help"));
        keys.push(String::from_str("--name"));
        keys.push(String::from_str("--port"));
        keys.push(String::from_str("--wsport"));
        keys.push(String::from_str("--iface"));
        keys.push(String::from_str("--register"));
        keys.push(String::from_str("--tunnel"));
        assert(texts(keys@) =~= option_keys());
        match match_argv(USAGE, argv, &keys) {
            Ok(found) => Args::decode(&found),
            Err(refusal) => {
                if refusal.0 {
                    Err(ArgsError::Usage { text: refusal.1 })
                } else {
                    Err(ArgsError::Help { text: refusal.1 })
                }
            },
        }
    }
}

} // verus!
