//! The command line, and the VNC settings that it makes with the stored ones.
use vstd::prelude::*;
use vstd::string::StringExecFns;

use crate::text::{chars_of, same, starts_with};

verus! {

/// The parsed command line: which device, with or without the window, and which
/// servers to run.
#[derive(Debug)]
pub struct Cli {
    pub udid: Option<String>,
    pub headless: bool,
    /// Whether to run the VNC server. Without a window this is the final word; with
    /// one it seeds the switch there.
    pub vnc_enabled: bool,
    /// Where to bind the VNC server, if it was given.
    pub vnc_addr: Option<String>,
    /// The VNC password, if it was given.
    pub vnc_password: Option<String>,
    pub mcp_enabled: bool,
    pub mcp_addr: Option<String>,
}

/// What a [`Cli`] says.
pub struct CliModel {
    pub udid: Option<Seq<char>>,
    pub headless: bool,
    pub vnc_enabled: bool,
    pub vnc_addr: Option<Seq<char>>,
    pub vnc_password: Option<Seq<char>>,
    pub mcp_enabled: bool,
    pub mcp_addr: Option<Seq<char>>,
}

impl View for Cli {
    type V = CliModel;

    open spec fn view(&self) -> CliModel {
        CliModel {
            udid: chars_of(self.udid),
            headless: self.headless,
            vnc_enabled: self.vnc_enabled,
            vnc_addr: chars_of(self.vnc_addr),
            vnc_password: chars_of(self.vnc_password),
            mcp_enabled: self.mcp_enabled,
            mcp_addr: chars_of(self.mcp_addr),
        }
    }
}

/// Why a command line is not followed.
#[derive(Debug)]
pub enum Refused {
    /// It asks for the help.
    Help,
    UnknownOption(String),
    MissingPassword,
    ExtraUdid,
}

/// What a [`Refused`] says.
pub enum RefusedModel {
    Help,
    UnknownOption(Seq<char>),
    MissingPassword,
    ExtraUdid,
}

impl View for Refused {
    type V = RefusedModel;

    open spec fn view(&self) -> RefusedModel {
        match self {
            Refused::Help => RefusedModel::Help,
            Refused::UnknownOption(arg) => RefusedModel::UnknownOption(arg@),
            Refused::MissingPassword => RefusedModel::MissingPassword,
            Refused::ExtraUdid => RefusedModel::ExtraUdid,
        }
    }
}

/// What the arguments so far have set. A server that no flag has named is neither
/// on nor off.
pub struct Flags {
    pub udid: Option<Seq<char>>,
    pub headless: bool,
    pub vnc: Option<bool>,
    pub vnc_addr: Option<Seq<char>>,
    pub vnc_password: Option<Seq<char>>,
    pub mcp: Option<bool>,
    pub mcp_addr: Option<Seq<char>>,
}

/// Before the first argument.
pub open spec fn no_flags() -> Flags {
    Flags {
        udid: None,
        headless: false,
        vnc: None,
        vnc_addr: None,
        vnc_password: None,
        mcp: None,
        mcp_addr: None,
    }
}

impl Flags {
    /// What the flags come to. VNC defaults to on without a window, where nothing
    /// else could turn it on, and to off with one; MCP defaults to on.
    pub open spec fn settled(self) -> CliModel {
        CliModel {
            udid: self.udid,
            headless: self.headless,
            vnc_enabled: match self.vnc {
                Some(on) => on,
                None => self.headless,
            },
            vnc_addr: self.vnc_addr,
            vnc_password: self.vnc_password,
            mcp_enabled: match self.mcp {
                Some(on) => on,
                None => true,
            },
            mcp_addr: self.mcp_addr,
        }
    }
}

/// Whether the next argument is the value of the option before it: it is, unless it
/// is an option itself.
pub open spec fn value_follows(args: Seq<Seq<char>>) -> bool {
    args.len() > 0 && !"-"@.is_prefix_of(args[0])
}

/// Read arguments, given what those before them have set.
pub open spec fn read(flags: Flags, args: Seq<Seq<char>>) -> Result<Flags, RefusedModel>
    decreases args.len(),
{
    if args.len() == 0 {
        Ok(flags)
    } else {
        let arg = args[0];
        let rest = args.drop_first();
        if arg == "-h"@ || arg == "--help"@ {
            Err(RefusedModel::Help)
        } else if arg == "--headless"@ {
            read(Flags { headless: true, ..flags }, rest)
        } else if arg == "--vnc"@ {
            if value_follows(rest) {
                read(
                    Flags { vnc: Some(true), vnc_addr: Some(rest[0]), ..flags },
                    rest.drop_first(),
                )
            } else {
                read(Flags { vnc: Some(true), ..flags }, rest)
            }
        } else if arg == "--no-vnc"@ {
            read(Flags { vnc: Some(false), ..flags }, rest)
        } else if arg == "--vnc-password"@ {
            if rest.len() > 0 {
                read(Flags { vnc_password: Some(rest[0]), ..flags }, rest.drop_first())
            } else {
                Err(RefusedModel::MissingPassword)
            }
        } else if arg == "--mcp"@ {
            if value_follows(rest) {
                read(
                    Flags { mcp: Some(true), mcp_addr: Some(rest[0]), ..flags },
                    rest.drop_first(),
                )
            } else {
                read(Flags { mcp: Some(true), ..flags }, rest)
            }
        } else if arg == "--no-mcp"@ {
            read(Flags { mcp: Some(false), ..flags }, rest)
        } else if "-"@.is_prefix_of(arg) {
            Err(RefusedModel::UnknownOption(arg))
        } else if flags.udid is Some {
            Err(RefusedModel::ExtraUdid)
        } else {
            read(Flags { udid: Some(arg), ..flags }, rest)
        }
    }
}

/// What a command line comes to, without the program's own name.
pub open spec fn parsed(args: Seq<Seq<char>>) -> Result<CliModel, RefusedModel> {
    match read(no_flags(), args) {
        Ok(flags) => Ok(flags.settled()),
        Err(why) => Err(why),
    }
}

/// The texts of a list of arguments.
pub open spec fn texts(args: Seq<String>) -> Seq<Seq<char>> {
    args.map_values(|arg: String| arg@)
}

/// Parse the command line, without the program's own name.
pub fn parse_args(args: &Vec<String>) -> (r: Result<Cli, Refused>)
    ensures
        match r {
            Ok(cli) => parsed(texts(args@)) == Ok::<CliModel, RefusedModel>(cli@),
            Err(why) => parsed(texts(args@)) == Err::<CliModel, RefusedModel>(why@),
        },
{
    let mut udid: Option<String> = None;
    let mut headless: bool = false;
    let mut vnc: Option<bool> = None;
    let mut vnc_addr: Option<String> = None;
    let mut vnc_password: Option<String> = None;
    let mut mcp: Option<bool> = None;
    let mut mcp_addr: Option<String> = None;
    let ghost all = texts(args@);
    let mut i: usize = 0;
    assert(all.skip(0) =~= all);
    while i < args.len()
        invariant
            i <= args@.len(),
            all == texts(args@),
            read(no_flags(), all) == read(
                Flags {
                    udid: chars_of(udid),
                    headless,
                    vnc,
                    vnc_addr: chars_of(vnc_addr),
                    vnc_password: chars_of(vnc_password),
                    mcp,
                    mcp_addr: chars_of(mcp_addr),
                },
                all.skip(i as int),
            ),
        decreases args@.len() - i,
    {
        let arg = args[i].as_str();
        assert(all.skip(i as int)[0] == arg@);
        assert(all.skip(i as int).drop_first() =~= all.skip(i + 1));
        i += 1;
        let more = i < args.len();
        proof {
            if more {
                assert(all.skip(i as int)[0] == args@[i as int]@);
                assert(all.skip(i as int).drop_first() =~= all.skip(i + 1));
            }
        }
        if same(arg, "-h") || same(arg, "--help") {
            return Err(Refused::Help);
        } else if same(arg, "--headless") {
            headless = true;
        } else if same(arg, "--vnc") {
            vnc = Some(true);
            if more && !starts_with(args[i].as_str(), "-") {
                vnc_addr = Some(args[i].clone());
                i += 1;
            }
        } else if same(arg, "--no-vnc") {
            vnc = Some(false);
        } else if same(arg, "--vnc-password") {
            if !more {
                return Err(Refused::MissingPassword);
            }
            vnc_password = Some(args[i].clone());
            i += 1;
        } else if same(arg, "--mcp") {
            mcp = Some(true);
            if more && !starts_with(args[i].as_str(), "-") {
                mcp_addr = Some(args[i].clone());
                i += 1;
            }
        } else if same(arg, "--no-mcp") {
            mcp = Some(false);
        } else if starts_with(arg, "-") {
            return Err(Refused::UnknownOption(arg.to_string()));
        } else if udid.is_some() {
            return Err(Refused::ExtraUdid);
        } else {
            udid = Some(arg.to_string());
        }
    }
    let vnc_enabled = vnc.unwrap_or(headless);
    let mcp_enabled = mcp.unwrap_or(true);
    Ok(Cli { udid, headless, vnc_enabled, vnc_addr, vnc_password, mcp_enabled, mcp_addr })
}

impl Refused {
    /// The complaint about a bad command line; asking for the help is none.
    pub fn message(&self) -> (r: Option<String>)
        ensures
            chars_of(r) == match self@ {
                RefusedModel::Help => None,
                RefusedModel::UnknownOption(arg) => Some("unknown option: "@ + arg),
                RefusedModel::MissingPassword => Some("--vnc-password needs a value"@),
                RefusedModel::ExtraUdid => Some("more than one UDID given"@),
            },
    {
        match self {
            Refused::Help => None,
            Refused::UnknownOption(arg) => {
                let mut message = "unknown option: ".to_string();
                message.append(arg.as_str());
                Some(message)
            },
            Refused::MissingPassword => Some("--vnc-password needs a value".to_string()),
            Refused::ExtraUdid => Some("more than one UDID given".to_string()),
        }
    }
}

/// The VNC settings that the window has stored.
#[derive(Debug)]
pub struct StoredVnc {
    pub host: Option<String>,
    pub port: Option<String>,
    pub password: Option<String>,
    pub enabled: Option<bool>,
}

/// How to run the VNC server. No password means no authentication.
#[derive(Debug)]
pub struct VncSettings {
    pub enabled: bool,
    pub addr: String,
    pub password: String,
}

/// What [`VncSettings`] say.
pub struct VncModel {
    pub enabled: bool,
    pub addr: Seq<char>,
    pub password: Seq<char>,
}

impl View for VncSettings {
    type V = VncModel;

    open spec fn view(&self) -> VncModel {
        VncModel { enabled: self.enabled, addr: self.addr@, password: self.password@ }
    }
}

/// A text, or what stands in for it.
pub open spec fn text_or(text: Option<String>, other: Seq<char>) -> Seq<char> {
    match text {
        Some(t) => t@,
        None => other,
    }
}

/// The address that is stored: loopback and the usual port where nothing is.
pub open spec fn stored_addr(stored: StoredVnc) -> Seq<char> {
    text_or(stored.host, "127.0.0.1"@) + ":"@ + text_or(stored.port, "5900"@)
}

/// The VNC settings with a window: what the command line gives goes before what is
/// stored.
pub open spec fn window_vnc(stored: StoredVnc, cli: Cli) -> VncModel {
    VncModel {
        enabled: cli.vnc_enabled || stored.enabled == Some(true),
        addr: text_or(cli.vnc_addr, stored_addr(stored)),
        password: text_or(cli.vnc_password, text_or(stored.password, Seq::empty())),
    }
}

fn text_or_default(text: &Option<String>, other: &str) -> (r: String)
    ensures
        r@ == text_or(*text, other@),
{
    match text {
        Some(t) => t.clone(),
        None => other.to_string(),
    }
}

/// The VNC settings to start with where there is a window: from what it has stored,
/// defaulting to loopback with no authentication. What the command line gives
/// overrides the stored values.
pub fn vnc_settings(stored: &StoredVnc, cli: &Cli) -> (r: VncSettings)
    ensures
        r@ == window_vnc(*stored, *cli),
{
    let mut addr = text_or_default(&stored.host, "127.0.0.1");
    addr.append(":");
    addr.append(text_or_default(&stored.port, "5900").as_str());
    let addr = text_or_default(&cli.vnc_addr, addr.as_str());
    let password = text_or_default(&stored.password, "");
    let password = text_or_default(&cli.vnc_password, password.as_str());
    proof {
        reveal_strlit("");
        assert(""@ =~= Seq::<char>::empty());
    }
    let stored_enabled = match stored.enabled {
        Some(on) => on,
        None => false,
    };
    VncSettings { enabled: cli.vnc_enabled || stored_enabled, addr, password }
}

/// The VNC settings where there is no window: the command line's.
pub fn headless_vnc(cli: &Cli) -> (r: VncSettings)
    ensures
        r@ == (VncModel {
            enabled: cli.vnc_enabled,
            addr: text_or(cli.vnc_addr, "127.0.0.1:5900"@),
            password: text_or(cli.vnc_password, Seq::empty()),
        }),
{
    proof {
        reveal_strlit("");
        assert(""@ =~= Seq::<char>::empty());
    }
    VncSettings {
        enabled: cli.vnc_enabled,
        addr: text_or_default(&cli.vnc_addr, "127.0.0.1:5900"),
        password: text_or_default(&cli.vnc_password, ""),
    }
}

/// Where to bind the MCP server, if it is to run and the command line says where.
pub fn mcp_bind(cli: &Cli) -> (r: Option<&String>)
    ensures
        match r {
            Some(addr) => cli.mcp_enabled && cli.mcp_addr == Some(*addr),
            None => !cli.mcp_enabled || cli.mcp_addr is None,
        },
{
    if cli.mcp_enabled {
        cli.mcp_addr.as_ref()
    } else {
        None
    }
}

/// Arguments that are read to their end, followed by what is no value of the last of
/// them, are read as each part by itself.
proof fn lemma_read_on(flags: Flags, args: Seq<Seq<char>>, tail: Seq<Seq<char>>)
    requires
        read(flags, args) is Ok,
        tail.len() > 0,
        "-"@.is_prefix_of(tail[0]) || args.len() == 0 || (args.last() != "--vnc"@ && args.last()
            != "--mcp"@),
    ensures
        read(flags, args + tail) == read(read(flags, args)->Ok_0, tail),
    decreases args.len(),
{
    if args.len() == 0 {
        assert(args + tail =~= tail);
    } else {
        let arg = args[0];
        let rest = args.drop_first();
        assert((args + tail)[0] == arg);
        assert((args + tail).drop_first() =~= rest + tail);
        if rest.len() > 0 {
            assert((rest + tail)[0] == rest[0]);
            assert((rest + tail).drop_first() =~= rest.drop_first() + tail);
        } else {
            assert((rest + tail)[0] == tail[0]);
        }
        if arg == "--headless"@ {
            lemma_read_on(Flags { headless: true, ..flags }, rest, tail);
        } else if arg == "--vnc"@ {
            if value_follows(rest) {
                lemma_read_on(
                    Flags { vnc: Some(true), vnc_addr: Some(rest[0]), ..flags },
                    rest.drop_first(),
                    tail,
                );
            } else {
                lemma_read_on(Flags { vnc: Some(true), ..flags }, rest, tail);
            }
        } else if arg == "--no-vnc"@ {
            lemma_read_on(Flags { vnc: Some(false), ..flags }, rest, tail);
        } else if arg == "--vnc-password"@ {
            lemma_read_on(
                Flags { vnc_password: Some(rest[0]), ..flags },
                rest.drop_first(),
                tail,
            );
        } else if arg == "--mcp"@ {
            if value_follows(rest) {
                lemma_read_on(
                    Flags { mcp: Some(true), mcp_addr: Some(rest[0]), ..flags },
                    rest.drop_first(),
                    tail,
                );
            } else {
                lemma_read_on(Flags { mcp: Some(true), ..flags }, rest, tail);
            }
        } else if arg == "--no-mcp"@ {
            lemma_read_on(Flags { mcp: Some(false), ..flags }, rest, tail);
        } else {
            lemma_read_on(Flags { udid: Some(arg), ..flags }, rest, tail);
        }
    }
}

/// The options that name a server are options, and no two spellings agree.
proof fn lemma_options()
    ensures
        "-"@.is_prefix_of("-h"@),
        "-"@.is_prefix_of("--help"@),
        "-"@.is_prefix_of("--vnc"@),
        "-"@.is_prefix_of("--no-vnc"@),
        "-"@.is_prefix_of("--mcp"@),
        "-"@.is_prefix_of("--no-mcp"@),
        "-"@.is_prefix_of("--headless"@),
        "-"@.is_prefix_of("--vnc-password"@),
        "-h"@.len() == 2,
        "--help"@.len() == 6,
        "--headless"@.len() == 10,
        "--vnc"@.len() == 5,
        "--no-vnc"@.len() == 8,
        "--vnc-password"@.len() == 14,
        "--mcp"@.len() == 5,
        "--no-mcp"@.len() == 8,
        "--vnc"@ != "--mcp"@,
        "--no-vnc"@ != "--no-mcp"@,
{
    reveal_strlit("-");
    reveal_strlit("-h");
    reveal_strlit("--help");
    reveal_strlit("--headless");
    reveal_strlit("--vnc");
    reveal_strlit("--no-vnc");
    reveal_strlit("--vnc-password");
    reveal_strlit("--mcp");
    reveal_strlit("--no-mcp");
    assert("-"@ =~= "-h"@.subrange(0, 1));
    assert("-"@ =~= "--help"@.subrange(0, 1));
    assert("-"@ =~= "--vnc"@.subrange(0, 1));
    assert("-"@ =~= "--no-vnc"@.subrange(0, 1));
    assert("-"@ =~= "--mcp"@.subrange(0, 1));
    assert("-"@ =~= "--no-mcp"@.subrange(0, 1));
    assert("-"@ =~= "--headless"@.subrange(0, 1));
    assert("-"@ =~= "--vnc-password"@.subrange(0, 1));
    assert("--vnc"@[2] == 'v' && "--mcp"@[2] == 'm');
    assert("--no-vnc"@[5] == 'v' && "--no-mcp"@[5] == 'm');
}

/// The arguments that are not the value of the option before them.
pub open spec fn not_values(args: Seq<Seq<char>>) -> Seq<Seq<char>>
    decreases args.len(),
{
    if args.len() == 0 {
        Seq::empty()
    } else {
        let arg = args[0];
        let rest = args.drop_first();
        let takes_one = if arg == "--vnc"@ || arg == "--mcp"@ {
            value_follows(rest)
        } else {
            arg == "--vnc-password"@ && rest.len() > 0
        };
        seq![arg] + not_values(
            if takes_one {
                rest.drop_first()
            } else {
                rest
            },
        )
    }
}

/// What the last of two opposite flags says, if there is any.
pub open spec fn last_word(flags: Seq<Seq<char>>, on: Seq<char>, off: Seq<char>) -> Option<bool>
    decreases flags.len(),
{
    if flags.len() == 0 {
        None
    } else if flags.last() == on {
        Some(true)
    } else if flags.last() == off {
        Some(false)
    } else {
        last_word(flags.drop_last(), on, off)
    }
}

/// What a flag says, or what stood before.
pub open spec fn word_or(word: Option<bool>, before: Option<bool>) -> Option<bool> {
    if word is Some {
        word
    } else {
        before
    }
}

proof fn lemma_last_word_first(first: Seq<char>, more: Seq<Seq<char>>, on: Seq<char>, off: Seq<char>)
    ensures
        last_word(seq![first] + more, on, off) == word_or(
            last_word(more, on, off),
            if first == on {
                Some(true)
            } else if first == off {
                Some(false)
            } else {
                None
            },
        ),
    decreases more.len(),
{
    let all = seq![first] + more;
    if more.len() == 0 {
        assert(all.drop_last() =~= Seq::<Seq<char>>::empty());
        reveal_with_fuel(last_word, 2);
    } else {
        lemma_last_word_first(first, more.drop_last(), on, off);
        assert(all.drop_last() =~= seq![first] + more.drop_last());
        assert(all.last() == more.last());
    }
}

proof fn lemma_no_word(flags: Seq<Seq<char>>, on: Seq<char>, off: Seq<char>)
    ensures
        last_word(flags, on, off) is None <==> !flags.contains(on) && !flags.contains(off),
    decreases flags.len(),
{
    if flags.len() > 0 {
        let fewer = flags.drop_last();
        lemma_no_word(fewer, on, off);
        assert(flags.contains(flags.last()));
        assert forall|x: Seq<char>| flags.contains(x) implies fewer.contains(x) || x
            == flags.last() by {
            let i = choose|i: int| 0 <= i < flags.len() && flags[i] == x;
            if i < fewer.len() {
                assert(fewer[i] == x);
            }
        }
        assert forall|x: Seq<char>| fewer.contains(x) implies flags.contains(x) by {
            let i = choose|i: int| 0 <= i < fewer.len() && fewer[i] == x;
            assert(flags[i] == x);
        }
    }
}

proof fn lemma_contains_first(first: Seq<char>, more: Seq<Seq<char>>, x: Seq<char>)
    ensures
        (seq![first] + more).contains(x) == (first == x || more.contains(x)),
{
    let all = seq![first] + more;
    if all.contains(x) {
        let i = choose|i: int| 0 <= i < all.len() && all[i] == x;
        if i > 0 {
            assert(more[i - 1] == x);
        }
    }
    if more.contains(x) {
        let i = choose|i: int| 0 <= i < more.len() && more[i] == x;
        assert(all[i + 1] == x);
    }
    assert(all[0] == first);
}

/// What the arguments make of the flags: the last word on each server, and whether
/// there is a window.
proof fn lemma_flags_read(flags: Flags, args: Seq<Seq<char>>)
    requires
        read(flags, args) is Ok,
    ensures
        ({
            let end = read(flags, args)->Ok_0;
            let own = not_values(args);
            &&& end.vnc == word_or(last_word(own, "--vnc"@, "--no-vnc"@), flags.vnc)
            &&& end.mcp == word_or(last_word(own, "--mcp"@, "--no-mcp"@), flags.mcp)
            &&& end.headless == (flags.headless || own.contains("--headless"@))
        }),
    decreases args.len(),
{
    lemma_options();
    if args.len() > 0 {
        let arg = args[0];
        let rest = args.drop_first();
        let (next, left) = if arg == "--headless"@ {
            (Flags { headless: true, ..flags }, rest)
        } else if arg == "--vnc"@ {
            if value_follows(rest) {
                (
                    Flags { vnc: Some(true), vnc_addr: Some(rest[0]), ..flags },
                    rest.drop_first(),
                )
            } else {
                (Flags { vnc: Some(true), ..flags }, rest)
            }
        } else if arg == "--no-vnc"@ {
            (Flags { vnc: Some(false), ..flags }, rest)
        } else if arg == "--vnc-password"@ {
            (Flags { vnc_password: Some(rest[0]), ..flags }, rest.drop_first())
        } else if arg == "--mcp"@ {
            if value_follows(rest) {
                (
                    Flags { mcp: Some(true), mcp_addr: Some(rest[0]), ..flags },
                    rest.drop_first(),
                )
            } else {
                (Flags { mcp: Some(true), ..flags }, rest)
            }
        } else if arg == "--no-mcp"@ {
            (Flags { mcp: Some(false), ..flags }, rest)
        } else {
            (Flags { udid: Some(arg), ..flags }, rest)
        };
        assert(read(flags, args) == read(next, left));
        assert(not_values(args) == seq![arg] + not_values(left));
        lemma_flags_read(next, left);
        lemma_last_word_first(arg, not_values(left), "--vnc"@, "--no-vnc"@);
        lemma_last_word_first(arg, not_values(left), "--mcp"@, "--no-mcp"@);
        lemma_contains_first(arg, not_values(left), "--headless"@);
    }
}

/// An explicit flag always wins: of every command line that parses, the last flag
/// that turns a server on or off, and is not an option's value, decides; where there
/// is none, VNC is on exactly without a window, and MCP is on. There is no window
/// exactly if the command line says so.
pub proof fn law_an_explicit_flag_wins(args: Seq<Seq<char>>)
    requires
        parsed(args) is Ok,
    ensures
        ({
            let cli = parsed(args)->Ok_0;
            let own = not_values(args);
            &&& cli.vnc_enabled == match last_word(own, "--vnc"@, "--no-vnc"@) {
                Some(on) => on,
                None => cli.headless,
            }
            &&& cli.mcp_enabled == match last_word(own, "--mcp"@, "--no-mcp"@) {
                Some(on) => on,
                None => true,
            }
            &&& cli.headless == own.contains("--headless"@)
        }),
{
    lemma_flags_read(no_flags(), args);
}

/// A server that no flag names takes its default: VNC is on exactly without a
/// window, MCP is on. The values of options are no flags.
pub proof fn law_unnamed_servers_take_their_default(args: Seq<Seq<char>>)
    requires
        parsed(args) is Ok,
    ensures
        ({
            let cli = parsed(args)->Ok_0;
            let own = not_values(args);
            &&& !own.contains("--vnc"@) && !own.contains("--no-vnc"@) ==> cli.vnc_enabled
                == cli.headless
            &&& !own.contains("--mcp"@) && !own.contains("--no-mcp"@) ==> cli.mcp_enabled
        }),
{
    law_an_explicit_flag_wins(args);
    lemma_no_word(not_values(args), "--vnc"@, "--no-vnc"@);
    lemma_no_word(not_values(args), "--mcp"@, "--no-mcp"@);
}

/// A flag at the end that turns a server on or off sets what it says and leaves the
/// rest.
pub proof fn law_a_last_flag_leaves_the_rest(args: Seq<Seq<char>>)
    requires
        parsed(args) is Ok,
    ensures
        ({
            let cli = parsed(args)->Ok_0;
            let on = CliModel { vnc_enabled: true, ..cli };
            let off = CliModel { vnc_enabled: false, ..cli };
            &&& parsed(args.push("--vnc"@)) == Ok::<CliModel, RefusedModel>(on)
            &&& parsed(args.push("--no-vnc"@)) == Ok::<CliModel, RefusedModel>(off)
        }),
        ({
            let cli = parsed(args)->Ok_0;
            let on = CliModel { mcp_enabled: true, ..cli };
            let off = CliModel { mcp_enabled: false, ..cli };
            &&& parsed(args.push("--mcp"@)) == Ok::<CliModel, RefusedModel>(on)
            &&& parsed(args.push("--no-mcp"@)) == Ok::<CliModel, RefusedModel>(off)
        }),
{
    reveal_with_fuel(read, 2);
    lemma_options();
    lemma_read_on(no_flags(), args, seq!["--vnc"@]);
    lemma_read_on(no_flags(), args, seq!["--no-vnc"@]);
    lemma_read_on(no_flags(), args, seq!["--mcp"@]);
    lemma_read_on(no_flags(), args, seq!["--no-mcp"@]);
    assert(args + seq!["--vnc"@] =~= args.push("--vnc"@));
    assert(args + seq!["--no-vnc"@] =~= args.push("--no-vnc"@));
    assert(args + seq!["--mcp"@] =~= args.push("--mcp"@));
    assert(args + seq!["--no-mcp"@] =~= args.push("--no-mcp"@));
}

/// Asking for the help, in either spelling, is answered whatever follows, if
/// nothing before it is wrong.
pub proof fn law_help_is_answered(args: Seq<Seq<char>>, help: Seq<char>, more: Seq<Seq<char>>)
    requires
        parsed(args) is Ok,
        help == "-h"@ || help == "--help"@,
    ensures
        parsed(args + seq![help] + more) == Err::<CliModel, RefusedModel>(RefusedModel::Help),
{
    lemma_options();
    let tail = seq![help] + more;
    assert(tail[0] == help);
    lemma_read_on(no_flags(), args, tail);
    assert(args + seq![help] + more =~= args + tail);
}

/// What the command line gives goes before what is stored, and what neither gives
/// is loopback at the usual port, with no authentication.
pub proof fn law_the_command_line_goes_first(stored: StoredVnc, cli: Cli)
    ensures
        cli.vnc_enabled ==> window_vnc(stored, cli).enabled,
        cli.vnc_addr matches Some(addr) ==> window_vnc(stored, cli).addr == addr@,
        cli.vnc_password matches Some(pw) ==> window_vnc(stored, cli).password == pw@,
        stored.host is None && stored.port is None && cli.vnc_addr is None ==> window_vnc(
            stored,
            cli,
        ).addr == "127.0.0.1:5900"@,
        stored.password is None && cli.vnc_password is None ==> window_vnc(
            stored,
            cli,
        ).password.len() == 0,
{
    reveal_strlit("127.0.0.1");
    reveal_strlit(":");
    reveal_strlit("5900");
    reveal_strlit("127.0.0.1:5900");
    assert("127.0.0.1"@ + ":"@ + "5900"@ =~= "127.0.0.1:5900"@);
}

/// Whether an argument begins with a hyphen.
pub open spec fn hyphened(arg: Seq<char>) -> bool {
    arg.len() > 0 && arg[0] == '-'
}

proof fn lemma_hyphened(arg: Seq<char>)
    ensures
        "-"@.is_prefix_of(arg) == hyphened(arg),
{
    reveal_strlit("-");
    if hyphened(arg) {
        assert("-"@ =~= arg.subrange(0, 1));
    }
    if "-"@.is_prefix_of(arg) {
        assert(arg.subrange(0, 1)[0] == '-');
    }
}

/// An empty command line names no device, keeps the window, and leaves VNC off and
/// MCP on, with no address and no password.
pub proof fn law_an_empty_command_line_takes_the_defaults()
    ensures
        parsed(Seq::empty()) == Ok::<CliModel, RefusedModel>(
            CliModel {
                udid: None,
                headless: false,
                vnc_enabled: false,
                vnc_addr: None,
                vnc_password: None,
                mcp_enabled: true,
                mcp_addr: None,
            },
        ),
{
}

/// An argument without a hyphen that is no option's value names the device, and
/// changes nothing else; a second one is refused.
pub proof fn law_a_plain_argument_names_the_device(args: Seq<Seq<char>>, udid: Seq<char>)
    requires
        parsed(args) is Ok,
        !hyphened(udid),
        args.len() == 0 || (args.last() != "--vnc"@ && args.last() != "--mcp"@),
    ensures
        ({
            let cli = parsed(args)->Ok_0;
            let after = parsed(args.push(udid));
            &&& cli.udid is None ==> after == Ok::<CliModel, RefusedModel>(
                CliModel { udid: Some(udid), ..cli },
            )
            &&& cli.udid is Some ==> after == Err::<CliModel, RefusedModel>(
                RefusedModel::ExtraUdid,
            )
        }),
{
    reveal_with_fuel(read, 2);
    lemma_options();
    lemma_hyphened(udid);
    lemma_read_on(no_flags(), args, seq![udid]);
    assert(args + seq![udid] =~= args.push(udid));
}

/// The argument behind an option that takes one is its value: an address of either
/// server, which it also turns on, if it has no hyphen, and a password whatever it
/// is. Nothing else changes, and a later value goes before an earlier one.
pub proof fn law_options_take_their_values(args: Seq<Seq<char>>, value: Seq<char>)
    requires
        parsed(args) is Ok,
    ensures
        ({
            let cli = parsed(args)->Ok_0;
            &&& !hyphened(value) ==> parsed(args.push("--vnc"@).push(value)) == Ok::<
                CliModel,
                RefusedModel,
            >(CliModel { vnc_enabled: true, vnc_addr: Some(value), ..cli })
            &&& !hyphened(value) ==> parsed(args.push("--mcp"@).push(value)) == Ok::<
                CliModel,
                RefusedModel,
            >(CliModel { mcp_enabled: true, mcp_addr: Some(value), ..cli })
            &&& parsed(args.push("--vnc-password"@).push(value)) == Ok::<CliModel, RefusedModel>(
                CliModel { vnc_password: Some(value), ..cli },
            )
        }),
{
    reveal_with_fuel(read, 2);
    lemma_options();
    lemma_hyphened(value);
    let vnc = seq!["--vnc"@, value];
    let mcp = seq!["--mcp"@, value];
    let password = seq!["--vnc-password"@, value];
    lemma_read_on(no_flags(), args, vnc);
    lemma_read_on(no_flags(), args, mcp);
    lemma_read_on(no_flags(), args, password);
    assert(args + vnc =~= args.push("--vnc"@).push(value));
    assert(args + mcp =~= args.push("--mcp"@).push(value));
    assert(args + password =~= args.push("--vnc-password"@).push(value));
    assert(vnc.drop_first() =~= seq![value]);
    assert(mcp.drop_first() =~= seq![value]);
    assert(password.drop_first() =~= seq![value]);
    assert(seq![value].drop_first() =~= Seq::empty());
}

/// Doing without the window changes nothing else, but for the default of VNC.
pub proof fn law_headless_leaves_the_rest(args: Seq<Seq<char>>)
    requires
        parsed(args) is Ok,
    ensures
        ({
            let cli = parsed(args)->Ok_0;
            let after = parsed(args.push("--headless"@));
            &&& after is Ok
            &&& after->Ok_0 == (CliModel {
                headless: true,
                vnc_enabled: after->Ok_0.vnc_enabled,
                ..cli
            })
            &&& cli.vnc_enabled ==> after->Ok_0.vnc_enabled
            &&& !args.contains("--no-vnc"@) ==> after->Ok_0.vnc_enabled
            &&& parsed(args.push("--no-vnc"@).push("--headless"@)) == Ok::<CliModel, RefusedModel>(
                CliModel { headless: true, vnc_enabled: false, ..cli },
            )
        }),
{
    reveal_with_fuel(read, 3);
    lemma_options();
    lemma_read_on(no_flags(), args, seq!["--headless"@]);
    assert(args + seq!["--headless"@] =~= args.push("--headless"@));
    let both = seq!["--no-vnc"@, "--headless"@];
    lemma_read_on(no_flags(), args, both);
    assert(args + both =~= args.push("--no-vnc"@).push("--headless"@));
    assert(both.drop_first() =~= seq!["--headless"@]);
    if !args.contains("--no-vnc"@) {
        lemma_not_turned_off(no_flags(), args);
    }
}

proof fn lemma_not_turned_off(flags: Flags, args: Seq<Seq<char>>)
    requires
        read(flags, args) is Ok,
        flags.vnc != Some(false),
        !args.contains("--no-vnc"@),
    ensures
        read(flags, args)->Ok_0.vnc != Some(false),
    decreases args.len(),
{
    lemma_options();
    if args.len() > 0 {
        let arg = args[0];
        let rest = args.drop_first();
        assert(args.contains(arg));
        assert forall|x: Seq<char>| rest.contains(x) implies args.contains(x) by {
            let i = choose|i: int| 0 <= i < rest.len() && rest[i] == x;
            assert(args[i + 1] == x);
        }
        let (next, left) = if arg == "--headless"@ {
            (Flags { headless: true, ..flags }, rest)
        } else if arg == "--vnc"@ {
            if value_follows(rest) {
                (
                    Flags { vnc: Some(true), vnc_addr: Some(rest[0]), ..flags },
                    rest.drop_first(),
                )
            } else {
                (Flags { vnc: Some(true), ..flags }, rest)
            }
        } else if arg == "--vnc-password"@ {
            (Flags { vnc_password: Some(rest[0]), ..flags }, rest.drop_first())
        } else if arg == "--mcp"@ {
            if value_follows(rest) {
                (
                    Flags { mcp: Some(true), mcp_addr: Some(rest[0]), ..flags },
                    rest.drop_first(),
                )
            } else {
                (Flags { mcp: Some(true), ..flags }, rest)
            }
        } else if arg == "--no-mcp"@ {
            (Flags { mcp: Some(false), ..flags }, rest)
        } else {
            (Flags { udid: Some(arg), ..flags }, rest)
        };
        assert(read(flags, args) == read(next, left));
        assert forall|x: Seq<char>| left.contains(x) implies rest.contains(x) by {
            let i = choose|i: int| 0 <= i < left.len() && left[i] == x;
            let offset = rest.len() - left.len();
            assert(rest[i + offset] == x);
        }
        lemma_not_turned_off(next, left);
    }
}

/// An option that there is not is refused by its name, whatever follows, and so is
/// the option for the password without one behind it.
pub proof fn law_bad_options_are_refused(
    args: Seq<Seq<char>>,
    option: Seq<char>,
    more: Seq<Seq<char>>,
)
    requires
        parsed(args) is Ok,
        hyphened(option),
        option != "-h"@,
        option != "--help"@,
        option != "--headless"@,
        option != "--vnc"@,
        option != "--no-vnc"@,
        option != "--vnc-password"@,
        option != "--mcp"@,
        option != "--no-mcp"@,
    ensures
        parsed(args + seq![option] + more) == Err::<CliModel, RefusedModel>(
            RefusedModel::UnknownOption(option),
        ),
        parsed(args.push("--vnc-password"@)) == Err::<CliModel, RefusedModel>(
            RefusedModel::MissingPassword,
        ),
{
    reveal_with_fuel(read, 2);
    lemma_options();
    lemma_hyphened(option);
    let tail = seq![option] + more;
    assert(tail[0] == option);
    lemma_read_on(no_flags(), args, tail);
    assert(args + seq![option] + more =~= args + tail);
    lemma_read_on(no_flags(), args, seq!["--vnc-password"@]);
    assert(args + seq!["--vnc-password"@] =~= args.push("--vnc-password"@));
}

proof fn lemma_refusal(flags: Flags, args: Seq<Seq<char>>, more: Seq<Seq<char>>)
    requires
        read(flags, args) is Err,
        !(read(flags, args)->Err_0 is MissingPassword),
    ensures
        read(flags, args + more) == read(flags, args),
    decreases args.len(),
{
    lemma_options();
    if args.len() > 0 {
        let arg = args[0];
        let rest = args.drop_first();
        assert((args + more)[0] == arg);
        assert((args + more).drop_first() =~= rest + more);
        if rest.len() > 0 {
            assert((rest + more)[0] == rest[0]);
            assert((rest + more).drop_first() =~= rest.drop_first() + more);
        }
        if arg == "-h"@ || arg == "--help"@ {
        } else if arg == "--headless"@ {
            lemma_refusal(Flags { headless: true, ..flags }, rest, more);
        } else if arg == "--vnc"@ {
            if value_follows(rest) {
                lemma_refusal(
                    Flags { vnc: Some(true), vnc_addr: Some(rest[0]), ..flags },
                    rest.drop_first(),
                    more,
                );
            } else {
                lemma_refusal(Flags { vnc: Some(true), ..flags }, rest, more);
            }
        } else if arg == "--no-vnc"@ {
            lemma_refusal(Flags { vnc: Some(false), ..flags }, rest, more);
        } else if arg == "--vnc-password"@ {
            lemma_refusal(
                Flags { vnc_password: Some(rest[0]), ..flags },
                rest.drop_first(),
                more,
            );
        } else if arg == "--mcp"@ {
            if value_follows(rest) {
                lemma_refusal(
                    Flags { mcp: Some(true), mcp_addr: Some(rest[0]), ..flags },
                    rest.drop_first(),
                    more,
                );
            } else {
                lemma_refusal(Flags { mcp: Some(true), ..flags }, rest, more);
            }
        } else if arg == "--no-mcp"@ {
            lemma_refusal(Flags { mcp: Some(false), ..flags }, rest, more);
        } else if "-"@.is_prefix_of(arg) || flags.udid is Some {
        } else {
            lemma_refusal(Flags { udid: Some(arg), ..flags }, rest, more);
        }
    }
}

/// The first refusal stands, whatever follows it; only a missing password can still
/// come.
pub proof fn law_a_refusal_stands(args: Seq<Seq<char>>, more: Seq<Seq<char>>)
    requires
        parsed(args) is Err,
        !(parsed(args)->Err_0 is MissingPassword),
    ensures
        parsed(args + more) == parsed(args),
{
    lemma_refusal(no_flags(), args, more);
}

/// The arguments without a hyphen.
pub open spec fn plain(args: Seq<Seq<char>>) -> Seq<Seq<char>> {
    args.filter(|arg: Seq<char>| !hyphened(arg))
}

proof fn lemma_plain_first(first: Seq<char>, more: Seq<Seq<char>>)
    ensures
        plain(seq![first] + more) == if hyphened(first) {
            plain(more)
        } else {
            seq![first] + plain(more)
        },
{
    reveal_with_fuel(Seq::filter, 2);
    Seq::filter_distributes_over_add(
        seq![first],
        more,
        |arg: Seq<char>| !hyphened(arg),
    );
    assert(seq![first].drop_last() =~= Seq::empty());
    assert(Seq::<Seq<char>>::empty() + plain(more) =~= plain(more));
}

proof fn lemma_udid_read(flags: Flags, args: Seq<Seq<char>>)
    requires
        read(flags, args) is Ok,
    ensures
        ({
            let end = read(flags, args)->Ok_0;
            let named = plain(not_values(args));
            &&& named.len() == 0 ==> end.udid == flags.udid
            &&& named.len() > 0 ==> flags.udid is None && named.len() == 1 && end.udid == Some(
                named[0],
            )
        }),
    decreases args.len(),
{
    lemma_options();
    if args.len() == 0 {
        reveal(Seq::filter);
    } else {
        let arg = args[0];
        let rest = args.drop_first();
        lemma_hyphened(arg);
        let (next, left) = if arg == "--headless"@ {
            (Flags { headless: true, ..flags }, rest)
        } else if arg == "--vnc"@ {
            if value_follows(rest) {
                (
                    Flags { vnc: Some(true), vnc_addr: Some(rest[0]), ..flags },
                    rest.drop_first(),
                )
            } else {
                (Flags { vnc: Some(true), ..flags }, rest)
            }
        } else if arg == "--no-vnc"@ {
            (Flags { vnc: Some(false), ..flags }, rest)
        } else if arg == "--vnc-password"@ {
            (Flags { vnc_password: Some(rest[0]), ..flags }, rest.drop_first())
        } else if arg == "--mcp"@ {
            if value_follows(rest) {
                (
                    Flags { mcp: Some(true), mcp_addr: Some(rest[0]), ..flags },
                    rest.drop_first(),
                )
            } else {
                (Flags { mcp: Some(true), ..flags }, rest)
            }
        } else if arg == "--no-mcp"@ {
            (Flags { mcp: Some(false), ..flags }, rest)
        } else {
            (Flags { udid: Some(arg), ..flags }, rest)
        };
        assert(read(flags, args) == read(next, left));
        assert(not_values(args) == seq![arg] + not_values(left));
        lemma_udid_read(next, left);
        lemma_plain_first(arg, not_values(left));
    }
}

/// The device is the one that the command line names: of every command line that
/// parses, the one argument that has no hyphen and is no option's value, and none
/// exactly if there is no such argument.
pub proof fn law_the_device_is_the_one_named(args: Seq<Seq<char>>)
    requires
        parsed(args) is Ok,
    ensures
        ({
            let cli = parsed(args)->Ok_0;
            let named = plain(not_values(args));
            &&& named.len() <= 1
            &&& cli.udid is None <==> named.len() == 0
            &&& cli.udid is Some ==> cli.udid == Some(named[0])
        }),
{
    lemma_udid_read(no_flags(), args);
}

/// The value of the last option of a name that has one: of the options for an
/// address, what follows without a hyphen, and of that for the password, whatever
/// follows.
pub open spec fn last_value(args: Seq<Seq<char>>, option: Seq<char>) -> Option<Seq<char>>
    decreases args.len(),
{
    if args.len() == 0 {
        None
    } else {
        let takes = args[0] == "--vnc-password"@ || args[0] == "--vnc"@ || args[0] == "--mcp"@;
        let given = takes && args.len() > 1 && (args[0] == "--vnc-password"@ || !hyphened(args[1]));
        let later = last_value(
            if given {
                args.skip(2)
            } else {
                args.skip(1)
            },
            option,
        );
        if later is None && given && args[0] == option {
            Some(args[1])
        } else {
            later
        }
    }
}

proof fn lemma_values_read(flags: Flags, args: Seq<Seq<char>>)
    requires
        read(flags, args) is Ok,
    ensures
        ({
            let end = read(flags, args)->Ok_0;
            let vnc = last_value(args, "--vnc"@);
            let mcp = last_value(args, "--mcp"@);
            let password = last_value(args, "--vnc-password"@);
            &&& end.vnc_addr == if vnc is Some {
                vnc
            } else {
                flags.vnc_addr
            }
            &&& end.mcp_addr == if mcp is Some {
                mcp
            } else {
                flags.mcp_addr
            }
            &&& end.vnc_password == if password is Some {
                password
            } else {
                flags.vnc_password
            }
        }),
    decreases args.len(),
{
    lemma_options();
    if args.len() > 0 {
        let arg = args[0];
        let rest = args.drop_first();
        assert(args.skip(1) =~= rest);
        if rest.len() > 0 {
            lemma_hyphened(rest[0]);
            assert(args.skip(2) =~= rest.drop_first());
        }
        let (next, left) = if arg == "--headless"@ {
            (Flags { headless: true, ..flags }, rest)
        } else if arg == "--vnc"@ {
            if value_follows(rest) {
                (
                    Flags { vnc: Some(true), vnc_addr: Some(rest[0]), ..flags },
                    rest.drop_first(),
                )
            } else {
                (Flags { vnc: Some(true), ..flags }, rest)
            }
        } else if arg == "--no-vnc"@ {
            (Flags { vnc: Some(false), ..flags }, rest)
        } else if arg == "--vnc-password"@ {
            (Flags { vnc_password: Some(rest[0]), ..flags }, rest.drop_first())
        } else if arg == "--mcp"@ {
            if value_follows(rest) {
                (
                    Flags { mcp: Some(true), mcp_addr: Some(rest[0]), ..flags },
                    rest.drop_first(),
                )
            } else {
                (Flags { mcp: Some(true), ..flags }, rest)
            }
        } else if arg == "--no-mcp"@ {
            (Flags { mcp: Some(false), ..flags }, rest)
        } else {
            (Flags { udid: Some(arg), ..flags }, rest)
        };
        assert(read(flags, args) == read(next, left));
        lemma_values_read(next, left);
    }
}

/// The addresses and the password are the last ones that the command line gives,
/// and none where it gives none.
pub proof fn law_addresses_and_password_are_the_last_given(args: Seq<Seq<char>>)
    requires
        parsed(args) is Ok,
    ensures
        ({
            let cli = parsed(args)->Ok_0;
            &&& cli.vnc_addr == last_value(args, "--vnc"@)
            &&& cli.mcp_addr == last_value(args, "--mcp"@)
            &&& cli.vnc_password == last_value(args, "--vnc-password"@)
        }),
{
    lemma_values_read(no_flags(), args);
}

/// With a window, what is stored stands in for what the command line does not give,
/// host and port each by itself, and VNC runs if either of the two turns it on.
pub proof fn law_what_is_stored_stands_in(stored: StoredVnc, cli: Cli)
    ensures
        window_vnc(stored, cli).enabled <==> cli.vnc_enabled || stored.enabled == Some(true),
        cli.vnc_addr is None && stored.host is Some && stored.port is Some ==> window_vnc(
            stored,
            cli,
        ).addr == stored.host->0@ + ":"@ + stored.port->0@,
        cli.vnc_addr is None && stored.host is Some && stored.port is None ==> window_vnc(
            stored,
            cli,
        ).addr == stored.host->0@ + ":5900"@,
        cli.vnc_addr is None && stored.host is None && stored.port is Some ==> window_vnc(
            stored,
            cli,
        ).addr == "127.0.0.1:"@ + stored.port->0@,
        cli.vnc_password is None && stored.password is Some ==> window_vnc(stored, cli).password
            == stored.password->0@,
{
    reveal_strlit("127.0.0.1");
    reveal_strlit("127.0.0.1:");
    reveal_strlit(":");
    reveal_strlit("5900");
    reveal_strlit(":5900");
    assert("127.0.0.1"@ + ":"@ =~= "127.0.0.1:"@);
    assert(":"@ + "5900"@ =~= ":5900"@);
    if cli.vnc_addr is None && stored.host is Some && stored.port is None {
        assert(stored.host->0@ + ":"@ + "5900"@ =~= stored.host->0@ + (":"@ + "5900"@));
    }
}

/// A text that is given stands for itself, and only a missing one is stood in for.
pub proof fn law_a_given_text_stands(text: String, other: Seq<char>)
    ensures
        text_or(Some(text), other) == text@,
        text_or(None, other) == other,
{
}

/// The arguments are taken as they are and in their order, and what they come to, or
/// why they are refused, is told as it is.
pub proof fn law_the_command_line_is_taken_as_it_is(
    args: Seq<String>,
    i: int,
    cli: Cli,
    settings: VncSettings,
    option: String,
)
    ensures
        texts(args).len() == args.len(),
        0 <= i < args.len() ==> texts(args)[i] == args[i]@,
        cli@ == (CliModel {
            udid: chars_of(cli.udid),
            headless: cli.headless,
            vnc_enabled: cli.vnc_enabled,
            vnc_addr: chars_of(cli.vnc_addr),
            vnc_password: chars_of(cli.vnc_password),
            mcp_enabled: cli.mcp_enabled,
            mcp_addr: chars_of(cli.mcp_addr),
        }),
        settings@ == (VncModel {
            enabled: settings.enabled,
            addr: settings.addr@,
            password: settings.password@,
        }),
        Refused::Help@ is Help,
        Refused::UnknownOption(option)@ == RefusedModel::UnknownOption(option@),
        Refused::MissingPassword@ is MissingPassword,
        Refused::ExtraUdid@ is ExtraUdid,
{
}

} // verus!
