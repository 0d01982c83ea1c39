//! Composing the command that runs a game under the compatibility layer,
//! reading the command line of the launcher, and supervising the one
//! launch that may be under way.

use crate::display::{
    get_display_mode, mode_of_report, restore_args, restore_display_mode, DisplayMode, ModeView,
};
use crate::config::ConfigFile;
use crate::scanner::{game_views, parent_dir, parent_of, texts, GameInfo, GameView};
use crate::scanner::Variant;
use crate::text::{
    chars_of, decimal, find, first_match, first_true, has_prefix, join_words,
    lemma_first_true_is, push_all, push_decimal, push_str, slice, starts_with, string_of, trim,
    trimmed, vec_eq, CharClass,
};
use vstd::prelude::*;

verus! {

/// The prefix directory used where neither the game nor the settings name
/// one.
pub open spec fn fallback_prefix() -> Seq<char> {
    "$HOME/.wine"@
}

/// The environment that suits the compatibility layer, used where the game
/// names none.
pub open spec fn default_envars() -> Seq<char> {
    "MESA_EXTENSION_MAX_YEAR=2008 force_s3tc_enable=true __GL_ExtensionStringVersion=17700"@
}

/// The arguments used where the game names none: they keep the game from
/// changing the hardware gamma.
pub open spec fn default_args() -> Seq<char> {
    "+set r_ignorehwgamma 1"@
}

/// The prefix directory in force: the game's own unless it is blank, else
/// the stored default, as it is, unless it is empty, else the fallback.
pub open spec fn effective_prefix(own: Seq<char>, stored: Seq<char>) -> Seq<char> {
    if trim(own).len() > 0 {
        own
    } else if stored.len() > 0 {
        stored
    } else {
        fallback_prefix()
    }
}

/// The environment in force: the game's own unless it is empty.
pub open spec fn effective_envars(own: Seq<char>) -> Seq<char> {
    if own.len() > 0 {
        own
    } else {
        default_envars()
    }
}

/// The arguments in force: the game's own unless they are empty, else the
/// default ones; then, after a blank, the extra arguments if there are any.
pub open spec fn effective_args(own: Seq<char>, extra: Seq<char>) -> Seq<char> {
    let base = if own.len() > 0 {
        own
    } else {
        default_args()
    };
    if extra.len() > 0 {
        base + seq![' '] + extra
    } else {
        base
    }
}

/// The shell command that runs `game` under the compatibility layer.
pub open spec fn launch_command(game: GameView, stored_prefix: Seq<char>, extra: Seq<char>) -> Seq<
    char,
> {
    "WINEPREFIX=\""@ + effective_prefix(game.wineprefix, stored_prefix) + "\" "@
        + effective_envars(game.envars) + " wine "@ + game.path + seq![' '] + effective_args(
        game.args,
        extra,
    )
}

/// Composes the shell command that runs a game.
///
/// `stored_prefix` is the default prefix directory from the settings, empty
/// where none is stored; `extra_args` are appended to the game's arguments.
pub fn launch_game(game: &GameInfo, stored_prefix: &str, extra_args: &str) -> (out: String)
    ensures
        out@ == launch_command(game@, stored_prefix@, extra_args@),
{
    let own_prefix = chars_of(game.wineprefix.as_str());
    let stored = chars_of(stored_prefix);
    let envars = chars_of(game.envars.as_str());
    let args = chars_of(game.args.as_str());
    let extra = chars_of(extra_args);
    let mut buf: Vec<char> = Vec::new();
    push_str(&mut buf, "WINEPREFIX=\"");
    if trimmed(&own_prefix).len() > 0 {
        push_all(&mut buf, &own_prefix);
    } else if stored.len() > 0 {
        push_all(&mut buf, &stored);
    } else {
        push_str(&mut buf, "$HOME/.wine");
    }
    push_str(&mut buf, "\" ");
    if envars.len() > 0 {
        push_all(&mut buf, &envars);
    } else {
        push_str(
            &mut buf,
            "MESA_EXTENSION_MAX_YEAR=2008 force_s3tc_enable=true __GL_ExtensionStringVersion=17700",
        );
    }
    push_str(&mut buf, " wine ");
    push_str(&mut buf, game.path.as_str());
    buf.push(' ');
    let ghost head = buf@;
    if args.len() > 0 {
        push_all(&mut buf, &args);
    } else {
        push_str(&mut buf, "+set r_ignorehwgamma 1");
    }
    if extra.len() > 0 {
        buf.push(' ');
        push_all(&mut buf, &extra);
    }
    assert(buf@ =~= head + effective_args(game@.args, extra_args@));
    assert(buf@ =~= launch_command(game@, stored_prefix@, extra_args@));
    string_of(&buf)
}

/// The desktop file that handles the addresses of the scheme `uri`.
pub open spec fn desktop_file_for(uri: Seq<char>) -> Seq<char> {
    if uri == "t1x"@ {
        "CoDLinux_(uo).desktop"@
    } else {
        "CoDLinux.desktop"@
    }
}

/// The shell command that registers the launcher as the handler of the
/// scheme `uri`.
pub open spec fn register_command(uri: Seq<char>) -> Seq<char> {
    "xdg-mime default '"@ + desktop_file_for(uri) + "' x-scheme-handler/"@ + uri
}

/// Composes the shell command that registers the launcher for a scheme.
pub fn reg_uri_scheme(uri: &str) -> (out: String)
    ensures
        out@ == register_command(uri@),
{
    let u = chars_of(uri);
    let t1x = chars_of("t1x");
    let mut buf: Vec<char> = Vec::new();
    push_str(&mut buf, "xdg-mime default '");
    if vec_eq(&u, &t1x) {
        push_str(&mut buf, "CoDLinux_(uo).desktop");
    } else {
        push_str(&mut buf, "CoDLinux.desktop");
    }
    push_str(&mut buf, "' x-scheme-handler/");
    push_all(&mut buf, &u);
    assert(buf@ =~= register_command(uri@));
    string_of(&buf)
}

/// The shell command that shows `message` as a desktop notification for
/// `expire_time` milliseconds.
pub open spec fn notify_command(message: Seq<char>, expire_time: u32, transient: bool) -> Seq<
    char,
> {
    "notify-send --app-name=CoDLinux --icon=codlinux "@ + (if transient {
        "--transient "@
    } else {
        Seq::<char>::empty()
    }) + "--expire-time="@ + decimal(expire_time as nat) + " CoDLinux \""@ + message + "\""@
}

/// Composes the shell command that shows a desktop notification.
pub fn notify(message: &str, expire_time: u32, transient: bool) -> (out: String)
    ensures
        out@ == notify_command(message@, expire_time, transient),
{
    let mut buf: Vec<char> = Vec::new();
    push_str(&mut buf, "notify-send --app-name=CoDLinux --icon=codlinux ");
    if transient {
        push_str(&mut buf, "--transient ");
    }
    push_str(&mut buf, "--expire-time=");
    push_decimal(&mut buf, expire_time as u64);
    push_str(&mut buf, " CoDLinux \"");
    push_str(&mut buf, message);
    push_str(&mut buf, "\"");
    assert(buf@ =~= notify_command(message@, expire_time, transient));
    string_of(&buf)
}

/// The host that an address names where it names none: the loopback
/// address.
pub open spec fn default_host() -> Seq<char> {
    "127.0.0.1"@
}

/// The port that an address names where it names none: the port on which
/// the game listens by default.
pub open spec fn default_port() -> Seq<char> {
    "28960"@
}

/// A game server to connect to, as named on the command line.
#[derive(Debug)]
pub struct ConnectTarget {
    /// The client extension that the scheme of the address selects.
    pub scheme: Variant,
    pub host: String,
    pub port: String,
}

/// The mathematical value of a [`ConnectTarget`].
pub struct TargetView {
    pub scheme: Variant,
    pub host: Seq<char>,
    pub port: Seq<char>,
}

impl View for ConnectTarget {
    type V = TargetView;

    open spec fn view(&self) -> TargetView {
        TargetView { scheme: self.scheme, host: self.host@, port: self.port@ }
    }
}

/// The host of `host[:port]`: what precedes the first colon, or the
/// default where that is empty.
pub open spec fn host_of(rest: Seq<char>) -> Seq<char> {
    let k = first_match(rest, CharClass::Exactly(':'));
    if k > 0 {
        rest.take(k)
    } else {
        default_host()
    }
}

/// The port of `host[:port]`: what stands between the first colon and the
/// next one or the end, or the default where there is no colon or
/// nothing after it.
pub open spec fn port_of(rest: Seq<char>) -> Seq<char> {
    let k = first_match(rest, CharClass::Exactly(':'));
    if 0 <= k < rest.len() {
        let after = rest.skip(k + 1);
        let k2 = first_match(after, CharClass::Exactly(':'));
        if k2 > 0 {
            after.take(k2)
        } else {
            default_port()
        }
    } else {
        default_port()
    }
}

/// The server that a command-line argument of the form
/// `scheme://host[:port]` names, where the scheme is that of one of the two
/// client extensions; `None` for any other argument.
pub open spec fn target_of(arg: Seq<char>) -> Option<TargetView> {
    if has_prefix(arg, "iw1x://"@) {
        let rest = arg.skip("iw1x://"@.len() as int);
        Some(TargetView { scheme: Variant::Iw1x, host: host_of(rest), port: port_of(rest) })
    } else if has_prefix(arg, "t1x://"@) {
        let rest = arg.skip("t1x://"@.len() as int);
        Some(TargetView { scheme: Variant::T1x, host: host_of(rest), port: port_of(rest) })
    } else {
        None
    }
}

fn address_of(rest: &Vec<char>, scheme: Variant) -> (out: ConnectTarget)
    ensures
        out@ == (TargetView { scheme, host: host_of(rest@), port: port_of(rest@) }),
{
    let k = find(rest, 0, CharClass::Exactly(':'));
    assert(rest@.skip(0) =~= rest@);
    let host = if k > 0 {
        let h = slice(rest, 0, k);
        assert(h@ =~= rest@.take(k as int));
        string_of(&h)
    } else {
        "127.0.0.1".to_owned()
    };
    let port = if k < rest.len() {
        let k2 = find(rest, k + 1, CharClass::Exactly(':'));
        if k2 > k + 1 {
            let p = slice(rest, k + 1, k2);
            assert(p@ =~= rest@.skip(k + 1).take(k2 - (k + 1)));
            string_of(&p)
        } else {
            "28960".to_owned()
        }
    } else {
        "28960".to_owned()
    };
    ConnectTarget { scheme, host, port }
}

/// Reads a command-line argument as the address of a game server.
pub fn connect_target(arg: &str) -> (out: Option<ConnectTarget>)
    ensures
        match out {
            Some(t) => target_of(arg@) == Some(t@),
            None => target_of(arg@) is None,
        },
{
    let a = chars_of(arg);
    let iw1x = chars_of("iw1x://");
    let t1x = chars_of("t1x://");
    if starts_with(&a, &iw1x) {
        let rest = slice(&a, iw1x.len(), a.len());
        assert(rest@ =~= arg@.skip("iw1x://"@.len() as int));
        Some(address_of(&rest, Variant::Iw1x))
    } else if starts_with(&a, &t1x) {
        let rest = slice(&a, t1x.len(), a.len());
        assert(rest@ =~= arg@.skip("t1x://"@.len() as int));
        Some(address_of(&rest, Variant::T1x))
    } else {
        None
    }
}

/// The launch argument that makes the game connect to a server.
pub open spec fn connect_text(t: TargetView) -> Seq<char> {
    "+connect "@ + t.host + seq![':'] + t.port
}

/// Writes the launch argument that makes the game connect to `target`.
pub fn connect_arg(target: &ConnectTarget) -> (out: String)
    ensures
        out@ == connect_text(target@),
{
    let mut buf: Vec<char> = Vec::new();
    push_str(&mut buf, "+connect ");
    push_str(&mut buf, target.host.as_str());
    buf.push(':');
    push_str(&mut buf, target.port.as_str());
    assert(buf@ =~= connect_text(target@));
    string_of(&buf)
}

/// The command-line arguments as they are handed on to the game: a first
/// argument that is the address of a server is replaced by the launch
/// argument that connects to it.
pub open spec fn rewritten(args: Seq<Seq<char>>) -> Seq<Seq<char>> {
    if args.len() > 0 && target_of(args[0]) is Some {
        seq![connect_text(target_of(args[0])->0)] + args.skip(1)
    } else {
        args
    }
}

/// For each game, whether it is of the variant `v`.
pub open spec fn variant_flags(games: Seq<GameView>, v: Variant) -> Seq<bool> {
    Seq::new(games.len(), |i: int| games[i].variant == v)
}

/// For each game, whether it is called `name`.
pub open spec fn name_flags(games: Seq<GameView>, name: Seq<char>) -> Seq<bool> {
    Seq::new(games.len(), |i: int| games[i].name == name)
}

/// How the launcher starts.
#[derive(Debug)]
pub enum StartupPlan {
    /// Launch the game at this position at once, with these extra
    /// arguments, and show no selection.
    Launch(usize, String),
    /// Let the user choose a game.
    Interactive,
}

/// The mathematical value of a [`StartupPlan`].
pub enum PlanView {
    Launch(int, Seq<char>),
    Interactive,
}

impl View for StartupPlan {
    type V = PlanView;

    open spec fn view(&self) -> PlanView {
        match *self {
            StartupPlan::Launch(i, extra) => PlanView::Launch(i as int, extra@),
            StartupPlan::Interactive => PlanView::Interactive,
        }
    }
}

/// The game that the command line selects: the first one of the variant
/// that the scheme of a server address names; the number of games where
/// there is no such argument or no such game.
pub open spec fn selected_by_address(games: Seq<GameView>, args: Seq<Seq<char>>) -> int {
    if args.len() > 0 && target_of(args[0]) is Some {
        first_true(variant_flags(games, target_of(args[0])->0.scheme))
    } else {
        games.len() as int
    }
}

/// The game that was remembered: the first one called `saved`; the number
/// of games where nothing is remembered or no game has that name.
pub open spec fn selected_by_name(games: Seq<GameView>, saved: Seq<char>) -> int {
    if saved.len() > 0 {
        first_true(name_flags(games, saved))
    } else {
        games.len() as int
    }
}

/// How the launcher starts, given the games found, its command-line
/// arguments and the name of the remembered game (empty for none).
///
/// A server address as first argument launches the game it selects; else
/// the remembered game is launched; else the user chooses. A game that is
/// launched at once gets the rewritten command line as extra arguments.
pub open spec fn plan_of(games: Seq<GameView>, args: Seq<Seq<char>>, saved: Seq<char>) -> PlanView {
    let extra = join_words(rewritten(args));
    let a = selected_by_address(games, args);
    let n = selected_by_name(games, saved);
    if 0 <= a < games.len() {
        PlanView::Launch(a, extra)
    } else if 0 <= n < games.len() {
        PlanView::Launch(n, extra)
    } else {
        PlanView::Interactive
    }
}

fn join_rewritten(args: &Vec<String>, first: Option<&ConnectTarget>) -> (out: String)
    requires
        first is Some ==> args.len() > 0 && target_of(args[0]@) == Some(first->0@),
        first is None ==> args.len() == 0 || target_of(args[0]@) is None,
    ensures
        out@ == join_words(rewritten(texts(args@))),
{
    let ghost words = rewritten(texts(args@));
    assert(words.len() == args.len()) by {
        if args.len() > 0 {
            assert(texts(args@)[0] == args[0]@);
        }
    }
    let mut buf: Vec<char> = Vec::new();
    let mut i: usize = 0;
    assert(words.take(0) =~= Seq::<Seq<char>>::empty());
    while i < args.len()
        invariant
            i <= args.len(),
            words == rewritten(texts(args@)),
            words.len() == args.len(),
            first is Some ==> args.len() > 0 && target_of(args[0]@) == Some(first->0@),
            first is None ==> args.len() == 0 || target_of(args[0]@) is None,
            buf@ == join_words(words.take(i as int)),
        decreases args.len() - i,
    {
        proof {
            assert(words.take(i + 1).drop_last() =~= words.take(i as int));
            assert(texts(args@)[0] == args[0]@);
            assert(texts(args@)[i as int] == args[i as int]@);
        }
        if i > 0 {
            buf.push(' ');
        }
        let ghost before = buf@;
        if i == 0 && first.is_some() {
            let c = connect_arg(first.unwrap());
            push_str(&mut buf, c.as_str());
        } else {
            push_str(&mut buf, args[i].as_str());
        }
        assert(buf@ == before + words[i as int]);
        assert(words.take(i + 1).last() == words[i as int]);
        i += 1;
        assert(buf@ =~= join_words(words.take(i as int)));
    }
    assert(words.take(i as int) =~= words);
    string_of(&buf)
}

fn find_variant(games: &Vec<GameInfo>, v: Variant) -> (at: usize)
    ensures
        at == first_true(variant_flags(game_views(games@), v)),
        at <= games.len(),
{
    let ghost flags = variant_flags(game_views(games@), v);
    let mut i: usize = 0;
    while i < games.len() && games[i].variant != v
        invariant
            i <= games.len(),
            flags == variant_flags(game_views(games@), v),
            forall|j: int| 0 <= j < i ==> !#[trigger] flags[j],
        decreases games.len() - i,
    {
        i += 1;
    }
    proof {
        lemma_first_true_is(flags, i as int);
    }
    i
}

fn find_named(games: &Vec<GameInfo>, name: &Vec<char>) -> (at: usize)
    ensures
        at == first_true(name_flags(game_views(games@), name@)),
        at <= games.len(),
{
    let ghost flags = name_flags(game_views(games@), name@);
    let mut i: usize = 0;
    while i < games.len() && !vec_eq(&chars_of(games[i].name.as_str()), name)
        invariant
            i <= games.len(),
            flags == name_flags(game_views(games@), name@),
            forall|j: int| 0 <= j < i ==> !#[trigger] flags[j],
        decreases games.len() - i,
    {
        i += 1;
    }
    proof {
        lemma_first_true_is(flags, i as int);
    }
    i
}

/// Decides how the launcher starts.
pub fn startup_plan(games: &Vec<GameInfo>, args: &Vec<String>, saved_game: &str) -> (out:
    StartupPlan)
    ensures
        out@ == plan_of(game_views(games@), texts(args@), saved_game@),
{
    let target = if args.len() > 0 {
        connect_target(args[0].as_str())
    } else {
        None
    };
    proof {
        if args.len() > 0 {
            assert(texts(args@)[0] == args[0]@);
        }
    }
    let extra = join_rewritten(args, target.as_ref());
    let by_address = match &target {
        Some(t) => find_variant(games, t.scheme),
        None => games.len(),
    };
    if by_address < games.len() {
        return StartupPlan::Launch(by_address, extra);
    }
    let saved = chars_of(saved_game);
    let by_name = if saved.len() > 0 {
        find_named(games, &saved)
    } else {
        games.len()
    };
    if by_name < games.len() {
        StartupPlan::Launch(by_name, extra)
    } else {
        StartupPlan::Interactive
    }
}

/// How a launched game ended.
#[derive(Debug)]
pub enum Exit {
    /// The game ran and exited.
    Clean,
    /// The game could not be started, or ended in an error. The text says
    /// how.
    Failed(String),
    /// Launching broke off with an unexpected fault.
    Panicked,
}

/// Why a launch was refused.
#[derive(Clone, Copy, Debug, PartialEq, Eq, Structural)]
pub enum LaunchError {
    /// A game is running already.
    AlreadyRunning,
}

/// What is to be done when a game has ended.
#[derive(Debug)]
pub struct Aftermath {
    /// Arguments for the display-configuration tool that put the display
    /// mode back, if there is a mode to put back.
    pub restore: Option<Vec<String>>,
    /// What to tell the user, if the launch went wrong.
    pub report: Option<String>,
}

/// What to tell the user when the game called `name` ended in the way
/// `exit`; nothing where it ended well.
pub open spec fn report_text(name: Seq<char>, exit: Exit) -> Option<Seq<char>> {
    match exit {
        Exit::Clean => None,
        Exit::Failed(err) => Some(
            "\u{26a0}\u{fe0f} Game launch failed for `"@ + name + "`: "@ + err@,
        ),
        Exit::Panicked => Some("\u{26a0}\u{fe0f} Panic while launching `"@ + name + "`"@),
    }
}

/// The supervisor of launches: it knows whether a game is running, and the
/// display mode that was in force before any game ran.
pub struct Launcher {
    running: bool,
    mode: Option<DisplayMode>,
}

impl Launcher {
    /// Whether a game is running.
    pub closed spec fn is_running(&self) -> bool {
        self.running
    }

    /// The display mode that was captured, if one was.
    pub closed spec fn captured(&self) -> Option<ModeView> {
        match self.mode {
            Some(m) => Some(m@),
            None => None,
        }
    }

    /// A supervisor with no game running and no display mode captured.
    pub fn new() -> (out: Launcher)
        ensures
            !out.is_running(),
            out.captured() is None,
    {
        Launcher { running: false, mode: None }
    }

    /// Whether a game is running.
    pub fn game_running(&self) -> (out: bool)
        ensures
            out == self.is_running(),
    {
        self.running
    }

    /// Captures the display mode from the report of the
    /// display-configuration tool. The first mode that is captured stays:
    /// a later report changes nothing.
    pub fn capture(&mut self, report: &str)
        ensures
            final(self).is_running() == old(self).is_running(),
            final(self).captured() == if old(self).captured() is Some {
                old(self).captured()
            } else {
                mode_of_report(report@)
            },
    {
        if self.mode.is_none() {
            self.mode = get_display_mode(report);
        }
    }

    /// Starts a launch, and gives the shell command that runs the game.
    ///
    /// While a game is running no other can be launched: the request is
    /// refused and nothing changes.
    pub fn start(&mut self, game: &GameInfo, stored_prefix: &str, extra_args: &str) -> (out: Result<
        String,
        LaunchError,
    >)
        ensures
            final(self).captured() == old(self).captured(),
            final(self).is_running(),
            match out {
                Ok(command) => !old(self).is_running() && command@ == launch_command(
                    game@,
                    stored_prefix@,
                    extra_args@,
                ),
                Err(e) => old(self).is_running() && e == LaunchError::AlreadyRunning,
            },
    {
        if self.running {
            return Err(LaunchError::AlreadyRunning);
        }
        self.running = true;
        Ok(launch_game(game, stored_prefix, extra_args))
    }

    /// Records that the running game has ended, and says what is to be
    /// done: the display mode is put back whatever way the game ended, and
    /// a failure is reported. Where no game was running there is nothing to
    /// do.
    pub fn finish(&mut self, name: &str, exit: Exit) -> (out: Aftermath)
        ensures
            !final(self).is_running(),
            final(self).captured() == old(self).captured(),
            old(self).is_running() ==> (match old(self).captured() {
                Some(m) => out.restore is Some && texts(out.restore->0@) == restore_args(m),
                None => out.restore is None,
            }),
            old(self).is_running() ==> (match report_text(name@, exit) {
                Some(t) => out.report is Some && out.report->0@ == t,
                None => out.report is None,
            }),
            !old(self).is_running() ==> out.restore is None && out.report is None,
    {
        if !self.running {
            return Aftermath { restore: None, report: None };
        }
        self.running = false;
        let restore = restore_display_mode(self.mode.as_ref());
        let report = match &exit {
            Exit::Clean => None,
            Exit::Failed(err) => {
                let mut buf: Vec<char> = Vec::new();
                push_str(&mut buf, "\u{26a0}\u{fe0f} Game launch failed for `");
                push_str(&mut buf, name);
                push_str(&mut buf, "`: ");
                push_str(&mut buf, err.as_str());
                Some(string_of(&buf))
            },
            Exit::Panicked => {
                let mut buf: Vec<char> = Vec::new();
                push_str(&mut buf, "\u{26a0}\u{fe0f} Panic while launching `");
                push_str(&mut buf, name);
                push_str(&mut buf, "`");
                Some(string_of(&buf))
            },
        };
        Aftermath { restore, report }
    }
}

/// For each game, whether its version is `version`.
pub open spec fn version_flags(games: Seq<GameView>, version: Seq<char>) -> Seq<bool> {
    Seq::new(games.len(), |i: int| games[i].version == version)
}

/// Whether some game has the version `version`.
pub open spec fn has_version(games: Seq<GameView>, version: Seq<char>) -> bool {
    first_true(version_flags(games, version)) < games.len()
}

/// Whether some game is of the variant `v`.
pub open spec fn has_variant(games: Seq<GameView>, v: Variant) -> bool {
    first_true(variant_flags(games, v)) < games.len()
}

/// What is registered with the desktop at startup.
#[derive(Clone, Copy, Debug, PartialEq, Eq, Structural)]
pub struct Registration {
    /// Whether a desktop file is written, and if so whether it is the one
    /// for an installation with the expansion.
    pub desktop_file: Option<bool>,
    /// The client extension for whose addresses the launcher is
    /// registered, if any.
    pub scheme: Option<Variant>,
}

/// What is registered for the games found.
///
/// A desktop file is written where a game of version 1.1 or 1.51 was
/// found; it is the one for the expansion where 1.51 was found. The
/// launcher handles the addresses of the expansion's client extension where
/// that extension and a 1.51 game were found; else those of the base game's
/// extension where that one and a 1.1 game were found.
pub open spec fn registration_of(games: Seq<GameView>) -> Registration {
    let cod1 = has_version(games, "1.1"@);
    let uo = has_version(games, "1.51"@);
    Registration {
        desktop_file: if cod1 || uo {
            Some(uo)
        } else {
            None
        },
        scheme: if has_variant(games, Variant::T1x) && uo {
            Some(Variant::T1x)
        } else if has_variant(games, Variant::Iw1x) && cod1 {
            Some(Variant::Iw1x)
        } else {
            None
        },
    }
}

fn find_version(games: &Vec<GameInfo>, version: &str) -> (at: usize)
    ensures
        at == first_true(version_flags(game_views(games@), version@)),
        at <= games.len(),
{
    let ghost flags = version_flags(game_views(games@), version@);
    let want = chars_of(version);
    let mut i: usize = 0;
    while i < games.len() && !vec_eq(&chars_of(games[i].version.as_str()), &want)
        invariant
            i <= games.len(),
            want@ == version@,
            flags == version_flags(game_views(games@), version@),
            forall|j: int| 0 <= j < i ==> !#[trigger] flags[j],
        decreases games.len() - i,
    {
        i += 1;
    }
    proof {
        lemma_first_true_is(flags, i as int);
    }
    i
}

/// Decides what is registered with the desktop for the games found.
pub fn registration(games: &Vec<GameInfo>) -> (out: Registration)
    ensures
        out == registration_of(game_views(games@)),
{
    let cod1 = find_version(games, "1.1") < games.len();
    let uo = find_version(games, "1.51") < games.len();
    let t1x = find_variant(games, Variant::T1x) < games.len();
    let iw1x = find_variant(games, Variant::Iw1x) < games.len();
    Registration {
        desktop_file: if cod1 || uo {
            Some(uo)
        } else {
            None
        },
        scheme: if t1x && uo {
            Some(Variant::T1x)
        } else if iw1x && cod1 {
            Some(Variant::Iw1x)
        } else {
            None
        },
    }
}

/// The scheme of the addresses of a client extension.
pub fn scheme_name(v: Variant) -> (out: Option<String>)
    ensures
        match v {
            Variant::Iw1x => out is Some && out->0@ == "iw1x"@,
            Variant::T1x => out is Some && out->0@ == "t1x"@,
            _ => out is None,
        },
{
    match v {
        Variant::Iw1x => Some("iw1x".to_owned()),
        Variant::T1x => Some("t1x".to_owned()),
        _ => None,
    }
}

/// The name under which the launcher shows up on the desktop.
pub open spec fn app_name(uo: bool) -> Seq<char> {
    if uo {
        "CoDLinux (uo)"@
    } else {
        "CoDLinux"@
    }
}

/// Where the desktop file goes, relative to the user's home directory.
pub open spec fn desktop_file_path(uo: bool) -> Seq<char> {
    ".local/share/applications/"@ + (if uo {
        "CoDLinux_(uo).desktop"@
    } else {
        "CoDLinux.desktop"@
    })
}

/// The desktop file of a launcher installed in the directory `exe_dir`.
pub open spec fn desktop_entry(uo: bool, exe_dir: Seq<char>) -> Seq<char> {
    "[Desktop Entry]\nType=Application\nName="@ + app_name(uo) + "\nGenericName="@ + app_name(uo)
        + "\nExec="@ + exe_dir + "/codlinux %u\nPath="@ + parent_dir(exe_dir)
        + "\nIcon=codlinux\nTerminal=false\nCategories=Game;\nStartupNotify=false\nKeywords=cod;gaming;wine;\nMimeType=x-scheme-handler/iw1x;x-scheme-handler/t1x;\n"@
}

/// Writes the desktop file that makes the launcher known to the desktop
/// and lets it handle the addresses of both client extensions.
pub fn create_desktop_file(uo: bool, executable_path: &str) -> (out: ConfigFile)
    ensures
        out.path@ == desktop_file_path(uo),
        out.contents@ == desktop_entry(uo, executable_path@),
{
    let name = if uo {
        "CoDLinux (uo)"
    } else {
        "CoDLinux"
    };
    let workdir = parent_of(executable_path);
    let mut path: Vec<char> = Vec::new();
    push_str(&mut path, ".local/share/applications/");
    if uo {
        push_str(&mut path, "CoDLinux_(uo).desktop");
    } else {
        push_str(&mut path, "CoDLinux.desktop");
    }
    let mut buf: Vec<char> = Vec::new();
    push_str(&mut buf, "[Desktop Entry]\nType=Application\nName=");
    push_str(&mut buf, name);
    push_str(&mut buf, "\nGenericName=");
    push_str(&mut buf, name);
    push_str(&mut buf, "\nExec=");
    push_str(&mut buf, executable_path);
    push_str(&mut buf, "/codlinux %u\nPath=");
    push_str(&mut buf, workdir.as_str());
    push_str(
        &mut buf,
        "\nIcon=codlinux\nTerminal=false\nCategories=Game;\nStartupNotify=false\nKeywords=cod;gaming;wine;\nMimeType=x-scheme-handler/iw1x;x-scheme-handler/t1x;\n",
    );
    assert(buf@ =~= desktop_entry(uo, executable_path@));
    ConfigFile { path: string_of(&path), contents: string_of(&buf) }
}

} // verus!
