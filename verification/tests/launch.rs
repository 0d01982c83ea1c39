use codlinux::display::DisplayMode;
use codlinux::launch::{
    connect_arg, connect_target, create_desktop_file, launch_game, notify, reg_uri_scheme, registration, scheme_name,
    startup_plan, ConnectTarget, Exit, LaunchError, Launcher, Registration, StartupPlan,
};
use codlinux::scanner::{scan_games, Candidate, GameInfo, Variant};

fn game(name: &str, version: &str, variant: Variant, path: &str) -> GameInfo {
    GameInfo {
        name: name.to_string(),
        version: version.to_string(),
        variant,
        fingerprint: String::new(),
        path: path.to_string(),
        wineprefix: String::new(),
        envars: String::new(),
        args: String::new(),
    }
}

fn iw1x() -> GameInfo {
    game("IW1X", "1.1", Variant::Iw1x, "/g/iw1x.exe")
}

fn cod() -> GameInfo {
    game("Call of Duty", "1.1", Variant::BaseGame, "/g/CoDMP.exe")
}

fn strings(items: &[&str]) -> Vec<String> {
    items.iter().map(|s| s.to_string()).collect()
}

const SAMPLE_REPORT: &str = "DP-2 connected\n  1024x768  85.00*\n";

#[test]
fn launch_command_with_defaults() {
    assert_eq!(
        launch_game(&iw1x(), "", ""),
        "WINEPREFIX=\"$HOME/.wine\" MESA_EXTENSION_MAX_YEAR=2008 force_s3tc_enable=true \
         __GL_ExtensionStringVersion=17700 wine /g/iw1x.exe +set r_ignorehwgamma 1"
    );
}

#[test]
fn launch_command_prefers_the_stored_prefix_to_the_fallback() {
    let c = launch_game(&iw1x(), "/home/u/.wine32", "");
    assert!(c.starts_with("WINEPREFIX=\"/home/u/.wine32\" MESA_"));
    let c = launch_game(&iw1x(), "  \t", "");
    assert!(c.starts_with("WINEPREFIX=\"  \t\" MESA_"));
    let c = launch_game(&iw1x(), " ", "");
    assert!(c.starts_with("WINEPREFIX=\" \" MESA_"));
    let c = launch_game(&iw1x(), "", "");
    assert!(c.starts_with("WINEPREFIX=\"$HOME/.wine\" MESA_"));
}

#[test]
fn launch_command_prefers_the_overrides_of_the_game() {
    let mut g = iw1x();
    g.wineprefix = "/p".to_string();
    g.envars = "A=1".to_string();
    g.args = "+map x".to_string();
    assert_eq!(launch_game(&g, "/stored", ""), "WINEPREFIX=\"/p\" A=1 wine /g/iw1x.exe +map x");
    assert_eq!(
        launch_game(&g, "/stored", "+connect 1.2.3.4:5"),
        "WINEPREFIX=\"/p\" A=1 wine /g/iw1x.exe +map x +connect 1.2.3.4:5"
    );
    g.wineprefix = "   ".to_string();
    assert!(launch_game(&g, "/stored", "").starts_with("WINEPREFIX=\"/stored\" A=1 "));
    assert!(launch_game(&g, " ", "").starts_with("WINEPREFIX=\" \" A=1 "));
    assert!(launch_game(&g, "", "").starts_with("WINEPREFIX=\"$HOME/.wine\" A=1 "));
}

#[test]
fn extra_arguments_follow_the_default_ones() {
    let c = launch_game(&iw1x(), "", "+connect 10.0.0.5:28961");
    assert!(c.ends_with(" wine /g/iw1x.exe +set r_ignorehwgamma 1 +connect 10.0.0.5:28961"));
}

#[test]
fn register_command_names_the_desktop_file_of_the_scheme() {
    assert_eq!(reg_uri_scheme("iw1x"), "xdg-mime default 'CoDLinux.desktop' x-scheme-handler/iw1x");
    assert_eq!(
        reg_uri_scheme("t1x"),
        "xdg-mime default 'CoDLinux_(uo).desktop' x-scheme-handler/t1x"
    );
    assert_eq!(reg_uri_scheme("other"), "xdg-mime default 'CoDLinux.desktop' x-scheme-handler/other");
}

#[test]
fn notify_command() {
    assert_eq!(
        notify("Launching IW1X...", 2000, false),
        "notify-send --app-name=CoDLinux --icon=codlinux --expire-time=2000 CoDLinux \"Launching IW1X...\""
    );
    assert_eq!(
        notify("Open Moss!", 3000, true),
        "notify-send --app-name=CoDLinux --icon=codlinux --transient --expire-time=3000 CoDLinux \"Open Moss!\""
    );
    assert!(notify("", 0, false).contains("--expire-time=0 CoDLinux \"\""));
    assert!(notify("", u32::MAX, false).contains("--expire-time=4294967295 "));
}

fn target(arg: &str) -> Option<(Variant, String, String)> {
    connect_target(arg).map(|t| (t.scheme, t.host, t.port))
}

#[test]
fn address_with_host_and_port() {
    assert_eq!(
        target("iw1x://10.0.0.5:28961"),
        Some((Variant::Iw1x, "10.0.0.5".to_string(), "28961".to_string()))
    );
    assert_eq!(
        target("t1x://play.example.org:1"),
        Some((Variant::T1x, "play.example.org".to_string(), "1".to_string()))
    );
}

#[test]
fn address_defaults() {
    assert_eq!(
        target("iw1x://10.0.0.5"),
        Some((Variant::Iw1x, "10.0.0.5".to_string(), "28960".to_string()))
    );
    assert_eq!(
        target("iw1x://"),
        Some((Variant::Iw1x, "127.0.0.1".to_string(), "28960".to_string()))
    );
    assert_eq!(
        target("t1x://:4000"),
        Some((Variant::T1x, "127.0.0.1".to_string(), "4000".to_string()))
    );
    assert_eq!(target("t1x://h:"), Some((Variant::T1x, "h".to_string(), "28960".to_string())));
    assert_eq!(target("t1x://h:1:2"), Some((Variant::T1x, "h".to_string(), "1".to_string())));
}

#[test]
fn other_arguments_are_no_address() {
    assert_eq!(target(""), None);
    assert_eq!(target("+set x 1"), None);
    assert_eq!(target("http://10.0.0.5"), None);
    assert_eq!(target("IW1X://10.0.0.5"), None);
    assert_eq!(target(" iw1x://10.0.0.5"), None);
}

#[test]
fn connect_argument() {
    let t = ConnectTarget { scheme: Variant::Iw1x, host: "10.0.0.5".to_string(), port: "28961".to_string() };
    assert_eq!(connect_arg(&t), "+connect 10.0.0.5:28961");
}

#[test]
fn an_address_with_a_matching_game_launches_it_at_once() {
    let games = vec![cod(), iw1x()];
    let plan = startup_plan(&games, &strings(&["iw1x://10.0.0.5:28961"]), "");
    match plan {
        StartupPlan::Launch(at, extra) => {
            assert_eq!(at, 1);
            assert_eq!(extra, "+connect 10.0.0.5:28961");
            let command = launch_game(&games[at], "", &extra);
            assert!(command.contains("+connect 10.0.0.5:28961"));
            assert!(command.contains(" wine /g/iw1x.exe "));
        }
        StartupPlan::Interactive => panic!("the selection must be skipped"),
    }
}

#[test]
fn further_arguments_follow_the_connect_argument() {
    let games = vec![iw1x()];
    match startup_plan(&games, &strings(&["iw1x://h", "+set", "name", "x"]), "") {
        StartupPlan::Launch(0, extra) => assert_eq!(extra, "+connect h:28960 +set name x"),
        other => panic!("unexpected plan {:?}", other),
    }
}

#[test]
fn an_address_without_a_matching_game_falls_back() {
    let games = vec![cod()];
    assert!(matches!(
        startup_plan(&games, &strings(&["t1x://h"]), ""),
        StartupPlan::Interactive
    ));
    match startup_plan(&games, &strings(&["t1x://h"]), "Call of Duty") {
        StartupPlan::Launch(0, extra) => assert_eq!(extra, "+connect h:28960"),
        other => panic!("unexpected plan {:?}", other),
    }
}

#[test]
fn the_remembered_game_launches_unattended() {
    let games = vec![cod(), iw1x()];
    match startup_plan(&games, &strings(&["+set", "x", "1"]), "IW1X") {
        StartupPlan::Launch(1, extra) => assert_eq!(extra, "+set x 1"),
        other => panic!("unexpected plan {:?}", other),
    }
    match startup_plan(&games, &Vec::new(), "Call of Duty") {
        StartupPlan::Launch(0, extra) => assert_eq!(extra, ""),
        other => panic!("unexpected plan {:?}", other),
    }
    assert!(matches!(startup_plan(&games, &Vec::new(), "Gone"), StartupPlan::Interactive));
}

#[test]
fn two_executables_and_nothing_remembered_need_a_choice_and_one_session() {
    let candidates = vec![
        Candidate { path: "/g/CoDMP.exe".to_string(), content: Some(vec![1, 2, 3]) },
        Candidate { path: "/g/CoDUOMP.exe".to_string(), content: Some(vec![4, 5, 6]) },
    ];
    let games = scan_games(&candidates);
    assert_eq!(games.len(), 2);
    assert!(matches!(startup_plan(&games, &Vec::new(), ""), StartupPlan::Interactive));
    let mut launcher = Launcher::new();
    assert!(!launcher.game_running());
    assert!(launcher.start(&games[0], "", "").is_ok());
    assert!(launcher.game_running());
    assert_eq!(launcher.start(&games[1], "", ""), Err(LaunchError::AlreadyRunning));
    assert_eq!(launcher.start(&games[0], "", ""), Err(LaunchError::AlreadyRunning));
    assert!(launcher.game_running());
}

#[test]
fn start_gives_the_launch_command() {
    let mut launcher = Launcher::new();
    assert_eq!(launcher.start(&iw1x(), "/p", "+x"), Ok(launch_game(&iw1x(), "/p", "+x")));
}

#[test]
fn the_display_mode_is_restored_however_the_game_ended() {
    let exits =
        vec![Exit::Clean, Exit::Failed("exit status 1".to_string()), Exit::Panicked];
    for exit in exits {
        let mut launcher = Launcher::new();
        launcher.capture(SAMPLE_REPORT);
        launcher.start(&iw1x(), "", "").unwrap();
        let after = launcher.finish("IW1X", exit);
        assert_eq!(
            after.restore.unwrap(),
            vec!["--output", "DP-2", "--mode", "1024x768", "--rate", "85.00"]
        );
        assert!(!launcher.game_running());
    }
}

#[test]
fn the_display_mode_is_restored_once_per_launch() {
    let mut launcher = Launcher::new();
    launcher.capture(SAMPLE_REPORT);
    launcher.start(&iw1x(), "", "").unwrap();
    assert!(launcher.finish("IW1X", Exit::Clean).restore.is_some());
    let again = launcher.finish("IW1X", Exit::Panicked);
    assert!(again.restore.is_none());
    assert!(again.report.is_none());
    launcher.start(&iw1x(), "", "").unwrap();
    assert!(launcher.finish("IW1X", Exit::Clean).restore.is_some());
}

#[test]
fn without_a_captured_mode_there_is_nothing_to_restore() {
    let mut launcher = Launcher::new();
    launcher.capture("no mode here\n");
    launcher.start(&iw1x(), "", "").unwrap();
    let after = launcher.finish("IW1X", Exit::Clean);
    assert!(after.restore.is_none());
    assert!(after.report.is_none());
}

#[test]
fn the_first_captured_mode_stays() {
    let mut launcher = Launcher::new();
    launcher.capture("nothing\n");
    launcher.capture(SAMPLE_REPORT);
    launcher.capture("HDMI-1 connected\n  640x480  60*\n");
    launcher.start(&iw1x(), "", "").unwrap();
    assert_eq!(launcher.finish("IW1X", Exit::Clean).restore.unwrap()[3], "1024x768");
}

#[test]
fn a_failed_launch_is_reported() {
    let mut launcher = Launcher::new();
    launcher.start(&iw1x(), "", "").unwrap();
    let after = launcher.finish("IW1X", Exit::Failed("No such file".to_string()));
    assert_eq!(after.report.unwrap(), "\u{26a0}\u{fe0f} Game launch failed for `IW1X`: No such file");
    launcher.start(&iw1x(), "", "").unwrap();
    let after = launcher.finish("IW1X", Exit::Panicked);
    assert_eq!(after.report.unwrap(), "\u{26a0}\u{fe0f} Panic while launching `IW1X`");
    launcher.start(&iw1x(), "", "").unwrap();
    assert!(launcher.finish("IW1X", Exit::Clean).report.is_none());
}

#[test]
fn registrations_at_startup() {
    let none = Registration { desktop_file: None, scheme: None };
    assert_eq!(registration(&Vec::new()), none);
    assert_eq!(registration(&vec![game("CoDMP", "???", Variant::BaseGame, "p")]), none);
    assert_eq!(
        registration(&vec![cod()]),
        Registration { desktop_file: Some(false), scheme: None }
    );
    assert_eq!(
        registration(&vec![cod(), iw1x()]),
        Registration { desktop_file: Some(false), scheme: Some(Variant::Iw1x) }
    );
    let uo = game("United Offensive", "1.51", Variant::Expansion, "p");
    let t1x = game("T1X", "1.51", Variant::T1x, "p");
    assert_eq!(
        registration(&vec![cod(), iw1x(), uo, t1x]),
        Registration { desktop_file: Some(true), scheme: Some(Variant::T1x) }
    );
}

#[test]
fn scheme_names() {
    assert_eq!(scheme_name(Variant::Iw1x), Some("iw1x".to_string()));
    assert_eq!(scheme_name(Variant::T1x), Some("t1x".to_string()));
    assert_eq!(scheme_name(Variant::BaseGame), None);
    assert_eq!(scheme_name(Variant::Unknown), None);
}

#[test]
fn display_mode_can_be_built_by_hand() {
    let m = DisplayMode { output: "X".to_string(), width: 1, height: 2, rate: "3".to_string() };
    assert_eq!(format!("{:?}", m), "DisplayMode { output: \"X\", width: 1, height: 2, rate: \"3\" }");
}

#[test]
fn the_desktop_file() {
    let f = create_desktop_file(false, "/opt/games/cod");
    assert_eq!(f.path, ".local/share/applications/CoDLinux.desktop");
    assert_eq!(
        f.contents,
        "[Desktop Entry]
Type=Application
Name=CoDLinux
GenericName=CoDLinux
Exec=/opt/games/cod/codlinux %u
Path=/opt/games
Icon=codlinux
Terminal=false
Categories=Game;
StartupNotify=false
Keywords=cod;gaming;wine;
MimeType=x-scheme-handler/iw1x;x-scheme-handler/t1x;
"
    );
    let f = create_desktop_file(true, "/cod");
    assert_eq!(f.path, ".local/share/applications/CoDLinux_(uo).desktop");
    assert!(f.contents.contains("\nName=CoDLinux (uo)\nGenericName=CoDLinux (uo)\n"));
    assert!(f.contents.contains("\nExec=/cod/codlinux %u\nPath=/\n"));
    assert!(create_desktop_file(true, "cod").contents.contains("\nPath=\n"));
}
