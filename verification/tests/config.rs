use codlinux::config::{
    game_config_path, get_game_config, load_setting, save_game_config, save_setting,
    settings_path, Config,
};

#[test]
fn a_new_configuration_is_empty() {
    let c = Config::new();
    assert_eq!(c.len(), 0);
    assert_eq!(c.get("anything"), None);
    assert_eq!(c.render(), "");
}

#[test]
fn insert_then_get() {
    let mut c = Config::new();
    c.insert("a", "1");
    c.insert("b", "2");
    assert_eq!(c.get("a"), Some("1".to_string()));
    assert_eq!(c.get("b"), Some("2".to_string()));
    assert_eq!(c.get("c"), None);
    assert_eq!(c.get("A"), None);
    assert_eq!(c.len(), 2);
}

#[test]
fn the_last_write_wins() {
    let mut c = Config::new();
    c.insert("a", "1");
    c.insert("b", "2");
    c.insert("a", "3");
    assert_eq!(c.get("a"), Some("3".to_string()));
    assert_eq!(c.get("b"), Some("2".to_string()));
    assert_eq!(c.len(), 2);
    assert_eq!(c.render(), "a=3\nb=2\n");
}

#[test]
fn parse_reads_key_value_lines() {
    let c = Config::parse("default_wine_prefix=$HOME/.wine\nsaved_game=IW1X\n");
    assert_eq!(c.get("default_wine_prefix"), Some("$HOME/.wine".to_string()));
    assert_eq!(c.get("saved_game"), Some("IW1X".to_string()));
    assert_eq!(c.len(), 2);
}

#[test]
fn parse_splits_at_the_first_equals_sign() {
    let c = Config::parse("envars=A=1 B=2\n=empty key\nno value=\n");
    assert_eq!(c.get("envars"), Some("A=1 B=2".to_string()));
    assert_eq!(c.get(""), Some("empty key".to_string()));
    assert_eq!(c.get("no value"), Some("".to_string()));
}

#[test]
fn parse_ignores_lines_without_an_equals_sign() {
    let c = Config::parse("# comment\n\nkey=value\ngarbage");
    assert_eq!(c.len(), 1);
    assert_eq!(c.get("key"), Some("value".to_string()));
}

#[test]
fn parse_lets_a_later_line_override() {
    let c = Config::parse("k=1\nk=2\r\nk=3");
    assert_eq!(c.get("k"), Some("3".to_string()));
    assert_eq!(c.len(), 1);
}

#[test]
fn parse_of_nothing_is_empty() {
    assert_eq!(Config::parse("").len(), 0);
    assert_eq!(Config::parse("\n\n").len(), 0);
}

#[test]
fn render_then_parse_gives_the_same_mapping() {
    let mut c = Config::new();
    c.insert("wine_prefix", "/home/u/.wine");
    c.insert("envars", "A=1");
    c.insert("args", "");
    let d = Config::parse(&c.render());
    assert_eq!(d.len(), 3);
    for key in ["wine_prefix", "envars", "args"] {
        assert_eq!(d.get(key), c.get(key));
    }
}

#[test]
fn settings() {
    let mut c = Config::new();
    assert_eq!(load_setting(&c, "default_wine_prefix"), "");
    save_setting(&mut c, "default_wine_prefix", "$HOME/.wine");
    assert_eq!(load_setting(&c, "default_wine_prefix"), "$HOME/.wine");
    save_setting(&mut c, "default_wine_prefix", "/elsewhere");
    assert_eq!(load_setting(&c, "default_wine_prefix"), "/elsewhere");
    assert_eq!(load_setting(&c, "saved_game"), "");
}

#[test]
fn paths_of_the_configuration_files() {
    assert_eq!(settings_path(), "codlinux_conf/codlinux.cfg");
    assert_eq!(game_config_path("IW1X"), "codlinux_conf/IW1X.cfg");
    assert_eq!(game_config_path("Call of Duty"), "codlinux_conf/Call of Duty.cfg");
}

#[test]
fn the_file_of_a_game() {
    let mut c = Config::new();
    c.insert("wine_prefix", "/p");
    c.insert("envars", "");
    c.insert("args", "+x");
    let f = save_game_config("T1X", &c);
    assert_eq!(f.path, "codlinux_conf/T1X.cfg");
    assert_eq!(f.contents, "wine_prefix=/p\nenvars=\nargs=+x\n");
}

#[test]
fn a_missing_file_is_an_empty_configuration() {
    assert_eq!(get_game_config(None).len(), 0);
    let c = get_game_config(Some("args=+set x 1\n"));
    assert_eq!(c.get("args"), Some("+set x 1".to_string()));
}
