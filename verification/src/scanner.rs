//! Finding the game executables of an installation and telling, from the
//! file name and a content hash, which game and version each one is.

use crate::config::Config;
use crate::text::{
    chars_of, eq_ignore_case, lower_seq, push_all, slice, str_eq, string_of,
};
use vstd::prelude::*;

verus! {

/// The MD5 digest of a byte sequence, written as 32 lower-case hexadecimal
/// digits.
pub uninterp spec fn md5_hex(data: Seq<u8>) -> Seq<char>;

/// Calls `md5::compute` on the bytes and formats the digest with `{:x}`,
/// which writes each of its sixteen bytes as two lower-case hexadecimal
/// digits. The contract only names the result: it is a function of the
/// bytes alone.
#[verifier::external_body]
fn md5_hex_of(data: &[u8]) -> (out: String)
    ensures
        out@ == md5_hex(data@),
{
    format!("{:x}", md5::compute(data))
}

/// The content fingerprint of a file.
pub fn fingerprint(content: &[u8]) -> (out: String)
    ensures
        out@ == md5_hex(content@),
{
    md5_hex_of(content)
}

/// Whether the content has the expected fingerprint.
pub fn verify_file(expected: &str, content: &[u8]) -> (ok: bool)
    ensures
        ok == (md5_hex(content@) == expected@),
{
    let digest = fingerprint(content);
    str_eq(digest.as_str(), expected)
}

/// Fingerprint of the base game, version 1.1.
pub const COD1_1_SUM: &'static str = "753fbcabd0fdda7f7dad3dbb29c3c008";

/// Fingerprint of the base game, version 1.5.
pub const COD1_5_SUM: &'static str = "4bdf293d8e6fb32208d1b0942a1ba6bc";

/// Fingerprint of the expansion, version 1.51.
pub const COD1_5_1_SUM: &'static str = "928dd08dc169bd85fdd12d2db28def70";

/// Which game an executable is.
#[derive(Clone, Copy, Debug, PartialEq, Eq, Structural)]
pub enum Variant {
    /// The base game.
    BaseGame,
    /// The expansion.
    Expansion,
    /// The client extension of the base game.
    Iw1x,
    /// The client extension of the expansion.
    T1x,
    /// None of the known games.
    Unknown,
}

/// What is known of an executable: which game, under which label, in which
/// version.
pub struct Classification {
    pub variant: Variant,
    pub name: String,
    pub version: String,
}

/// The mathematical value of a [`Classification`].
pub struct Identity {
    pub variant: Variant,
    pub name: Seq<char>,
    pub version: Seq<char>,
}

impl View for Classification {
    type V = Identity;

    open spec fn view(&self) -> Identity {
        Identity { variant: self.variant, name: self.name@, version: self.version@ }
    }
}

/// Equality of two names up to the case of ASCII letters.
pub open spec fn same_name(a: Seq<char>, b: Seq<char>) -> bool {
    lower_seq(a) == lower_seq(b)
}

/// The game that a file name stands for.
pub open spec fn variant_of(file_name: Seq<char>) -> Variant {
    if same_name(file_name, "CoDMP.exe"@) {
        Variant::BaseGame
    } else if same_name(file_name, "CoDUOMP.exe"@) {
        Variant::Expansion
    } else if same_name(file_name, "iw1x.exe"@) {
        Variant::Iw1x
    } else if same_name(file_name, "t1x.exe"@) {
        Variant::T1x
    } else {
        Variant::Unknown
    }
}

/// The marker that stands for a version that could not be told.
pub open spec fn unknown_version() -> Seq<char> {
    "???"@
}

/// The classification of an executable with the given file name and
/// content fingerprint.
///
/// The file name, compared without regard to case, decides the game. For
/// the base game and the expansion the fingerprint decides the version; a
/// fingerprint that is not in the table leaves the version unknown. A file
/// name that is not recognised is labelled with itself.
pub open spec fn identify(file_name: Seq<char>, digest: Seq<char>) -> Identity {
    match variant_of(file_name) {
        Variant::BaseGame => if digest == COD1_1_SUM@ {
            Identity { variant: Variant::BaseGame, name: "Call of Duty"@, version: "1.1"@ }
        } else if digest == COD1_5_SUM@ {
            Identity { variant: Variant::BaseGame, name: "Call of Duty"@, version: "1.5"@ }
        } else {
            Identity { variant: Variant::BaseGame, name: "CoDMP"@, version: unknown_version() }
        },
        Variant::Expansion => if digest == COD1_5_1_SUM@ {
            Identity { variant: Variant::Expansion, name: "United Offensive"@, version: "1.51"@ }
        } else {
            Identity { variant: Variant::Expansion, name: "CoDUOMP"@, version: unknown_version() }
        },
        Variant::Iw1x => Identity { variant: Variant::Iw1x, name: "IW1X"@, version: "1.1"@ },
        Variant::T1x => Identity { variant: Variant::T1x, name: "T1X"@, version: "1.51"@ },
        Variant::Unknown => Identity {
            variant: Variant::Unknown,
            name: file_name,
            version: unknown_version(),
        },
    }
}

/// The last component of a path: what follows its last slash.
pub open spec fn file_name(path: Seq<char>) -> Seq<char>
    decreases path.len(),
{
    if path.len() == 0 {
        path
    } else if path.last() == '/' {
        Seq::empty()
    } else {
        file_name(path.drop_last()).push(path.last())
    }
}

/// The tail of a path that starts after a slash, or at the beginning, and
/// holds no slash is its file name.
pub proof fn lemma_file_name(path: Seq<char>, n: int)
    requires
        0 <= n <= path.len(),
        n == 0 || path[n - 1] == '/',
        forall|j: int| n <= j < path.len() ==> path[j] != '/',
    ensures
        file_name(path) == path.skip(n),
    decreases path.len(),
{
    if path.len() == n {
        assert(path.skip(n) =~= Seq::<char>::empty());
    } else {
        lemma_file_name(path.drop_last(), n);
        assert(path.drop_last().skip(n).push(path.last()) =~= path.skip(n));
    }
}

/// The directory that holds the last component of a path: what precedes
/// the slash before that component. It is the root where that slash opens
/// the path, and empty where the path holds no slash.
pub open spec fn parent_dir(path: Seq<char>) -> Seq<char> {
    let cut = path.len() - file_name(path).len();
    if cut <= 0 {
        Seq::empty()
    } else if cut == 1 {
        path.take(1)
    } else {
        path.take(cut - 1)
    }
}

/// The directory that holds the last component of a path.
pub fn parent_of(path: &str) -> (out: String)
    ensures
        out@ == parent_dir(path@),
{
    let p = chars_of(path);
    let name = file_name_chars(&p);
    proof {
        lemma_file_name_is_tail(p@);
    }
    let cut = p.len() - name.len();
    let head = if cut == 0 {
        Vec::new()
    } else if cut == 1 {
        slice(&p, 0, 1)
    } else {
        slice(&p, 0, cut - 1)
    };
    assert(head@ =~= parent_dir(path@));
    string_of(&head)
}

/// The file name of a path is no longer than the path.
pub proof fn lemma_file_name_is_tail(path: Seq<char>)
    ensures
        file_name(path).len() <= path.len(),
    decreases path.len(),
{
    if path.len() > 0 && path.last() != '/' {
        lemma_file_name_is_tail(path.drop_last());
    }
}

fn file_name_chars(path: &Vec<char>) -> (out: Vec<char>)
    ensures
        out@ == file_name(path@),
{
    let mut n: usize = path.len();
    while n > 0 && path[n - 1] != '/'
        invariant
            n <= path.len(),
            forall|j: int| n <= j < path.len() ==> path@[j] != '/',
        decreases n,
    {
        n -= 1;
    }
    proof {
        lemma_file_name(path@, n as int);
    }
    let out = slice(path, n, path.len());
    assert(out@ =~= path@.skip(n as int));
    out
}

/// The file name of an executable, given its path.
pub fn name_from_path(executable: &str) -> (out: String)
    ensures
        out@ == file_name(executable@),
{
    let path = chars_of(executable);
    let name = file_name_chars(&path);
    string_of(&name)
}

/// The file name of an executable, given its path.
pub fn get_exe_name(executable: &str) -> (out: String)
    ensures
        out@ == file_name(executable@),
{
    name_from_path(executable)
}

fn variant_of_chars(name: &Vec<char>) -> (out: Variant)
    ensures
        out == variant_of(name@),
{
    let cod = chars_of("CoDMP.exe");
    let uo = chars_of("CoDUOMP.exe");
    let iw1x = chars_of("iw1x.exe");
    let t1x = chars_of("t1x.exe");
    if eq_ignore_case(name, &cod) {
        Variant::BaseGame
    } else if eq_ignore_case(name, &uo) {
        Variant::Expansion
    } else if eq_ignore_case(name, &iw1x) {
        Variant::Iw1x
    } else if eq_ignore_case(name, &t1x) {
        Variant::T1x
    } else {
        Variant::Unknown
    }
}

fn make(variant: Variant, name: &str, version: &str) -> (out: Classification)
    ensures
        out@ == (Identity { variant, name: name@, version: version@ }),
{
    Classification { variant, name: name.to_owned(), version: version.to_owned() }
}

/// Classifies an executable by its file name and content fingerprint.
pub fn classify(file_name: &str, digest: &str) -> (out: Classification)
    ensures
        out@ == identify(file_name@, digest@),
{
    let name = chars_of(file_name);
    match variant_of_chars(&name) {
        Variant::BaseGame => if str_eq(digest, COD1_1_SUM) {
            make(Variant::BaseGame, "Call of Duty", "1.1")
        } else if str_eq(digest, COD1_5_SUM) {
            make(Variant::BaseGame, "Call of Duty", "1.5")
        } else {
            make(Variant::BaseGame, "CoDMP", "???")
        },
        Variant::Expansion => if str_eq(digest, COD1_5_1_SUM) {
            make(Variant::Expansion, "United Offensive", "1.51")
        } else {
            make(Variant::Expansion, "CoDUOMP", "???")
        },
        Variant::Iw1x => make(Variant::Iw1x, "IW1X", "1.1"),
        Variant::T1x => make(Variant::T1x, "T1X", "1.51"),
        Variant::Unknown => make(Variant::Unknown, file_name, "???"),
    }
}

/// The label and version of the executable at `executable` whose content is
/// `content`: one pair, for the game that the file is.
pub fn name_version_info(executable: &str, content: &[u8]) -> (out: Result<
    Vec<(String, String)>,
    String,
>)
    ensures
        out is Ok,
        out->Ok_0@.len() == 1,
        out->Ok_0@[0].0@ == identify(file_name(executable@), md5_hex(content@)).name,
        out->Ok_0@[0].1@ == identify(file_name(executable@), md5_hex(content@)).version,
{
    let name = name_from_path(executable);
    let digest = fingerprint(content);
    let c = classify(name.as_str(), digest.as_str());
    let mut out: Vec<(String, String)> = Vec::new();
    out.push((c.name, c.version));
    Ok(out)
}

/// The classification of a file depends on its file name and its content
/// alone, and neither on the directory it lies in nor on the case of its
/// file name: two paths whose file names are equal up to case get the same
/// game and version for the same content, and, where the game is recognised
/// or the file names are the same, the same label too.
pub proof fn lemma_classification_ignores_case(
    path_a: Seq<char>,
    path_b: Seq<char>,
    content: Seq<u8>,
)
    requires
        same_name(file_name(path_a), file_name(path_b)),
    ensures
        identify(file_name(path_a), md5_hex(content)).variant == identify(
            file_name(path_b),
            md5_hex(content),
        ).variant,
        identify(file_name(path_a), md5_hex(content)).version == identify(
            file_name(path_b),
            md5_hex(content),
        ).version,
        variant_of(file_name(path_a)) != Variant::Unknown || file_name(path_a) == file_name(
            path_b,
        ) ==> identify(file_name(path_a), md5_hex(content)) == identify(
            file_name(path_b),
            md5_hex(content),
        ),
{
}

/// The display name of an executable, by its file name; `uo` tells whether
/// the expansion is installed beside it.
pub open spec fn fancy_name(file_name: Seq<char>, uo: bool) -> Seq<char> {
    match variant_of(file_name) {
        Variant::BaseGame => if uo {
            "Call of Duty (v1.5)"@
        } else {
            "Call of Duty (v1.1)"@
        },
        Variant::Expansion => "United Offensive (v1.51)"@,
        Variant::Iw1x => "iw1x (CoD v1.1)"@,
        Variant::T1x => "t1x (UO v1.51)"@,
        Variant::Unknown => file_name,
    }
}

/// The display name of the executable at the given path.
pub fn get_fancy_name(executable: &str, uo: bool) -> (out: String)
    ensures
        out@ == fancy_name(file_name(executable@), uo),
{
    let path = chars_of(executable);
    let name = file_name_chars(&path);
    match variant_of_chars(&name) {
        Variant::BaseGame => if uo {
            "Call of Duty (v1.5)".to_owned()
        } else {
            "Call of Duty (v1.1)".to_owned()
        },
        Variant::Expansion => "United Offensive (v1.51)".to_owned(),
        Variant::Iw1x => "iw1x (CoD v1.1)".to_owned(),
        Variant::T1x => "t1x (UO v1.51)".to_owned(),
        Variant::Unknown => string_of(&name),
    }
}

/// The character sequences that a vector of strings holds.
pub open spec fn texts(v: Seq<String>) -> Seq<Seq<char>> {
    Seq::new(v.len(), |i: int| v[i]@)
}

/// The path of the entry `name` of the directory `dir`.
pub open spec fn join(dir: Seq<char>, name: Seq<char>) -> Seq<char> {
    if dir.len() == 0 {
        name
    } else if dir.last() == '/' {
        dir + name
    } else {
        dir + seq!['/'] + name
    }
}

fn join_path(dir: &Vec<char>, name: &Vec<char>) -> (out: String)
    ensures
        out@ == join(dir@, name@),
{
    let mut buf: Vec<char> = Vec::new();
    push_all(&mut buf, dir);
    if dir.len() > 0 && dir[dir.len() - 1] != '/' {
        buf.push('/');
    }
    push_all(&mut buf, name);
    assert(buf@ =~= join(dir@, name@));
    string_of(&buf)
}

/// The paths of those of `names` that equal `wanted` up to case, in order.
pub open spec fn matching(dir: Seq<char>, names: Seq<Seq<char>>, wanted: Seq<char>) -> Seq<
    Seq<char>,
>
    decreases names.len(),
{
    if names.len() == 0 {
        Seq::empty()
    } else {
        let rest = matching(dir, names.drop_last(), wanted);
        if same_name(names.last(), wanted) {
            rest.push(join(dir, names.last()))
        } else {
            rest
        }
    }
}

/// The paths of the game executables among the entries `names` of the
/// directory `dir`: first the base game, then the expansion, then the two
/// client extensions; within one game in the order of `names`.
pub open spec fn executables(dir: Seq<char>, names: Seq<Seq<char>>) -> Seq<Seq<char>> {
    matching(dir, names, "CoDMP.exe"@) + matching(dir, names, "CoDUOMP.exe"@) + matching(
        dir,
        names,
        "iw1x.exe"@,
    ) + matching(dir, names, "t1x.exe"@)
}

fn push_matching(out: &mut Vec<String>, dir: &Vec<char>, names: &Vec<String>, wanted: &str)
    ensures
        texts(final(out)@) == texts(old(out)@) + matching(dir@, texts(names@), wanted@),
{
    let want = chars_of(wanted);
    let ghost start = texts(out@);
    let mut i: usize = 0;
    assert(texts(names@).take(0) =~= Seq::<Seq<char>>::empty());
    assert(texts(out@) =~= start + matching(dir@, texts(names@).take(0), wanted@));
    while i < names.len()
        invariant
            i <= names.len(),
            want@ == wanted@,
            texts(out@) == start + matching(dir@, texts(names@).take(i as int), wanted@),
        decreases names.len() - i,
    {
        let name = chars_of(names[i].as_str());
        let ghost before = out@;
        proof {
            assert(texts(names@).take(i + 1).drop_last() =~= texts(names@).take(i as int));
            assert(texts(names@).take(i + 1).last() == name@);
        }
        if eq_ignore_case(&name, &want) {
            let path = join_path(dir, &name);
            out.push(path);
            assert(texts(out@) =~= texts(before).push(path@));
            assert(texts(out@) =~= start + matching(
                dir@,
                texts(names@).take(i + 1),
                wanted@,
            ));
        }
        i += 1;
    }
    assert(texts(names@).take(i as int) =~= texts(names@));
}

/// Picks the game executables out of a directory listing.
///
/// `names` are the file names found in the directory `dir`. The result
/// holds the path of every entry whose name is, up to case, one of the four
/// expected file names, and of no other.
pub fn get_executables(dir: &str, names: &Vec<String>) -> (out: Vec<String>)
    ensures
        texts(out@) == executables(dir@, texts(names@)),
{
    let d = chars_of(dir);
    let mut out: Vec<String> = Vec::new();
    assert(texts(out@) =~= Seq::<Seq<char>>::empty());
    push_matching(&mut out, &d, names, "CoDMP.exe");
    push_matching(&mut out, &d, names, "CoDUOMP.exe");
    push_matching(&mut out, &d, names, "iw1x.exe");
    push_matching(&mut out, &d, names, "t1x.exe");
    assert(texts(out@) =~= executables(dir@, texts(names@)));
    out
}

/// A game found in the installation, with the overrides that apply when
/// it is launched. An empty override means "use the default".
#[derive(Debug)]
pub struct GameInfo {
    /// Label shown to the user.
    pub name: String,
    /// Version, or the unknown-version marker.
    pub version: String,
    /// Which game the executable is.
    pub variant: Variant,
    /// Content fingerprint of the executable.
    pub fingerprint: String,
    /// Path of the executable.
    pub path: String,
    /// Prefix directory of the compatibility layer.
    pub wineprefix: String,
    /// Environment assignments put before the command.
    pub envars: String,
    /// Arguments handed to the game.
    pub args: String,
}

/// The mathematical value of a [`GameInfo`].
pub struct GameView {
    pub name: Seq<char>,
    pub version: Seq<char>,
    pub variant: Variant,
    pub fingerprint: Seq<char>,
    pub path: Seq<char>,
    pub wineprefix: Seq<char>,
    pub envars: Seq<char>,
    pub args: Seq<char>,
}

impl View for GameInfo {
    type V = GameView;

    open spec fn view(&self) -> GameView {
        GameView {
            name: self.name@,
            version: self.version@,
            variant: self.variant,
            fingerprint: self.fingerprint@,
            path: self.path@,
            wineprefix: self.wineprefix@,
            envars: self.envars@,
            args: self.args@,
        }
    }
}

impl Clone for GameInfo {
    fn clone(&self) -> (out: GameInfo)
        ensures
            out@ == self@,
    {
        GameInfo {
            name: self.name.clone(),
            version: self.version.clone(),
            variant: self.variant,
            fingerprint: self.fingerprint.clone(),
            path: self.path.clone(),
            wineprefix: self.wineprefix.clone(),
            envars: self.envars.clone(),
            args: self.args.clone(),
        }
    }
}

/// The values of the games in a list.
pub open spec fn game_views(v: Seq<GameInfo>) -> Seq<GameView> {
    Seq::new(v.len(), |i: int| v[i]@)
}

/// A file that may be a game executable: its path and, where it could be
/// read, its content.
pub struct Candidate {
    pub path: String,
    pub content: Option<Vec<u8>>,
}

/// The description of the executable at `path` with content `content`,
/// without overrides.
pub open spec fn describe(path: Seq<char>, content: Seq<u8>) -> GameView {
    let id = identify(file_name(path), md5_hex(content));
    GameView {
        name: id.name,
        version: id.version,
        variant: id.variant,
        fingerprint: md5_hex(content),
        path,
        wineprefix: Seq::empty(),
        envars: Seq::empty(),
        args: Seq::empty(),
    }
}

/// The games among the candidates, in order: a candidate counts when it
/// could be read and its file name is that of a game.
pub open spec fn scanned(c: Seq<Candidate>) -> Seq<GameView>
    decreases c.len(),
{
    if c.len() == 0 {
        Seq::empty()
    } else {
        let rest = scanned(c.drop_last());
        match c.last().content {
            Some(bytes) => if variant_of(file_name(c.last().path@)) != Variant::Unknown {
                rest.push(describe(c.last().path@, bytes@))
            } else {
                rest
            },
            None => rest,
        }
    }
}

/// Describes every game among the candidates.
///
/// A candidate that could not be read is left out, and so is one whose file
/// name is not that of a game. A fingerprint that is not in the table does
/// not fail the scan: the game is listed with the unknown-version marker.
pub fn scan_games(candidates: &Vec<Candidate>) -> (out: Vec<GameInfo>)
    ensures
        game_views(out@) == scanned(candidates@),
{
    let mut out: Vec<GameInfo> = Vec::new();
    let mut i: usize = 0;
    assert(candidates@.take(0) =~= Seq::<Candidate>::empty());
    assert(game_views(out@) =~= scanned(candidates@.take(0)));
    while i < candidates.len()
        invariant
            i <= candidates.len(),
            game_views(out@) == scanned(candidates@.take(i as int)),
        decreases candidates.len() - i,
    {
        let c = &candidates[i];
        let ghost before = out@;
        proof {
            assert(candidates@.take(i + 1).drop_last() =~= candidates@.take(i as int));
            assert(candidates@.take(i + 1).last() == *c);
        }
        match &c.content {
            Some(bytes) => {
                let name = name_from_path(c.path.as_str());
                let digest = fingerprint(bytes.as_slice());
                let id = classify(name.as_str(), digest.as_str());
                if id.variant != Variant::Unknown {
                    let game = GameInfo {
                        name: id.name,
                        version: id.version,
                        variant: id.variant,
                        fingerprint: digest,
                        path: c.path.clone(),
                        wineprefix: String::new(),
                        envars: String::new(),
                        args: String::new(),
                    };
                    out.push(game);
                    assert(game_views(out@) =~= game_views(before).push(
                        describe(c.path@, bytes@),
                    ));
                }
            },
            None => {},
        }
        i += 1;
    }
    assert(candidates@.take(i as int) =~= candidates@);
    out
}

/// The value that a configuration holds for an override: what is stored
/// under `key`, or nothing.
pub open spec fn setting_or_empty(cfg: Map<Seq<char>, Seq<char>>, key: Seq<char>) -> Seq<char> {
    if cfg.contains_key(key) {
        cfg[key]
    } else {
        Seq::empty()
    }
}

fn override_of(cfg: &Config, key: &str) -> (out: String)
    ensures
        out@ == setting_or_empty(cfg@, key@),
{
    match cfg.get(key) {
        Some(v) => v,
        None => String::new(),
    }
}

/// Applies the stored configuration of a game to its description.
///
/// With a configuration, the three overrides are what it holds under
/// `wine_prefix`, `envars` and `args`, each empty where the key is absent.
/// Without one the game is returned as it is.
pub fn load_game_settings(game: GameInfo, cfg: Option<&Config>) -> (out: GameInfo)
    ensures
        out@ == match cfg {
            Some(c) => (GameView {
                wineprefix: setting_or_empty(c@, "wine_prefix"@),
                envars: setting_or_empty(c@, "envars"@),
                args: setting_or_empty(c@, "args"@),
                ..game@
            }),
            None => game@,
        },
{
    match cfg {
        Some(c) => GameInfo {
            name: game.name,
            version: game.version,
            variant: game.variant,
            fingerprint: game.fingerprint,
            path: game.path,
            wineprefix: override_of(c, "wine_prefix"),
            envars: override_of(c, "envars"),
            args: override_of(c, "args"),
        },
        None => game,
    }
}

/// The configuration that stores the overrides of a game.
pub open spec fn overrides_of(game: GameView) -> Map<Seq<char>, Seq<char>> {
    Map::<Seq<char>, Seq<char>>::empty().insert("wine_prefix"@, game.wineprefix).insert(
        "envars"@,
        game.envars,
    ).insert("args"@, game.args)
}

/// The configuration that stores the overrides of a game: its prefix
/// directory, environment and arguments, each under its key, and nothing
/// else.
pub fn game_config(game: &GameInfo) -> (out: Config)
    ensures
        out@ == overrides_of(game@),
{
    let mut out = Config::new();
    out.insert("wine_prefix", game.wineprefix.as_str());
    out.insert("envars", game.envars.as_str());
    out.insert("args", game.args.as_str());
    out
}

} // verus!
