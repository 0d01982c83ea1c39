//! The flat `key=value` settings store: one configuration per namespace,
//! read from and written to text.

use crate::text::{
    chars_of, find, first_match, lemma_first_match_is, lemma_lines_append, lemma_single_line,
    lines, push_all, push_str, slice, split_lines, string_of, strip_cr, vec_eq, views, CharClass,
};
use vstd::prelude::*;

verus! {

/// One `key=value` pair of a configuration.
pub struct Entry {
    pub key: Vec<char>,
    pub value: Vec<char>,
}

/// The key and value of each entry, in order.
pub open spec fn pairs_of(e: Seq<Entry>) -> Seq<(Seq<char>, Seq<char>)> {
    Seq::new(e.len(), |i: int| (e[i].key@, e[i].value@))
}

/// The mapping that a list of pairs stands for: a later pair overrides an
/// earlier one with the same key.
pub open spec fn as_map(p: Seq<(Seq<char>, Seq<char>)>) -> Map<Seq<char>, Seq<char>>
    decreases p.len(),
{
    if p.len() == 0 {
        Map::empty()
    } else {
        as_map(p.drop_last()).insert(p.last().0, p.last().1)
    }
}

/// Position of the last pair with key `k`, or `-1` when there is none.
pub open spec fn last_index_of(p: Seq<(Seq<char>, Seq<char>)>, k: Seq<char>) -> int
    decreases p.len(),
{
    if p.len() == 0 {
        -1
    } else if p.last().0 == k {
        p.len() - 1
    } else {
        last_index_of(p.drop_last(), k)
    }
}

/// Whether no key occurs twice.
pub open spec fn distinct_keys(p: Seq<(Seq<char>, Seq<char>)>) -> bool {
    forall|i: int, j: int| 0 <= i < j < p.len() ==> (#[trigger] p[i]).0 != (#[trigger] p[j]).0
}

/// The mapping holds a key exactly when some pair has it, and maps it to
/// the value of the last such pair.
pub proof fn lemma_as_map(p: Seq<(Seq<char>, Seq<char>)>, k: Seq<char>)
    ensures
        as_map(p).contains_key(k) <==> last_index_of(p, k) >= 0,
        -1 <= last_index_of(p, k) < p.len(),
        last_index_of(p, k) >= 0 ==> p[last_index_of(p, k)].0 == k && as_map(p)[k] == p[
            last_index_of(p, k)
        ].1,
        forall|j: int| last_index_of(p, k) < j < p.len() ==> (#[trigger] p[j]).0 != k,
    decreases p.len(),
{
    if p.len() > 0 {
        lemma_as_map(p.drop_last(), k);
        if p.last().0 != k {
            assert forall|j: int| last_index_of(p, k) < j < p.len() implies (#[trigger] p[j]).0
                != k by {
                if j < p.len() - 1 {
                    assert(p[j] == p.drop_last()[j]);
                }
            }
        }
    }
}

/// Replacing the value of the pair that holds key `k`, where no key occurs
/// twice, is an insertion into the mapping.
pub proof fn lemma_update(p: Seq<(Seq<char>, Seq<char>)>, i: int, v: Seq<char>)
    requires
        distinct_keys(p),
        0 <= i < p.len(),
    ensures
        distinct_keys(p.update(i, (p[i].0, v))),
        as_map(p.update(i, (p[i].0, v))) == as_map(p).insert(p[i].0, v),
{
    let k = p[i].0;
    let q = p.update(i, (k, v));
    assert forall|a: int, b: int| 0 <= a < b < q.len() implies (#[trigger] q[a]).0 != (
    #[trigger] q[b]).0 by {
        assert(q[a].0 == p[a].0 && q[b].0 == p[b].0);
    }
    let lhs = as_map(q);
    let rhs = as_map(p).insert(k, v);
    assert forall|x: Seq<char>| #[trigger] lhs.contains_key(x) == rhs.contains_key(x) && (
    lhs.contains_key(x) ==> lhs[x] == rhs[x]) by {
        lemma_as_map(q, x);
        lemma_as_map(p, x);
        let a = last_index_of(q, x);
        let b = last_index_of(p, x);
        if x == k {
            assert(q[i].0 == k);
            assert(a >= i);
            if a > i {
                assert(q[i].0 != q[a].0);
            }
        } else {
            if a >= 0 {
                assert(q[a] == p[a]);
                assert(p[a].0 == x);
                assert(b >= a);
                if b > a {
                    assert(p[a].0 != p[b].0);
                }
            } else if b >= 0 {
                assert(q[b] == p[b]);
                assert(q[b].0 == x);
            }
        }
    }
    assert(lhs =~= rhs);
}

/// Appending a pair is an insertion into the mapping.
pub proof fn lemma_push(p: Seq<(Seq<char>, Seq<char>)>, k: Seq<char>, v: Seq<char>)
    ensures
        as_map(p.push((k, v))) == as_map(p).insert(k, v),
{
    assert(p.push((k, v)).drop_last() =~= p);
}

/// The mapping that the lines of a configuration file stand for. A line
/// with an equals sign stores what follows the first one under what precedes
/// it; a line without one is ignored; a later line overrides an earlier one.
pub open spec fn parse_lines(ls: Seq<Seq<char>>) -> Map<Seq<char>, Seq<char>>
    decreases ls.len(),
{
    if ls.len() == 0 {
        Map::empty()
    } else {
        let before = parse_lines(ls.drop_last());
        let line = ls.last();
        let k = first_match(line, CharClass::Exactly('='));
        if 0 <= k < line.len() {
            before.insert(line.take(k), line.skip(k + 1))
        } else {
            before
        }
    }
}

/// The mapping that the text of a configuration file stands for.
pub open spec fn parse_text(text: Seq<char>) -> Map<Seq<char>, Seq<char>> {
    parse_lines(lines(text))
}

/// The text written for a list of pairs: one `key=value` line each, every
/// line closed by a line feed.
pub open spec fn render_pairs(p: Seq<(Seq<char>, Seq<char>)>) -> Seq<char>
    decreases p.len(),
{
    if p.len() == 0 {
        Seq::empty()
    } else {
        render_pairs(p.drop_last()) + p.last().0 + seq!['='] + p.last().1 + seq!['\n']
    }
}

/// Whether a pair can be written on a line and read back: the key holds
/// neither an equals sign nor a line feed, and the value no line feed and no
/// carriage return at its end.
pub open spec fn writable(pair: (Seq<char>, Seq<char>)) -> bool {
    &&& forall|j: int| 0 <= j < pair.0.len() ==> pair.0[j] != '=' && pair.0[j] != '\n'
    &&& forall|j: int| 0 <= j < pair.1.len() ==> pair.1[j] != '\n'
    &&& pair.1.len() > 0 ==> pair.1.last() != '\r'
}

/// Whether every pair of a mapping can be written on a line and read back.
pub open spec fn writable_map(m: Map<Seq<char>, Seq<char>>) -> bool {
    forall|k: Seq<char>| m.contains_key(k) ==> writable((k, #[trigger] m[k]))
}

/// Whether the pairs `p` are those of the mapping `m`, each key once: no
/// key occurs twice, and the mapping holds every pair.
pub open spec fn pairs_agree(p: Seq<(Seq<char>, Seq<char>)>, m: Map<Seq<char>, Seq<char>>) -> bool {
    &&& distinct_keys(p)
    &&& forall|i: int|
        0 <= i < p.len() ==> m.contains_key((#[trigger] p[i]).0) && m[p[i].0] == p[i].1
}

/// Pairs without a repeated key are the pairs of the mapping they stand
/// for.
pub proof fn lemma_pairs_of_map(p: Seq<(Seq<char>, Seq<char>)>)
    requires
        distinct_keys(p),
    ensures
        pairs_agree(p, as_map(p)),
{
    assert forall|i: int| 0 <= i < p.len() implies as_map(p).contains_key((#[trigger] p[i]).0)
        && as_map(p)[p[i].0] == p[i].1 by {
        lemma_as_map(p, p[i].0);
        let l = last_index_of(p, p[i].0);
        assert(l >= i);
        if l > i {
            assert(p[i].0 != p[l].0);
        }
    }
}

/// What was written out for the pairs of a mapping is read back as that
/// mapping, provided every pair of the mapping can be written on a line.
pub proof fn lemma_saved_then_read(p: Seq<(Seq<char>, Seq<char>)>, m: Map<Seq<char>, Seq<char>>)
    requires
        m == as_map(p),
        pairs_agree(p, m),
        writable_map(m),
    ensures
        parse_text(render_pairs(p)) == m,
{
    assert forall|i: int| 0 <= i < p.len() implies writable(#[trigger] p[i]) by {
        assert(m.contains_key(p[i].0));
        assert(writable((p[i].0, m[p[i].0])));
        assert((p[i].0, m[p[i].0]) == p[i]);
    }
    lemma_render_then_parse(p);
}

/// The text written for a list of pairs is empty or ends with a line
/// feed.
proof fn lemma_render_ends_lines(p: Seq<(Seq<char>, Seq<char>)>)
    ensures
        render_pairs(p).len() == 0 || render_pairs(p).last() == '\n',
{
}

/// What was written out is read back as the same mapping, provided every
/// pair can be written on a line.
pub proof fn lemma_render_then_parse(p: Seq<(Seq<char>, Seq<char>)>)
    requires
        forall|i: int| 0 <= i < p.len() ==> writable(#[trigger] p[i]),
    ensures
        parse_text(render_pairs(p)) == as_map(p),
    decreases p.len(),
{
    if p.len() == 0 {
        assert(lines(Seq::<char>::empty()) =~= Seq::<Seq<char>>::empty());
    } else {
        let init = p.drop_last();
        let k = p.last().0;
        let v = p.last().1;
        let line = k + seq!['='] + v;
        assert forall|i: int| 0 <= i < init.len() implies writable(#[trigger] init[i]) by {
            assert(init[i] == p[i]);
        }
        lemma_render_then_parse(init);
        lemma_render_ends_lines(init);
        assert(writable(p[p.len() - 1]));
        assert(render_pairs(p) =~= render_pairs(init) + (line + seq!['\n']));
        lemma_lines_append(render_pairs(init), line + seq!['\n']);
        assert forall|j: int| 0 <= j < line.len() implies line[j] != '\n' by {
            if j < k.len() {
                assert(line[j] == k[j]);
            } else if j > k.len() {
                assert(line[j] == v[j - k.len() - 1]);
            }
        }
        lemma_single_line(line);
        assert(strip_cr(line) == line) by {
            if v.len() > 0 {
                assert(line.last() == v.last());
            }
        }
        let all = lines(render_pairs(p));
        assert(all =~= lines(render_pairs(init)).push(line));
        assert(all.drop_last() =~= lines(render_pairs(init)));
        assert(all.last() == line);
        let sign = CharClass::Exactly('=');
        assert forall|j: int| 0 <= j < k.len() implies !sign.holds(#[trigger] line[j]) by {
            assert(line[j] == k[j]);
        }
        assert(line[k.len() as int] == '=');
        lemma_first_match_is(line, sign, k.len() as int);
        assert(line.take(k.len() as int) =~= k);
        assert(line.skip(k.len() as int + 1) =~= v);
    }
}

/// A copy of a list of entries.
fn copy_entries(src: &Vec<Entry>) -> (out: Vec<Entry>)
    ensures
        pairs_of(out@) == pairs_of(src@),
        out.len() == src.len(),
{
    let mut out: Vec<Entry> = Vec::new();
    let mut i: usize = 0;
    while i < src.len()
        invariant
            i <= src.len(),
            out.len() == i,
            forall|j: int| 0 <= j < i ==> (#[trigger] out[j]).key@ == src[j].key@ && out[j].value@
                == src[j].value@,
        decreases src.len() - i,
    {
        let key = slice(&src[i].key, 0, src[i].key.len());
        let value = slice(&src[i].value, 0, src[i].value.len());
        assert(key@ =~= src[i as int].key@);
        assert(value@ =~= src[i as int].value@);
        out.push(Entry { key, value });
        i += 1;
    }
    assert(pairs_of(out@) =~= pairs_of(src@));
    out
}

/// A configuration: a finite mapping from keys to values.
pub struct Config {
    entries: Vec<Entry>,
}

impl Config {
    #[verifier::type_invariant]
    spec fn well_formed(self) -> bool {
        distinct_keys(pairs_of(self.entries@))
    }

    /// The pairs in the order in which they will be written out.
    pub closed spec fn pairs(&self) -> Seq<(Seq<char>, Seq<char>)> {
        pairs_of(self.entries@)
    }

    /// The mapping that the configuration stands for.
    pub open spec fn view(&self) -> Map<Seq<char>, Seq<char>> {
        as_map(self.pairs())
    }

    /// The empty configuration.
    pub fn new() -> (out: Config)
        ensures
            out.pairs() == Seq::<(Seq<char>, Seq<char>)>::empty(),
            out@ == Map::<Seq<char>, Seq<char>>::empty(),
    {
        let out = Config { entries: Vec::new() };
        assert(out.pairs() =~= Seq::<(Seq<char>, Seq<char>)>::empty());
        out
    }

    /// Number of keys.
    pub fn len(&self) -> (n: usize)
        ensures
            n == self.pairs().len(),
    {
        self.entries.len()
    }

    fn position(&self, key: &Vec<char>) -> (at: usize)
        ensures
            at <= self.pairs().len(),
            at < self.pairs().len() ==> self.pairs()[at as int].0 == key@,
            at == self.pairs().len() ==> !self@.contains_key(key@),
            at < self.pairs().len() ==> self@.contains_key(key@) && self@[key@]
                == self.pairs()[at as int].1,
    {
        proof {
            use_type_invariant(self);
        }
        let ghost p = self.pairs();
        let mut i: usize = 0;
        while i < self.entries.len() && !vec_eq(&self.entries[i].key, key)
            invariant
                i <= self.entries.len(),
                p == self.pairs(),
                p.len() == self.entries.len(),
                forall|j: int| 0 <= j < i ==> (#[trigger] p[j]).0 != key@,
            decreases self.entries.len() - i,
        {
            i += 1;
        }
        proof {
            lemma_as_map(p, key@);
            let l = last_index_of(p, key@);
            if i < p.len() {
                assert(p[i as int].0 == key@);
                if l != i {
                    if l < i {
                        assert(p[i as int].0 == key@);
                    } else {
                        assert(p[i as int].0 != p[l].0);
                    }
                }
            } else if l >= 0 {
                assert(p[l].0 != key@);
            }
        }
        i
    }

    /// The value stored under `key`, if there is one.
    pub fn get(&self, key: &str) -> (out: Option<String>)
        ensures
            out is Some <==> self@.contains_key(key@),
            out is Some ==> out->0@ == self@[key@],
    {
        let k = chars_of(key);
        let at = self.position(&k);
        if at < self.entries.len() {
            Some(string_of(&self.entries[at].value))
        } else {
            None
        }
    }

    /// Stores `value` under `key`, replacing what was stored there.
    pub fn insert(&mut self, key: &str, value: &str)
        ensures
            final(self)@ == old(self)@.insert(key@, value@),
    {
        let k = chars_of(key);
        let v = chars_of(value);
        self.put(k, v);
    }

    pub(crate) fn put(&mut self, k: Vec<char>, v: Vec<char>)
        ensures
            final(self)@ == old(self)@.insert(k@, v@),
    {
        proof {
            use_type_invariant(&*self);
        }
        let ghost p = self.pairs();
        let at = self.position(&k);
        let mut fresh = copy_entries(&self.entries);
        if at < fresh.len() {
            proof {
                lemma_update(p, at as int, v@);
            }
            fresh.set(at, Entry { key: k, value: v });
            assert(pairs_of(fresh@) =~= p.update(at as int, (p[at as int].0, v@)));
            self.entries = fresh;
        } else {
            proof {
                lemma_push(p, k@, v@);
                lemma_as_map(p, k@);
            }
            fresh.push(Entry { key: k, value: v });
            assert(pairs_of(fresh@) =~= p.push((k@, v@)));
            assert forall|a: int, b: int| 0 <= a < b < pairs_of(fresh@).len() implies (
            #[trigger] pairs_of(fresh@)[a]).0 != (#[trigger] pairs_of(fresh@)[b]).0 by {
                if b < p.len() {
                    assert(p[a].0 != p[b].0);
                } else {
                    assert(p[a].0 != k@);
                }
            }
            self.entries = fresh;
            assert forall|a: int, b: int| 0 <= a < b < self.pairs().len() implies (
            #[trigger] self.pairs()[a]).0 != (#[trigger] self.pairs()[b]).0 by {
                if b < p.len() {
                    assert(p[a].0 != p[b].0);
                } else {
                    assert(p[a].0 != k@);
                }
            }
        }
    }

    /// Reads a configuration from the text of its file.
    pub fn parse(text: &str) -> (out: Config)
        ensures
            out@ == parse_text(text@),
    {
        let chars = chars_of(text);
        let ls = split_lines(&chars);
        let mut out = Config::new();
        let mut i: usize = 0;
        assert(views(ls@).take(0) =~= Seq::<Seq<char>>::empty());
        while i < ls.len()
            invariant
                i <= ls.len(),
                out@ == parse_lines(views(ls@).take(i as int)),
            decreases ls.len() - i,
        {
            let line = &ls[i];
            let k = find(line, 0, CharClass::Exactly('='));
            proof {
                assert(line@.skip(0) =~= line@);
                assert(views(ls@).take(i + 1).drop_last() =~= views(ls@).take(i as int));
                assert(views(ls@).take(i + 1).last() == line@);
            }
            if k < line.len() {
                let key = slice(line, 0, k);
                let value = slice(line, k + 1, line.len());
                assert(key@ =~= line@.take(k as int));
                assert(value@ =~= line@.skip(k + 1));
                out.put(key, value);
            }
            i += 1;
        }
        assert(views(ls@).take(i as int) =~= views(ls@));
        out
    }

    /// Writes the configuration out as the text of its file.
    ///
    /// The text holds one line for each key of the mapping, and reads back
    /// as the same mapping wherever every pair can be written on a line.
    pub fn render(&self) -> (out: String)
        ensures
            out@ == render_pairs(self.pairs()),
            pairs_agree(self.pairs(), self@),
            writable_map(self@) ==> parse_text(out@) == self@,
    {
        proof {
            use_type_invariant(self);
            lemma_pairs_of_map(self.pairs());
            if writable_map(self@) {
                lemma_saved_then_read(self.pairs(), self@);
            }
        }
        let mut buf: Vec<char> = Vec::new();
        let mut i: usize = 0;
        let ghost p = self.pairs();
        assert(p.take(0) =~= Seq::<(Seq<char>, Seq<char>)>::empty());
        while i < self.entries.len()
            invariant
                i <= self.entries.len(),
                p == self.pairs(),
                p.len() == self.entries.len(),
                buf@ == render_pairs(p.take(i as int)),
            decreases self.entries.len() - i,
        {
            proof {
                assert(p.take(i + 1).drop_last() =~= p.take(i as int));
                assert(p.take(i + 1).last() == p[i as int]);
            }
            push_all(&mut buf, &self.entries[i].key);
            buf.push('=');
            push_all(&mut buf, &self.entries[i].value);
            buf.push('\n');
            i += 1;
            assert(buf@ =~= render_pairs(p.take(i as int)));
        }
        assert(p.take(i as int) =~= p);
        string_of(&buf)
    }
}

/// Directory, below the launcher's own, that holds the configuration files.
pub open spec fn conf_dir() -> Seq<char> {
    "codlinux_conf"@
}

/// Path of the global settings file, relative to the launcher's directory.
pub fn settings_path() -> (out: String)
    ensures
        out@ == conf_dir() + "/codlinux.cfg"@,
{
    let mut buf: Vec<char> = Vec::new();
    push_str(&mut buf, "codlinux_conf");
    push_str(&mut buf, "/codlinux.cfg");
    assert(buf@ =~= conf_dir() + "/codlinux.cfg"@);
    string_of(&buf)
}

/// Path of the configuration file of the game called `game`, relative to
/// the launcher's directory.
pub fn game_config_path(game: &str) -> (out: String)
    ensures
        out@ == conf_dir() + seq!['/'] + game@ + ".cfg"@,
{
    let mut buf: Vec<char> = Vec::new();
    push_str(&mut buf, "codlinux_conf");
    buf.push('/');
    push_str(&mut buf, game);
    push_str(&mut buf, ".cfg");
    assert(buf@ =~= conf_dir() + seq!['/'] + game@ + ".cfg"@);
    string_of(&buf)
}

/// Stores `value` under `setting` in the global settings.
pub fn save_setting(config: &mut Config, setting: &str, value: &str)
    ensures
        final(config)@ == old(config)@.insert(setting@, value@),
{
    config.insert(setting, value);
}

/// The value of `setting` in the global settings; the empty string when
/// the setting is absent.
pub fn load_setting(config: &Config, setting: &str) -> (out: String)
    ensures
        out@ == if config@.contains_key(setting@) {
            config@[setting@]
        } else {
            Seq::<char>::empty()
        },
{
    match config.get(setting) {
        Some(v) => v,
        None => String::new(),
    }
}

/// A file to be written: where, and what.
pub struct ConfigFile {
    pub path: String,
    pub contents: String,
}

/// The file that persists the configuration of the game called `game`.
///
/// Its text replaces what the file held, so that no key of an earlier
/// save is left over, and reads back as the same mapping wherever every
/// pair can be written on a line.
pub fn save_game_config(game: &str, config: &Config) -> (out: ConfigFile)
    ensures
        out.path@ == conf_dir() + seq!['/'] + game@ + ".cfg"@,
        out.contents@ == render_pairs(config.pairs()),
        pairs_agree(config.pairs(), config@),
        writable_map(config@) ==> parse_text(out.contents@) == config@,
{
    ConfigFile { path: game_config_path(game), contents: config.render() }
}

/// The configuration of a game, from the text of its file; a game without
/// a file has the empty configuration.
pub fn get_game_config(contents: Option<&str>) -> (out: Config)
    ensures
        out@ == match contents {
            Some(text) => parse_text(text@),
            None => Map::<Seq<char>, Seq<char>>::empty(),
        },
{
    match contents {
        Some(text) => Config::parse(text),
        None => Config::new(),
    }
}

} // verus!
