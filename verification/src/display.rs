//! The display mode that is in force before a launch, read from the output
//! of the display-configuration tool, and the command that puts it back.

use crate::text::{
    all_digits, chars_of, contains, decimal, decimal_value, find, find_sub, first_match,
    lemma_decimal_roundtrip, lemma_first_match_is, lines, parse_decimal, push_decimal, slice,
    split_lines, split_tokens, string_of, tokens, views, CharClass,
};
use vstd::prelude::*;

verus! {

/// A display mode: which output, at which resolution and refresh rate.
///
/// The refresh rate is kept as the decimal text that the tool printed, so
/// that the very same rate is asked for again.
#[derive(Debug)]
pub struct DisplayMode {
    pub output: String,
    pub width: u32,
    pub height: u32,
    pub rate: String,
}

/// The mathematical value of a [`DisplayMode`].
pub struct ModeView {
    pub output: Seq<char>,
    pub width: nat,
    pub height: nat,
    pub rate: Seq<char>,
}

impl View for DisplayMode {
    type V = ModeView;

    open spec fn view(&self) -> ModeView {
        ModeView {
            output: self.output@,
            width: self.width as nat,
            height: self.height as nat,
            rate: self.rate@,
        }
    }
}

/// Whether `t` is an unsigned decimal numeral that fits 32 bits.
pub open spec fn is_u32_text(t: Seq<char>) -> bool {
    t.len() > 0 && all_digits(t) && decimal_value(t) <= u32::MAX
}

/// The width and height that a resolution token such as `1920x1080`
/// stands for: the numerals before and after its first `x`, the second one
/// ending at a further `x` if there is one.
pub open spec fn resolution_of(t: Seq<char>) -> Option<(nat, nat)> {
    let k = first_match(t, CharClass::Exactly('x'));
    if 0 <= k < t.len() {
        let rest = t.skip(k + 1);
        let w = t.take(k);
        let h = rest.take(first_match(rest, CharClass::Exactly('x')));
        if is_u32_text(w) && is_u32_text(h) {
            Some((decimal_value(w), decimal_value(h)))
        } else {
            None
        }
    } else {
        None
    }
}

/// The digits and dots of a token, in order.
pub open spec fn rate_text(t: Seq<char>) -> Seq<char>
    decreases t.len(),
{
    if t.len() == 0 {
        t
    } else {
        let head = rate_text(t.drop_last());
        let c = t.last();
        if ('0' <= c && c <= '9') || c == '.' {
            head.push(c)
        } else {
            head
        }
    }
}

/// Whether `t` is a decimal number: digits with at most one dot among
/// them, and at least one digit.
pub open spec fn is_rate(t: Seq<char>) -> bool {
    let k = first_match(t, CharClass::Exactly('.'));
    if 0 <= k < t.len() {
        all_digits(t.take(k)) && all_digits(t.skip(k + 1)) && t.len() > 1
    } else {
        all_digits(t) && t.len() > 0
    }
}

/// Position of the first token that holds a `*`, or the number of tokens.
pub open spec fn starred(toks: Seq<Seq<char>>) -> int
    decreases toks.len(),
{
    if toks.len() == 0 {
        0
    } else if contains(toks[0], seq!['*']) {
        0
    } else {
        1 + starred(toks.skip(1))
    }
}

/// Resolution and refresh rate that the line of the current mode states.
///
/// The first token is the resolution; the first token marked with `*`
/// holds the rate, which is what is left of it when everything but digits
/// and dots is dropped.
pub open spec fn mode_of_line(line: Seq<char>) -> Option<(nat, nat, Seq<char>)> {
    let toks = tokens(line);
    let at = starred(toks);
    if toks.len() > 0 && 0 <= at < toks.len() {
        let rate = rate_text(toks[at]);
        match resolution_of(toks[0]) {
            Some((w, h)) => if is_rate(rate) {
                Some((w, h, rate))
            } else {
                None
            },
            None => None,
        }
    } else {
        None
    }
}

/// The text that marks the line of a connected output.
pub open spec fn connected_mark() -> Seq<char> {
    " connected"@
}

/// The mode that the lines `ls` report, where `output` is the connected
/// output already seen, if any.
///
/// The output is named by the first token of the first line that holds the
/// connected mark. The first line that holds a `*` states the mode; it ends
/// the search, whether or not it can be read. There is no mode when no line
/// holds a `*`, when no connected output came up to that line, or when the
/// line cannot be read.
pub open spec fn mode_of_lines(ls: Seq<Seq<char>>, output: Option<Seq<char>>) -> Option<ModeView>
    decreases ls.len(),
{
    if ls.len() == 0 {
        None
    } else {
        let line = ls[0];
        let seen = if output is None && contains(line, connected_mark()) && tokens(line).len()
            > 0 {
            Some(tokens(line)[0])
        } else {
            output
        };
        if contains(line, seq!['*']) {
            match (seen, mode_of_line(line)) {
                (Some(o), Some(m)) => Some(
                    ModeView { output: o, width: m.0, height: m.1, rate: m.2 },
                ),
                _ => None,
            }
        } else {
            mode_of_lines(ls.skip(1), seen)
        }
    }
}

/// The mode that the output of the display-configuration tool reports.
pub open spec fn mode_of_report(report: Seq<char>) -> Option<ModeView> {
    mode_of_lines(lines(report), None)
}

fn has_star(t: &Vec<char>) -> (b: bool)
    ensures
        b == contains(t@, seq!['*']),
{
    let mut star: Vec<char> = Vec::new();
    star.push('*');
    assert(star@ =~= seq!['*']);
    let k = find_sub(t, 0, &star);
    assert(t@.skip(0) =~= t@);
    k < t.len()
}

fn parse_u32(t: &Vec<char>) -> (out: Option<u32>)
    ensures
        out is Some <==> is_u32_text(t@),
        out is Some ==> out->0 == decimal_value(t@),
{
    match parse_decimal(t, 0xffff_ffff) {
        Some(v) => Some(v as u32),
        None => None,
    }
}

fn parse_resolution(t: &Vec<char>) -> (out: Option<(u32, u32)>)
    ensures
        match out {
            Some(wh) => resolution_of(t@) == Some((wh.0 as nat, wh.1 as nat)),
            None => resolution_of(t@) is None,
        },
{
    let k = find(t, 0, CharClass::Exactly('x'));
    assert(t@.skip(0) =~= t@);
    if k >= t.len() {
        return None;
    }
    let k2 = find(t, k + 1, CharClass::Exactly('x'));
    let w_text = slice(t, 0, k);
    let h_text = slice(t, k + 1, k2);
    proof {
        let rest = t@.skip(k + 1);
        assert(w_text@ =~= t@.take(k as int));
        assert(h_text@ =~= rest.take(first_match(rest, CharClass::Exactly('x'))));
    }
    match parse_u32(&w_text) {
        Some(w) => match parse_u32(&h_text) {
            Some(h) => Some((w, h)),
            None => None,
        },
        None => None,
    }
}

fn rate_chars(t: &Vec<char>) -> (out: Vec<char>)
    ensures
        out@ == rate_text(t@),
{
    let mut out: Vec<char> = Vec::new();
    let mut i: usize = 0;
    assert(t@.take(0) =~= Seq::<char>::empty());
    while i < t.len()
        invariant
            i <= t.len(),
            out@ == rate_text(t@.take(i as int)),
        decreases t.len() - i,
    {
        let c = t[i];
        proof {
            assert(t@.take(i + 1).drop_last() =~= t@.take(i as int));
            assert(t@.take(i + 1).last() == c);
        }
        if (c >= '0' && c <= '9') || c == '.' {
            out.push(c);
        }
        i += 1;
    }
    assert(t@.take(i as int) =~= t@);
    out
}

fn digits_only(t: &Vec<char>, from: usize, to: usize) -> (b: bool)
    requires
        from <= to <= t.len(),
    ensures
        b == all_digits(t@.subrange(from as int, to as int)),
{
    let mut i: usize = from;
    while i < to
        invariant
            from <= i <= to,
            to <= t.len(),
            forall|j: int| from <= j < i ==> '0' <= #[trigger] t@[j] && t@[j] <= '9',
        decreases to - i,
    {
        if !(t[i] >= '0' && t[i] <= '9') {
            assert(t@.subrange(from as int, to as int)[i - from] == t@[i as int]);
            return false;
        }
        i += 1;
    }
    assert forall|j: int| 0 <= j < to - from implies crate::text::is_digit(
        #[trigger] t@.subrange(from as int, to as int)[j],
    ) by {
        assert(t@.subrange(from as int, to as int)[j] == t@[from + j]);
    }
    true
}

fn check_rate(t: &Vec<char>) -> (b: bool)
    ensures
        b == is_rate(t@),
{
    let k = find(t, 0, CharClass::Exactly('.'));
    assert(t@.skip(0) =~= t@);
    if k < t.len() {
        let a = digits_only(t, 0, k);
        let b = digits_only(t, k + 1, t.len());
        assert(t@.take(k as int) =~= t@.subrange(0, k as int));
        assert(t@.skip(k + 1) =~= t@.subrange(k + 1, t.len() as int));
        a && b && t.len() > 1
    } else {
        let a = digits_only(t, 0, t.len());
        assert(t@ =~= t@.subrange(0, t.len() as int));
        a && t.len() > 0
    }
}

fn find_starred(toks: &Vec<Vec<char>>) -> (at: usize)
    ensures
        at == starred(views(toks@)),
        at <= toks.len(),
{
    let ghost all = views(toks@);
    let mut i: usize = 0;
    assert(all.skip(0) =~= all);
    while i < toks.len() && !has_star(&toks[i])
        invariant
            i <= toks.len(),
            all == views(toks@),
            i + starred(all.skip(i as int)) == starred(all),
        decreases toks.len() - i,
    {
        assert(all.skip(i as int)[0] == toks@[i as int]@);
        assert(all.skip(i as int).skip(1) =~= all.skip(i + 1));
        i += 1;
    }
    proof {
        if i < toks.len() {
            assert(all.skip(i as int)[0] == toks@[i as int]@);
        }
    }
    i
}

fn parse_mode_line(line: &Vec<char>) -> (out: Option<(u32, u32, Vec<char>)>)
    ensures
        match out {
            Some(m) => mode_of_line(line@) == Some((m.0 as nat, m.1 as nat, m.2@)),
            None => mode_of_line(line@) is None,
        },
{
    let toks = split_tokens(line);
    let at = find_starred(&toks);
    if toks.len() == 0 || at >= toks.len() {
        return None;
    }
    let rate = rate_chars(&toks[at]);
    match parse_resolution(&toks[0]) {
        Some((w, h)) => if check_rate(&rate) {
            Some((w, h, rate))
        } else {
            None
        },
        None => None,
    }
}

/// The character sequence that an optional vector holds.
pub open spec fn opt_view(o: Option<Vec<char>>) -> Option<Seq<char>> {
    match o {
        Some(v) => Some(v@),
        None => None,
    }
}

/// Reads the current display mode out of the report of the
/// display-configuration tool.
pub fn get_display_mode(report: &str) -> (out: Option<DisplayMode>)
    ensures
        match out {
            Some(m) => mode_of_report(report@) == Some(m@),
            None => mode_of_report(report@) is None,
        },
{
    let text = chars_of(report);
    let ls = split_lines(&text);
    let ghost all = views(ls@);
    let mark = chars_of(" connected");
    let mut seen: Option<Vec<char>> = None;
    let mut i: usize = 0;
    assert(all.skip(0) =~= all);
    while i < ls.len()
        invariant
            i <= ls.len(),
            all == views(ls@),
            mark@ == connected_mark(),
            mode_of_lines(all.skip(i as int), opt_view(seen)) == mode_of_report(report@),
        decreases ls.len() - i,
    {
        let line = &ls[i];
        proof {
            assert(all.skip(i as int)[0] == line@);
            assert(all.skip(i as int).skip(1) =~= all.skip(i + 1));
            assert(line@.skip(0) =~= line@);
        }
        if seen.is_none() {
            let k = find_sub(line, 0, &mark);
            if mark.len() <= line.len() - k {
                let toks = split_tokens(line);
                if toks.len() > 0 {
                    let first = slice(&toks[0], 0, toks[0].len());
                    assert(first@ =~= tokens(line@)[0]);
                    seen = Some(first);
                }
            }
        }
        if has_star(line) {
            return match (seen, parse_mode_line(line)) {
                (Some(o), Some(m)) => Some(
                    DisplayMode { output: string_of(&o), width: m.0, height: m.1, rate: string_of(&m.2) },
                ),
                _ => None,
            };
        }
        i += 1;
    }
    assert(all.skip(i as int) =~= Seq::<Seq<char>>::empty());
    None
}

/// The resolution token for a width and a height.
pub open spec fn resolution_text(width: nat, height: nat) -> Seq<char> {
    decimal(width) + seq!['x'] + decimal(height)
}

/// The arguments that make the display-configuration tool apply `m`.
pub open spec fn restore_args(m: ModeView) -> Seq<Seq<char>> {
    seq![
        "--output"@,
        m.output,
        "--mode"@,
        resolution_text(m.width, m.height),
        "--rate"@,
        m.rate,
    ]
}

/// The arguments for the display-configuration tool that put the captured
/// mode back. Where no mode was captured there is nothing to restore, and
/// no command.
pub fn restore_display_mode(mode: Option<&DisplayMode>) -> (out: Option<Vec<String>>)
    ensures
        match mode {
            Some(m) => out is Some && crate::scanner::texts(out->0@) == restore_args(m@),
            None => out is None,
        },
{
    match mode {
        Some(m) => {
            let mut res: Vec<char> = Vec::new();
            push_decimal(&mut res, m.width as u64);
            res.push('x');
            push_decimal(&mut res, m.height as u64);
            assert(res@ =~= resolution_text(m.width as nat, m.height as nat));
            let mut args: Vec<String> = Vec::new();
            args.push("--output".to_owned());
            args.push(m.output.clone());
            args.push("--mode".to_owned());
            args.push(string_of(&res));
            args.push("--rate".to_owned());
            args.push(m.rate.clone());
            assert(crate::scanner::texts(args@) =~= restore_args(m@));
            Some(args)
        },
        None => None,
    }
}

/// The mode that the display is in after the display-configuration tool
/// ran with `args`: the named output at the resolution and rate asked for.
/// Arguments of any other shape change nothing that this model knows of.
pub open spec fn applied(args: Seq<Seq<char>>) -> Option<ModeView> {
    if args.len() == 6 && args[0] == "--output"@ && args[2] == "--mode"@ && args[4] == "--rate"@ {
        match resolution_of(args[3]) {
            Some((w, h)) => Some(ModeView { output: args[1], width: w, height: h, rate: args[5] }),
            None => None,
        }
    } else {
        None
    }
}

/// The numeral of a number holds no `x`.
proof fn lemma_decimal_has_no_x(n: nat)
    ensures
        first_match(decimal(n), CharClass::Exactly('x')) == decimal(n).len(),
{
    lemma_decimal_roundtrip(n);
    let d = decimal(n);
    assert forall|j: int| 0 <= j < d.len() implies !CharClass::Exactly('x').holds(
        #[trigger] d[j],
    ) by {
        assert(crate::text::is_digit(d[j]));
    }
    lemma_first_match_is(d, CharClass::Exactly('x'), d.len() as int);
}

/// A resolution token reads back as the width and height it was written
/// for.
pub proof fn lemma_resolution_roundtrip(width: nat, height: nat)
    requires
        width <= u32::MAX,
        height <= u32::MAX,
    ensures
        resolution_of(resolution_text(width, height)) == Some((width, height)),
{
    let w = decimal(width);
    let h = decimal(height);
    let t = resolution_text(width, height);
    lemma_decimal_roundtrip(width);
    lemma_decimal_roundtrip(height);
    lemma_decimal_has_no_x(height);
    assert forall|j: int| 0 <= j < w.len() implies !CharClass::Exactly('x').holds(
        #[trigger] t[j],
    ) by {
        assert(t[j] == w[j]);
        assert(crate::text::is_digit(w[j]));
    }
    assert(t[w.len() as int] == 'x');
    lemma_first_match_is(t, CharClass::Exactly('x'), w.len() as int);
    assert(t.take(w.len() as int) =~= w);
    assert(t.skip(w.len() as int + 1) =~= h);
    assert(h.take(h.len() as int) =~= h);
}

/// Restoring a captured mode puts the display into exactly that mode: the
/// same output at the same width, height and refresh rate.
pub proof fn lemma_restore_is_exact(m: DisplayMode)
    ensures
        applied(restore_args(m@)) == Some(m@),
{
    lemma_resolution_roundtrip(m.width as nat, m.height as nat);
}

} // verus!
