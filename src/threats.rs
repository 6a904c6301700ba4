//! Tallies the outcome of the scripted threat scenarios from the report of
//! a test run: one line per scenario, such as
//! `FAIL [ 0.1s] threats casino::raffle::steal_pot_fails`.

use vstd::prelude::*;
use vstd::std_specs::iter::IteratorSpec;

verus! {

broadcast use vstd::string::axiom_spec_iter, vstd::string::next_postcondition;

/// Whether `c` is white space in Unicode's sense, as `char::is_whitespace`
/// decides it.
pub open spec fn is_whitespace(c: char) -> bool {
    let x = c as u32;
    ||| 9 <= x <= 13
    ||| x == 32
    ||| x == 0x85
    ||| x == 0xa0
    ||| x == 0x1680
    ||| 0x2000 <= x <= 0x200a
    ||| x == 0x2028
    ||| x == 0x2029
    ||| x == 0x202f
    ||| x == 0x205f
    ||| x == 0x3000
}

/// `s` without its leading white space.
pub open spec fn trim_start(s: Seq<char>) -> Seq<char>
    decreases s.len(),
{
    if s.len() > 0 && is_whitespace(s[0]) {
        trim_start(s.drop_first())
    } else {
        s
    }
}

/// `s` without its trailing white space.
pub open spec fn trim_end(s: Seq<char>) -> Seq<char>
    decreases s.len(),
{
    if s.len() > 0 && is_whitespace(s.last()) {
        trim_end(s.drop_last())
    } else {
        s
    }
}

/// `s` without its leading and trailing white space.
pub open spec fn trim(s: Seq<char>) -> Seq<char> {
    trim_end(trim_start(s))
}

/// `line` without the carriage return that ended it, if one did.
pub open spec fn strip_cr(line: Seq<char>) -> Seq<char> {
    if line.len() > 0 && line.last() == '\r' {
        line.drop_last()
    } else {
        line
    }
}

/// The lines of `cur` followed by `s`, where `cur` is the start of a line:
/// lines end at a line feed, which with a carriage return before it is not
/// part of the line; a final line feed starts no further line.
pub open spec fn lines_from(s: Seq<char>, cur: Seq<char>) -> Seq<Seq<char>>
    decreases s.len(),
{
    if s.len() == 0 {
        if cur.len() == 0 {
            Seq::empty()
        } else {
            seq![cur]
        }
    } else if s[0] == '\n' {
        seq![strip_cr(cur)] + lines_from(s.drop_first(), Seq::empty())
    } else {
        lines_from(s.drop_first(), cur.push(s[0]))
    }
}

/// The lines of `s`, as `str::lines` gives them.
pub open spec fn lines(s: Seq<char>) -> Seq<Seq<char>> {
    lines_from(s, Seq::empty())
}

/// The parts of `cur` followed by `s`, where `cur` is the start of a part,
/// separated at each `::` found scanning from the left.
pub open spec fn parts_from(s: Seq<char>, cur: Seq<char>) -> Seq<Seq<char>>
    decreases s.len(),
{
    if s.len() == 0 {
        seq![cur]
    } else if s.len() >= 2 && s[0] == ':' && s[1] == ':' {
        seq![cur] + parts_from(s.subrange(2, s.len() as int), Seq::empty())
    } else {
        parts_from(s.drop_first(), cur.push(s[0]))
    }
}

/// The parts of `s` between its `::` separators, as `str::split("::")` gives
/// them.
pub open spec fn parts(s: Seq<char>) -> Seq<Seq<char>> {
    parts_from(s, Seq::empty())
}

/// Whether `s` begins with `p`.
pub open spec fn starts_with(s: Seq<char>, p: Seq<char>) -> bool {
    p.len() <= s.len() && s.subrange(0, p.len() as int) == p
}

/// Whether `s` ends with `p`.
pub open spec fn ends_with(s: Seq<char>, p: Seq<char>) -> bool {
    p.len() <= s.len() && s.subrange(s.len() - p.len(), s.len() as int) == p
}

/// The verdict of a scenario that passed.
pub open spec fn pass_tag() -> Seq<char> {
    seq!['P', 'A', 'S', 'S']
}

/// The verdict of a scenario that failed.
pub open spec fn fail_tag() -> Seq<char> {
    seq!['F', 'A', 'I', 'L']
}

/// The verdict of a scenario that aborted.
pub open spec fn abort_tag() -> Seq<char> {
    seq!['S', 'I', 'G', 'A', 'B', 'R', 'T']
}

/// How the name of a scenario ends that shows a threat which must fail.
pub open spec fn fails_suffix() -> Seq<char> {
    seq!['f', 'a', 'i', 'l', 's']
}

/// How the name of a scenario ends that shows behaviour which must keep working.
pub open spec fn works_suffix() -> Seq<char> {
    seq!['w', 'o', 'r', 'k', 's']
}

/// The one mission that has scenarios.
pub open spec fn casino() -> Seq<char> {
    seq!['c', 'a', 's', 'i', 'n', 'o']
}

/// The count so far: scenarios named `..._fails` that did not pass, those
/// named `..._works` that did not pass, and the names of each kind seen,
/// in the order first seen.
pub struct Tally {
    pub valid: nat,
    pub invalid: nat,
    pub works: Seq<Seq<char>>,
    pub fails: Seq<Seq<char>>,
}

/// The count before any line.
pub open spec fn empty_tally() -> Tally {
    Tally { valid: 0, invalid: 0, works: Seq::empty(), fails: Seq::empty() }
}

/// Whether a trimmed line reports a scenario: it names one with `::` and
/// begins with a verdict.
pub open spec fn reports_scenario(line: Seq<char>) -> bool {
    &&& parts(line).len() > 1
    &&& starts_with(line, pass_tag()) || starts_with(line, fail_tag()) || starts_with(
        line,
        abort_tag(),
    )
}

/// The count after one more line of the report. A scenario counts once, the
/// first time its name is seen.
pub open spec fn step(t: Tally, raw: Seq<char>) -> Tally {
    let line = trim(raw);
    let name = parts(line).last();
    let passed = starts_with(line, pass_tag());
    if !reports_scenario(line) {
        t
    } else if ends_with(name, fails_suffix()) && !t.fails.contains(name) {
        Tally {
            fails: t.fails.push(name),
            valid: if passed {
                t.valid
            } else {
                t.valid + 1
            },
            ..t
        }
    } else if ends_with(name, works_suffix()) && !t.works.contains(name) {
        Tally {
            works: t.works.push(name),
            invalid: if passed {
                t.invalid
            } else {
                t.invalid + 1
            },
            ..t
        }
    } else {
        t
    }
}

/// The count over the lines `ls`, in order.
pub open spec fn tally(ls: Seq<Seq<char>>) -> Tally
    decreases ls.len(),
{
    if ls.len() == 0 {
        empty_tally()
    } else {
        step(tally(ls.drop_last()), ls.last())
    }
}

/// The count over a report for `mission`; only the casino mission has
/// scenarios.
pub open spec fn threat_tally(mission: Seq<char>, results: Seq<char>) -> Tally {
    if mission == casino() {
        tally(lines(results))
    } else {
        empty_tally()
    }
}

/// The characters of `s`.
fn chars_of(s: &str) -> (r: Vec<char>)
    ensures
        r@ == s@,
{
    let mut it = s.chars();
    let mut out: Vec<char> = Vec::new();
    loop
        invariant
            out@ + it.remaining() == s@,
        decreases s@.len() - out@.len(),
    {
        match it.next() {
            Some(c) => out.push(c),
            None => {
                assert(out@ + it.remaining() == out@);
                return out;
            },
        }
    }
}

/// Whether `c` is white space.
fn char_is_whitespace(c: char) -> (r: bool)
    ensures
        r == is_whitespace(c),
{
    let x = c as u32;
    (9 <= x && x <= 13) || x == 32 || x == 0x85 || x == 0xa0 || x == 0x1680 || (0x2000 <= x && x
        <= 0x200a) || x == 0x2028 || x == 0x2029 || x == 0x202f || x == 0x205f || x == 0x3000
}

/// The names of the scenarios seen, as character sequences.
pub open spec fn names(v: Seq<Vec<char>>) -> Seq<Seq<char>> {
    v.map_values(|n: Vec<char>| n@)
}

/// Whether `a` and `b` hold the same characters.
fn same_chars(a: &Vec<char>, b: &Vec<char>) -> (r: bool)
    ensures
        r == (a@ == b@),
{
    if a.len() != b.len() {
        return false;
    }
    let mut i: usize = 0;
    while i < a.len()
        invariant
            i <= a@.len(),
            a@.len() == b@.len(),
            a@.subrange(0, i as int) == b@.subrange(0, i as int),
        decreases a@.len() - i,
    {
        if a[i] != b[i] {
            assert(a@[i as int] != b@[i as int]);
            return false;
        }
        i = i + 1;
        assert(a@.subrange(0, i as int) =~= b@.subrange(0, i as int));
    }
    assert(a@ =~= a@.subrange(0, i as int));
    assert(b@ =~= b@.subrange(0, i as int));
    true
}

/// Whether `name` is among `known`.
fn seen(known: &Vec<Vec<char>>, name: &Vec<char>) -> (r: bool)
    ensures
        r == names(known@).contains(name@),
{
    let mut i: usize = 0;
    while i < known.len()
        invariant
            i <= known@.len(),
            forall|j: int| 0 <= j < i ==> names(known@)[j] != name@,
        decreases known@.len() - i,
    {
        if same_chars(&known[i], name) {
            assert(names(known@)[i as int] == name@);
            return true;
        }
        i = i + 1;
    }
    false
}

/// Whether `s` begins with `p`.
fn has_prefix(s: &Vec<char>, p: &Vec<char>) -> (r: bool)
    ensures
        r == starts_with(s@, p@),
{
    if p.len() > s.len() {
        return false;
    }
    let mut i: usize = 0;
    while i < p.len()
        invariant
            i <= p@.len() <= s@.len(),
            s@.subrange(0, i as int) == p@.subrange(0, i as int),
        decreases p@.len() - i,
    {
        if s[i] != p[i] {
            assert(s@.subrange(0, p@.len() as int)[i as int] != p@[i as int]);
            return false;
        }
        i = i + 1;
        assert(s@.subrange(0, i as int) =~= p@.subrange(0, i as int));
    }
    assert(p@ =~= p@.subrange(0, i as int));
    true
}

/// Whether `s` ends with `p`.
fn has_suffix(s: &Vec<char>, p: &Vec<char>) -> (r: bool)
    ensures
        r == ends_with(s@, p@),
{
    if p.len() > s.len() {
        return false;
    }
    let start = s.len() - p.len();
    let mut i: usize = 0;
    while i < p.len()
        invariant
            i <= p@.len() <= s@.len(),
            start == s@.len() - p@.len(),
            s@.len() == s.len(),
            s@.subrange(start as int, start + i) == p@.subrange(0, i as int),
        decreases p@.len() - i,
    {
        if s[start + i] != p[i] {
            assert(s@.subrange(start as int, s@.len() as int)[i as int] != p@[i as int]);
            return false;
        }
        i = i + 1;
        assert(s@.subrange(start as int, start + i) =~= p@.subrange(0, i as int));
    }
    assert(p@ =~= p@.subrange(0, i as int));
    true
}

/// `s` without its leading and trailing white space.
fn trimmed(s: &Vec<char>) -> (r: Vec<char>)
    ensures
        r@ == trim(s@),
{
    let mut a: usize = 0;
    assert(s@.subrange(0, s@.len() as int) =~= s@);
    while a < s.len() && char_is_whitespace(s[a])
        invariant
            a <= s@.len(),
            trim_start(s@) == trim_start(s@.subrange(a as int, s@.len() as int)),
        decreases s@.len() - a,
    {
        assert(s@.subrange(a as int, s@.len() as int).drop_first() =~= s@.subrange(
            a + 1,
            s@.len() as int,
        ));
        a = a + 1;
    }
    let ghost start = s@.subrange(a as int, s@.len() as int);
    assert(trim_start(s@) == start);
    let mut b: usize = s.len();
    while b > a && char_is_whitespace(s[b - 1])
        invariant
            a <= b <= s@.len(),
            start == s@.subrange(a as int, s@.len() as int),
            trim_end(start) == trim_end(s@.subrange(a as int, b as int)),
        decreases b - a,
    {
        assert(s@.subrange(a as int, b as int).drop_last() =~= s@.subrange(a as int, b - 1));
        b = b - 1;
    }
    let mut r: Vec<char> = Vec::new();
    let mut i: usize = a;
    while i < b
        invariant
            a <= i <= b <= s@.len(),
            r@ == s@.subrange(a as int, i as int),
        decreases b - i,
    {
        r.push(s[i]);
        i = i + 1;
        assert(r@ =~= s@.subrange(a as int, i as int));
    }
    r
}

/// Whether `line` has more than one part between `::` separators, and its
/// last part.
fn last_part(line: &Vec<char>) -> (r: (bool, Vec<char>))
    ensures
        r.0 == (parts(line@).len() > 1),
        r.1@ == parts(line@).last(),
{
    let mut cur: Vec<char> = Vec::new();
    let mut found = false;
    let ghost mut done: Seq<Seq<char>> = Seq::empty();
    let mut i: usize = 0;
    assert(line@.subrange(0, line@.len() as int) =~= line@);
    while i < line.len()
        invariant
            i <= line@.len(),
            parts(line@) == done + parts_from(line@.subrange(i as int, line@.len() as int), cur@),
            found == (done.len() > 0),
        decreases line@.len() - i,
    {
        let ghost rest = line@.subrange(i as int, line@.len() as int);
        if i + 1 < line.len() && line[i] == ':' && line[i + 1] == ':' {
            assert(rest.subrange(2, rest.len() as int) =~= line@.subrange(i + 2, line@.len() as int));
            assert(parts_from(rest, cur@) == seq![cur@] + parts_from(
                line@.subrange(i + 2, line@.len() as int),
                Seq::empty(),
            ));
            proof {
                done = done.push(cur@);
            }
            assert(parts(line@) == done + parts_from(
                line@.subrange(i + 2, line@.len() as int),
                Seq::empty(),
            ));
            cur = Vec::new();
            found = true;
            i = i + 2;
        } else {
            assert(rest.drop_first() =~= line@.subrange(i + 1, line@.len() as int));
            cur.push(line[i]);
            i = i + 1;
        }
    }
    assert(line@.subrange(i as int, line@.len() as int) =~= Seq::<char>::empty());
    (found, cur)
}

/// The markers that the report's lines are read for.
struct Tags {
    pass: Vec<char>,
    fail: Vec<char>,
    abort: Vec<char>,
    fails: Vec<char>,
    works: Vec<char>,
}

impl Tags {
    spec fn wf(&self) -> bool {
        &&& self.pass@ == pass_tag()
        &&& self.fail@ == fail_tag()
        &&& self.abort@ == abort_tag()
        &&& self.fails@ == fails_suffix()
        &&& self.works@ == works_suffix()
    }

    fn new() -> (r: Tags)
        ensures
            r.wf(),
    {
        proof {
            reveal_strlit("PASS");
            reveal_strlit("FAIL");
            reveal_strlit("SIGABRT");
            reveal_strlit("fails");
            reveal_strlit("works");
        }
        let r = Tags {
            pass: chars_of("PASS"),
            fail: chars_of("FAIL"),
            abort: chars_of("SIGABRT"),
            fails: chars_of("fails"),
            works: chars_of("works"),
        };
        assert(r.pass@ =~= pass_tag());
        assert(r.fail@ =~= fail_tag());
        assert(r.abort@ =~= abort_tag());
        assert(r.fails@ =~= fails_suffix());
        assert(r.works@ =~= works_suffix());
        r
    }
}

/// The running count of a report.
struct Counter {
    valid: usize,
    invalid: usize,
    works: Vec<Vec<char>>,
    fails: Vec<Vec<char>>,
}

impl Counter {
    spec fn view(&self) -> Tally {
        Tally {
            valid: self.valid as nat,
            invalid: self.invalid as nat,
            works: names(self.works@),
            fails: names(self.fails@),
        }
    }

    spec fn bounded(&self) -> bool {
        self.valid <= self.fails@.len() && self.invalid <= self.works@.len()
    }

    /// Counts one more line of the report.
    fn record(&mut self, raw: &Vec<char>, tags: &Tags)
        requires
            old(self).bounded(),
            tags.wf(),
        ensures
            final(self).bounded(),
            final(self).view() == step(old(self).view(), raw@),
    {
        let line = trimmed(raw);
        let (split, name) = last_part(&line);
        if !split {
            return;
        }
        let passed = has_prefix(&line, &tags.pass);
        if !(passed || has_prefix(&line, &tags.fail) || has_prefix(&line, &tags.abort)) {
            return;
        }
        if has_suffix(&name, &tags.fails) && !seen(&self.fails, &name) {
            let ghost before = self.fails@;
            self.fails.push(name);
            assert(names(self.fails@) =~= names(before).push(parts(trim(raw@)).last()));
            let seen_fails = self.fails.len();
            if !passed {
                assert(self.valid < seen_fails);
                self.valid = self.valid + 1;
            }
        } else if has_suffix(&name, &tags.works) && !seen(&self.works, &name) {
            let ghost before = self.works@;
            self.works.push(name);
            assert(names(self.works@) =~= names(before).push(parts(trim(raw@)).last()));
            let seen_works = self.works.len();
            if !passed {
                assert(self.invalid < seen_works);
                self.invalid = self.invalid + 1;
            }
        }
    }
}

/// Counts the scenarios that a test run's report `results` gives for
/// `mission`: those named `..._fails` that did not pass, those named
/// `..._works` that did not pass, and those named `..._works` in all, each
/// scenario once.
pub fn threat_counts(mission: &str, results: &str) -> (r: (usize, usize, usize))
    ensures
        r.0 == threat_tally(mission@, results@).valid,
        r.1 == threat_tally(mission@, results@).invalid,
        r.2 == threat_tally(mission@, results@).works.len(),
        r.1 <= r.2,
{
    let m = chars_of(mission);
    proof {
        reveal_strlit("casino");
    }
    let c = chars_of("casino");
    assert(c@ =~= casino());
    if !same_chars(&m, &c) {
        return (0, 0, 0);
    }
    let tags = Tags::new();
    let text = chars_of(results);
    let mut counter = Counter { valid: 0, invalid: 0, works: Vec::new(), fails: Vec::new() };
    assert(names(counter.works@) =~= Seq::<Seq<char>>::empty());
    assert(names(counter.fails@) =~= Seq::<Seq<char>>::empty());
    assert(counter.view() == empty_tally());
    let ghost mut done: Seq<Seq<char>> = Seq::empty();
    let mut cur: Vec<char> = Vec::new();
    let mut i: usize = 0;
    assert(text@.subrange(0, text@.len() as int) =~= text@);
    while i < text.len()
        invariant
            i <= text@.len(),
            tags.wf(),
            counter.bounded(),
            counter.view() == tally(done),
            lines(text@) == done + lines_from(text@.subrange(i as int, text@.len() as int), cur@),
        decreases text@.len() - i,
    {
        let ghost rest = text@.subrange(i as int, text@.len() as int);
        assert(rest.drop_first() =~= text@.subrange(i + 1, text@.len() as int));
        let ch = text[i];
        if ch == '\n' {
            let ghost line = strip_cr(cur@);
            if cur.len() > 0 && cur[cur.len() - 1] == '\r' {
                cur.pop();
            }
            assert(cur@ =~= line);
            counter.record(&cur, &tags);
            proof {
                assert(done.push(line).drop_last() =~= done);
                done = done.push(line);
            }
            cur = Vec::new();
        } else {
            cur.push(ch);
        }
        i = i + 1;
    }
    assert(text@.subrange(i as int, text@.len() as int) =~= Seq::<char>::empty());
    if cur.len() > 0 {
        counter.record(&cur, &tags);
        proof {
            assert(done.push(cur@).drop_last() =~= done);
            done = done.push(cur@);
        }
    }
    assert(lines(text@) =~= done);
    (counter.valid, counter.invalid, counter.works.len())
}

/// Tallies the report `results` of a test run for `mission`: how many
/// threats still work (scenarios named `..._fails` that did not pass), how
/// many scenarios named `..._works` passed, and how many of those there are.
/// The last two are counted modulo 256; the first, and the scenarios named
/// `..._works` that did not pass, must fit in that count.
pub fn valid_threats(mission: &str, results: String) -> (r: (u8, u8, u8))
    requires
        threat_tally(mission@, results@).valid <= 255,
        threat_tally(mission@, results@).invalid <= threat_tally(mission@, results@).works.len()
            % 256,
    ensures
        r.0 == threat_tally(mission@, results@).valid,
        r.1 == threat_tally(mission@, results@).works.len() % 256 - threat_tally(
            mission@,
            results@,
        ).invalid,
        r.2 == threat_tally(mission@, results@).works.len() % 256,
{
    let (valid, invalid, works) = threat_counts(mission, results.as_str());
    let seen_works = (works % 256) as u8;
    (valid as u8, seen_works - invalid as u8, seen_works)
}

} // verus!
