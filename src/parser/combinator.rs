//! Primitive parsers and the combinators that compose them.
//!
//! A parser reads from an input that it never modifies: it is handed the whole
//! input and a position, and on success returns its value with the position
//! reached. A failed attempt returns no position at all, so whoever tries the
//! next alternative starts again from the position it already holds.
use vstd::prelude::*;

verus! {

/// Where and why a parse failed. `line` and `char` are zero-based.
#[derive(Debug)]
pub struct ParseError {
    pub filename: String,
    pub line: usize,
    pub char: usize,
    pub explanation: String,
}

/// Number of line breaks before `pos`.
pub open spec fn line_at(s: Seq<char>, pos: int) -> int
    decreases pos,
{
    if pos <= 0 {
        0
    } else if s[pos - 1] == '\n' {
        line_at(s, pos - 1) + 1
    } else {
        line_at(s, pos - 1)
    }
}

/// Number of characters between the last line break before `pos` and `pos`.
pub open spec fn column_at(s: Seq<char>, pos: int) -> int
    decreases pos,
{
    if pos <= 0 {
        0
    } else if s[pos - 1] == '\n' {
        0
    } else {
        column_at(s, pos - 1) + 1
    }
}

/// Relies on `str::chars` collected into a `Vec`: the characters of `s`, in order.
#[verifier::external_body]
pub(crate) fn chars_of(s: &str) -> (r: Vec<char>)
    ensures
        r@ == s@,
{
    s.chars().collect()
}

/// Relies on `String`'s `FromIterator<char>`: the string of the characters of `v`.
#[verifier::external_body]
pub(crate) fn string_of(v: &Vec<char>) -> (r: String)
    ensures
        r@ == v@,
{
    v.iter().collect()
}

impl ParseError {
    /// An error at position `pos` of `input`, with its line and column.
    pub fn at(input: &Vec<char>, pos: usize, explanation: &Vec<char>) -> (r: ParseError)
        requires
            pos <= input@.len(),
        ensures
            r.line == line_at(input@, pos as int),
            r.char == column_at(input@, pos as int),
            r.filename@ == "stdin"@,
            r.explanation@ == explanation@,
    {
        let mut line: usize = 0;
        let mut column: usize = 0;
        let mut i: usize = 0;
        while i < pos
            invariant
                i <= pos <= input@.len(),
                line == line_at(input@, i as int),
                column == column_at(input@, i as int),
                line <= i,
                column <= i,
            decreases pos - i,
        {
            if input[i] == '\n' {
                line = line + 1;
                column = 0;
            } else {
                column = column + 1;
            }
            i = i + 1;
        }
        let v = chars_of("stdin");
        ParseError { filename: string_of(&v), line, char: column, explanation: string_of(explanation) }
    }
}

/// The explanation for having wanted `expected` where `found` stands (`None`: the
/// end of the input).
pub fn mismatch(expected: char, found: Option<char>) -> (r: Vec<char>)
    ensures
        r@ == "expected '"@ + seq![expected] + match found {
            Some(c) => "' but got '"@ + seq![c] + "'"@,
            None => "' but got EOF"@,
        },
{
    let mut r = chars_of("expected '");
    r.push(expected);
    match found {
        Some(c) => {
            let mut middle = chars_of("' but got '");
            r.append(&mut middle);
            r.push(c);
            let mut tail = chars_of("'");
            r.append(&mut tail);
        },
        None => {
            let mut tail = chars_of("' but got EOF");
            r.append(&mut tail);
        },
    }
    r
}

/// A parser producing values of type `Output`.
///
/// `spec_parse(s, pos)` is what the parser does on the input `s` from position
/// `pos`: `Some((v, n))` when it succeeds with the value `v` (as its deep view)
/// after consuming `n` characters, `None` when it fails.
pub trait Parser {
    type Output: DeepView;

    /// What the parser needs of its own construction.
    spec fn wf(&self) -> bool;

    spec fn spec_parse(&self, s: Seq<char>, pos: int) -> Option<(<Self::Output as DeepView>::V, nat)>;

    fn parse(&self, input: &Vec<char>, pos: usize) -> (r: Result<(Self::Output, usize), ParseError>)
        requires
            self.wf(),
            pos <= input@.len(),
        ensures
            match r {
                Ok((v, q)) => {
                    &&& pos <= q <= input@.len()
                    &&& self.spec_parse(input@, pos as int) == Some((v.deep_view(), (q - pos) as nat))
                },
                Err(_) => self.spec_parse(input@, pos as int) is None,
            },
    ;
}

/// Succeeds on exactly the character `c`.
pub struct Char {
    pub c: char,
}

impl Char {
    pub fn new(c: char) -> (r: Char)
        ensures
            r.c == c,
    {
        Char { c }
    }
}

impl Parser for Char {
    type Output = char;

    open spec fn wf(&self) -> bool {
        true
    }

    open spec fn spec_parse(&self, s: Seq<char>, pos: int) -> Option<(char, nat)> {
        if 0 <= pos < s.len() && s[pos] == self.c {
            Some((self.c, 1))
        } else {
            None
        }
    }

    fn parse(&self, input: &Vec<char>, pos: usize) -> (r: Result<(char, usize), ParseError>) {
        if pos < input.len() {
            let c = input[pos];
            if c == self.c {
                Ok((c, pos + 1))
            } else {
                Err(ParseError::at(input, pos, &mismatch(self.c, Some(c))))
            }
        } else {
            Err(ParseError::at(input, pos, &mismatch(self.c, None)))
        }
    }
}

proof fn lemma_deep_view_push<T: DeepView>(before: Vec<T>, after: Vec<T>, x: T)
    requires
        after@ == before@.push(x),
    ensures
        after.deep_view() == before.deep_view().push(x.deep_view()),
{
    assert(after.deep_view() =~= before.deep_view().push(x.deep_view()));
}

/// Zero or more repetitions of `p` from `pos`: the values and the characters
/// consumed. Repetition stops at the first failure of `p`, and also at a success
/// that consumes nothing, which could only repeat itself forever.
pub open spec fn spec_many<P: Parser>(p: P, s: Seq<char>, pos: int) -> (Seq<<P::Output as DeepView>::V>, nat)
    decreases s.len() - pos,
{
    match p.spec_parse(s, pos) {
        Some((v, n)) => if 0 < n && pos + n <= s.len() {
            let rest = spec_many(p, s, pos + n);
            (seq![v] + rest.0, n + rest.1)
        } else {
            (Seq::empty(), 0)
        },
        None => (Seq::empty(), 0),
    }
}

/// Applies `p` as often as it succeeds from `pos` on, in a loop.
fn repeat<P: Parser>(p: &P, input: &Vec<char>, pos: usize) -> (r: (Vec<P::Output>, usize))
    requires
        p.wf(),
        pos <= input@.len(),
    ensures
        pos <= r.1 <= input@.len(),
        spec_many(*p, input@, pos as int) == (r.0.deep_view(), (r.1 - pos) as nat),
{
    let mut acc: Vec<P::Output> = Vec::new();
    let mut cur = pos;
    proof {
        assert(acc.deep_view() =~= Seq::empty());
    }
    loop
        invariant
            p.wf(),
            pos <= cur <= input@.len(),
            spec_many(*p, input@, pos as int) == (
                acc.deep_view() + spec_many(*p, input@, cur as int).0,
                ((cur - pos) + spec_many(*p, input@, cur as int).1) as nat,
            ),
        decreases input@.len() - cur,
    {
        match p.parse(input, cur) {
            Ok((v, q)) => {
                if q == cur {
                    proof {
                        assert(acc.deep_view() + Seq::empty() =~= acc.deep_view());
                    }
                    return (acc, cur);
                }
                let ghost before = acc;
                let ghost vd = v.deep_view();
                let ghost rest = spec_many(*p, input@, q as int);
                acc.push(v);
                proof {
                    lemma_deep_view_push(before, acc, v);
                    assert(before.deep_view() + (seq![vd] + rest.0) =~= acc.deep_view() + rest.0);
                }
                cur = q;
            },
            Err(_) => {
                proof {
                    assert(acc.deep_view() + Seq::empty() =~= acc.deep_view());
                }
                return (acc, cur);
            },
        }
    }
}

/// Zero or more repetitions of `p`; always succeeds.
pub struct Many<P> {
    pub p: P,
}

impl<P: Parser> Many<P> {
    pub fn new(p: P) -> (r: Many<P>)
        ensures
            r.p == p,
    {
        Many { p }
    }
}

impl<P: Parser> Parser for Many<P> {
    type Output = Vec<P::Output>;

    open spec fn wf(&self) -> bool {
        self.p.wf()
    }

    open spec fn spec_parse(&self, s: Seq<char>, pos: int) -> Option<(Seq<<P::Output as DeepView>::V>, nat)> {
        Some(spec_many(self.p, s, pos))
    }

    fn parse(&self, input: &Vec<char>, pos: usize) -> (r: Result<(Vec<P::Output>, usize), ParseError>) {
        Ok(repeat(&self.p, input, pos))
    }
}

/// Zero or more repetitions of `p`, keeping none of the values; always succeeds.
pub struct SkipMany<P> {
    pub p: Many<P>,
}

impl<P: Parser> SkipMany<P> {
    pub fn new(p: P) -> (r: SkipMany<P>)
        ensures
            r.p.p == p,
    {
        SkipMany { p: Many::new(p) }
    }
}

impl<P: Parser> Parser for SkipMany<P> {
    type Output = ();

    open spec fn wf(&self) -> bool {
        self.p.wf()
    }

    open spec fn spec_parse(&self, s: Seq<char>, pos: int) -> Option<((), nat)> {
        Some(((), spec_many(self.p.p, s, pos).1))
    }

    fn parse(&self, input: &Vec<char>, pos: usize) -> (r: Result<((), usize), ParseError>) {
        let (_, q) = self.p.parse(input, pos)?;
        Ok(((), q))
    }
}

/// One or more repetitions of `p`.
pub struct Many1<P> {
    pub p: P,
}

impl<P: Parser> Many1<P> {
    pub fn new(p: P) -> (r: Many1<P>)
        ensures
            r.p == p,
    {
        Many1 { p }
    }
}

impl<P: Parser> Parser for Many1<P> {
    type Output = Vec<P::Output>;

    open spec fn wf(&self) -> bool {
        self.p.wf()
    }

    open spec fn spec_parse(&self, s: Seq<char>, pos: int) -> Option<(Seq<<P::Output as DeepView>::V>, nat)> {
        match self.p.spec_parse(s, pos) {
            Some((v, n)) => {
                let rest = spec_many(self.p, s, pos + n);
                Some((seq![v] + rest.0, n + rest.1))
            },
            None => None,
        }
    }

    fn parse(&self, input: &Vec<char>, pos: usize) -> (r: Result<(Vec<P::Output>, usize), ParseError>) {
        let (v, q) = self.p.parse(input, pos)?;
        let (rest, e) = repeat(&self.p, input, q);
        let ghost rest_view = rest.deep_view();
        let mut vs: Vec<P::Output> = Vec::new();
        vs.push(v);
        proof {
            assert(vs.deep_view() =~= seq![v.deep_view()]);
        }
        let mut rest = rest;
        vs.append(&mut rest);
        proof {
            assert(vs.deep_view() =~= seq![v.deep_view()] + rest_view);
        }
        Ok((vs, e))
    }
}

/// The first success of `ps[i..]` from `pos`, trying them in order.
pub open spec fn spec_choice<P: Parser>(ps: Seq<P>, i: int, s: Seq<char>, pos: int) -> Option<(<P::Output as DeepView>::V, nat)>
    decreases ps.len() - i,
{
    if i < 0 || i >= ps.len() {
        None
    } else {
        match ps[i].spec_parse(s, pos) {
            Some(r) => Some(r),
            None => spec_choice(ps, i + 1, s, pos),
        }
    }
}

/// Ordered choice: the first of `ps` that succeeds, each tried from the same
/// position.
pub struct Try<P> {
    pub ps: Vec<P>,
}

impl<P: Parser> Try<P> {
    pub fn new(ps: Vec<P>) -> (r: Try<P>)
        ensures
            r.ps@ == ps@,
    {
        Try { ps }
    }
}

impl<P: Parser> Parser for Try<P> {
    type Output = P::Output;

    open spec fn wf(&self) -> bool {
        forall|i: int| 0 <= i < self.ps@.len() ==> (#[trigger] self.ps@[i]).wf()
    }

    open spec fn spec_parse(&self, s: Seq<char>, pos: int) -> Option<(<P::Output as DeepView>::V, nat)> {
        spec_choice(self.ps@, 0, s, pos)
    }

    fn parse(&self, input: &Vec<char>, pos: usize) -> (r: Result<(P::Output, usize), ParseError>) {
        let mut i: usize = 0;
        while i < self.ps.len()
            invariant
                self.wf(),
                pos <= input@.len(),
                i <= self.ps@.len(),
                spec_choice(self.ps@, 0, input@, pos as int) == spec_choice(self.ps@, i as int, input@, pos as int),
            decreases self.ps@.len() - i,
        {
            let r = self.ps[i].parse(input, pos);
            if r.is_ok() {
                return r;
            }
            i = i + 1;
        }
        Err(ParseError::at(input, pos, &chars_of("no alternative matched")))
    }
}

/// `p1`, whose value is dropped, then `p2`.
pub struct Then<P1, P2> {
    pub p1: P1,
    pub p2: P2,
}

impl<P1: Parser, P2: Parser> Then<P1, P2> {
    pub fn new(p1: P1, p2: P2) -> (r: Then<P1, P2>)
        ensures
            r.p1 == p1,
            r.p2 == p2,
    {
        Then { p1, p2 }
    }
}

impl<P1: Parser, P2: Parser> Parser for Then<P1, P2> {
    type Output = P2::Output;

    open spec fn wf(&self) -> bool {
        self.p1.wf() && self.p2.wf()
    }

    open spec fn spec_parse(&self, s: Seq<char>, pos: int) -> Option<(<P2::Output as DeepView>::V, nat)> {
        match self.p1.spec_parse(s, pos) {
            Some((_, n)) => match self.p2.spec_parse(s, pos + n) {
                Some((v, m)) => Some((v, n + m)),
                None => None,
            },
            None => None,
        }
    }

    fn parse(&self, input: &Vec<char>, pos: usize) -> (r: Result<(P2::Output, usize), ParseError>) {
        let (_, q) = self.p1.parse(input, pos)?;
        self.p2.parse(input, q)
    }
}

/// `left`, `mid` and `right` in sequence; the value is `mid`'s.
pub struct Between<L, M, R> {
    pub left_p: L,
    pub mid_p: M,
    pub right_p: R,
}

impl<L: Parser, M: Parser, R: Parser> Between<L, M, R> {
    pub fn new(left_p: L, mid_p: M, right_p: R) -> (r: Between<L, M, R>)
        ensures
            r.left_p == left_p,
            r.mid_p == mid_p,
            r.right_p == right_p,
    {
        Between { left_p, mid_p, right_p }
    }
}

impl<L: Parser, M: Parser, R: Parser> Parser for Between<L, M, R> {
    type Output = M::Output;

    open spec fn wf(&self) -> bool {
        self.left_p.wf() && self.mid_p.wf() && self.right_p.wf()
    }

    open spec fn spec_parse(&self, s: Seq<char>, pos: int) -> Option<(<M::Output as DeepView>::V, nat)> {
        match self.left_p.spec_parse(s, pos) {
            Some((_, a)) => match self.mid_p.spec_parse(s, pos + a) {
                Some((v, b)) => match self.right_p.spec_parse(s, pos + a + b) {
                    Some((_, c)) => Some((v, a + b + c)),
                    None => None,
                },
                None => None,
            },
            None => None,
        }
    }

    fn parse(&self, input: &Vec<char>, pos: usize) -> (r: Result<(M::Output, usize), ParseError>) {
        let (_, q) = self.left_p.parse(input, pos)?;
        let (v, q) = self.mid_p.parse(input, q)?;
        let (_, q) = self.right_p.parse(input, q)?;
        Ok((v, q))
    }
}

/// Succeeds, consuming nothing, exactly at the end of the input.
pub struct Eof {}

impl Eof {
    pub fn new() -> (r: Eof)
        ensures
            forall|s: Seq<char>, pos: int| #[trigger] r.spec_parse(s, pos) == if pos >= s.len() { Some(((), 0nat)) } else { None },
    {
        Eof {  }
    }
}

impl Parser for Eof {
    type Output = ();

    open spec fn wf(&self) -> bool {
        true
    }

    open spec fn spec_parse(&self, s: Seq<char>, pos: int) -> Option<((), nat)> {
        if pos >= s.len() {
            Some(((), 0))
        } else {
            None
        }
    }

    fn parse(&self, input: &Vec<char>, pos: usize) -> (r: Result<((), usize), ParseError>) {
        if pos >= input.len() {
            Ok(((), pos))
        } else {
            let mut msg = chars_of("expected EOF but got ");
            msg.push(input[pos]);
            Err(ParseError::at(input, pos, &msg))
        }
    }
}

/// One or more `p` separated by `sep`: after each item, a separator followed by
/// another item. A separator that fails ends the list; an item that fails after a
/// separator fails the whole list. A separator round that would leave the
/// position where it was also ends the list.
pub open spec fn spec_sep_by<P: Parser, S: Parser>(p: P, sep: S, s: Seq<char>, pos: int) -> Option<(Seq<<P::Output as DeepView>::V>, nat)>
    decreases s.len() - pos,
{
    match p.spec_parse(s, pos) {
        None => None,
        Some((v, n)) => match sep.spec_parse(s, pos + n) {
            Some((_, m)) => if 0 < n + m && pos + n + m <= s.len() {
                match spec_sep_by(p, sep, s, pos + n + m) {
                    Some((vs, k)) => Some((seq![v] + vs, n + m + k)),
                    None => None,
                }
            } else {
                Some((seq![v], n))
            },
            None => Some((seq![v], n)),
        },
    }
}

/// A list of one or more `p` separated by `sep`.
pub struct SepBy<P, S> {
    pub p: P,
    pub sep: S,
}

impl<P: Parser, S: Parser> SepBy<P, S> {
    pub fn new(p: P, sep: S) -> (r: SepBy<P, S>)
        ensures
            r.p == p,
            r.sep == sep,
    {
        SepBy { p, sep }
    }
}

impl<P: Parser, S: Parser> Parser for SepBy<P, S> {
    type Output = Vec<P::Output>;

    open spec fn wf(&self) -> bool {
        self.p.wf() && self.sep.wf()
    }

    open spec fn spec_parse(&self, s: Seq<char>, pos: int) -> Option<(Seq<<P::Output as DeepView>::V>, nat)> {
        spec_sep_by(self.p, self.sep, s, pos)
    }

    fn parse(&self, input: &Vec<char>, pos: usize) -> (r: Result<(Vec<P::Output>, usize), ParseError>) {
        let mut acc: Vec<P::Output> = Vec::new();
        let mut cur = pos;
        proof {
            assert(acc.deep_view() =~= Seq::empty());
            assert forall|vs: Seq<<P::Output as DeepView>::V>| acc.deep_view() + vs == vs by {
                assert(acc.deep_view() + vs =~= vs);
            }
        }
        loop
            invariant
                self.wf(),
                pos <= cur <= input@.len(),
                spec_sep_by(self.p, self.sep, input@, pos as int) == match spec_sep_by(self.p, self.sep, input@, cur as int) {
                    Some((vs, k)) => Some((acc.deep_view() + vs, ((cur - pos) + k) as nat)),
                    None => None,
                },
            decreases input@.len() - cur,
        {
            let (v, q) = self.p.parse(input, cur)?;
            let ghost before = acc;
            let ghost vd = v.deep_view();
            acc.push(v);
            proof {
                lemma_deep_view_push(before, acc, v);
            }
            match self.sep.parse(input, q) {
                Ok((_, q2)) => {
                    if q2 == cur {
                        return Ok((acc, q));
                    }
                    proof {
                        assert forall|vs: Seq<<P::Output as DeepView>::V>| before.deep_view() + (seq![vd] + vs) == acc.deep_view() + vs by {
                            assert(before.deep_view() + (seq![vd] + vs) =~= acc.deep_view() + vs);
                        }
                    }
                    cur = q2;
                },
                Err(_) => {
                    return Ok((acc, q));
                },
            }
        }
    }
}

/// Any one character of a set, tried in order as single-character literals.
pub struct OneOf {
    pub p: Try<Char>,
}

impl OneOf {
    /// Whether `c` is in the set.
    pub open spec fn has(&self, c: char) -> bool {
        exists|j: int| 0 <= j < self.p.ps@.len() && (#[trigger] self.p.ps@[j]).c == c
    }

    /// The set of the characters of `chars`.
    pub fn new(chars: &str) -> (r: OneOf)
        ensures
            forall|c: char| r.has(c) <==> chars@.contains(c),
    {
        let cs = chars_of(chars);
        let mut ps: Vec<Char> = Vec::new();
        let mut i: usize = 0;
        while i < cs.len()
            invariant
                i <= cs@.len(),
                cs@ == chars@,
                ps@.len() == i,
                forall|j: int| 0 <= j < i ==> (#[trigger] ps@[j]).c == cs@[j],
            decreases cs@.len() - i,
        {
            ps.push(Char::new(cs[i]));
            i = i + 1;
        }
        let r = OneOf { p: Try::new(ps) };
        proof {
            assert forall|c: char| r.has(c) <==> chars@.contains(c) by {
                if chars@.contains(c) {
                    let j = choose|j: int| 0 <= j < chars@.len() && chars@[j] == c;
                    assert(r.p.ps@[j].c == c);
                }
            }
        }
        r
    }

    /// The set of the ASCII characters from `first` to `last`.
    pub fn range(first: u8, last: u8) -> (r: OneOf)
        ensures
            forall|c: char| r.has(c) <==> first as int <= c as int <= last as int,
    {
        let mut ps: Vec<Char> = Vec::new();
        let mut x: u16 = first as u16;
        while x <= last as u16
            invariant
                first as u16 <= x <= 256,
                x == first as u16 || x <= last as u16 + 1,
                ps@.len() == x - first,
                forall|j: int| 0 <= j < ps@.len() ==> (#[trigger] ps@[j]).c as int == first as int + j,
            decreases 256 - x,
        {
            ps.push(Char::new((x as u8) as char));
            x = x + 1;
        }
        let r = OneOf { p: Try::new(ps) };
        proof {
            assert forall|c: char| r.has(c) <==> first as int <= c as int <= last as int by {
                if first as int <= c as int <= last as int {
                    let j = c as int - first as int;
                    assert(r.p.ps@[j].c as int == c as int);
                }
            }
        }
        r
    }
}

/// A parser that takes a single character when it satisfies `pred`.
pub open spec fn single_class(pred: spec_fn(char) -> bool, s: Seq<char>, pos: int) -> Option<(char, nat)> {
    if 0 <= pos < s.len() && pred(s[pos]) {
        Some((s[pos], 1))
    } else {
        None
    }
}

/// How many characters satisfying `pred` follow `pos`.
pub open spec fn class_run(pred: spec_fn(char) -> bool, s: Seq<char>, pos: int) -> nat
    decreases s.len() - pos,
{
    if 0 <= pos < s.len() && pred(s[pos]) {
        1 + class_run(pred, s, pos + 1)
    } else {
        0
    }
}

proof fn lemma_choice_chars(ps: Seq<Char>, i: int, s: Seq<char>, pos: int)
    requires
        0 <= i,
    ensures
        spec_choice(ps, i, s, pos) == if 0 <= pos < s.len() && exists|j: int| i <= j < ps.len() && (#[trigger] ps[j]).c == s[pos] {
            Some((s[pos], 1nat))
        } else {
            None
        },
    decreases ps.len() - i,
{
    if i < ps.len() {
        lemma_choice_chars(ps, i + 1, s, pos);
        if 0 <= pos < s.len() && exists|j: int| i <= j < ps.len() && (#[trigger] ps[j]).c == s[pos] {
            let j = choose|j: int| i <= j < ps.len() && (#[trigger] ps[j]).c == s[pos];
            if j != i {
                assert(i + 1 <= j < ps.len() && ps[j].c == s[pos]);
            }
        }
    }
}

/// Repeating a single-character parser of the class `pred` takes the longest run
/// of that class.
pub proof fn lemma_many_class<P: Parser<Output = char>>(p: P, pred: spec_fn(char) -> bool, s: Seq<char>, pos: int)
    requires
        0 <= pos <= s.len(),
        forall|t: Seq<char>, i: int| #[trigger] p.spec_parse(t, i) == single_class(pred, t, i),
    ensures
        pos + class_run(pred, s, pos) <= s.len(),
        forall|j: int| pos <= j < pos + class_run(pred, s, pos) ==> pred(#[trigger] s[j]),
        spec_many(p, s, pos) == (s.subrange(pos, pos + class_run(pred, s, pos)), class_run(pred, s, pos)),
    decreases s.len() - pos,
{
    assert(p.spec_parse(s, pos) == single_class(pred, s, pos));
    if 0 <= pos < s.len() && pred(s[pos]) {
        lemma_many_class(p, pred, s, pos + 1);
        let k = class_run(pred, s, pos + 1);
        assert(seq![s[pos]] + s.subrange(pos + 1, pos + 1 + k) =~= s.subrange(pos, pos + 1 + k));
    } else {
        assert(s.subrange(pos, pos) =~= Seq::<char>::empty());
    }
}

impl Parser for OneOf {
    type Output = char;

    open spec fn wf(&self) -> bool {
        true
    }

    open spec fn spec_parse(&self, s: Seq<char>, pos: int) -> Option<(char, nat)> {
        single_class(|c: char| self.has(c), s, pos)
    }

    fn parse(&self, input: &Vec<char>, pos: usize) -> (r: Result<(char, usize), ParseError>) {
        proof {
            lemma_choice_chars(self.p.ps@, 0, input@, pos as int);
        }
        self.p.parse(input, pos)
    }
}

pub open spec fn is_lower(c: char) -> bool {
    'a' <= c <= 'z'
}

pub open spec fn is_upper(c: char) -> bool {
    'A' <= c <= 'Z'
}

pub open spec fn is_digit(c: char) -> bool {
    '0' <= c <= '9'
}

pub open spec fn is_space(c: char) -> bool {
    c == ' ' || c == '\t' || c == '\n' || c == '\r'
}

/// A lowercase ASCII letter.
pub struct Lower {}

impl Lower {
    pub fn new() -> (r: Lower)
        ensures
            forall|s: Seq<char>, pos: int| #[trigger] r.spec_parse(s, pos) == single_class(|c: char| is_lower(c), s, pos),
    {
        Lower {  }
    }
}

impl Parser for Lower {
    type Output = char;

    open spec fn wf(&self) -> bool {
        true
    }

    open spec fn spec_parse(&self, s: Seq<char>, pos: int) -> Option<(char, nat)> {
        single_class(|c: char| is_lower(c), s, pos)
    }

    fn parse(&self, input: &Vec<char>, pos: usize) -> (r: Result<(char, usize), ParseError>) {
        let class = OneOf::range(0x61, 0x7a);
        proof {
            assert((|c: char| class.has(c)) =~= (|c: char| is_lower(c)));
        }
        class.parse(input, pos)
    }
}

/// An uppercase ASCII letter.
pub struct Upper {}

impl Upper {
    pub fn new() -> (r: Upper)
        ensures
            forall|s: Seq<char>, pos: int| #[trigger] r.spec_parse(s, pos) == single_class(|c: char| is_upper(c), s, pos),
    {
        Upper {  }
    }
}

impl Parser for Upper {
    type Output = char;

    open spec fn wf(&self) -> bool {
        true
    }

    open spec fn spec_parse(&self, s: Seq<char>, pos: int) -> Option<(char, nat)> {
        single_class(|c: char| is_upper(c), s, pos)
    }

    fn parse(&self, input: &Vec<char>, pos: usize) -> (r: Result<(char, usize), ParseError>) {
        let class = OneOf::range(0x41, 0x5a);
        proof {
            assert((|c: char| class.has(c)) =~= (|c: char| is_upper(c)));
        }
        class.parse(input, pos)
    }
}

/// An ASCII letter of either case: an uppercase one, else a lowercase one.
pub struct Letter {}

impl Letter {
    pub fn new() -> (r: Letter)
        ensures
            forall|s: Seq<char>, pos: int| #[trigger] r.spec_parse(s, pos) == single_class(|c: char| is_upper(c) || is_lower(c), s, pos),
    {
        Letter {  }
    }
}

impl Parser for Letter {
    type Output = char;

    open spec fn wf(&self) -> bool {
        true
    }

    open spec fn spec_parse(&self, s: Seq<char>, pos: int) -> Option<(char, nat)> {
        single_class(|c: char| is_upper(c) || is_lower(c), s, pos)
    }

    fn parse(&self, input: &Vec<char>, pos: usize) -> (r: Result<(char, usize), ParseError>) {
        match Upper::new().parse(input, pos) {
            Ok(r) => Ok(r),
            Err(_) => Lower::new().parse(input, pos),
        }
    }
}

/// A whitespace character: space, tab, line feed or carriage return.
pub struct Space {}

impl Space {
    pub fn new() -> (r: Space)
        ensures
            forall|s: Seq<char>, pos: int| #[trigger] r.spec_parse(s, pos) == single_class(|c: char| is_space(c), s, pos),
    {
        Space {  }
    }
}

impl Parser for Space {
    type Output = char;

    open spec fn wf(&self) -> bool {
        true
    }

    open spec fn spec_parse(&self, s: Seq<char>, pos: int) -> Option<(char, nat)> {
        single_class(|c: char| is_space(c), s, pos)
    }

    fn parse(&self, input: &Vec<char>, pos: usize) -> (r: Result<(char, usize), ParseError>) {
        let class = OneOf::new(" \t\n\r");
        proof {
            reveal_strlit(" \t\n\r");
            assert forall|c: char| class.has(c) <==> is_space(c) by {
                if is_space(c) {
                    if c == ' ' {
                        assert(" \t\n\r"@[0] == c);
                    } else if c == '\t' {
                        assert(" \t\n\r"@[1] == c);
                    } else if c == '\n' {
                        assert(" \t\n\r"@[2] == c);
                    } else {
                        assert(" \t\n\r"@[3] == c);
                    }
                }
            }
            assert((|c: char| class.has(c)) =~= (|c: char| is_space(c)));
        }
        class.parse(input, pos)
    }
}

/// How many whitespace characters follow `pos`.
pub open spec fn spaces_len(s: Seq<char>, pos: int) -> nat {
    class_run(|c: char| is_space(c), s, pos)
}

/// Skips any whitespace; always succeeds.
pub struct Spaces {}

impl Spaces {
    pub fn new() -> (r: Spaces)
        ensures
            forall|s: Seq<char>, pos: int| #[trigger] r.spec_parse(s, pos) == Some(((), spaces_len(s, pos))),
    {
        Spaces {  }
    }
}

impl Parser for Spaces {
    type Output = ();

    open spec fn wf(&self) -> bool {
        true
    }

    open spec fn spec_parse(&self, s: Seq<char>, pos: int) -> Option<((), nat)> {
        Some(((), spaces_len(s, pos)))
    }

    fn parse(&self, input: &Vec<char>, pos: usize) -> (r: Result<((), usize), ParseError>) {
        let skip = SkipMany::new(Space::new());
        proof {
            lemma_many_class(skip.p.p, |c: char| is_space(c), input@, pos as int);
        }
        skip.parse(input, pos)
    }
}

/// The number written in decimal by the digits `ds`.
pub open spec fn digits_value(ds: Seq<char>) -> int
    decreases ds.len(),
{
    if ds.len() == 0 {
        0
    } else {
        digits_value(ds.drop_last()) * 10 + (ds.last() as int - '0' as int)
    }
}

/// A number: the longest run of decimal digits from `pos`, at least one, whose
/// value fits in an `i32`.
pub open spec fn spec_number(s: Seq<char>, pos: int) -> Option<(i32, nat)> {
    let n = class_run(|c: char| is_digit(c), s, pos);
    if n == 0 {
        None
    } else if digits_value(s.subrange(pos, pos + n)) <= i32::MAX {
        Some((digits_value(s.subrange(pos, pos + n)) as i32, n))
    } else {
        None
    }
}

proof fn lemma_digits_value_prefix(ds: Seq<char>, i: int)
    requires
        0 <= i <= ds.len(),
        forall|j: int| 0 <= j < ds.len() ==> is_digit(#[trigger] ds[j]),
    ensures
        0 <= digits_value(ds.subrange(0, i)) <= digits_value(ds),
    decreases ds.len(),
{
    if i == ds.len() {
        assert(ds.subrange(0, i) =~= ds);
        if ds.len() > 0 {
            lemma_digits_value_prefix(ds.drop_last(), i - 1);
            assert(ds.drop_last().subrange(0, i - 1) =~= ds.drop_last());
        }
    } else {
        lemma_digits_value_prefix(ds.drop_last(), i);
        assert(ds.drop_last().subrange(0, i) =~= ds.subrange(0, i));
        lemma_digits_value_prefix(ds.drop_last(), ds.len() - 1);
        assert(ds.drop_last().subrange(0, ds.len() - 1) =~= ds.drop_last());
    }
}

/// A non-negative decimal number that fits in an `i32`; a longer number fails.
pub struct Digit {}

impl Digit {
    pub fn new() -> (r: Digit)
        ensures
            forall|s: Seq<char>, pos: int| #[trigger] r.spec_parse(s, pos) == spec_number(s, pos),
    {
        Digit {  }
    }
}

impl Parser for Digit {
    type Output = i32;

    open spec fn wf(&self) -> bool {
        true
    }

    open spec fn spec_parse(&self, s: Seq<char>, pos: int) -> Option<(i32, nat)> {
        spec_number(s, pos)
    }

    fn parse(&self, input: &Vec<char>, pos: usize) -> (r: Result<(i32, usize), ParseError>) {
        let digits = Many1::new(OneOf::range(0x30, 0x39));
        let ghost pred = |c: char| is_digit(c);
        let ghost s = input@;
        proof {
            assert((|c: char| digits.p.has(c)) =~= pred);
            lemma_many_class(digits.p, pred, s, pos as int);
            if pos < s.len() && is_digit(s[pos as int]) {
                lemma_many_class(digits.p, pred, s, pos + 1);
                let k = class_run(pred, s, pos + 1);
                assert(seq![s[pos as int]] + s.subrange(pos + 1, pos + 1 + k) =~= s.subrange(pos as int, pos + 1 + k));
            }
        }
        let (ds, q) = digits.parse(input, pos)?;
        proof {
            assert(ds.deep_view() =~= ds@);
            assert forall|j: int| 0 <= j < ds@.len() implies is_digit(#[trigger] ds@[j]) by {
                assert(ds@[j] == s[pos + j]);
            }
        }
        let mut value: i64 = 0;
        let mut i: usize = 0;
        while i < ds.len()
            invariant
                s == input@,
                pos <= q <= s.len(),
                q - pos == class_run(pred, s, pos as int),
                pred == (|c: char| is_digit(c)),
                i <= ds@.len(),
                ds@ == s.subrange(pos as int, q as int),
                forall|j: int| 0 <= j < ds@.len() ==> is_digit(#[trigger] ds@[j]),
                value == digits_value(ds@.subrange(0, i as int)),
                0 <= value <= i32::MAX,
            decreases ds@.len() - i,
        {
            let d = ds[i] as u32 - '0' as u32;
            let next = value * 10 + d as i64;
            proof {
                assert(ds@.subrange(0, i + 1).drop_last() =~= ds@.subrange(0, i as int));
                lemma_digits_value_prefix(ds@, i + 1);
            }
            if next > i32::MAX as i64 {
                proof {
                    assert(ds@.subrange(0, ds@.len() as int) =~= ds@);
                }
                return Err(ParseError::at(input, pos, &chars_of("number does not fit in 32 bits")));
            }
            value = next;
            i = i + 1;
        }
        proof {
            assert(ds@.subrange(0, ds@.len() as int) =~= ds@);
        }
        Ok((value as i32, q))
    }
}

} // verus!
