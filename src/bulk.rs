//! Converting every link found in a piece of text.
use vstd::prelude::*;
use crate::error::{outcome_view, Error, ErrorView, Outcome};
use crate::live::{settle, LiveRequest, LiveResponse};
use crate::patterns::strs_view;
use crate::source_url::{parsed_url, SourceUrl};
use crate::text::{chars_of, occurs_at, occurs_in};
use crate::{dispatch, Converter, Resolution, Step, Strategy};

verus! {

/// Whether `c` has the Unicode `White_Space` property: tab, line feed,
/// vertical tab, form feed, carriage return, space, next line, no-break
/// space, ogham space mark, the spaces U+2000 to U+200A, line and paragraph
/// separators, narrow no-break space, medium mathematical space and
/// ideographic space.
pub open spec fn white_space(c: char) -> bool {
    ('\u{9}' <= c && c <= '\u{d}') || c == ' ' || c == '\u{85}' || c == '\u{a0}' || c == '\u{1680}'
        || ('\u{2000}' <= c && c <= '\u{200a}') || c == '\u{2028}' || c == '\u{2029}' || c
        == '\u{202f}' || c == '\u{205f}' || c == '\u{3000}'
}

/// Tests the Unicode `White_Space` property, as `char::is_whitespace` does.
fn is_white_space(c: char) -> (r: bool)
    ensures
        r == white_space(c),
{
    ('\u{9}' <= c && c <= '\u{d}') || c == ' ' || c == '\u{85}' || c == '\u{a0}' || c == '\u{1680}'
        || ('\u{2000}' <= c && c <= '\u{200a}') || c == '\u{2028}' || c == '\u{2029}' || c
        == '\u{202f}' || c == '\u{205f}' || c == '\u{3000}'
}

/// The length of the `https://` or `http://` that starts at `p`, else 0.
pub open spec fn scheme_len(t: Seq<char>, p: int) -> int {
    if occurs_at(t, "https://"@, p) {
        "https://"@.len() as int
    } else if occurs_at(t, "http://"@, p) {
        "http://"@.len() as int
    } else {
        0
    }
}

/// The end of the run of non-white-space characters that starts at `from`.
pub open spec fn nonspace_end(t: Seq<char>, from: int) -> int
    decreases t.len() - from,
{
    if from < 0 || from >= t.len() || white_space(t[from]) {
        from
    } else {
        nonspace_end(t, from + 1)
    }
}

/// Whether a link starts at `p`: a scheme, then at least one character that
/// is not white space.
pub open spec fn token_at(t: Seq<char>, p: int) -> bool {
    scheme_len(t, p) > 0 && p + scheme_len(t, p) < t.len() && !white_space(t[p + scheme_len(t, p)])
}

/// Where the link that starts at `p` ends: at the next white space.
pub open spec fn token_end(t: Seq<char>, p: int) -> int {
    nonspace_end(t, p + scheme_len(t, p))
}

pub proof fn lemma_nonspace_end(t: Seq<char>, from: int)
    requires
        0 <= from <= t.len(),
    ensures
        from <= nonspace_end(t, from) <= t.len(),
    decreases t.len() - from,
{
    if from < t.len() && !white_space(t[from]) {
        lemma_nonspace_end(t, from + 1);
    }
}

/// The links in `t` from `p` on, scanning left to right: each is the
/// longest run of non-white-space characters after a scheme, and the scan
/// goes on after it.
pub open spec fn url_tokens_from(t: Seq<char>, p: int) -> Seq<Seq<char>>
    decreases t.len() - p,
{
    if p < 0 || p >= t.len() {
        seq![]
    } else if token_at(t, p) {
        proof {
            lemma_nonspace_end(t, p + scheme_len(t, p) + 1);
        }
        seq![t.subrange(p, token_end(t, p))] + url_tokens_from(t, token_end(t, p))
    } else {
        url_tokens_from(t, p + 1)
    }
}

/// The links in `t`, in order.
pub open spec fn url_tokens(t: Seq<char>) -> Seq<Seq<char>> {
    url_tokens_from(t, 0)
}

fn nonspace_end_exec(x: &Vec<char>, from: usize) -> (r: usize)
    requires
        from <= x@.len(),
    ensures
        r == nonspace_end(x@, from as int),
        from <= r <= x@.len(),
{
    let mut i = from;
    while i < x.len() && !is_white_space(x[i])
        invariant
            from <= i <= x@.len(),
            nonspace_end(x@, from as int) == nonspace_end(x@, i as int),
        decreases x@.len() - i,
    {
        i = i + 1;
    }
    i
}

/// The links in `text`, in order of appearance.
pub fn find_urls<'a>(text: &'a str) -> (r: Vec<&'a str>)
    ensures
        strs_view(r@) == url_tokens(text@),
{
    let x = chars_of(text);
    let n = x.len();
    let https = chars_of("https://");
    let http = chars_of("http://");
    let mut acc: Vec<&'a str> = Vec::new();
    let mut p: usize = 0;
    while p < n
        invariant
            x@ == text@,
            n == x@.len(),
            https@ == "https://"@,
            http@ == "http://"@,
            p <= n,
            url_tokens(text@) == strs_view(acc@) + url_tokens_from(x@, p as int),
        decreases n - p,
    {
        let k: usize = if occurs_in(&x, &https, p) {
            https.len()
        } else if occurs_in(&x, &http, p) {
            http.len()
        } else {
            0
        };
        assert(k == scheme_len(x@, p as int));
        if k > 0 && p + k < n && !is_white_space(x[p + k]) {
            let end = nonspace_end_exec(&x, p + k);
            let ghost prev = acc@;
            acc.push(text.substring_char(p, end));
            assert(strs_view(acc@) =~= strs_view(prev) + seq![x@.subrange(p as int, end as int)]);
            assert(strs_view(acc@) + url_tokens_from(x@, end as int) =~= strs_view(prev) + (seq![
                x@.subrange(p as int, end as int),
            ] + url_tokens_from(x@, end as int)));
            p = end;
        } else {
            p = p + 1;
        }
    }
    assert(strs_view(acc@) + url_tokens_from(x@, p as int) =~= strs_view(acc@));
    acc
}

} // verus!

verus! {

/// The outcome of converting the links of a text.
#[derive(Debug)]
pub struct ConversionResult {
    /// The canonical links, in the order their sources appear in the text.
    pub successes: Vec<String>,
    /// Each link that failed, as it appears in the text, with its error.
    pub errors: Vec<(String, Error)>,
}

/// The mathematical value of a [`ConversionResult`].
pub struct BulkView {
    pub successes: Seq<Seq<char>>,
    pub errors: Seq<(Seq<char>, ErrorView)>,
}

pub open spec fn error_pair_view(p: (String, Error)) -> (Seq<char>, ErrorView) {
    (p.0@, p.1@)
}

impl View for ConversionResult {
    type V = BulkView;

    open spec fn view(&self) -> BulkView {
        BulkView {
            successes: self.successes@.map_values(|s: String| s@),
            errors: self.errors@.map_values(|p: (String, Error)| error_pair_view(p)),
        }
    }
}

pub open spec fn empty_result() -> BulkView {
    BulkView { successes: seq![], errors: seq![] }
}

/// `r` with the outcome `o` for the link `token` appended.
pub open spec fn record(r: BulkView, token: Seq<char>, o: Outcome) -> BulkView {
    match o {
        Ok(s) => BulkView { successes: r.successes.push(s), errors: r.errors },
        Err(e) => BulkView { successes: r.successes, errors: r.errors.push((token, e)) },
    }
}

/// What converting the link text `token` with `reg` does: text that is no
/// URL fails on its own; a URL goes to the first strategy that claims it.
pub open spec fn token_step(reg: Seq<Strategy>, token: Seq<char>) -> Step {
    match parsed_url(token) {
        Some(u) => dispatch(reg, u),
        None => Step::Done(Err(ErrorView::InvalidUrl(token))),
    }
}

/// Converts the links `toks` from `i` on into `acc`, up to the first one
/// that needs a live lookup: the index where it stopped, and the result.
pub open spec fn advance(reg: Seq<Strategy>, toks: Seq<Seq<char>>, i: int, acc: BulkView) -> (
    int,
    BulkView,
)
    decreases toks.len() - i,
{
    if i < 0 || i >= toks.len() {
        (i, acc)
    } else {
        match token_step(reg, toks[i]) {
            Step::Done(o) => advance(reg, toks, i + 1, record(acc, toks[i], o)),
            Step::Live(_, _) => (i, acc),
        }
    }
}

/// The scan only moves forward, and stops within the links.
pub proof fn lemma_advance_moves_on(reg: Seq<Strategy>, toks: Seq<Seq<char>>, i: int, acc: BulkView)
    requires
        0 <= i <= toks.len(),
    ensures
        i <= advance(reg, toks, i, acc).0 <= toks.len(),
    decreases toks.len() - i,
{
    if i < toks.len() {
        if let Step::Done(o) = token_step(reg, toks[i]) {
            lemma_advance_moves_on(reg, toks, i + 1, record(acc, toks[i], o));
        }
    }
}

/// The outcome of the link `token`, where a live lookup it needs is
/// answered by `resp`.
pub open spec fn answered_outcome(reg: Seq<Strategy>, token: Seq<char>, resp: LiveResponse) -> Outcome {
    match token_step(reg, token) {
        Step::Done(o) => o,
        Step::Live(kind, url) => settle(kind, url, resp),
    }
}

/// The result of a scan of the links `toks` from `i` on into `acc`, where
/// the live lookup of link `j`, if it needs one, is answered by `resps[j]`.
pub open spec fn drive(
    reg: Seq<Strategy>,
    toks: Seq<Seq<char>>,
    resps: Seq<LiveResponse>,
    i: int,
    acc: BulkView,
) -> BulkView
    decreases toks.len() - i,
{
    if i < 0 || i >= toks.len() {
        acc
    } else {
        drive(reg, toks, resps, i + 1, record(acc, toks[i], answered_outcome(reg, toks[i], resps[i])))
    }
}

/// Settling the links that need no lookup keeps the scan on its course.
pub proof fn lemma_advance_follows_drive(
    reg: Seq<Strategy>,
    toks: Seq<Seq<char>>,
    resps: Seq<LiveResponse>,
    i: int,
    acc: BulkView,
)
    requires
        0 <= i <= toks.len(),
    ensures
        drive(reg, toks, resps, i, acc) == drive(
            reg,
            toks,
            resps,
            advance(reg, toks, i, acc).0,
            advance(reg, toks, i, acc).1,
        ),
    decreases toks.len() - i,
{
    if i < toks.len() {
        if let Step::Done(o) = token_step(reg, toks[i]) {
            lemma_advance_follows_drive(reg, toks, resps, i + 1, record(acc, toks[i], o));
        }
    }
}

impl ConversionResult {
    pub fn new() -> (r: ConversionResult)
        ensures
            r@ == empty_result(),
    {
        let r = ConversionResult { successes: Vec::new(), errors: Vec::new() };
        assert(r@.successes =~= seq![]);
        assert(r@.errors =~= seq![]);
        r
    }

    /// Appends the outcome `o` of converting the link `token`.
    pub fn record(&mut self, token: String, o: Result<String, Error>)
        ensures
            final(self)@ == record(old(self)@, token@, outcome_view(o)),
    {
        match o {
            Ok(s) => {
                self.successes.push(s);
                assert(self@.successes =~= old(self)@.successes.push(outcome_view(o)->Ok_0));
            },
            Err(e) => {
                self.errors.push((token, e));
                assert(self@.errors =~= old(self)@.errors.push((token@, outcome_view(o)->Err_0)));
            },
        }
    }
}

/// A scan of the links of a text, converting them in order. It pauses at
/// each link that needs a live lookup, until the answer is handed in.
pub struct BulkScan<'a> {
    converter: &'a Converter,
    tokens: Vec<String>,
    next: usize,
    pending: Option<LiveRequest>,
    result: ConversionResult,
}

impl<'a> BulkScan<'a> {
    /// The strategies the scan converts with.
    pub closed spec fn registry(&self) -> Seq<Strategy> {
        self.converter@
    }

    /// The links found in the text.
    pub closed spec fn tokens(&self) -> Seq<Seq<char>> {
        self.tokens@.map_values(|s: String| s@)
    }

    /// How many links are settled.
    pub closed spec fn settled(&self) -> int {
        self.next as int
    }

    /// The outcomes of the settled links.
    pub closed spec fn partial(&self) -> BulkView {
        self.result@
    }

    /// The live lookup the scan waits on, if any.
    pub closed spec fn waiting(&self) -> Option<LiveRequest> {
        self.pending
    }

    /// The scan has settled its first links and waits exactly where the next
    /// one needs a live lookup.
    pub open spec fn wf(&self) -> bool {
        &&& 0 <= self.settled() <= self.tokens().len()
        &&& (self.settled() < self.tokens().len() <==> self.waiting() is Some)
        &&& self.waiting() matches Some(q) ==> token_step(
            self.registry(),
            self.tokens()[self.settled()],
        ) == Step::Live(q.kind, q.url@)
    }

    /// Settles links from `self.next` on, up to the first that needs a
    /// live lookup.
    fn run(&mut self)
        requires
            old(self).waiting() is None,
            old(self).settled() <= old(self).tokens().len(),
        ensures
            final(self).wf(),
            final(self).registry() == old(self).registry(),
            final(self).tokens() == old(self).tokens(),
            (final(self).settled(), final(self).partial()) == advance(
                old(self).registry(),
                old(self).tokens(),
                old(self).settled(),
                old(self).partial(),
            ),
    {
        let ghost reg = old(self).registry();
        let ghost toks = old(self).tokens();
        let ghost goal = advance(reg, toks, old(self).next as int, old(self).result@);
        while self.pending.is_none() && self.next < self.tokens.len()
            invariant
                self.registry() == reg,
                self.tokens() == toks,
                self.next <= toks.len(),
                self.tokens@.len() == toks.len(),
                self.waiting() is None ==> goal == advance(reg, toks, self.next as int, self.result@),
                self.waiting() matches Some(q) ==> {
                    &&& goal == (self.next as int, self.result@)
                    &&& self.next < toks.len()
                    &&& token_step(reg, toks[self.next as int]) == Step::Live(q.kind, q.url@)
                },
            decreases toks.len() - self.next, if self.waiting() is None { 1int } else { 0int },
        {
            let token = &self.tokens[self.next as usize];
            assert(token@ == toks[self.next as int]);
            match SourceUrl::parse(token.as_str()) {
                None => {
                    let e = Error::InvalidUrl { input: token.clone() };
                    let t = token.clone();
                    self.result.record(t, Err(e));
                    self.next = self.next + 1;
                },
                Some(u) => match self.converter.convert_one(&u) {
                    Resolution::Done(o) => {
                        let t = token.clone();
                        self.result.record(t, o);
                        self.next = self.next + 1;
                    },
                    Resolution::Live(q) => {
                        self.pending = Some(q);
                    },
                },
            }
        }
    }

    /// The lookup the scan waits on, if any.
    pub fn pending(&self) -> (r: Option<&LiveRequest>)
        ensures
            match r {
                Some(q) => self.waiting() == Some(*q),
                None => self.waiting() is None,
            },
    {
        self.pending.as_ref()
    }

    /// Hands in the answer to the lookup the scan waits on, and goes on to
    /// the next link that needs one.
    pub fn resume(&mut self, resp: LiveResponse)
        requires
            old(self).wf(),
            old(self).waiting() is Some,
        ensures
            final(self).wf(),
            final(self).registry() == old(self).registry(),
            final(self).tokens() == old(self).tokens(),
            final(self).settled() > old(self).settled(),
            (final(self).settled(), final(self).partial()) == advance(
                old(self).registry(),
                old(self).tokens(),
                old(self).settled() + 1,
                record(
                    old(self).partial(),
                    old(self).tokens()[old(self).settled()],
                    settle(old(self).waiting()->Some_0.kind, old(self).waiting()->Some_0.url@, resp),
                ),
            ),
    {
        assert(self.tokens@.map_values(|s: String| s@).len() == self.tokens@.len());
        assert(self.next < self.tokens.len());
        let q = self.pending.take().unwrap();
        assert(self.next < self.tokens.len());
        let o = q.complete(resp);
        let t = self.tokens[self.next].clone();
        self.result.record(t, o);
        self.next = self.next + 1;
        proof {
            lemma_advance_moves_on(self.registry(), self.tokens(), self.next as int, self.result@);
        }
        self.run();
    }

    /// The result, once every link is settled.
    pub fn finish(self) -> (r: ConversionResult)
        requires
            self.wf(),
            self.waiting() is None,
        ensures
            r@ == self.partial(),
            self.settled() == self.tokens().len(),
    {
        self.result
    }
}

impl Converter {
    /// Starts converting every link in `text`, in order of appearance, and
    /// runs up to the first link that needs a live lookup.
    pub fn convert_bulk<'a>(&'a self, text: &str) -> (r: BulkScan<'a>)
        ensures
            r.wf(),
            r.registry() == self@,
            r.tokens() == url_tokens(text@),
            (r.settled(), r.partial()) == advance(self@, url_tokens(text@), 0, empty_result()),
    {
        let found = find_urls(text);
        let mut tokens: Vec<String> = Vec::new();
        let mut i: usize = 0;
        while i < found.len()
            invariant
                i <= found@.len(),
                tokens@.map_values(|s: String| s@) == strs_view(found@).subrange(0, i as int),
            decreases found@.len() - i,
        {
            let ghost prev = tokens@;
            tokens.push(found[i].to_string());
            assert(tokens@.map_values(|s: String| s@) =~= prev.map_values(|s: String| s@).push(found@[i as int]@));
            assert(strs_view(found@).subrange(0, i + 1) =~= strs_view(found@).subrange(0, i as int).push(found@[i as int]@));
            i = i + 1;
        }
        assert(strs_view(found@).subrange(0, i as int) =~= strs_view(found@));
        let mut scan = BulkScan {
            converter: self,
            tokens,
            next: 0,
            pending: None,
            result: ConversionResult::new(),
        };
        scan.run();
        scan
    }
}

} // verus!
