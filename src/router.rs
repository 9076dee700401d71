use vstd::prelude::*;
use vstd::string::*;
use crate::command::{WebDriverMessage, built_message, parser_message};
use crate::error::{ErrorStatus, WebDriverError, WebDriverResult};

verus! {

/// The pieces of `p` between the separators `/`, as `str::split('/')` gives them.
pub open spec fn split_slash(p: Seq<char>) -> Seq<Seq<char>>
    decreases p.len(),
{
    if p.len() == 0 {
        seq![Seq::empty()]
    } else {
        let init = split_slash(p.drop_last());
        if p.last() == '/' {
            init.push(Seq::empty())
        } else {
            init.update(init.len() - 1, init.last().push(p.last()))
        }
    }
}

proof fn lemma_split_nonempty(p: Seq<char>)
    ensures
        split_slash(p).len() >= 1,
    decreases p.len(),
{
    if p.len() > 0 {
        lemma_split_nonempty(p.drop_last());
    }
}

/// Splitting at a separator splits the two sides apart.
proof fn lemma_split_concat(p: Seq<char>, q: Seq<char>)
    ensures
        split_slash(p.push('/') + q) == split_slash(p) + split_slash(q),
    decreases q.len(),
{
    let r = p.push('/') + q;
    if q.len() == 0 {
        assert(r =~= p.push('/'));
        assert(r.drop_last() =~= p);
        assert(split_slash(p).push(Seq::empty()) =~= split_slash(p) + split_slash(q));
    } else {
        assert(r.drop_last() =~= p.push('/') + q.drop_last());
        lemma_split_concat(p, q.drop_last());
        lemma_split_nonempty(q.drop_last());
        let sp = split_slash(p);
        let sq = split_slash(q.drop_last());
        if q.last() == '/' {
            assert((sp + sq).push(Seq::empty()) =~= sp + sq.push(Seq::empty()));
        } else {
            let last = (sp + sq).last().push(q.last());
            assert((sp + sq).update((sp + sq).len() - 1, last) =~= sp + sq.update(sq.len() - 1, sq.last().push(q.last())));
        }
    }
}

/// A piece without separators is one segment.
proof fn lemma_split_single(s: Seq<char>)
    requires
        forall|i: int| 0 <= i < s.len() ==> s[i] != '/',
    ensures
        split_slash(s) == seq![s],
    decreases s.len(),
{
    if s.len() > 0 {
        lemma_split_single(s.drop_last());
        assert(s.drop_last().push(s.last()) =~= s);
        assert(seq![s.drop_last()].update(0, s.drop_last().push(s.last())) =~= seq![s]);
    } else {
        assert(s =~= Seq::<char>::empty());
    }
}

/// A segment written `{name}`: it starts with an opening brace.
pub open spec fn is_placeholder(s: Seq<char>) -> bool {
    s.len() > 0 && s[0] == '{'
}

/// A placeholder that is closed by a brace.
pub open spec fn placeholder_closed(s: Seq<char>) -> bool {
    s.len() >= 2 && s.last() == '}'
}

pub open spec fn placeholder_name(s: Seq<char>) -> Seq<char> {
    s.subrange(1, s.len() - 1)
}

/// A literal segment stands for itself; a placeholder for a named group of
/// one or more characters other than `/`.
pub open spec fn segment_regex(s: Seq<char>) -> Seq<char> {
    if is_placeholder(s) {
        "(?P<"@ + placeholder_name(s) + ">[^/]+)"@
    } else {
        s
    }
}

/// The segments' expressions joined by `/`.
pub open spec fn joined_regex(segs: Seq<Seq<char>>) -> Seq<char>
    decreases segs.len(),
{
    if segs.len() == 0 {
        Seq::empty()
    } else if segs.len() == 1 {
        segment_regex(segs[0])
    } else {
        joined_regex(segs.drop_last()) + "/"@ + segment_regex(segs.last())
    }
}

/// The names of the placeholders among `segs`, in order.
pub open spec fn capture_names(segs: Seq<Seq<char>>) -> Seq<Seq<char>>
    decreases segs.len(),
{
    if segs.len() == 0 {
        Seq::empty()
    } else if is_placeholder(segs.last()) {
        capture_names(segs.drop_last()).push(placeholder_name(segs.last()))
    } else {
        capture_names(segs.drop_last())
    }
}

/// Every placeholder of the pattern is closed.
pub open spec fn pattern_well_formed(p: Seq<char>) -> bool {
    forall|k: int|
        0 <= k < split_slash(p).len() && is_placeholder(#[trigger] split_slash(p)[k])
            ==> placeholder_closed(split_slash(p)[k])
}

/// The anchored expression a path pattern compiles to.
pub open spec fn compiled_regex(p: Seq<char>) -> Seq<char> {
    "^"@ + joined_regex(split_slash(p)) + "$"@
}

pub open spec fn string_views(v: Seq<String>) -> Seq<Seq<char>> {
    v.map_values(|s: String| s@)
}

/// The segments of `p`.
fn split_segments(p: &str) -> (r: Vec<String>)
    ensures
        string_views(r@) == split_slash(p@),
{
    let n = p.unicode_len();
    let mut segs: Vec<String> = Vec::new();
    let mut start: usize = 0;
    let mut i: usize = 0;
    assert(p@.subrange(0, 0) =~= Seq::<char>::empty());
    while i < n
        invariant
            n == p@.len(),
            start <= i <= n,
            split_slash(p@.subrange(0, i as int)) == string_views(segs@).push(
                p@.subrange(start as int, i as int),
            ),
        decreases n - i,
    {
        let c = p.get_char(i);
        let ghost prev = p@.subrange(0, i as int);
        let ghost next = p@.subrange(0, i + 1);
        assert(next.drop_last() =~= prev);
        assert(next.last() == c);
        if c == '/' {
            let s = p.substring_char(start, i).to_string();
            let ghost before = string_views(segs@);
            segs.push(s);
            assert(string_views(segs@) =~= before.push(s@));
            assert(p@.subrange(i + 1, i + 1) =~= Seq::<char>::empty());
            start = i + 1;
        } else {
            assert(p@.subrange(start as int, i + 1) =~= p@.subrange(start as int, i as int).push(c));
        }
        i = i + 1;
    }
    let s = p.substring_char(start, n).to_string();
    let ghost before = string_views(segs@);
    segs.push(s);
    assert(string_views(segs@) =~= before.push(s@));
    assert(p@.subrange(0, n as int) =~= p@);
    segs
}

/// Whether every placeholder of the path pattern is closed.
pub fn check_pattern(path: &str) -> (r: bool)
    ensures
        r == pattern_well_formed(path@),
{
    let segs = split_segments(path);
    let ghost sv = split_slash(path@);
    let mut k: usize = 0;
    while k < segs.len()
        invariant
            sv == split_slash(path@),
            string_views(segs@) == sv,
            k <= segs@.len(),
            forall|j: int| 0 <= j < k && is_placeholder(#[trigger] sv[j]) ==> placeholder_closed(sv[j]),
        decreases segs@.len() - k,
    {
        let s = segs[k].as_str();
        assert(s@ == sv[k as int]);
        let len = s.unicode_len();
        if len > 0 && s.get_char(0) == '{' && !(len >= 2 && s.get_char(len - 1) == '}') {
            assert(is_placeholder(sv[k as int]) && !placeholder_closed(sv[k as int]));
            return false;
        }
        k = k + 1;
    }
    true
}

/// Compiles a path pattern such as `/session/{sessionId}/url` into an
/// anchored expression with a named group for each placeholder, and the
/// placeholders' names.
pub fn compile_path(path: &str) -> (r: (String, Vec<String>))
    requires
        pattern_well_formed(path@),
    ensures
        r.0@ == compiled_regex(path@),
        string_views(r.1@) == capture_names(split_slash(path@)),
{
    let segs = split_segments(path);
    let ghost sv = split_slash(path@);
    proof {
        lemma_split_nonempty(path@);
    }
    assert(segs@.len() == sv.len());
    let mut out = "^".to_string();
    let mut names: Vec<String> = Vec::new();
    let mut k: usize = 0;
    assert(sv.take(0) =~= Seq::<Seq<char>>::empty());
    while k < segs.len()
        invariant
            sv == split_slash(path@),
            pattern_well_formed(path@),
            string_views(segs@) == sv,
            sv.len() >= 1,
            k <= segs@.len(),
            out@ == "^"@ + joined_regex(sv.take(k as int)),
            string_views(names@) == capture_names(sv.take(k as int)),
        decreases segs@.len() - k,
    {
        let s = segs[k].as_str();
        assert(s@ == sv[k as int]);
        let ghost prev = sv.take(k as int);
        let ghost next = sv.take(k + 1);
        assert(next.drop_last() =~= prev);
        assert(next.last() == sv[k as int]);
        if k > 0 {
            out.append("/");
        }
        let ghost out_before = out@;
        let len = s.unicode_len();
        if len > 0 && s.get_char(0) == '{' {
            assert(is_placeholder(split_slash(path@)[k as int]));
            assert(placeholder_closed(sv[k as int]));
            let name = s.substring_char(1, len - 1);
            out.append("(?P<");
            out.append(name);
            out.append(">[^/]+)");
            let ghost before = string_views(names@);
            names.push(name.to_string());
            assert(string_views(names@) =~= before.push(name@));
        } else {
            out.append(s);
        }
        proof {
            if k == 0 {
                assert(next =~= seq![sv[0]]);
                assert(prev =~= Seq::<Seq<char>>::empty());
            } else {
                assert(joined_regex(next) == joined_regex(prev) + "/"@ + segment_regex(sv[k as int]));
            }
            assert(out@ =~= out_before + segment_regex(sv[k as int]));
        }
        assert(out@ =~= "^"@ + joined_regex(next));
        k = k + 1;
    }
    out.append("$");
    assert(sv.take(segs@.len() as int) =~= sv);
    (out, names)
}

pub open spec fn option_views(v: Seq<Option<String>>) -> Seq<Option<Seq<char>>> {
    v.map_values(|o: Option<String>| match o {
        Some(s) => Some(s@),
        None => None,
    })
}

pub open spec fn pair_views(v: Seq<(String, String)>) -> Seq<(Seq<char>, Seq<char>)> {
    v.map_values(|p: (String, String)| (p.0@, p.1@))
}

/// Whether the regex crate accepts `pattern`.
pub uninterp spec fn regex_accepts(pattern: Seq<char>) -> bool;

/// Relies on `regex::Regex::new`: whether it compiles `pattern`, which
/// depends on the pattern alone.
#[verifier::external_body]
fn regex_compiles(pattern: &str) -> (r: bool)
    ensures
        r == regex_accepts(pattern@),
{
    regex::Regex::new(pattern).is_ok()
}

/// What the regex crate's `captures` finds for `pattern` in `text`: `None`
/// where it does not match, else the text of each named group of `names`,
/// `None` for a group that took no part.
pub uninterp spec fn regex_named_groups(
    pattern: Seq<char>,
    text: Seq<char>,
    names: Seq<Seq<char>>,
) -> Option<Seq<Option<Seq<char>>>>;

/// Relies on `regex::Regex::new` and `Regex::captures` with `Captures::name`:
/// the match of `pattern` in `text` and the text of each named group.
#[verifier::external_body]
fn regex_captures(pattern: &str, text: &str, names: &Vec<String>) -> (r: Option<Vec<Option<String>>>)
    requires
        regex_accepts(pattern@),
    ensures
        r is None <==> regex_named_groups(pattern@, text@, string_views(names@)) is None,
        r matches Some(g) ==> g@.len() == names@.len() && regex_named_groups(
            pattern@,
            text@,
            string_views(names@),
        ) == Some(option_views(g@)),
{
    let re = regex::Regex::new(pattern).unwrap();
    re.captures(text).map(
        |c| names.iter().map(|n| c.name(n).map(|m| m.as_str().to_string())).collect(),
    )
}

/// The (name, value) pairs of the groups that took part in a match.
pub open spec fn captured(names: Seq<Seq<char>>, groups: Seq<Option<Seq<char>>>) -> Seq<
    (Seq<char>, Seq<char>),
>
    decreases groups.len(),
{
    if groups.len() == 0 || names.len() == 0 {
        Seq::empty()
    } else {
        let init = captured(names.drop_last(), groups.drop_last());
        match groups.last() {
            Some(v) => init.push((names.last(), v)),
            None => init,
        }
    }
}

/// Pairs each name with its group's text, leaving out groups that took no part.
pub fn captures_from_groups(names: &Vec<String>, groups: &Vec<Option<String>>) -> (r: Vec<
    (String, String),
>)
    requires
        names@.len() == groups@.len(),
    ensures
        pair_views(r@) == captured(string_views(names@), option_views(groups@)),
{
    let mut r: Vec<(String, String)> = Vec::new();
    let mut i: usize = 0;
    let ghost nv = string_views(names@);
    let ghost gv = option_views(groups@);
    assert(nv.take(0) =~= Seq::<Seq<char>>::empty());
    while i < groups.len()
        invariant
            i <= groups@.len(),
            names@.len() == groups@.len(),
            nv == string_views(names@),
            gv == option_views(groups@),
            pair_views(r@) == captured(nv.take(i as int), gv.take(i as int)),
        decreases groups@.len() - i,
    {
        assert(nv.take(i + 1).drop_last() =~= nv.take(i as int));
        assert(gv.take(i + 1).drop_last() =~= gv.take(i as int));
        match &groups[i] {
            Some(v) => {
                let ghost before = pair_views(r@);
                r.push((names[i].clone(), v.clone()));
                assert(pair_views(r@) =~= before.push((nv[i as int], v@)));
            },
            None => {},
        }
        i = i + 1;
    }
    assert(nv.take(i as int) =~= nv);
    assert(gv.take(i as int) =~= gv);
    r
}

/// HTTP request methods.
#[derive(Clone, Copy, Debug, PartialEq, Eq, Structural)]
pub enum Method {
    Get,
    Post,
    Put,
    Delete,
    Head,
    Options,
    Patch,
    Connect,
    Trace,
    /// A method outside this list.
    Other,
}

/// The command that a route stands for.
#[derive(Clone, Copy, Debug, PartialEq, Eq, Structural)]
pub enum MatchType {
    MatchNewSession,
    MatchGet,
    MatchGetCurrentUrl,
}

/// Why a path pattern was refused.
#[derive(Clone, Copy, Debug, PartialEq, Eq, Structural)]
pub enum PatternError {
    /// The regex crate refuses the compiled expression.
    RejectedPattern,
}

/// The outcome of registering a path pattern.
pub open spec fn pattern_outcome(p: Seq<char>) -> Result<(), PatternError> {
    if !regex_accepts(compiled_regex(p)) {
        Err(PatternError::RejectedPattern)
    } else {
        Ok(())
    }
}

pub struct MatcherView {
    pub method: Method,
    pub path: Seq<char>,
    pub regex: Seq<char>,
    pub names: Seq<Seq<char>>,
    pub match_type: MatchType,
}

/// The view of the matcher that a well-formed pattern compiles to.
pub open spec fn matcher_for(method: Method, path: Seq<char>, match_type: MatchType) -> MatcherView {
    MatcherView {
        method,
        path,
        regex: compiled_regex(path),
        names: capture_names(split_slash(path)),
        match_type,
    }
}

/// The path part of a request matches.
pub open spec fn path_matches(m: MatcherView, path: Seq<char>) -> bool {
    regex_named_groups(m.regex, path, m.names) is Some
}

/// The captures of a request that a matcher accepts; `None` where it does not.
pub open spec fn matcher_captures(m: MatcherView, method: Method, path: Seq<char>) -> Option<
    Seq<(Seq<char>, Seq<char>)>,
> {
    if m.method != method {
        None
    } else {
        match regex_named_groups(m.regex, path, m.names) {
            None => None,
            Some(g) => Some(captured(m.names, g)),
        }
    }
}

/// One route: a method, a compiled path pattern and the command it stands for.
pub struct RequestMatcher {
    method: Method,
    path: String,
    path_regexp: String,
    names: Vec<String>,
    match_type: MatchType,
}

impl View for RequestMatcher {
    type V = MatcherView;

    closed spec fn view(&self) -> MatcherView {
        MatcherView {
            method: self.method,
            path: self.path@,
            regex: self.path_regexp@,
            names: string_views(self.names@),
            match_type: self.match_type,
        }
    }
}

impl RequestMatcher {
    #[verifier::type_invariant]
    closed spec fn inv(&self) -> bool {
        &&& pattern_well_formed(self.path@)
        &&& self@ == matcher_for(self.method, self.path@, self.match_type)
        &&& regex_accepts(self.path_regexp@)
    }

    pub fn new(method: Method, path: &str, match_type: MatchType) -> (r: Result<
        RequestMatcher,
        PatternError,
    >)
        requires
            pattern_well_formed(path@),
        ensures
            match r {
                Ok(m) => pattern_outcome(path@) is Ok && m@ == matcher_for(method, path@, match_type),
                Err(e) => pattern_outcome(path@) == Err::<(), PatternError>(e),
            },
    {
        let (path_regexp, names) = compile_path(path);
        if !regex_compiles(path_regexp.as_str()) {
            return Err(PatternError::RejectedPattern);
        }
        Ok(RequestMatcher { method, path: path.to_string(), path_regexp, names, match_type })
    }

    pub fn method(&self) -> (r: Method)
        ensures
            r == self@.method,
    {
        self.method
    }

    pub fn match_type(&self) -> (r: MatchType)
        ensures
            r == self@.match_type,
    {
        self.match_type
    }

    /// Whether `path` matches this route's pattern, whatever the method.
    pub fn matches_path(&self, path: &str) -> (r: bool)
        ensures
            r == path_matches(self@, path@),
    {
        proof {
            use_type_invariant(self);
        }
        regex_captures(self.path_regexp.as_str(), path, &self.names).is_some()
    }

    /// The named captures of the request, where both its method and its
    /// whole path match.
    pub fn get_match(&self, method: Method, path: &str) -> (r: Option<Vec<(String, String)>>)
        ensures
            match r {
                None => matcher_captures(self@, method, path@) is None,
                Some(c) => matcher_captures(self@, method, path@) == Some(pair_views(c@)),
            },
    {
        proof {
            use_type_invariant(self);
        }
        if method != self.method {
            return None;
        }
        match regex_captures(self.path_regexp.as_str(), path, &self.names) {
            None => None,
            Some(groups) => Some(captures_from_groups(&self.names, &groups)),
        }
    }
}

/// The route of the first matcher, in order, that accepts the request.
pub open spec fn first_route(ms: Seq<MatcherView>, method: Method, path: Seq<char>) -> Option<
    (MatchType, Seq<(Seq<char>, Seq<char>)>),
>
    decreases ms.len(),
{
    if ms.len() == 0 {
        None
    } else {
        match matcher_captures(ms[0], method, path) {
            Some(c) => Some((ms[0].match_type, c)),
            None => first_route(ms.drop_first(), method, path),
        }
    }
}

/// Some route's pattern matches the path, whatever its method.
pub open spec fn path_known(ms: Seq<MatcherView>, path: Seq<char>) -> bool {
    exists|i: int| 0 <= i < ms.len() && path_matches(#[trigger] ms[i], path)
}

/// The route table: matchers tried in the order they were added.
pub struct MessageBuilder {
    http_matchers: Vec<RequestMatcher>,
}

impl View for MessageBuilder {
    type V = Seq<MatcherView>;

    closed spec fn view(&self) -> Seq<MatcherView> {
        self.http_matchers@.map_values(|m: RequestMatcher| m@)
    }
}

impl MessageBuilder {
    pub fn new() -> (r: MessageBuilder)
        ensures
            r@ == Seq::<MatcherView>::empty(),
    {
        let r = MessageBuilder { http_matchers: Vec::new() };
        assert(r@ =~= Seq::<MatcherView>::empty());
        r
    }

    /// Registers a route after those already there; a refused pattern leaves
    /// the table as it was.
    pub fn add(&mut self, method: Method, path: &str, match_type: MatchType) -> (r: Result<
        (),
        PatternError,
    >)
        requires
            pattern_well_formed(path@),
        ensures
            r == pattern_outcome(path@),
            r is Ok ==> final(self)@ == old(self)@.push(matcher_for(method, path@, match_type)),
            r is Err ==> final(self)@ == old(self)@,
    {
        match RequestMatcher::new(method, path, match_type) {
            Ok(m) => {
                let ghost before = self@;
                self.http_matchers.push(m);
                assert(self@ =~= before.push(matcher_for(method, path@, match_type)));
                Ok(())
            },
            Err(e) => Err(e),
        }
    }

    /// The first route, in order of registration, whose method equals
    /// `method` and whose pattern matches the whole of `path`, with its
    /// captures.
    pub fn route(&self, method: Method, path: &str) -> (r: Option<(MatchType, Vec<(String, String)>)>)
        ensures
            match r {
                None => first_route(self@, method, path@) is None,
                Some((t, c)) => first_route(self@, method, path@) == Some((t, pair_views(c@))),
            },
    {
        let ghost ms = self@;
        let mut i: usize = 0;
        assert(ms.subrange(0, ms.len() as int) =~= ms);
        while i < self.http_matchers.len()
            invariant
                ms == self@,
                ms.len() == self.http_matchers@.len(),
                i <= ms.len(),
                first_route(ms, method, path@) == first_route(
                    ms.subrange(i as int, ms.len() as int),
                    method,
                    path@,
                ),
            decreases ms.len() - i,
        {
            let ghost rest = ms.subrange(i as int, ms.len() as int);
            let m = &self.http_matchers[i];
            assert(rest[0] == m@);
            match m.get_match(method, path) {
                Some(c) => {
                    return Some((m.match_type(), c));
                },
                None => {},
            }
            assert(rest.drop_first() =~= ms.subrange(i + 1, ms.len() as int));
            i = i + 1;
        }
        None
    }

    /// Whether any route's pattern matches `path`, whatever its method.
    pub fn knows_path(&self, path: &str) -> (r: bool)
        ensures
            r == path_known(self@, path@),
    {
        let ghost ms = self@;
        let mut i: usize = 0;
        while i < self.http_matchers.len()
            invariant
                ms == self@,
                ms.len() == self.http_matchers@.len(),
                i <= ms.len(),
                forall|j: int| 0 <= j < i ==> !path_matches(#[trigger] ms[j], path@),
            decreases ms.len() - i,
        {
            if self.http_matchers[i].matches_path(path) {
                assert(ms[i as int] == self.http_matchers@[i as int]@);
                return true;
            }
            assert(ms[i as int] == self.http_matchers@[i as int]@);
            i = i + 1;
        }
        false
    }

    /// The command of the first route that accepts the request; `None` where
    /// no route does.
    pub fn from_http(&self, method: Method, path: &str, body: &str) -> (r: Option<
        WebDriverResult<WebDriverMessage>,
    >)
        ensures
            match first_route(self@, method, path@) {
                None => r is None,
                Some((t, c)) => r matches Some(m) && (match built_message(t, c, body@) {
                    Ok(v) => m is Ok && m->Ok_0@ == v,
                    Err(s) => m is Err && m->Err_0.status == s,
                }) && (parser_message(t, c, body@) matches Some(msg) ==> m is Err
                    && m->Err_0.message@ == msg),
            },
    {
        match self.route(method, path) {
            None => None,
            Some((t, c)) => Some(WebDriverMessage::from_http(t, &c, body)),
        }
    }

    /// Like `from_http`, with a request that no route accepts reported as an
    /// unknown method where some route's pattern matches the path, and as an
    /// unknown path otherwise.
    pub fn dispatch(&self, method: Method, path: &str, body: &str) -> (r: WebDriverResult<
        WebDriverMessage,
    >)
        ensures
            match first_route(self@, method, path@) {
                None => r is Err && r->Err_0.status == (if path_known(self@, path@) {
                    ErrorStatus::UnknownMethod
                } else {
                    ErrorStatus::UnknownPath
                }),
                Some((t, c)) => (match built_message(t, c, body@) {
                    Ok(v) => r is Ok && r->Ok_0@ == v,
                    Err(s) => r is Err && r->Err_0.status == s,
                }) && (parser_message(t, c, body@) matches Some(msg) ==> r is Err
                    && r->Err_0.message@ == msg),
            },
    {
        match self.from_http(method, path, body) {
            Some(m) => m,
            None => {
                if self.knows_path(path) {
                    Err(WebDriverError::new(ErrorStatus::UnknownMethod, "Unsupported method for this path"))
                } else {
                    Err(WebDriverError::new(ErrorStatus::UnknownPath, "Unknown path"))
                }
            },
        }
    }
}

/// The patterns of the route table close every placeholder.
proof fn lemma_route_patterns_well_formed()
    ensures
        pattern_well_formed("/session"@),
        pattern_well_formed("/session/{sessionId}/url"@),
{
    reveal_strlit("/session");
    reveal_strlit("/session/{sessionId}/url");
    reveal_strlit("session");
    reveal_strlit("{sessionId}");
    reveal_strlit("url");
    let e = Seq::<char>::empty();
    let session = "session"@;
    let sid = "{sessionId}"@;
    let url = "url"@;
    lemma_split_nonempty(e);
    assert(split_slash(e) == seq![e]);
    lemma_split_single(session);
    lemma_split_single(sid);
    lemma_split_single(url);
    let b = e.push('/') + session;
    let c = b.push('/') + sid;
    let d = c.push('/') + url;
    lemma_split_concat(e, session);
    lemma_split_concat(b, sid);
    lemma_split_concat(c, url);
    assert("/session"@ =~= b);
    assert("/session/{sessionId}/url"@ =~= d);
    let sb = split_slash(b);
    let sd = split_slash(d);
    assert(sb =~= seq![e, session]);
    assert(sd =~= seq![e, session, sid, url]);
    assert(placeholder_closed(sid));
    assert forall|k: int| 0 <= k < sb.len() && is_placeholder(#[trigger] sb[k]) implies placeholder_closed(sb[k]) by {
        assert(k == 0 || k == 1);
    }
    assert forall|k: int| 0 <= k < sd.len() && is_placeholder(#[trigger] sd[k]) implies placeholder_closed(sd[k]) by {
        assert(0 <= k < 4);
    }
}

/// The route table of this bridge: new session, navigate, and get the
/// current URL, in that order.
pub fn get_builder() -> (r: Result<MessageBuilder, PatternError>)
    ensures
        r matches Ok(b) ==> b@ == seq![
            matcher_for(Method::Post, "/session"@, MatchType::MatchNewSession),
            matcher_for(Method::Post, "/session/{sessionId}/url"@, MatchType::MatchGet),
            matcher_for(Method::Get, "/session/{sessionId}/url"@, MatchType::MatchGetCurrentUrl),
        ],
        r is Ok <==> pattern_outcome("/session"@) is Ok && pattern_outcome("/session/{sessionId}/url"@) is Ok,
{
    proof {
        lemma_route_patterns_well_formed();
    }
    let mut builder = MessageBuilder::new();
    builder.add(Method::Post, "/session", MatchType::MatchNewSession)?;
    builder.add(Method::Post, "/session/{sessionId}/url", MatchType::MatchGet)?;
    builder.add(Method::Get, "/session/{sessionId}/url", MatchType::MatchGetCurrentUrl)?;
    assert(builder@ =~= seq![
        matcher_for(Method::Post, "/session"@, MatchType::MatchNewSession),
        matcher_for(Method::Post, "/session/{sessionId}/url"@, MatchType::MatchGet),
        matcher_for(Method::Get, "/session/{sessionId}/url"@, MatchType::MatchGetCurrentUrl),
    ]);
    Ok(builder)
}

} // verus!
