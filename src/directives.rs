use vstd::prelude::*;

verus! {

/// The position of the first `:` in `s`, or -1 where there is none.
pub open spec fn first_colon_of(s: Seq<char>) -> int
    decreases s.len(),
{
    if s.len() == 0 {
        -1
    } else {
        let r = first_colon_of(s.drop_last());
        if r >= 0 {
            r
        } else if s.last() == ':' {
            s.len() - 1
        } else {
            -1
        }
    }
}

/// `s` without a leading `scheme://`: the scheme is what stands before the
/// first `:`, where that colon is followed by `//`.
pub open spec fn strip_scheme_of(s: Seq<char>) -> Seq<char> {
    let c = first_colon_of(s);
    if c >= 0 && c + 2 < s.len() && s[c + 1] == '/' && s[c + 2] == '/' {
        s.skip(c + 3)
    } else {
        s
    }
}

/// The pieces of `s` between `+` signs (one piece where there is none).
pub open spec fn split_plus_of(s: Seq<char>) -> Seq<Seq<char>>
    decreases s.len(),
{
    if s.len() == 0 {
        seq![seq![]]
    } else {
        let p = split_plus_of(s.drop_last());
        if s.last() == '+' {
            p.push(seq![])
        } else {
            p.update(p.len() - 1, p.last().push(s.last()))
        }
    }
}

/// The key of a segment: what stands before its first `:`, or all of it.
pub open spec fn key_of(seg: Seq<char>) -> Seq<char> {
    let c = first_colon_of(seg);
    if c >= 0 {
        seg.take(c)
    } else {
        seg
    }
}

/// The value of a segment: all that follows its first `:`, further colons
/// included; empty where there is no colon.
pub open spec fn value_of(seg: Seq<char>) -> Seq<char> {
    let c = first_colon_of(seg);
    if c >= 0 {
        seg.skip(c + 1)
    } else {
        seq![]
    }
}

/// The launch parameters of one invocation; an absent one is empty.
pub struct LaunchDirectives {
    /// `launchmode`
    pub launch_mode: String,
    /// `gameinfo`: the authentication ticket.
    pub ticket: String,
    /// `placelauncherurl`: the join-script URL.
    pub join_script: String,
    /// `clientyear`
    pub client_year: String,
}

pub struct DirectivesView {
    pub launch_mode: Seq<char>,
    pub ticket: Seq<char>,
    pub join_script: Seq<char>,
    pub client_year: Seq<char>,
}

impl View for LaunchDirectives {
    type V = DirectivesView;

    open spec fn view(&self) -> DirectivesView {
        DirectivesView {
            launch_mode: self.launch_mode@,
            ticket: self.ticket@,
            join_script: self.join_script@,
            client_year: self.client_year@,
        }
    }
}

/// The directives after one more segment: a recognized key sets its field,
/// any other key changes nothing.
pub open spec fn apply_segment_of(d: DirectivesView, seg: Seq<char>) -> DirectivesView {
    let k = key_of(seg);
    let v = value_of(seg);
    if k == "launchmode"@ {
        DirectivesView { launch_mode: v, ..d }
    } else if k == "gameinfo"@ {
        DirectivesView { ticket: v, ..d }
    } else if k == "placelauncherurl"@ {
        DirectivesView { join_script: v, ..d }
    } else if k == "clientyear"@ {
        DirectivesView { client_year: v, ..d }
    } else {
        d
    }
}

/// The directives of a list of segments, read left to right.
pub open spec fn directives_of_segments(segs: Seq<Seq<char>>) -> DirectivesView
    decreases segs.len(),
{
    if segs.len() == 0 {
        DirectivesView { launch_mode: seq![], ticket: seq![], join_script: seq![], client_year: seq![] }
    } else {
        apply_segment_of(directives_of_segments(segs.drop_last()), segs.last())
    }
}

/// The directives of an invocation string `scheme://seg+seg+...`.
pub open spec fn parse_of(s: Seq<char>) -> DirectivesView {
    directives_of_segments(split_plus_of(strip_scheme_of(s)))
}

pub proof fn lemma_first_colon_stays(s: Seq<char>, k: int, j: int)
    requires
        0 <= k <= j <= s.len(),
        first_colon_of(s.take(k)) >= 0,
    ensures
        first_colon_of(s.take(j)) == first_colon_of(s.take(k)),
    decreases j - k,
{
    if j > k {
        lemma_first_colon_stays(s, k, j - 1);
        assert(s.take(j).drop_last() =~= s.take(j - 1));
    }
}

proof fn lemma_first_colon_bounds(s: Seq<char>)
    ensures
        -1 <= first_colon_of(s) < s.len(),
        first_colon_of(s) >= 0 ==> s[first_colon_of(s)] == ':',
    decreases s.len(),
{
    if s.len() > 0 {
        lemma_first_colon_bounds(s.drop_last());
    }
}

/// Where the first `:` of `s` stands.
fn find_colon(s: &str) -> (r: Option<usize>)
    ensures
        match r {
            Some(i) => i == first_colon_of(s@),
            None => first_colon_of(s@) == -1,
        },
{
    let n = s.unicode_len();
    let mut i: usize = 0;
    proof {
        assert(s@.take(0) =~= Seq::<char>::empty());
    }
    while i < n
        invariant
            n == s@.len(),
            i <= n,
            first_colon_of(s@.take(i as int)) == -1,
        decreases n - i,
    {
        proof {
            assert(s@.take(i + 1).drop_last() =~= s@.take(i as int));
        }
        if s.get_char(i) == ':' {
            proof {
                lemma_first_colon_stays(s@, i + 1, n as int);
                assert(s@.take(n as int) =~= s@);
            }
            return Some(i);
        }
        i = i + 1;
    }
    proof {
        assert(s@.take(n as int) =~= s@);
    }
    None
}

/// The invocation without its leading `scheme://`.
pub fn strip_scheme(s: &str) -> (r: &str)
    ensures
        r@ == strip_scheme_of(s@),
{
    let n = s.unicode_len();
    proof {
        lemma_first_colon_bounds(s@);
    }
    match find_colon(s) {
        Some(c) => {
            if n - c > 2 && s.get_char(c + 1) == '/' && s.get_char(c + 2) == '/' {
                s.substring_char(c + 3, n)
            } else {
                s
            }
        },
        None => s,
    }
}

/// The pieces of `s` between `+` signs.
pub fn split_segments(s: &str) -> (r: Vec<String>)
    ensures
        r@.map_values(|x: String| x@) == split_plus_of(s@),
{
    let n = s.unicode_len();
    let mut segs: Vec<String> = Vec::new();
    let mut start: usize = 0;
    let mut i: usize = 0;
    proof {
        assert(s@.take(0) =~= Seq::<char>::empty());
        assert(split_plus_of(s@.take(0)) =~= segs@.map_values(|x: String| x@).push(
            s@.subrange(0, 0),
        ));
    }
    while i < n
        invariant
            n == s@.len(),
            start <= i <= n,
            split_plus_of(s@.take(i as int)) == segs@.map_values(|x: String| x@).push(
                s@.subrange(start as int, i as int),
            ),
        decreases n - i,
    {
        let ghost before = segs@.map_values(|x: String| x@);
        proof {
            assert(s@.take(i + 1).drop_last() =~= s@.take(i as int));
            assert(s@.take(i + 1).last() == s@[i as int]);
        }
        if s.get_char(i) == '+' {
            let piece = s.substring_char(start, i);
            segs.push(String::from_str(piece));
            start = i + 1;
            proof {
                assert(segs@.map_values(|x: String| x@) =~= before.push(piece@));
                assert(s@.subrange(start as int, i + 1) =~= Seq::<char>::empty());
                assert(split_plus_of(s@.take(i + 1)) =~= segs@.map_values(|x: String| x@).push(
                    s@.subrange(start as int, i + 1),
                ));
            }
        } else {
            proof {
                assert(s@.subrange(start as int, i + 1) =~= s@.subrange(start as int, i as int).push(
                    s@[i as int],
                ));
                assert(split_plus_of(s@.take(i + 1)) =~= before.push(
                    s@.subrange(start as int, i + 1),
                ));
            }
        }
        i = i + 1;
    }
    let last = s.substring_char(start, n);
    let ghost before = segs@.map_values(|x: String| x@);
    segs.push(String::from_str(last));
    proof {
        assert(s@.take(n as int) =~= s@);
        assert(segs@.map_values(|x: String| x@) =~= before.push(last@));
    }
    segs
}

/// Key and value of one segment.
pub fn split_key_value(seg: &str) -> (r: (String, String))
    ensures
        r.0@ == key_of(seg@),
        r.1@ == value_of(seg@),
{
    let n = seg.unicode_len();
    proof {
        lemma_first_colon_bounds(seg@);
    }
    match find_colon(seg) {
        Some(c) => (
            String::from_str(seg.substring_char(0, c)),
            String::from_str(seg.substring_char(c + 1, n)),
        ),
        None => (String::from_str(seg), String::new()),
    }
}

impl LaunchDirectives {
    /// No directive set.
    pub fn empty() -> (r: LaunchDirectives)
        ensures
            r@ == directives_of_segments(seq![]),
    {
        LaunchDirectives {
            launch_mode: String::new(),
            ticket: String::new(),
            join_script: String::new(),
            client_year: String::new(),
        }
    }

    /// Takes one more segment into account.
    pub fn apply_segment(&mut self, seg: &str)
        ensures
            final(self)@ == apply_segment_of(old(self)@, seg@),
    {
        let (key, value) = split_key_value(seg);
        if key == String::from_str("launchmode") {
            self.launch_mode = value;
        } else if key == String::from_str("gameinfo") {
            self.ticket = value;
        } else if key == String::from_str("placelauncherurl") {
            self.join_script = value;
        } else if key == String::from_str("clientyear") {
            self.client_year = value;
        }
    }
}

/// Reads an invocation string: the scheme is dropped, the rest is split on
/// `+`, each segment on its first `:`; recognized keys set their directive,
/// later segments over earlier ones, and unknown keys are ignored.
pub fn parse_invocation(arg: &str) -> (r: LaunchDirectives)
    ensures
        r@ == parse_of(arg@),
{
    let body = strip_scheme(arg);
    let segs = split_segments(body);
    let ghost all = segs@.map_values(|x: String| x@);
    let mut d = LaunchDirectives::empty();
    let mut i: usize = 0;
    proof {
        assert(all.take(0) =~= Seq::<Seq<char>>::empty());
    }
    while i < segs.len()
        invariant
            i <= segs@.len(),
            all == segs@.map_values(|x: String| x@),
            d@ == directives_of_segments(all.take(i as int)),
        decreases segs@.len() - i,
    {
        d.apply_segment(segs[i].as_str());
        proof {
            assert(all.take(i + 1).drop_last() =~= all.take(i as int));
        }
        i = i + 1;
    }
    proof {
        assert(all.take(segs@.len() as int) =~= all);
    }
    d
}

} // verus!
