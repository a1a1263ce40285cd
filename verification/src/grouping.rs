use vstd::prelude::*;

use crate::events::{evs, Ev, LogEvent};
use crate::pattern::{capture_of, GroupPattern};
use crate::text::views_of;

verus! {

/// The label a group opens under for a captured sub-task name.
pub open spec fn group_label(cap: Seq<char>) -> Seq<char> {
    "Unit Tests: "@ + cap
}

/// The text of an optional grouping pattern.
pub open spec fn pattern_text(p: Option<GroupPattern>) -> Option<Seq<char>> {
    match p {
        Some(gp) => Some(gp.text()),
        None => None,
    }
}

/// Whether a line switches the open group: a pattern is present and captures
/// a sub-task name on this line.
pub open spec fn line_matches(pat: Option<Seq<char>>, line: Seq<char>) -> bool {
    pat matches Some(p) && capture_of(p, line) is Some
}

/// The events one line produces, given whether a group is open before it: a
/// matching line first closes the open group, if any, then opens a group
/// named after its capture; every line is echoed unchanged.
pub open spec fn line_events(pat: Option<Seq<char>>, open_before: bool, line: Seq<char>) -> Seq<
    Ev,
> {
    if line_matches(pat, line) {
        (if open_before {
            seq![Ev::CloseGroup]
        } else {
            Seq::empty()
        }) + seq![Ev::OpenGroup(group_label(capture_of(pat->Some_0, line)->Some_0)), Ev::Echo(line)]
    } else {
        seq![Ev::Echo(line)]
    }
}

/// Whether a group is open after the line.
pub open spec fn open_after(pat: Option<Seq<char>>, open_before: bool, line: Seq<char>) -> bool {
    open_before || line_matches(pat, line)
}

/// The events a whole stream of lines produces, the closing of a group left
/// open at the end of the stream included.
pub open spec fn stream_events(
    pat: Option<Seq<char>>,
    lines: Seq<Seq<char>>,
    open_before: bool,
) -> Seq<Ev>
    decreases lines.len(),
{
    if lines.len() == 0 {
        if open_before {
            seq![Ev::CloseGroup]
        } else {
            Seq::empty()
        }
    } else {
        line_events(pat, open_before, lines[0]) + stream_events(
            pat,
            lines.skip(1),
            open_after(pat, open_before, lines[0]),
        )
    }
}

/// Scans an event stream for group discipline: `None` when a marker is
/// ill-placed (a group opened over an open one, or closed with none open),
/// otherwise whether a group is open after the stream.
pub open spec fn scan_groups(s: Seq<Ev>, open_before: bool) -> Option<bool>
    decreases s.len(),
{
    if s.len() == 0 {
        Some(open_before)
    } else {
        match s[0] {
            Ev::OpenGroup(_) => if open_before {
                None
            } else {
                scan_groups(s.skip(1), true)
            },
            Ev::CloseGroup => if open_before {
                scan_groups(s.skip(1), false)
            } else {
                None
            },
            _ => scan_groups(s.skip(1), open_before),
        }
    }
}

proof fn lemma_scan_groups_add(a: Seq<Ev>, b: Seq<Ev>, open_before: bool)
    requires
        scan_groups(a, open_before) is Some,
    ensures
        scan_groups(a + b, open_before) == scan_groups(b, scan_groups(a, open_before)->Some_0),
    decreases a.len(),
{
    if a.len() == 0 {
        assert(a + b =~= b);
    } else {
        assert((a + b)[0] == a[0]);
        assert((a + b).skip(1) =~= a.skip(1) + b);
        match a[0] {
            Ev::OpenGroup(_) => {
                lemma_scan_groups_add(a.skip(1), b, true);
            },
            Ev::CloseGroup => {
                lemma_scan_groups_add(a.skip(1), b, false);
            },
            _ => {
                lemma_scan_groups_add(a.skip(1), b, open_before);
            },
        }
    }
}

proof fn lemma_line_events_scan(pat: Option<Seq<char>>, open_before: bool, line: Seq<char>)
    ensures
        scan_groups(line_events(pat, open_before, line), open_before) == Some(
            open_after(pat, open_before, line),
        ),
{
    let s = line_events(pat, open_before, line);
    let e0 = Seq::<Ev>::empty();
    let s_echo = seq![Ev::Echo(line)];
    assert(s_echo.skip(1) =~= e0);
    assert(scan_groups(e0, true) == Some(true));
    assert(scan_groups(e0, false) == Some(false));
    assert(scan_groups(s_echo, true) == Some(true));
    assert(scan_groups(s_echo, false) == Some(false));
    if line_matches(pat, line) {
        let lbl = group_label(capture_of(pat->Some_0, line)->Some_0);
        let s_open = seq![Ev::OpenGroup(lbl), Ev::Echo(line)];
        assert(s_open.skip(1) =~= s_echo);
        assert(scan_groups(s_open, false) == Some(true));
        if open_before {
            let s_close = seq![Ev::CloseGroup, Ev::OpenGroup(lbl), Ev::Echo(line)];
            assert(s_close.skip(1) =~= s_open);
            assert(scan_groups(s_close, true) == Some(true));
            assert(s =~= s_close);
        } else {
            assert(s =~= s_open);
        }
    } else {
        assert(s =~= s_echo);
    }
}

/// Law: the streaming runner's output brackets groups properly, whatever
/// the pattern and the lines — a group opens only when none is open, closes
/// only when one is, and no group is left open once the stream has ended.
pub proof fn lemma_stream_events_well_bracketed(
    pat: Option<Seq<char>>,
    lines: Seq<Seq<char>>,
    open_before: bool,
)
    ensures
        scan_groups(stream_events(pat, lines, open_before), open_before) == Some(false),
    decreases lines.len(),
{
    if lines.len() == 0 {
        assert(scan_groups(Seq::<Ev>::empty(), false) == Some(false));
        if open_before {
            assert(stream_events(pat, lines, open_before) =~= seq![Ev::CloseGroup]);
            assert(seq![Ev::CloseGroup].skip(1) =~= Seq::<Ev>::empty());
            assert(scan_groups(seq![Ev::CloseGroup], true) == Some(false));
        } else {
            assert(stream_events(pat, lines, open_before) =~= Seq::<Ev>::empty());
        }
    } else {
        let le = line_events(pat, open_before, lines[0]);
        let oa = open_after(pat, open_before, lines[0]);
        lemma_line_events_scan(pat, open_before, lines[0]);
        lemma_scan_groups_add(le, stream_events(pat, lines.skip(1), oa), open_before);
        lemma_stream_events_well_bracketed(pat, lines.skip(1), oa);
    }
}

/// The lines an event stream echoes, in order.
pub open spec fn echoed_lines(s: Seq<Ev>) -> Seq<Seq<char>>
    decreases s.len(),
{
    if s.len() == 0 {
        Seq::empty()
    } else {
        match s[0] {
            Ev::Echo(l) => seq![l] + echoed_lines(s.skip(1)),
            _ => echoed_lines(s.skip(1)),
        }
    }
}

proof fn lemma_echoed_lines_add(a: Seq<Ev>, b: Seq<Ev>)
    ensures
        echoed_lines(a + b) == echoed_lines(a) + echoed_lines(b),
    decreases a.len(),
{
    if a.len() == 0 {
        assert(a + b =~= b);
        assert(echoed_lines(a) + echoed_lines(b) =~= echoed_lines(b));
    } else {
        assert((a + b)[0] == a[0]);
        assert((a + b).skip(1) =~= a.skip(1) + b);
        lemma_echoed_lines_add(a.skip(1), b);
        match a[0] {
            Ev::Echo(l) => {
                assert(seq![l] + (echoed_lines(a.skip(1)) + echoed_lines(b)) =~= (seq![l]
                    + echoed_lines(a.skip(1))) + echoed_lines(b));
            },
            _ => {},
        }
    }
}

proof fn lemma_line_events_echo(pat: Option<Seq<char>>, open_before: bool, line: Seq<char>)
    ensures
        echoed_lines(line_events(pat, open_before, line)) == seq![line],
{
    let s = line_events(pat, open_before, line);
    let e0 = Seq::<Ev>::empty();
    let s_echo = seq![Ev::Echo(line)];
    assert(s_echo.skip(1) =~= e0);
    assert(echoed_lines(e0) =~= Seq::<Seq<char>>::empty());
    assert(echoed_lines(s_echo) =~= seq![line]);
    if line_matches(pat, line) {
        let lbl = group_label(capture_of(pat->Some_0, line)->Some_0);
        let s_open = seq![Ev::OpenGroup(lbl), Ev::Echo(line)];
        assert(s_open.skip(1) =~= s_echo);
        assert(echoed_lines(s_open) =~= seq![line]);
        if open_before {
            let s_close = seq![Ev::CloseGroup, Ev::OpenGroup(lbl), Ev::Echo(line)];
            assert(s_close.skip(1) =~= s_open);
            assert(echoed_lines(s_close) =~= seq![line]);
            assert(s =~= s_close);
        } else {
            assert(s =~= s_open);
        }
    } else {
        assert(s =~= s_echo);
    }
}

/// Law: the streaming runner echoes exactly the lines of the stream, each
/// once and in the order produced, whatever the pattern and the open state.
pub proof fn lemma_stream_events_echo_order(
    pat: Option<Seq<char>>,
    lines: Seq<Seq<char>>,
    open_before: bool,
)
    ensures
        echoed_lines(stream_events(pat, lines, open_before)) == lines,
    decreases lines.len(),
{
    if lines.len() == 0 {
        assert(echoed_lines(Seq::<Ev>::empty()) =~= lines);
        if open_before {
            assert(stream_events(pat, lines, open_before) =~= seq![Ev::CloseGroup]);
            assert(seq![Ev::CloseGroup].skip(1) =~= Seq::<Ev>::empty());
            assert(echoed_lines(seq![Ev::CloseGroup]) =~= lines);
        } else {
            assert(stream_events(pat, lines, open_before) =~= Seq::<Ev>::empty());
        }
    } else {
        let le = line_events(pat, open_before, lines[0]);
        let oa = open_after(pat, open_before, lines[0]);
        lemma_line_events_echo(pat, open_before, lines[0]);
        lemma_echoed_lines_add(le, stream_events(pat, lines.skip(1), oa));
        lemma_stream_events_echo_order(pat, lines.skip(1), oa);
        assert(seq![lines[0]] + lines.skip(1) =~= lines);
    }
}

/// The streaming runner's line processor: applies the optional grouping
/// pattern to each line as it arrives, keeps at most one group open at a
/// time, and echoes every line unchanged, in order.
pub struct LineGrouper {
    pattern: Option<GroupPattern>,
    open: bool,
}

impl LineGrouper {
    /// The text of the grouping pattern, if one is set.
    pub closed spec fn pat(&self) -> Option<Seq<char>> {
        pattern_text(self.pattern)
    }

    /// Whether a group is open.
    pub closed spec fn is_open(&self) -> bool {
        self.open
    }

    /// A fresh processor with no group open.
    pub fn new(pattern: Option<GroupPattern>) -> (r: LineGrouper)
        ensures
            r.pat() == pattern_text(pattern),
            !r.is_open(),
    {
        LineGrouper { pattern, open: false }
    }

    /// Processes one line of the stream: the returned events are the group
    /// switch the line causes, if any, followed by the echo of the line.
    pub fn feed_line(&mut self, line: &str) -> (r: Vec<LogEvent>)
        ensures
            final(self).pat() == old(self).pat(),
            final(self).is_open() == open_after(old(self).pat(), old(self).is_open(), line@),
            evs(r@) == line_events(old(self).pat(), old(self).is_open(), line@),
    {
        let mut out: Vec<LogEvent> = Vec::new();
        let cap: Option<String> = match &self.pattern {
            Some(gp) => gp.first_capture(line),
            None => None,
        };
        match cap {
            Some(c) => {
                if self.open {
                    out.push(LogEvent::CloseGroup);
                }
                let mut label = String::from_str("Unit Tests: ");
                label.append(c.as_str());
                out.push(LogEvent::OpenGroup(label));
                self.open = true;
            },
            None => {},
        }
        out.push(LogEvent::Echo(line.to_owned()));
        proof {
            assert(evs(out@) =~= line_events(old(self).pat(), old(self).is_open(), line@));
        }
        out
    }

    /// Ends the stream: closes the group left open, if any.
    pub fn finish(&mut self) -> (r: Vec<LogEvent>)
        ensures
            final(self).pat() == old(self).pat(),
            !final(self).is_open(),
            evs(r@) == stream_events(old(self).pat(), Seq::empty(), old(self).is_open()),
    {
        let mut out: Vec<LogEvent> = Vec::new();
        if self.open {
            out.push(LogEvent::CloseGroup);
            self.open = false;
        }
        proof {
            assert(evs(out@) =~= stream_events(old(self).pat(), Seq::empty(), old(self).is_open()));
        }
        out
    }

    /// Processes a whole stream of lines and ends it: every line is applied
    /// in order and a group left open at the end is closed.
    pub fn process_stream(&mut self, lines: &Vec<String>) -> (r: Vec<LogEvent>)
        ensures
            final(self).pat() == old(self).pat(),
            !final(self).is_open(),
            evs(r@) == stream_events(old(self).pat(), views_of(lines@), old(self).is_open()),
    {
        let mut out: Vec<LogEvent> = Vec::new();
        let mut i: usize = 0;
        proof {
            assert(views_of(lines@).skip(0) =~= views_of(lines@));
            assert(evs(out@) =~= Seq::<Ev>::empty());
        }
        while i < lines.len()
            invariant
                i <= lines@.len(),
                self.pat() == old(self).pat(),
                evs(out@) + stream_events(self.pat(), views_of(lines@).skip(i as int), self.is_open())
                    == stream_events(old(self).pat(), views_of(lines@), old(self).is_open()),
            decreases lines@.len() - i,
        {
            let ghost vs = views_of(lines@);
            let ghost open_before = self.is_open();
            let ghost prefix = evs(out@);
            let mut step = self.feed_line(lines[i].as_str());
            out.append(&mut step);
            proof {
                assert(vs.skip(i as int)[0] == vs[i as int]);
                assert(vs.skip(i as int).skip(1) =~= vs.skip(i + 1));
                assert(evs(out@) =~= prefix + line_events(self.pat(), open_before, vs[i as int]));
                assert((prefix + line_events(self.pat(), open_before, vs[i as int]))
                    + stream_events(self.pat(), vs.skip(i + 1), self.is_open()) =~= prefix + (
                line_events(self.pat(), open_before, vs[i as int]) + stream_events(
                    self.pat(),
                    vs.skip(i + 1),
                    self.is_open(),
                )));
            }
            i += 1;
        }
        proof {
            assert(views_of(lines@).skip(lines@.len() as int) =~= Seq::<Seq<char>>::empty());
        }
        let mut tail = self.finish();
        out.append(&mut tail);
        proof {
            assert(evs(out@) =~= stream_events(old(self).pat(), views_of(lines@), old(
                self,
            ).is_open()));
        }
        out
    }
}

} // verus!
