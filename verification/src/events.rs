use vstd::prelude::*;

verus! {

/// One line of presentation output that a runner asks its caller to emit:
/// informational and warning notices, the paired open/close markers of a
/// named log group, and the raw echo of a child process's output line.
#[derive(Debug, PartialEq, Eq)]
pub enum LogEvent {
    Info(String),
    Warn(String),
    OpenGroup(String),
    CloseGroup,
    Echo(String),
}

/// The mathematical model of a `LogEvent`: the same shape over `Seq<char>`.
pub ghost enum Ev {
    Info(Seq<char>),
    Warn(Seq<char>),
    OpenGroup(Seq<char>),
    CloseGroup,
    Echo(Seq<char>),
}

impl View for LogEvent {
    type V = Ev;

    open spec fn view(&self) -> Ev {
        match self {
            LogEvent::Info(s) => Ev::Info(s@),
            LogEvent::Warn(s) => Ev::Warn(s@),
            LogEvent::OpenGroup(s) => Ev::OpenGroup(s@),
            LogEvent::CloseGroup => Ev::CloseGroup,
            LogEvent::Echo(s) => Ev::Echo(s@),
        }
    }
}

/// The model of an emitted event sequence.
pub open spec fn evs(v: Seq<LogEvent>) -> Seq<Ev> {
    v.map_values(|e: LogEvent| e@)
}

/// The model of a concatenation of event sequences is the concatenation of
/// their models.
pub proof fn lemma_evs_add(a: Seq<LogEvent>, b: Seq<LogEvent>)
    ensures
        evs(a + b) == evs(a) + evs(b),
{
    assert(evs(a + b).len() == (a + b).len());
    assert(evs(a).len() == a.len());
    assert(evs(b).len() == b.len());
    assert forall|k: int| 0 <= k < (a + b).len() implies evs(a + b)[k] == (evs(a) + evs(b))[k] by {
        assert(evs(a + b)[k] == (a + b)[k]@);
        if k < a.len() {
            assert((a + b)[k] == a[k]);
            assert(evs(a)[k] == a[k]@);
        } else {
            assert((a + b)[k] == b[k - a.len()]);
            assert(evs(b)[k - a.len()] == b[k - a.len()]@);
        }
    }
    assert(evs(a + b) =~= evs(a) + evs(b));
}

} // verus!
