//! The streaming build-output collector.
//!
//! The external toolchain is invoked with a flag that makes it emit one
//! structured record per line on standard output. Each line is classified as
//! a [`BuildEvent`]; the collector walks the stream in order, accumulates the
//! artifacts of the `ArtifactProduced` records, and stops at the first
//! `BuildFinished` record or at the first line that parses as no known
//! record. Artifacts arrive in stream order and are kept in that order,
//! duplicates included; a stopped stream yields whatever was collected so
//! far, never an error.

use vstd::prelude::*;
use cargo_metadata::Message;
use serde::Deserialize;

verus! {

/// One compiled build output, as the collector keeps it: the target's name
/// and the full paths of the generated files. The collector never interprets
/// these fields, it only aggregates records in arrival order.
#[derive(Debug, PartialEq, Eq)]
pub struct Artifact {
    pub name: String,
    pub filenames: Vec<String>,
}

/// The mathematical value of an [`Artifact`].
pub struct ArtifactView {
    pub name: Seq<char>,
    pub filenames: Seq<Seq<char>>,
}

impl View for Artifact {
    type V = ArtifactView;

    open spec fn view(&self) -> ArtifactView {
        ArtifactView { name: self.name@, filenames: self.filenames.deep_view() }
    }
}

fn clone_strings(v: &Vec<String>) -> (r: Vec<String>)
    ensures
        r@ == v@,
{
    let mut r: Vec<String> = Vec::new();
    let mut i: usize = 0;
    while i < v.len()
        invariant
            0 <= i <= v.len(),
            r@ =~= v@.subrange(0, i as int),
        decreases v.len() - i,
    {
        r.push(v[i].clone());
        i += 1;
    }
    proof {
        assert(r@ =~= v@);
    }
    r
}

impl Clone for Artifact {
    /// Clones preserve the artifact's value.
    fn clone(&self) -> (r: Self)
        ensures
            r@ == self@,
    {
        let r = Artifact { name: self.name.clone(), filenames: clone_strings(&self.filenames) };
        proof {
            assert(r.filenames.deep_view() == self.filenames.deep_view());
        }
        r
    }
}

/// The classification of one line of the toolchain's output stream.
/// `Unrecognized` is a record of a kind this collector does not know but that
/// still parsed as a record; `Malformed` is a line that parsed as no known
/// record at all, which ends the collection.
#[derive(Debug)]
pub enum BuildEvent {
    ArtifactProduced(Artifact),
    DiagnosticMessage,
    PlainText,
    BuildScriptRan,
    BuildFinished { success: bool },
    Unrecognized,
    Malformed,
}

/// The mathematical value of a [`BuildEvent`].
pub enum BuildEventView {
    ArtifactProduced(ArtifactView),
    DiagnosticMessage,
    PlainText,
    BuildScriptRan,
    BuildFinished { success: bool },
    Unrecognized,
    Malformed,
}

impl View for BuildEvent {
    type V = BuildEventView;

    open spec fn view(&self) -> BuildEventView {
        match self {
            BuildEvent::ArtifactProduced(a) => BuildEventView::ArtifactProduced(a@),
            BuildEvent::DiagnosticMessage => BuildEventView::DiagnosticMessage,
            BuildEvent::PlainText => BuildEventView::PlainText,
            BuildEvent::BuildScriptRan => BuildEventView::BuildScriptRan,
            BuildEvent::BuildFinished { success } => BuildEventView::BuildFinished {
                success: *success,
            },
            BuildEvent::Unrecognized => BuildEventView::Unrecognized,
            BuildEvent::Malformed => BuildEventView::Malformed,
        }
    }
}

/// The classification that parsing assigns to one line of output. It depends
/// on the line's characters alone.
pub uninterp spec fn parse_of(line: Seq<char>) -> BuildEventView;

/// Relies on `serde_json::Deserializer::from_str` with the recursion limit
/// disabled and on `cargo_metadata::Message`'s `Deserialize` impl: a line is
/// deserialized as one structured toolchain record and classified by its
/// variant, so the result is a function of the line's characters alone.
#[verifier::external_body]
fn parse_line(line: &String) -> (r: BuildEvent)
    ensures
        r@ == parse_of(line@),
{
    let mut de = serde_json::Deserializer::from_str(line.as_str());
    de.disable_recursion_limit();
    match Message::deserialize(&mut de) {
        Ok(Message::CompilerArtifact(a)) => BuildEvent::ArtifactProduced(Artifact {
            name: a.target.name,
            filenames: a.filenames.into_iter().map(|f| f.into_string()).collect(),
        }),
        Ok(Message::CompilerMessage(_)) => BuildEvent::DiagnosticMessage,
        Ok(Message::BuildScriptExecuted(_)) => BuildEvent::BuildScriptRan,
        Ok(Message::BuildFinished(f)) => BuildEvent::BuildFinished { success: f.success },
        Ok(Message::TextLine(_)) => BuildEvent::PlainText,
        Ok(_) => BuildEvent::Unrecognized,
        Err(_) => BuildEvent::Malformed,
    }
}

/// Whether a record ends the collection: the terminal build-finished record
/// does, and so does a malformed line.
pub open spec fn stops_collection(ev: BuildEventView) -> bool {
    ev is BuildFinished || ev is Malformed
}

/// The artifacts a stream of records yields: those of the `ArtifactProduced`
/// records that precede the first stopping record, in stream order,
/// duplicates included.
pub open spec fn collected(evs: Seq<BuildEventView>) -> Seq<ArtifactView>
    decreases evs.len(),
{
    if evs.len() == 0 {
        Seq::empty()
    } else if stops_collection(evs[0]) {
        Seq::empty()
    } else {
        match evs[0] {
            BuildEventView::ArtifactProduced(a) => seq![a] + collected(evs.drop_first()),
            _ => collected(evs.drop_first()),
        }
    }
}

/// The values of a sequence of artifacts.
pub open spec fn arts_view(v: Seq<Artifact>) -> Seq<ArtifactView> {
    v.map_values(|a: Artifact| a@)
}

/// The values of a sequence of records.
pub open spec fn events_view(v: Seq<BuildEvent>) -> Seq<BuildEventView> {
    v.map_values(|e: BuildEvent| e@)
}

/// The classifications of a sequence of output lines.
pub open spec fn parsed_stream(lines: Seq<String>) -> Seq<BuildEventView> {
    lines.map_values(|l: String| parse_of(l@))
}

proof fn lemma_view_skip(evs: Seq<BuildEventView>, i: int)
    requires
        0 <= i < evs.len(),
    ensures
        evs.skip(i).len() == evs.len() - i,
        evs.skip(i)[0] == evs[i],
        evs.skip(i).drop_first() =~= evs.skip(i + 1),
{
}

/// The collector's incremental state: the artifacts gathered so far and
/// whether a stopping record has been seen.
pub struct CollectorState {
    artifacts: Vec<Artifact>,
    done: bool,
}

/// The mathematical value of a [`CollectorState`].
pub struct CollectorView {
    pub artifacts: Seq<ArtifactView>,
    pub done: bool,
}

impl View for CollectorState {
    type V = CollectorView;

    closed spec fn view(&self) -> CollectorView {
        CollectorView { artifacts: arts_view(self.artifacts@), done: self.done }
    }
}

/// How one record advances the collector: nothing once it is done; a
/// stopping record marks it done; an artifact record appends its artifact;
/// every other record leaves it unchanged.
pub open spec fn collector_step(s: CollectorView, ev: BuildEventView) -> CollectorView {
    if s.done {
        s
    } else if stops_collection(ev) {
        CollectorView { artifacts: s.artifacts, done: true }
    } else {
        match ev {
            BuildEventView::ArtifactProduced(a) => CollectorView {
                artifacts: s.artifacts.push(a),
                done: false,
            },
            _ => s,
        }
    }
}

/// The collector's state after a whole stream of records.
pub open spec fn collector_run(s: CollectorView, evs: Seq<BuildEventView>) -> CollectorView
    decreases evs.len(),
{
    if evs.len() == 0 {
        s
    } else {
        collector_run(collector_step(s, evs[0]), evs.drop_first())
    }
}

impl CollectorState {
    /// A fresh collector: nothing gathered, not done.
    pub fn new() -> (c: Self)
        ensures
            c@ == (CollectorView { artifacts: Seq::<ArtifactView>::empty(), done: false }),
    {
        let c = CollectorState { artifacts: Vec::new(), done: false };
        proof {
            assert(arts_view(c.artifacts@) =~= Seq::<ArtifactView>::empty());
        }
        c
    }

    /// Advances the collector by one already-classified record.
    pub fn push_event(&mut self, ev: BuildEvent)
        ensures
            final(self)@ == collector_step(old(self)@, ev@),
    {
        if self.done {
            return ;
        }
        match ev {
            BuildEvent::ArtifactProduced(a) => {
                let ghost prev = self.artifacts@;
                let ghost av = a@;
                self.artifacts.push(a);
                proof {
                    assert(arts_view(self.artifacts@) =~= arts_view(prev).push(av));
                }
            },
            BuildEvent::BuildFinished { success: _ } => {
                self.done = true;
            },
            BuildEvent::Malformed => {
                self.done = true;
            },
            _ => {},
        }
    }

    /// Advances the collector by one raw output line.
    pub fn push_line(&mut self, line: &String)
        ensures
            final(self)@ == collector_step(old(self)@, parse_of(line@)),
    {
        let ev = parse_line(line);
        self.push_event(ev);
    }

    /// Whether a stopping record has been seen; the surrounding read loop
    /// stops feeding lines once it has.
    pub fn is_done(&self) -> (d: bool)
        ensures
            d == self@.done,
    {
        self.done
    }

    /// Hands out the artifacts gathered so far, in arrival order.
    pub fn into_artifacts(self) -> (r: Vec<Artifact>)
        ensures
            arts_view(r@) == self@.artifacts,
    {
        self.artifacts
    }
}

/// Feeding a collector a stream one record at a time gathers exactly the
/// artifacts of the whole stream: starting from a collector that is not yet
/// done, the artifacts after the run are what was already gathered followed
/// by [`collected`] of the stream, in arrival order; a collector that is
/// already done gathers nothing further.
pub proof fn lemma_streaming_matches_collected(s: CollectorView, evs: Seq<BuildEventView>)
    ensures
        collector_run(s, evs).artifacts == if s.done {
            s.artifacts
        } else {
            s.artifacts + collected(evs)
        },
    decreases evs.len(),
{
    if evs.len() == 0 {
        if !s.done {
            assert(s.artifacts + collected(evs) =~= s.artifacts);
        }
    } else {
        let s1 = collector_step(s, evs[0]);
        lemma_streaming_matches_collected(s1, evs.drop_first());
        if s.done {
        } else if stops_collection(evs[0]) {
            assert(s.artifacts + collected(evs) =~= s.artifacts);
        } else {
            match evs[0] {
                BuildEventView::ArtifactProduced(a) => {
                    assert(s1.artifacts + collected(evs.drop_first()) =~= s.artifacts + (seq![a]
                        + collected(evs.drop_first())));
                },
                _ => {},
            }
        }
    }
}

/// Collects the artifacts of a whole recorded stream of records: those of
/// the artifact records before the first stopping record, in stream order.
pub fn collect_events(events: &Vec<BuildEvent>) -> (arts: Vec<Artifact>)
    ensures
        arts_view(arts@) == collected(events_view(events@)),
{
    let ghost evs = events_view(events@);
    proof {
        assert(evs.skip(0) =~= evs);
    }
    let mut arts: Vec<Artifact> = Vec::new();
    let mut stopped = false;
    let mut i: usize = 0;
    proof {
        assert(arts_view(arts@) =~= Seq::<ArtifactView>::empty());
    }
    while i < events.len() && !stopped
        invariant
            0 <= i <= events.len(),
            evs == events_view(events@),
            evs.len() == events.len(),
            !stopped ==> collected(evs) == arts_view(arts@) + collected(evs.skip(i as int)),
            stopped ==> arts_view(arts@) == collected(evs),
        decreases events.len() - i,
    {
        proof {
            lemma_view_skip(evs, i as int);
            assert(evs[i as int] == events@[i as int]@);
        }
        match &events[i] {
            BuildEvent::ArtifactProduced(a) => {
                let ghost prev = arts@;
                arts.push(a.clone());
                proof {
                    assert(arts_view(arts@) =~= arts_view(prev).push(events@[i as int]@->ArtifactProduced_0));
                    assert(arts_view(prev).push(evs[i as int]->ArtifactProduced_0) + collected(
                        evs.skip(i as int + 1),
                    ) =~= arts_view(prev) + (seq![evs[i as int]->ArtifactProduced_0] + collected(
                        evs.skip(i as int + 1),
                    )));
                }
            },
            BuildEvent::BuildFinished { success: _ } => {
                stopped = true;
                proof {
                    assert(arts_view(arts@) + collected(evs.skip(i as int)) =~= arts_view(arts@));
                }
            },
            BuildEvent::Malformed => {
                stopped = true;
                proof {
                    assert(arts_view(arts@) + collected(evs.skip(i as int)) =~= arts_view(arts@));
                }
            },
            _ => {},
        }
        i += 1;
    }
    proof {
        if !stopped {
            assert(evs.skip(evs.len() as int) =~= Seq::<BuildEventView>::empty());
            assert(arts_view(arts@) + collected(evs.skip(evs.len() as int)) =~= arts_view(arts@));
        }
    }
    arts
}

/// Collects the artifacts of a whole recorded stream of raw output lines:
/// each line is classified as by [`parse_of`], and the artifact records
/// before the first stopping record decide the result, in stream order.
pub fn collect_lines(lines: &Vec<String>) -> (arts: Vec<Artifact>)
    ensures
        arts_view(arts@) == collected(parsed_stream(lines@)),
{
    let ghost evs = parsed_stream(lines@);
    proof {
        assert(evs.skip(0) =~= evs);
    }
    let mut arts: Vec<Artifact> = Vec::new();
    let mut stopped = false;
    let mut i: usize = 0;
    proof {
        assert(arts_view(arts@) =~= Seq::<ArtifactView>::empty());
    }
    while i < lines.len() && !stopped
        invariant
            0 <= i <= lines.len(),
            evs == parsed_stream(lines@),
            evs.len() == lines.len(),
            !stopped ==> collected(evs) == arts_view(arts@) + collected(evs.skip(i as int)),
            stopped ==> arts_view(arts@) == collected(evs),
        decreases lines.len() - i,
    {
        proof {
            lemma_view_skip(evs, i as int);
            assert(evs[i as int] == parse_of(lines@[i as int]@));
        }
        let ev = parse_line(&lines[i]);
        match ev {
            BuildEvent::ArtifactProduced(a) => {
                let ghost prev = arts@;
                let ghost av = a@;
                arts.push(a);
                proof {
                    assert(arts_view(arts@) =~= arts_view(prev).push(av));
                    assert(arts_view(prev).push(av) + collected(evs.skip(i as int + 1))
                        =~= arts_view(prev) + (seq![av] + collected(evs.skip(i as int + 1))));
                }
            },
            BuildEvent::BuildFinished { success: _ } => {
                stopped = true;
                proof {
                    assert(arts_view(arts@) + collected(evs.skip(i as int)) =~= arts_view(arts@));
                }
            },
            BuildEvent::Malformed => {
                stopped = true;
                proof {
                    assert(arts_view(arts@) + collected(evs.skip(i as int)) =~= arts_view(arts@));
                }
            },
            _ => {},
        }
        i += 1;
    }
    proof {
        if !stopped {
            assert(evs.skip(evs.len() as int) =~= Seq::<BuildEventView>::empty());
            assert(arts_view(arts@) + collected(evs.skip(evs.len() as int)) =~= arts_view(arts@));
        }
    }
    arts
}


} // verus!
