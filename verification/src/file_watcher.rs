//! The watched directory and the filter that every batch of events passes.
use crate::config::PathKind;
use crate::error::Error;
use crate::event::{DebouncedEvent, EventKind};
use crate::whitelist::{glob_matches, set_globs, set_is_match};
use globset::{Glob, GlobSet};
use vstd::prelude::*;
use vstd::string::StringExecFns;

verus! {

/// The text that `std` writes for a string with `{:?}`: the string between
/// double quotes, with its special characters escaped.
pub uninterp spec fn debug_text(text: Seq<char>) -> Seq<char>;

/// `std`'s `Debug` formatting of a string.
#[verifier::external_body]
fn quoted(text: &str) -> (r: String)
    ensures
        r@ == debug_text(text@),
{
    format!("{:?}", text)
}

/// The directory under watch.
#[derive(Debug)]
pub struct FileWatcher {
    path: String,
}

/// How the directory is to be watched.
#[derive(Debug)]
pub struct WatchPlan {
    /// The directory.
    pub path: String,
    /// Whether what lies below the directory's own entries is watched too.
    pub recursive: bool,
    /// The time, in milliseconds, within which notifications are gathered
    /// into one batch.
    pub debounce_millis: u64,
}

impl FileWatcher {
    /// The directory under watch.
    pub closed spec fn spec_path(&self) -> Seq<char> {
        self.path@
    }

    /// Whether the directory has to be created before it can be watched: it
    /// has, where nothing stands at the path.
    pub fn must_create(kind: PathKind) -> (create: bool)
        ensures
            create == (kind is Missing),
    {
        match kind {
            PathKind::Missing => true,
            _ => false,
        }
    }

    /// A watcher for the directory at `path`, given what stands at the path
    /// once the caller has created what [`FileWatcher::must_create`] asked
    /// for. A regular file cannot be watched.
    pub fn new(path: String, kind: PathKind) -> (r: Result<FileWatcher, Error>)
        ensures
            match r {
                Ok(watcher) => !(kind is File) && watcher.spec_path() == path@,
                Err(Error::NotDirectory(text)) => kind is File && text@
                    == "The specified path is a file: "@ + debug_text(path@),
                Err(_) => false,
            },
    {
        match kind {
            PathKind::File => {
                let text = String::from_str("The specified path is a file: ").concat(
                    quoted(path.as_str()).as_str(),
                );
                Err(Error::NotDirectory(text))
            },
            _ => Ok(FileWatcher { path }),
        }
    }

    /// The directory under watch.
    pub fn path(&self) -> (path: &String)
        ensures
            path@ == self.spec_path(),
    {
        &self.path
    }

    /// How the debouncer is to watch: the directory's own entries only, with
    /// notifications gathered over one millisecond.
    pub fn debouncer(&self) -> (plan: WatchPlan)
        ensures
            plan.path@ == self.spec_path(),
            !plan.recursive,
            plan.debounce_millis == 1,
    {
        WatchPlan { path: self.path.clone(), recursive: false, debounce_millis: 1 }
    }
}

/// Whether some glob among `globs` matches `path`.
pub open spec fn admits(globs: Seq<Glob>, path: Seq<char>) -> bool {
    exists|i: int| 0 <= i < globs.len() && #[trigger] glob_matches(globs[i], path)
}

/// Whether one of the event's paths is matched by some glob.
pub open spec fn some_path_admitted(event: DebouncedEvent, globs: Seq<Glob>) -> bool {
    exists|j: int| 0 <= j < event.paths@.len() && admits(globs, #[trigger] event.paths@[j]@)
}

/// Whether an event passes the filter: its kind is one of `kinds`, and one of
/// its paths is matched by some glob.
pub open spec fn passes(
    event: DebouncedEvent,
    kinds: Seq<EventKind>,
    globs: Seq<Glob>,
) -> bool {
    kinds.contains(event.kind) && some_path_admitted(event, globs)
}

/// The events of a batch that pass the filter, in the order of the batch.
pub open spec fn filtered(
    events: Seq<DebouncedEvent>,
    kinds: Seq<EventKind>,
    globs: Seq<Glob>,
) -> Seq<DebouncedEvent> {
    events.filter(|event: DebouncedEvent| passes(event, kinds, globs))
}

/// Whether `kind` is one of `kinds`.
pub fn kind_allowed(kinds: &Vec<EventKind>, kind: EventKind) -> (found: bool)
    ensures
        found == kinds@.contains(kind),
{
    let mut i: usize = 0;
    while i < kinds.len()
        invariant
            i <= kinds.len(),
            forall|k: int| 0 <= k < i ==> kinds@[k] != kind,
        decreases kinds.len() - i,
    {
        if kinds[i] == kind {
            return true;
        }
        i += 1;
    }
    false
}

/// Whether the whitelist matches one of the event's paths.
pub fn any_path_matches(event: &DebouncedEvent, globset: &GlobSet) -> (found: bool)
    ensures
        found == some_path_admitted(*event, set_globs(*globset)),
{
    let mut j: usize = 0;
    while j < event.paths.len()
        invariant
            j <= event.paths.len(),
            forall|k: int| 0 <= k < j ==> !admits(set_globs(*globset), event.paths@[k]@),
        decreases event.paths.len() - j,
    {
        if set_is_match(globset, event.paths[j].as_str()) {
            return true;
        }
        j += 1;
    }
    false
}

/// Keeps the events whose kind is allowed and of which the whitelist matches
/// at least one path. The events that stay keep their order.
pub fn retain_passing(
    events: Vec<DebouncedEvent>,
    kinds: &Vec<EventKind>,
    globset: &GlobSet,
) -> (kept: Vec<DebouncedEvent>)
    ensures
        kept@ == filtered(events@, kinds@, set_globs(*globset)),
{
    let ghost pred = |event: DebouncedEvent| passes(event, kinds@, set_globs(*globset));
    let ghost batch = events@;
    let mut kept: Vec<DebouncedEvent> = Vec::new();
    proof {
        reveal(Seq::filter);
        assert(batch.take(0).filter(pred) =~= Seq::<DebouncedEvent>::empty());
    }
    for event in it: events.into_iter()
        invariant
            it.seq() == batch,
            pred == (|event: DebouncedEvent| passes(event, kinds@, set_globs(*globset))),
            kept@ == batch.take(it.index()).filter(pred),
    {
        let keep = kind_allowed(kinds, event.kind) && any_path_matches(&event, globset);
        proof {
            let before = batch.take(it.index());
            let after = batch.take(it.index() + 1);
            assert(after.drop_last() =~= before);
            assert(after.last() == event);
            assert(keep == pred(event));
            reveal(Seq::filter);
        }
        if keep {
            kept.push(event);
        }
    }
    proof {
        assert(batch.take(batch.len() as int) =~= batch);
    }
    kept
}

/// The event filter: keeps an event if and only if its kind is one of `kinds`
/// and the whitelist matches at least one of its paths. What stays is in the
/// order of the batch.
pub fn filter_events(
    events: Vec<DebouncedEvent>,
    kinds: Vec<EventKind>,
    globset: GlobSet,
) -> (kept: Vec<DebouncedEvent>)
    ensures
        kept@ == filtered(events@, kinds@, set_globs(globset)),
{
    retain_passing(events, &kinds, &globset)
}

/// The positions in a batch of the events that pass the filter, in rising
/// order.
pub open spec fn kept_positions(
    events: Seq<DebouncedEvent>,
    kinds: Seq<EventKind>,
    globs: Seq<Glob>,
) -> Seq<int>
    decreases events.len(),
{
    if events.len() == 0 {
        Seq::empty()
    } else if passes(events.last(), kinds, globs) {
        kept_positions(events.drop_last(), kinds, globs).push(events.len() - 1)
    } else {
        kept_positions(events.drop_last(), kinds, globs)
    }
}

/// The filter is exact. Every event that it keeps is an event of the batch
/// that has an allowed kind and a path matched by the whitelist, and every
/// such event of the batch is kept.
pub proof fn lemma_filter_correct(
    events: Seq<DebouncedEvent>,
    kinds: Seq<EventKind>,
    globs: Seq<Glob>,
)
    ensures
        forall|i: int|
            0 <= i < filtered(events, kinds, globs).len() ==> {
                &&& events.contains(#[trigger] filtered(events, kinds, globs)[i])
                &&& passes(filtered(events, kinds, globs)[i], kinds, globs)
            },
        forall|i: int|
            0 <= i < events.len() && passes(#[trigger] events[i], kinds, globs) ==> filtered(
                events,
                kinds,
                globs,
            ).contains(events[i]),
{
    let kept = filtered(events, kinds, globs);
    lemma_filter_stable(events, kinds, globs);
    let positions = kept_positions(events, kinds, globs);
    assert forall|i: int| 0 <= i < kept.len() implies {
        &&& events.contains(#[trigger] kept[i])
        &&& passes(kept[i], kinds, globs)
    } by {
        assert(kept[i] == events[positions[i]]);
    }
    assert forall|i: int|
        0 <= i < events.len() && passes(#[trigger] events[i], kinds, globs) implies kept.contains(
        events[i],
    ) by {
        let k = choose|k: int| 0 <= k < positions.len() && positions[k] == i;
        assert(kept[k] == events[i]);
    }
}

/// The filter neither reorders nor repeats. What it keeps is the batch read
/// at the rising positions of the events that pass: each position of the batch
/// that holds a passing event is taken once, and no other position is taken.
pub proof fn lemma_filter_stable(
    events: Seq<DebouncedEvent>,
    kinds: Seq<EventKind>,
    globs: Seq<Glob>,
)
    ensures
        filtered(events, kinds, globs).len() == kept_positions(events, kinds, globs).len(),
        forall|k: int|
            0 <= k < kept_positions(events, kinds, globs).len() ==> {
                &&& 0 <= #[trigger] kept_positions(events, kinds, globs)[k] < events.len()
                &&& passes(events[kept_positions(events, kinds, globs)[k]], kinds, globs)
                &&& filtered(events, kinds, globs)[k] == events[kept_positions(
                    events,
                    kinds,
                    globs,
                )[k]]
            },
        forall|k: int, l: int|
            0 <= k < l < kept_positions(events, kinds, globs).len() ==> #[trigger] kept_positions(
                events,
                kinds,
                globs,
            )[k] < #[trigger] kept_positions(events, kinds, globs)[l],
        forall|i: int|
            0 <= i < events.len() && passes(#[trigger] events[i], kinds, globs) ==> exists|k: int|
                0 <= k < kept_positions(events, kinds, globs).len() && #[trigger] kept_positions(
                    events,
                    kinds,
                    globs,
                )[k] == i,
    decreases events.len(),
{
    reveal(Seq::filter);
    if events.len() > 0 {
        let shorter = events.drop_last();
        lemma_filter_stable(shorter, kinds, globs);
        let positions = kept_positions(events, kinds, globs);
        let earlier = kept_positions(shorter, kinds, globs);
        assert forall|i: int|
            0 <= i < events.len() && passes(#[trigger] events[i], kinds, globs) implies exists|
            k: int,
        | 0 <= k < positions.len() && #[trigger] positions[k] == i by {
            if i < shorter.len() {
                assert(passes(shorter[i], kinds, globs));
                let k = choose|k: int| 0 <= k < earlier.len() && #[trigger] earlier[k] == i;
                assert(positions[k] == i);
            } else {
                assert(positions[positions.len() - 1] == i);
            }
        }
    }
}

/// A whitelist without globs admits nothing: whatever the batch and the
/// allowed kinds, the filter keeps no event.
pub proof fn lemma_empty_whitelist_keeps_nothing(
    events: Seq<DebouncedEvent>,
    kinds: Seq<EventKind>,
)
    ensures
        filtered(events, kinds, Seq::<Glob>::empty()) == Seq::<DebouncedEvent>::empty(),
{
    let kept = filtered(events, kinds, Seq::<Glob>::empty());
    lemma_filter_correct(events, kinds, Seq::<Glob>::empty());
    if kept.len() > 0 {
        assert(passes(kept[0], kinds, Seq::<Glob>::empty()));
    }
    assert(kept =~= Seq::<DebouncedEvent>::empty());
}

} // verus!
