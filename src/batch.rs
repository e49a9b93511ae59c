//! The batch orchestrator as a state machine. A driver performs each
//! action against the blob store and the metadata index and hands back
//! what happened; the machine decides what comes next.
use crate::key::{content_key, get_sha1, TransformCfg};
use crate::transform::{fits_memory, transform, transformed, TransformError};
use vstd::prelude::*;

verus! {

/// Why a batch was aborted. Every failure aborts the whole batch.
#[derive(Clone, Copy, Debug, PartialEq, Eq, Structural)]
pub enum BatchError {
    /// The raw image is malformed or in an unsupported format.
    Decode,
    /// A resized image could not be encoded.
    Encode,
    /// The raw image is missing or could not be read.
    StorageRead,
    /// Writing the derived blob or the index record failed.
    StorageWrite,
    /// The index lookup itself failed (not a miss).
    IndexQuery,
}

/// What the driver reports back after performing an action.
pub enum Event {
    /// The raw bytes of the source image were read.
    RawFetched(Vec<u8>),
    /// The index was asked for the pending key: `true` on a hit.
    LookedUp(bool),
    /// The derived blob was written.
    Stored,
    /// The index record was written.
    Indexed,
    /// The pending action failed.
    Failed,
}

/// What the driver is asked to do next.
pub enum Action {
    /// Read the raw bytes of the source image (once per batch).
    FetchRaw,
    /// Ask the index whether `(source, key)` is recorded.
    Lookup(String),
    /// Write the derived bytes under the key in the derived bucket.
    Put(String, Vec<u8>),
    /// Record `(source, key)` in the index.
    Insert(String),
    /// The batch succeeded: one key per specification, in input order.
    Finish(Vec<String>),
    /// The batch failed as a whole.
    Abort(BatchError),
}

/// Where a batch stands.
#[derive(Clone, Copy, Debug, PartialEq, Eq, Structural)]
pub enum Phase {
    Fetching,
    Looking,
    Storing,
    Indexing,
    Finished,
    Aborted(BatchError),
}

/// One run of the batch operation over a source image and a list of
/// specifications. `keys` holds the keys of the specifications done so
/// far; `pending` is the key of the next one.
pub struct Batch {
    pub source: String,
    pub specs: Vec<TransformCfg>,
    pub raw: Vec<u8>,
    pub keys: Vec<String>,
    pub pending: String,
    pub phase: Phase,
}

/// The views of a list of strings.
pub open spec fn views(ks: Seq<String>) -> Seq<Seq<char>> {
    ks.map_values(|k: String| k@)
}

/// The content keys of `specs` for `source`, in order.
pub open spec fn keys_for(source: Seq<char>, specs: Seq<TransformCfg>) -> Seq<Seq<char>> {
    specs.map_values(|c: TransformCfg| content_key(source, c))
}

/// The error a batch reports when the action of `phase` fails.
pub open spec fn failure_of(phase: Phase) -> BatchError {
    match phase {
        Phase::Fetching => BatchError::StorageRead,
        Phase::Looking => BatchError::IndexQuery,
        _ => BatchError::StorageWrite,
    }
}

/// The batch error for a transform error.
pub open spec fn from_transform(e: TransformError) -> BatchError {
    match e {
        TransformError::Decode => BatchError::Decode,
        TransformError::Encode => BatchError::Encode,
    }
}

impl Batch {
    /// How many specifications are done.
    pub open spec fn done(self) -> nat {
        self.keys@.len()
    }

    /// The recorded keys are the keys of the first specifications, in
    /// order; `pending` is the key of the next one; a blob or an index
    /// record is only written for a transform that succeeded.
    pub open spec fn wf(self) -> bool {
        &&& self.keys@.len() <= self.specs@.len()
        &&& views(self.keys@) == keys_for(self.source@, self.specs@).take(self.keys@.len() as int)
        &&& forall|i: int| 0 <= i < self.specs@.len() ==> fits_memory(#[trigger] self.specs@[i])
        &&& match self.phase {
            Phase::Fetching => self.keys@.len() == 0,
            Phase::Looking => self.keys@.len() < self.specs@.len() && self.pending@ == content_key(
                self.source@,
                self.specs@[self.keys@.len() as int],
            ),
            Phase::Storing | Phase::Indexing => self.keys@.len() < self.specs@.len()
                && self.pending@ == content_key(
                self.source@,
                self.specs@[self.keys@.len() as int],
            ) && transformed(self.raw@, self.specs@[self.keys@.len() as int]) is Ok,
            Phase::Finished => self.keys@.len() == self.specs@.len(),
            Phase::Aborted(_) => true,
        }
    }

    /// After a key was recorded: either every specification is done and
    /// the batch finishes with all keys, or the next key is looked up.
    pub open spec fn moved_on(self, r: Action) -> bool {
        if self.keys@.len() == self.specs@.len() {
            &&& self.phase == Phase::Finished
            &&& r matches Action::Finish(ks) && views(ks@) == views(self.keys@)
        } else {
            &&& self.phase == Phase::Looking
            &&& r matches Action::Lookup(k) && k@ == self.pending@
        }
    }

    /// Whether `ev` answers the action that `phase` waits on.
    pub open spec fn answers(phase: Phase, ev: Event) -> bool {
        match phase {
            Phase::Fetching => ev is RawFetched,
            Phase::Looking => ev is LookedUp,
            Phase::Storing => ev is Stored,
            Phase::Indexing => ev is Indexed,
            _ => false,
        }
    }

    /// Start a batch for `source` over `specs`: the first action reads the
    /// raw image.
    pub fn start(source: String, specs: Vec<TransformCfg>) -> (r: (Batch, Action))
        requires
            forall|i: int| 0 <= i < specs@.len() ==> fits_memory(#[trigger] specs@[i]),
        ensures
            r.0.wf(),
            r.0.source == source,
            r.0.specs == specs,
            r.0.keys@.len() == 0,
            r.0.phase == Phase::Fetching,
            r.1 is FetchRaw,
    {
        let b = Batch {
            source,
            specs,
            raw: Vec::new(),
            keys: Vec::new(),
            pending: String::new(),
            phase: Phase::Fetching,
        };
        assert(views(b.keys@) =~= keys_for(b.source@, b.specs@).take(0));
        (b, Action::FetchRaw)
    }

    /// Record the pending key and go on with the next specification, or
    /// finish.
    fn record(&mut self) -> (r: Action)
        requires
            old(self).wf(),
            old(self).phase is Looking || old(self).phase is Indexing,
        ensures
            final(self).wf(),
            final(self).source == old(self).source,
            final(self).specs == old(self).specs,
            final(self).raw == old(self).raw,
            final(self).keys@.len() == old(self).keys@.len() + 1,
            views(final(self).keys@) == views(old(self).keys@).push(old(self).pending@),
            final(self).moved_on(r),
    {
        let ghost pre = *self;
        let k = self.pending.clone();
        self.keys.push(k);
        proof {
            let n = pre.keys@.len() as int;
            let all = keys_for(self.source@, self.specs@);
            assert(views(self.keys@) =~= views(pre.keys@).push(pre.pending@));
            assert(all.take(n + 1) =~= all.take(n).push(all[n]));
        }
        if self.keys.len() == self.specs.len() {
            self.phase = Phase::Finished;
            Action::Finish(self.keys.clone())
        } else {
            self.pending = get_sha1(self.source.as_str(), &self.specs[self.keys.len()]);
            self.phase = Phase::Looking;
            Action::Lookup(self.pending.clone())
        }
    }

    /// Take the driver's report on the pending action and decide the next
    /// one. A failure, or a report that does not answer the pending action,
    /// aborts the batch with the error kind of that action; a finished or
    /// aborted batch stays as it is and repeats its final action.
    pub fn step(&mut self, ev: Event) -> (r: Action)
        requires
            old(self).wf(),
        ensures
            final(self).wf(),
            final(self).source == old(self).source,
            final(self).specs == old(self).specs,
            // the raw image is read once and then kept
            !(old(self).phase is Fetching) ==> final(self).raw == old(self).raw,
            old(self).phase is Fetching ==> (ev matches Event::RawFetched(b) ==> {
                &&& final(self).raw@ == b@
                &&& final(self).keys@.len() == 0
                &&& final(self).moved_on(r)
            }),
            // a hit records the key and writes nothing
            old(self).phase is Looking ==> (ev matches Event::LookedUp(hit) && hit ==> {
                &&& views(final(self).keys@) == views(old(self).keys@).push(old(self).pending@)
                &&& final(self).moved_on(r)
                &&& !(r is Put) && !(r is Insert)
            }),
            // a miss transforms the raw image and writes the result
            old(self).phase is Looking ==> (ev matches Event::LookedUp(hit) && !hit ==> {
                let t = transformed(old(self).raw@, old(self).specs@[old(self).keys@.len() as int]);
                &&& final(self).keys == old(self).keys
                &&& match t {
                    Ok(out) => final(self).phase == Phase::Storing && (r matches Action::Put(
                        k,
                        bytes,
                    ) && k@ == old(self).pending@ && bytes@ == out),
                    Err(e) => final(self).phase == Phase::Aborted(from_transform(e)) && r
                        == Action::Abort(from_transform(e)),
                }
            }),
            // the blob is written before the index record
            old(self).phase is Storing && ev is Stored ==> {
                &&& final(self).keys == old(self).keys
                &&& final(self).phase == Phase::Indexing
                &&& r matches Action::Insert(k) && k@ == old(self).pending@
            },
            old(self).phase is Indexing && ev is Indexed ==> {
                &&& views(final(self).keys@) == views(old(self).keys@).push(old(self).pending@)
                &&& final(self).moved_on(r)
            },
            !Self::answers(old(self).phase, ev) && !(old(self).phase is Finished) && !(old(
                self,
            ).phase is Aborted) ==> {
                &&& final(self).keys == old(self).keys
                &&& final(self).phase == Phase::Aborted(failure_of(old(self).phase))
                &&& r == Action::Abort(failure_of(old(self).phase))
            },
            old(self).phase is Finished ==> final(self).keys == old(self).keys && final(self).phase
                == Phase::Finished && (r matches Action::Finish(ks) && views(ks@) == views(
                old(self).keys@,
            )),
            old(self).phase matches Phase::Aborted(e) ==> final(self).keys == old(self).keys
                && final(self).phase == old(self).phase && r == Action::Abort(e),
            // a batch finishes with one key per specification, in input order
            r matches Action::Finish(ks) ==> views(ks@) == keys_for(
                final(self).source@,
                final(self).specs@,
            ),
            // nothing is written for a raw image that does not decode
            !crate::transform::decodes(final(self).raw@) ==> !(r is Put) && !(r is Insert),
    {
        let r = match (self.phase, ev) {
            (Phase::Fetching, Event::RawFetched(b)) => {
                self.raw = b;
                if self.specs.len() == 0 {
                    self.phase = Phase::Finished;
                    let ks: Vec<String> = Vec::new();
                    assert(views(ks@) =~= views(self.keys@));
                    Action::Finish(ks)
                } else {
                    self.pending = get_sha1(self.source.as_str(), &self.specs[0]);
                    self.phase = Phase::Looking;
                    Action::Lookup(self.pending.clone())
                }
            },
            (Phase::Looking, Event::LookedUp(true)) => self.record(),
            (Phase::Looking, Event::LookedUp(false)) => {
                match transform(self.raw.as_slice(), self.specs[self.keys.len()]) {
                    Ok(out) => {
                        self.phase = Phase::Storing;
                        Action::Put(self.pending.clone(), out)
                    },
                    Err(e) => {
                        let err = match e {
                            TransformError::Decode => BatchError::Decode,
                            TransformError::Encode => BatchError::Encode,
                        };
                        self.phase = Phase::Aborted(err);
                        Action::Abort(err)
                    },
                }
            },
            (Phase::Storing, Event::Stored) => {
                self.phase = Phase::Indexing;
                Action::Insert(self.pending.clone())
            },
            (Phase::Indexing, Event::Indexed) => self.record(),
            (Phase::Finished, _) => Action::Finish(self.keys.clone()),
            (Phase::Aborted(e), _) => Action::Abort(e),
            (phase, _) => {
                let err = match phase {
                    Phase::Fetching => BatchError::StorageRead,
                    Phase::Looking => BatchError::IndexQuery,
                    _ => BatchError::StorageWrite,
                };
                self.phase = Phase::Aborted(err);
                Action::Abort(err)
            },
        };
        proof {
            if r is Finish {
                assert(self.keys@.len() == self.specs@.len());
                assert(keys_for(self.source@, self.specs@).take(self.keys@.len() as int)
                    =~= keys_for(self.source@, self.specs@));
            }
        }
        r
    }

}

/// Once a miss has been written back, a later batch with the same source and
/// an equal specification looks up exactly the record that was inserted:
/// with the index as a set of `(source, key)` records, that lookup is a hit,
/// and the key it records is the key the first batch produced.
pub proof fn lemma_write_once(writer: Batch, reader: Batch, index: Set<(Seq<char>, Seq<char>)>)
    requires
        writer.wf(),
        writer.phase is Indexing,
        reader.wf(),
        reader.phase is Looking,
        writer.source@ == reader.source@,
        writer.specs@[writer.done() as int] == reader.specs@[reader.done() as int],
    ensures
        writer.pending@ == reader.pending@,
        index.insert((writer.source@, writer.pending@)).contains((reader.source@, reader.pending@)),
{
}

} // verus!
