//! Blob id codec and the per-cpu merge engine.
//!
//! A blob id is a 64-bit value: the high 16 bits carry the origin cpu index,
//! the low 48 bits a per-cpu, strictly increasing sequence number assigned by
//! the kernel probe. Sequence 0 is reserved: it marks "no blob" in a request
//! and terminates a fragment chain in a fragment's next-id field.

use vstd::prelude::*;

use crate::types::{lw_blob, BlobView, MergedBlob};
use crate::BlobError;

verus! {

/// The origin cpu index held in the high 16 bits of a blob id.
pub open spec fn spec_cpu_of(blob_id: u64) -> u64 {
    (blob_id & 0xFFFF_0000_0000_0000) >> 48
}

/// The per-cpu sequence number held in the low 48 bits of a blob id.
pub open spec fn spec_seq_of(blob_id: u64) -> u64 {
    blob_id & 0x0000_FFFF_FFFF_FFFF
}

/// The blob id built from a cpu index and a sequence number.
pub open spec fn spec_blob_id(cpu: u64, sequence: u64) -> u64 {
    (sequence & 0x0000_FFFF_FFFF_FFFF) | (cpu << 48)
}

/// Splits a blob id into its origin cpu index and its sequence number.
pub fn blob_id_to_seq(blob_id: u64) -> (r: (usize, u64))
    ensures
        r.0 == spec_cpu_of(blob_id),
        r.1 == spec_seq_of(blob_id),
        r.0 < 0x10000,
        r.1 < 0x1_0000_0000_0000,
{
    proof {
        assert((blob_id & 0xFFFF_0000_0000_0000) >> 48 < 0x10000) by (bit_vector);
        assert(blob_id & 0x0000_FFFF_FFFF_FFFF < 0x1_0000_0000_0000) by (bit_vector);
    }
    (
        ((blob_id & 0xFFFF_0000_0000_0000) >> 48) as usize,
        blob_id & 0x0000_FFFF_FFFF_FFFF,
    )
}

/// Builds the blob id with origin cpu `cpu` and sequence `sequence`.
pub fn seq_to_blob_id(cpu: usize, sequence: u64) -> (r: u64)
    ensures
        r == spec_blob_id(cpu as u64, sequence),
{
    let cpu: u64 = cpu as u64;
    (sequence & 0x0000_FFFF_FFFF_FFFF) | (cpu << 48)
}

/// Law: decoding an encoded blob id yields the cpu and the sequence again,
/// for every cpu below the 16-bit cpu-index limit and every 48-bit sequence.
pub proof fn lemma_blob_id_round_trip(cpu: u64, sequence: u64)
    requires
        cpu < 0x10000,
        sequence < 0x1_0000_0000_0000,
    ensures
        spec_cpu_of(spec_blob_id(cpu, sequence)) == cpu,
        spec_seq_of(spec_blob_id(cpu, sequence)) == sequence,
{
    assert(
        ((sequence & 0x0000_FFFF_FFFF_FFFF) | (cpu << 48)) & 0xFFFF_0000_0000_0000 ==
        cpu << 48
    ) by (bit_vector)
        requires
            cpu < 0x10000,
    ;
    assert((cpu << 48) >> 48 == cpu) by (bit_vector)
        requires
            cpu < 0x10000,
    ;
    assert(
        ((sequence & 0x0000_FFFF_FFFF_FFFF) | (cpu << 48)) & 0x0000_FFFF_FFFF_FFFF ==
        sequence
    ) by (bit_vector)
        requires
            sequence < 0x1_0000_0000_0000,
    ;
}

/// Outcome of running one reconstruction over a sequence of available
/// fragments: the chain completed; a sequence overshoot forced a partial
/// result, leaving the overshooting fragment (and everything after it)
/// available; or the fragments ran out with the chain still open.
pub enum SpecMerge {
    Complete { bytes: Seq<u8>, rest: Seq<BlobView> },
    Partial { bytes: Seq<u8>, rest: Seq<BlobView> },
    Starved { bytes: Seq<u8> },
}

/// One reconstruction on cpu `cpu`, expecting sequence `expected` next, with
/// `acc` already accumulated, over the fragments `frags` in arrival order:
/// a fragment of another cpu or with a sequence below `expected` is dropped;
/// the fragment with the expected sequence is appended, completing the result
/// when its next-id carries sequence 0; a fragment whose sequence exceeds
/// `expected` ends the reconstruction partial and is not consumed.
pub open spec fn spec_merge(cpu: int, expected: u64, acc: Seq<u8>, frags: Seq<BlobView>) -> SpecMerge
    decreases frags.len(),
{
    if frags.len() == 0 {
        SpecMerge::Starved { bytes: acc }
    } else {
        let f = frags[0];
        if spec_cpu_of(f.blob_id) != cpu || spec_seq_of(f.blob_id) < expected {
            spec_merge(cpu, expected, acc, frags.drop_first())
        } else if spec_seq_of(f.blob_id) == expected {
            if spec_seq_of(f.blob_next) == 0 {
                SpecMerge::Complete { bytes: acc + f.payload, rest: frags.drop_first() }
            } else {
                spec_merge(cpu, spec_seq_of(f.blob_next), acc + f.payload, frags.drop_first())
            }
        } else {
            SpecMerge::Partial { bytes: acc, rest: frags }
        }
    }
}

/// The concatenation of the fragments' payload bytes, in order.
pub open spec fn concat_payloads(frags: Seq<BlobView>) -> Seq<u8>
    decreases frags.len(),
{
    if frags.len() == 0 {
        Seq::empty()
    } else {
        frags[0].payload + concat_payloads(frags.drop_first())
    }
}

/// `frags` is one whole fragment chain on `cpu` starting at sequence
/// `first`: each fragment's next-id names the sequence of the following
/// fragment, no intermediate next-id carries sequence 0, and the last
/// fragment's next-id carries sequence 0.
pub open spec fn is_chain(cpu: int, first: u64, frags: Seq<BlobView>) -> bool {
    &&& frags.len() > 0
    &&& first != 0
    &&& forall|i: int| 0 <= i < frags.len() ==> spec_cpu_of(#[trigger] frags[i].blob_id) == cpu
    &&& spec_seq_of(frags[0].blob_id) == first
    &&& forall|i: int|
        0 <= i < frags.len() - 1 ==> spec_seq_of(#[trigger] frags[i].blob_next) == spec_seq_of(
            frags[i + 1].blob_id,
        )
    &&& forall|i: int|
        0 <= i < frags.len() - 1 ==> spec_seq_of(#[trigger] frags[i].blob_next) != 0
    &&& spec_seq_of(frags.last().blob_next) == 0
}

/// `frags` is the delivered front of a chain on `cpu` starting at sequence
/// `first`: consecutive fragments are linked, and none is terminal — the
/// rest of the chain is still owed.
pub open spec fn is_chain_prefix(cpu: int, first: u64, frags: Seq<BlobView>) -> bool {
    &&& first != 0
    &&& forall|i: int| 0 <= i < frags.len() ==> spec_cpu_of(#[trigger] frags[i].blob_id) == cpu
    &&& (frags.len() > 0 ==> spec_seq_of(frags[0].blob_id) == first)
    &&& forall|i: int|
        0 <= i < frags.len() - 1 ==> spec_seq_of(#[trigger] frags[i].blob_next) == spec_seq_of(
            frags[i + 1].blob_id,
        )
    &&& forall|i: int| 0 <= i < frags.len() ==> spec_seq_of(#[trigger] frags[i].blob_next) != 0
}

/// The sequence a reconstruction expects after consuming the linked
/// fragments of `frags`, having started at `first`.
pub open spec fn expected_after(first: u64, frags: Seq<BlobView>) -> u64 {
    if frags.len() == 0 {
        first
    } else {
        spec_seq_of(frags.last().blob_next)
    }
}

/// Law: a whole chain, delivered in order and terminated by a next-id of
/// sequence 0, reconstructs completely to the exact concatenation of its
/// fragments' payloads, consuming every fragment.
pub proof fn lemma_chain_complete(cpu: int, first: u64, acc: Seq<u8>, frags: Seq<BlobView>)
    requires
        is_chain(cpu, first, frags),
    ensures
        spec_merge(cpu, first, acc, frags) == (SpecMerge::Complete {
            bytes: acc + concat_payloads(frags),
            rest: Seq::<BlobView>::empty(),
        }),
    decreases frags.len(),
{
    let f = frags[0];
    if frags.len() == 1 {
        assert(frags.last() == f);
        assert(concat_payloads(frags.drop_first()) == Seq::<u8>::empty());
        assert(acc + concat_payloads(frags) =~= acc + f.payload);
        assert(frags.drop_first() =~= Seq::<BlobView>::empty());
    } else {
        let tail = frags.drop_first();
        assert(spec_seq_of(f.blob_next) != 0);
        assert(is_chain(cpu, spec_seq_of(f.blob_next), tail)) by {
            assert(forall|i: int| 0 <= i < tail.len() ==> #[trigger] tail[i] == frags[i + 1]);
            assert(tail.last() == frags.last());
        }
        lemma_chain_complete(cpu, spec_seq_of(f.blob_next), acc + f.payload, tail);
        assert((acc + f.payload) + concat_payloads(tail) =~= acc + (f.payload + concat_payloads(
            tail,
        )));
    }
}

/// Law: when only the front of a chain is ever delivered and the next
/// delivered fragment overshoots the sequence the chain still owes, the
/// reconstruction yields exactly the concatenation of the delivered front,
/// as a partial result, and leaves the overshooting fragment available.
pub proof fn lemma_chain_gap(
    cpu: int,
    first: u64,
    acc: Seq<u8>,
    prefix: Seq<BlobView>,
    rest: Seq<BlobView>,
)
    requires
        is_chain_prefix(cpu, first, prefix),
        rest.len() > 0,
        spec_cpu_of(rest[0].blob_id) == cpu,
        spec_seq_of(rest[0].blob_id) > expected_after(first, prefix),
    ensures
        spec_merge(cpu, first, acc, prefix + rest) == (SpecMerge::Partial {
            bytes: acc + concat_payloads(prefix),
            rest: rest,
        }),
    decreases prefix.len(),
{
    if prefix.len() == 0 {
        assert(prefix + rest =~= rest);
        assert(acc + concat_payloads(prefix) =~= acc);
    } else {
        let f = prefix[0];
        let tail = prefix.drop_first();
        assert((prefix + rest)[0] == f);
        assert((prefix + rest).drop_first() =~= tail + rest);
        assert(is_chain_prefix(cpu, spec_seq_of(f.blob_next), tail)) by {
            assert(forall|i: int| 0 <= i < tail.len() ==> #[trigger] tail[i] == prefix[i + 1]);
        }
        assert(expected_after(spec_seq_of(f.blob_next), tail) == expected_after(first, prefix)) by {
            if tail.len() > 0 {
                assert(tail.last() == prefix.last());
            } else {
                assert(prefix.last() == f);
            }
        }
        lemma_chain_gap(cpu, spec_seq_of(f.blob_next), acc + f.payload, tail, rest);
        assert((acc + f.payload) + concat_payloads(tail) =~= acc + (f.payload + concat_payloads(
            tail,
        )));
    }
}

/// Law: two chains back to back on one cpu. The first chain's front was
/// delivered but never finished; the second chain follows, its first
/// sequence above what the first chain still owes. The first reconstruction
/// then completes as a partial result holding exactly the delivered front,
/// leaving the second chain untouched, and a fresh reconstruction of the
/// second chain completes fully.
pub proof fn lemma_back_to_back(
    cpu: int,
    first1: u64,
    acc: Seq<u8>,
    prefix: Seq<BlobView>,
    first2: u64,
    chain2: Seq<BlobView>,
)
    requires
        is_chain_prefix(cpu, first1, prefix),
        is_chain(cpu, first2, chain2),
        first2 > expected_after(first1, prefix),
    ensures
        spec_merge(cpu, first1, acc, prefix + chain2) == (SpecMerge::Partial {
            bytes: acc + concat_payloads(prefix),
            rest: chain2,
        }),
        spec_merge(cpu, first2, Seq::empty(), chain2) == (SpecMerge::Complete {
            bytes: concat_payloads(chain2),
            rest: Seq::<BlobView>::empty(),
        }),
{
    lemma_chain_gap(cpu, first1, acc, prefix, chain2);
    lemma_chain_complete(cpu, first2, Seq::empty(), chain2);
    assert(Seq::<u8>::empty() + concat_payloads(chain2) =~= concat_payloads(chain2));
}

/// The reconstruction a merge engine is busy with: the id that was requested,
/// the sequence expected next, and the bytes accumulated so far.
pub struct MergeJob {
    pub request_id: u64,
    pub expected_seq: u64,
    pub merged: Vec<u8>,
}

/// The per-cpu merge engine. It serves one reconstruction request at a time:
/// from idle, a request opens a job; fragments are then fed in arrival order
/// and handled as [`spec_merge`] describes. A fragment that overshoots the
/// expected sequence is retained rather than consumed, so that it can serve
/// the next request.
pub struct MergeEngine {
    pub cpu_id: usize,
    pub job: Option<MergeJob>,
    pub pending: Option<lw_blob>,
}

/// How feeding one fragment `frag` moves a busy engine from `pre` to `post`,
/// and what it emits: nothing when the fragment is foreign or stale; the
/// completed blob when the fragment is the expected, terminal one; nothing
/// (but a grown job) when it is expected and links on; the partial blob, with
/// the fragment retained, when its sequence overshoots.
pub open spec fn fragment_step_spec(
    pre: MergeEngine,
    frag: lw_blob,
    post: MergeEngine,
    emitted: Option<MergedBlob>,
) -> bool
    recommends
        pre.job is Some,
{
    let j = pre.job->Some_0;
    let f = frag@;
    let s = spec_seq_of(f.blob_id);
    &&& post.cpu_id == pre.cpu_id
    &&& if spec_cpu_of(f.blob_id) != pre.cpu_id || s < j.expected_seq {
        &&& post.job == pre.job
        &&& post.pending is None
        &&& emitted is None
    } else if s == j.expected_seq && spec_seq_of(f.blob_next) == 0 {
        &&& emitted matches Some(mb)
            && mb.blob_id == j.request_id
            && mb.data@ == j.merged@ + f.payload
            && mb.complete
        &&& post.job is None
        &&& post.pending is None
    } else if s == j.expected_seq {
        &&& post.job matches Some(j2)
            && j2.request_id == j.request_id
            && j2.expected_seq == spec_seq_of(f.blob_next)
            && j2.merged@ == j.merged@ + f.payload
        &&& post.pending is None
        &&& emitted is None
    } else {
        &&& emitted matches Some(mb)
            && mb.blob_id == j.request_id
            && mb.data@ == j.merged@
            && !mb.complete
        &&& post.job is None
        &&& post.pending == Some(frag)
    }
}

/// Appends the meaningful payload bytes of `frag` to `dst`.
fn append_payload(dst: &mut Vec<u8>, frag: &lw_blob)
    requires
        frag.wf(),
    ensures
        final(dst)@ == old(dst)@ + frag@.payload,
{
    let eff = frag.header.effective_data_size as usize;
    let part = vstd::slice::slice_subrange(frag.data.as_slice(), 0, eff);
    dst.extend_from_slice(part);
    proof {
        assert(dst@ =~= old(dst)@ + frag@.payload);
    }
}

/// A field-for-field copy of a fragment.
pub fn copy_blob(b: &lw_blob) -> (r: lw_blob)
    ensures
        r.header == b.header,
        r.data@ == b.data@,
        r@ == b@,
        r.wf() == b.wf(),
{
    lw_blob { header: b.header, data: vstd::slice::slice_to_vec(b.data.as_slice()) }
}

impl MergeEngine {
    /// A well-formed engine: a busy job belongs to this cpu, expects a real
    /// (nonzero, 48-bit) sequence, and any retained fragment is well formed.
    pub open spec fn wf(&self) -> bool {
        &&& self.cpu_id < 0x10000
        &&& (self.job matches Some(j) ==> {
            &&& spec_cpu_of(j.request_id) == self.cpu_id
            &&& spec_seq_of(j.request_id) != 0
            &&& 0 < j.expected_seq < 0x1_0000_0000_0000
        })
        &&& (self.pending matches Some(b) ==> b.wf())
    }

    /// An idle engine serves no reconstruction.
    pub open spec fn is_idle(&self) -> bool {
        self.job is None
    }

    /// The fragments this engine will look at next: the retained fragment,
    /// if any, followed by the unread suffix of `frags` from `pos` on.
    pub open spec fn avail(self, frags: Seq<lw_blob>, pos: int) -> Seq<BlobView> {
        (match self.pending {
            Some(b) => seq![b@],
            None => Seq::<BlobView>::empty(),
        }) + frags.map_values(|b: lw_blob| b@).skip(pos)
    }

    /// A fresh, idle engine for cpu `cpu_id`.
    pub fn new(cpu_id: usize) -> (e: MergeEngine)
        requires
            cpu_id < 0x10000,
        ensures
            e.wf(),
            e.cpu_id == cpu_id,
            e.is_idle(),
            e.pending is None,
    {
        MergeEngine { cpu_id, job: None, pending: None }
    }

    /// Whether the engine is busy and would consume a fresh fragment next.
    pub fn needs_fragment(&self) -> (b: bool)
        ensures
            b == (self.job is Some && self.pending is None),
    {
        self.job.is_some() && self.pending.is_none()
    }

    /// Whether the engine is busy and still holds a retained fragment that
    /// must be re-examined before any fresh one.
    pub fn has_retained(&self) -> (b: bool)
        ensures
            b == (self.job is Some && self.pending is Some),
    {
        self.job.is_some() && self.pending.is_some()
    }

    /// Takes the next reconstruction request. A request with sequence 0 is
    /// the sentinel: it yields an empty, complete result at once, touching no
    /// fragment. A request of another cpu is refused. Any other request opens
    /// a job with nothing accumulated.
    pub fn submit_request(&mut self, blob_id: u64) -> (r: Result<Option<MergedBlob>, BlobError>)
        requires
            old(self).wf(),
            old(self).is_idle(),
        ensures
            final(self).wf(),
            final(self).cpu_id == old(self).cpu_id,
            final(self).pending == old(self).pending,
            match r {
                Ok(emitted) => {
                    if spec_seq_of(blob_id) == 0 {
                        &&& emitted matches Some(mb)
                            && mb.blob_id == blob_id
                            && mb.data@ == Seq::<u8>::empty()
                            && mb.complete
                        &&& final(self).job == old(self).job
                    } else {
                        &&& emitted is None
                        &&& spec_cpu_of(blob_id) == old(self).cpu_id
                        &&& final(self).job matches Some(j)
                            && j.request_id == blob_id
                            && j.expected_seq == spec_seq_of(blob_id)
                            && j.merged@ == Seq::<u8>::empty()
                    }
                },
                Err(e) => {
                    &&& e == BlobError::InvalidCpu
                    &&& spec_seq_of(blob_id) != 0
                    &&& spec_cpu_of(blob_id) != old(self).cpu_id
                    &&& final(self).job == old(self).job
                },
            },
    {
        let (cpu, seq) = blob_id_to_seq(blob_id);
        if seq == 0 {
            return Ok(Some(MergedBlob { blob_id, data: Vec::new(), complete: true }));
        }
        if cpu != self.cpu_id {
            return Err(BlobError::InvalidCpu);
        }
        self.job = Some(MergeJob { request_id: blob_id, expected_seq: seq, merged: Vec::new() });
        Ok(None)
    }

    /// Feeds one fresh fragment to a busy engine.
    pub fn submit_fragment(&mut self, frag: lw_blob) -> (emitted: Option<MergedBlob>)
        requires
            old(self).wf(),
            old(self).job is Some,
            old(self).pending is None,
            frag.wf(),
        ensures
            final(self).wf(),
            fragment_step_spec(*old(self), frag, *final(self), emitted),
    {
        let (frag_cpu, frag_seq) = blob_id_to_seq(frag.header.blob_id);
        let expected = match &self.job {
            Some(j) => j.expected_seq,
            None => vstd::pervasive::unreached(),
        };
        if frag_cpu != self.cpu_id || frag_seq < expected {
            return None;
        }
        if frag_seq == expected {
            let mut j = match self.job.take() {
                Some(j) => j,
                None => vstd::pervasive::unreached(),
            };
            append_payload(&mut j.merged, &frag);
            let (_, next_seq) = blob_id_to_seq(frag.header.blob_next);
            if next_seq == 0 {
                return Some(MergedBlob { blob_id: j.request_id, data: j.merged, complete: true });
            }
            self.job = Some(MergeJob {
                request_id: j.request_id,
                expected_seq: next_seq,
                merged: j.merged,
            });
            return None;
        }
        let j = match self.job.take() {
            Some(j) => j,
            None => vstd::pervasive::unreached(),
        };
        self.pending = Some(frag);
        Some(MergedBlob { blob_id: j.request_id, data: j.merged, complete: false })
    }

    /// Re-examines the retained fragment against the current job. On another
    /// overshoot the fragment stays retained for the request after this one.
    pub fn step_retained(&mut self) -> (emitted: Option<MergedBlob>)
        requires
            old(self).wf(),
            old(self).job is Some,
            old(self).pending is Some,
        ensures
            final(self).wf(),
            fragment_step_spec(*old(self), old(self).pending->Some_0, *final(self), emitted),
    {
        let frag = match self.pending.take() {
            Some(b) => b,
            None => vstd::pervasive::unreached(),
        };
        self.submit_fragment(frag)
    }

    /// Runs one whole reconstruction request against the fragments of
    /// `frags`, reading them in order from `*pos` on (the retained fragment,
    /// if any, is examined first). Returns the merged result exactly as
    /// [`spec_merge`] describes it; `Ok(None)` means the fragments ran out
    /// with the chain still open, and the engine stays busy.
    #[verifier::loop_isolation(false)]
    pub fn run_request(
        &mut self,
        blob_id: u64,
        frags: &Vec<lw_blob>,
        pos: &mut usize,
    ) -> (r: Result<Option<MergedBlob>, BlobError>)
        requires
            old(self).wf(),
            old(self).is_idle(),
            *old(pos) <= frags@.len(),
            forall|i: int| 0 <= i < frags@.len() ==> frags@[i].wf(),
        ensures
            final(self).wf(),
            final(self).cpu_id == old(self).cpu_id,
            *final(pos) <= frags@.len(),
            ({
                let outcome = spec_merge(
                    old(self).cpu_id as int,
                    spec_seq_of(blob_id),
                    Seq::empty(),
                    old(self).avail(frags@, *old(pos) as int),
                );
                if spec_seq_of(blob_id) == 0 {
                    &&& r matches Ok(Some(mb))
                        && mb.blob_id == blob_id
                        && mb.data@ == Seq::<u8>::empty()
                        && mb.complete
                    &&& *final(self) == *old(self)
                    &&& *final(pos) == *old(pos)
                } else if spec_cpu_of(blob_id) != old(self).cpu_id {
                    &&& r matches Err(e) && e == BlobError::InvalidCpu
                    &&& *final(self) == *old(self)
                    &&& *final(pos) == *old(pos)
                } else {
                    match outcome {
                        SpecMerge::Complete { bytes, rest } => {
                            &&& r matches Ok(Some(mb))
                                && mb.blob_id == blob_id
                                && mb.data@ == bytes
                                && mb.complete
                            &&& final(self).is_idle()
                            &&& final(self).avail(frags@, *final(pos) as int) == rest
                        },
                        SpecMerge::Partial { bytes, rest } => {
                            &&& r matches Ok(Some(mb))
                                && mb.blob_id == blob_id
                                && mb.data@ == bytes
                                && !mb.complete
                            &&& final(self).is_idle()
                            &&& final(self).avail(frags@, *final(pos) as int) == rest
                        },
                        SpecMerge::Starved { bytes } => {
                            &&& r matches Ok(emitted) && emitted is None
                            &&& final(self).job matches Some(j)
                                && j.request_id == blob_id
                                && j.merged@ == bytes
                            &&& final(self).pending is None
                            &&& *final(pos) == frags@.len()
                        },
                    }
                }
            }),
    {
        let ghost cpu = old(self).cpu_id as int;
        let ghost avail0 = old(self).avail(frags@, *old(pos) as int);
        let ghost outcome = spec_merge(cpu, spec_seq_of(blob_id), Seq::empty(), avail0);
        match self.submit_request(blob_id) {
            Err(e) => {
                return Err(e);
            },
            Ok(Some(mb)) => {
                return Ok(Some(mb));
            },
            Ok(None) => {},
        }
        loop
            invariant
                self.wf(),
                self.cpu_id as int == cpu,
                self.job matches Some(j) && j.request_id == blob_id,
                *pos <= frags@.len(),
                forall|i: int| 0 <= i < frags@.len() ==> frags@[i].wf(),
                spec_merge(
                    cpu,
                    self.job->Some_0.expected_seq,
                    self.job->Some_0.merged@,
                    self.avail(frags@, *pos as int),
                ) == outcome,
            decreases self.avail(frags@, *pos as int).len(),
        {
            let ghost pre = *self;
            let ghost pre_pos = *pos as int;
            let ghost pre_avail = self.avail(frags@, *pos as int);
            let emitted: Option<MergedBlob>;
            if self.has_retained() {
                emitted = self.step_retained();
                proof {
                    let f = pre.pending->Some_0;
                    assert(pre_avail[0] == f@);
                    assert(pre_avail.drop_first() =~= frags@.map_values(
                        |b: lw_blob| b@,
                    ).skip(pre_pos));
                    if self.pending is Some {
                        assert(self.avail(frags@, *pos as int) =~= pre_avail);
                    } else {
                        assert(self.avail(frags@, *pos as int) =~= pre_avail.drop_first());
                    }
                }
            } else if *pos < frags.len() {
                let frag = copy_blob(&frags[*pos]);
                *pos = *pos + 1;
                emitted = self.submit_fragment(frag);
                proof {
                    let f = frags@[pre_pos];
                    assert(frags@.map_values(|b: lw_blob| b@)[pre_pos] == f@);
                    assert(pre_avail[0] == f@);
                    assert(pre_avail.drop_first() =~= frags@.map_values(
                        |b: lw_blob| b@,
                    ).skip(pre_pos + 1));
                    if self.pending is Some {
                        assert(self.avail(frags@, *pos as int) =~= pre_avail);
                    } else {
                        assert(self.avail(frags@, *pos as int) =~= pre_avail.drop_first());
                    }
                }
            } else {
                proof {
                    assert(self.avail(frags@, *pos as int) =~= Seq::<BlobView>::empty());
                }
                return Ok(None);
            }
            if let Some(mb) = emitted {
                return Ok(Some(mb));
            }
        }
    }
}

} // verus!
