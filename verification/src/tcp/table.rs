//! The connections of the stack, keyed by their quad, and what the stack does
//! with each frame the device hands over.
use crate::tcp::connection::{accepted, after_segment, Connection};
use crate::tcp::frame::{classify, classify_frame, FrameEvent, Quad};
use crate::tcp::output::{reply_frame, syn_ack_header, PacketError};
use crate::util::isn::generate_isn;
use vstd::prelude::*;
use vstd::slice::slice_subrange;

verus! {

/// No quad occurs twice among the entries.
pub open spec fn keys_unique(s: Seq<(Quad, Connection)>) -> bool {
    forall|i: int, j: int|
        0 <= i < s.len() && 0 <= j < s.len() && #[trigger] s[i].0 == #[trigger] s[j].0 ==> i == j
}

/// The entries as a map from quad to connection.
pub open spec fn entries_map(s: Seq<(Quad, Connection)>) -> Map<Quad, Connection> {
    Map::new(
        |q: Quad| exists|i: int| 0 <= i < s.len() && #[trigger] s[i].0 == q,
        |q: Quad| s[choose|i: int| 0 <= i < s.len() && #[trigger] s[i].0 == q].1,
    )
}

proof fn lemma_entries_map_at(s: Seq<(Quad, Connection)>, i: int)
    requires
        keys_unique(s),
        0 <= i < s.len(),
    ensures
        entries_map(s).contains_key(s[i].0),
        entries_map(s)[s[i].0] == s[i].1,
{
    let q = s[i].0;
    assert(exists|k: int| 0 <= k < s.len() && #[trigger] s[k].0 == q);
    let k = choose|k: int| 0 <= k < s.len() && #[trigger] s[k].0 == q;
    assert(k == i);
}

proof fn lemma_entries_map_push(s: Seq<(Quad, Connection)>, q: Quad, c: Connection)
    requires
        keys_unique(s),
        !entries_map(s).contains_key(q),
    ensures
        keys_unique(s.push((q, c))),
        entries_map(s.push((q, c))) =~= entries_map(s).insert(q, c),
{
    let t = s.push((q, c));
    assert forall|i: int| 0 <= i < s.len() implies #[trigger] s[i].0 != q by {
        if s[i].0 == q {
            assert(entries_map(s).contains_key(q));
        }
    }
    assert(keys_unique(t)) by {
        assert forall|i: int, j: int|
            0 <= i < t.len() && 0 <= j < t.len() && #[trigger] t[i].0 == #[trigger] t[j].0 implies i
            == j by {
            if i < s.len() && j < s.len() {
                assert(s[i].0 == s[j].0);
            } else if i < s.len() {
                assert(s[i].0 == q);
            } else if j < s.len() {
                assert(s[j].0 == q);
            }
        }
    }
    assert forall|k: Quad| #[trigger] entries_map(t).contains_key(k) == entries_map(s).insert(
        q,
        c,
    ).contains_key(k) by {
        if k != q && entries_map(t).contains_key(k) {
            let i = choose|i: int| 0 <= i < t.len() && #[trigger] t[i].0 == k;
            assert(s[i].0 == k);
        }
        if k == q {
            assert(t[s.len() as int].0 == q);
        }
        if entries_map(s).contains_key(k) {
            let i = choose|i: int| 0 <= i < s.len() && #[trigger] s[i].0 == k;
            assert(t[i].0 == k);
        }
    }
    assert forall|k: Quad| #[trigger] entries_map(t).contains_key(k) implies entries_map(t)[k]
        == entries_map(s).insert(q, c)[k] by {
        if k == q {
            lemma_entries_map_at(t, s.len() as int);
        } else {
            let i = choose|i: int| 0 <= i < s.len() && #[trigger] s[i].0 == k;
            lemma_entries_map_at(s, i);
            lemma_entries_map_at(t, i);
        }
    }
}

proof fn lemma_entries_map_update(s: Seq<(Quad, Connection)>, i: int, c: Connection)
    requires
        keys_unique(s),
        0 <= i < s.len(),
    ensures
        keys_unique(s.update(i, (s[i].0, c))),
        entries_map(s.update(i, (s[i].0, c))) =~= entries_map(s).insert(s[i].0, c),
{
    let q = s[i].0;
    let t = s.update(i, (q, c));
    assert(keys_unique(t)) by {
        assert forall|a: int, b: int|
            0 <= a < t.len() && 0 <= b < t.len() && #[trigger] t[a].0 == #[trigger] t[b].0 implies a
            == b by {
            assert(s[a].0 == t[a].0 && s[b].0 == t[b].0);
        }
    }
    lemma_entries_map_at(s, i);
    assert forall|k: Quad| #[trigger] entries_map(t).contains_key(k) == entries_map(s).insert(
        q,
        c,
    ).contains_key(k) by {
        if entries_map(t).contains_key(k) {
            let a = choose|a: int| 0 <= a < t.len() && #[trigger] t[a].0 == k;
            assert(s[a].0 == k);
        }
        if entries_map(s).contains_key(k) {
            let a = choose|a: int| 0 <= a < s.len() && #[trigger] s[a].0 == k;
            assert(t[a].0 == k);
        }
    }
    assert forall|k: Quad| #[trigger] entries_map(t).contains_key(k) implies entries_map(t)[k]
        == entries_map(s).insert(q, c)[k] by {
        let a = choose|a: int| 0 <= a < t.len() && #[trigger] t[a].0 == k;
        lemma_entries_map_at(t, a);
        if a != i {
            lemma_entries_map_at(s, a);
        }
    }
}

/// The connections the stack knows, one per quad.
pub struct ConnectionTable {
    entries: Vec<(Quad, Connection)>,
}

impl View for ConnectionTable {
    type V = Map<Quad, Connection>;

    closed spec fn view(&self) -> Map<Quad, Connection> {
        entries_map(self.entries@)
    }
}

/// What the stack did with a frame.
#[derive(Debug)]
pub enum FrameOutcome {
    /// The frame held no TCP segment; how it was classified.
    NotSegment(FrameEvent),
    /// The segment went to the connection of its quad.
    Delivered,
    /// The segment was a SYN for an unknown quad: a connection was opened,
    /// and this is its SYN-ACK frame to send, which is always built.
    Opened(Result<Vec<u8>, PacketError>),
    /// The segment belonged to no connection and was not a SYN: dropped.
    Dropped,
}

impl ConnectionTable {
    /// The table is well formed: no quad occurs twice.
    pub closed spec fn wf(&self) -> bool {
        keys_unique(self.entries@)
    }

    /// An empty table.
    pub fn new() -> (t: Self)
        ensures
            t.wf(),
            t@ == Map::<Quad, Connection>::empty(),
    {
        let t = ConnectionTable { entries: Vec::new() };
        assert(t@ =~= Map::<Quad, Connection>::empty());
        t
    }

    /// Number of connections.
    pub fn len(&self) -> (n: usize)
        requires
            self.wf(),
        ensures
            n == self@.len(),
    {
        proof {
            self.lemma_len();
        }
        self.entries.len()
    }

    proof fn lemma_len(&self)
        requires
            self.wf(),
        ensures
            self@.len() == self.entries@.len(),
            self@.dom().finite(),
        decreases self.entries@.len(),
    {
        let s = self.entries@;
        let keys = s.map_values(|e: (Quad, Connection)| e.0);
        assert(self@.dom() =~= keys.to_set()) by {
            assert forall|q: Quad| self@.dom().contains(q) implies keys.to_set().contains(q) by {
                let i = choose|i: int| 0 <= i < s.len() && #[trigger] s[i].0 == q;
                assert(keys[i] == q);
            }
            assert forall|q: Quad| keys.to_set().contains(q) implies self@.dom().contains(q) by {
                let i = choose|i: int| 0 <= i < keys.len() && keys[i] == q;
                assert(s[i].0 == q);
            }
        }
        assert(keys.no_duplicates()) by {
            assert forall|i: int, j: int|
                0 <= i < keys.len() && 0 <= j < keys.len() && i != j implies keys[i]
                != keys[j] by {
                assert(s[i].0 == keys[i] && s[j].0 == keys[j]);
            }
        }
        keys.unique_seq_to_set();
    }

    fn find(&self, quad: &Quad) -> (r: Option<usize>)
        requires
            self.wf(),
        ensures
            r is None <==> !self@.contains_key(*quad),
            r matches Some(i) ==> i < self.entries@.len() && self.entries@[i as int].0 == *quad,
    {
        let n = self.entries.len();
        for i in 0..n
            invariant
                n == self.entries@.len(),
                forall|j: int| 0 <= j < i ==> #[trigger] self.entries@[j].0 != *quad,
        {
            if self.entries[i].0 == *quad {
                return Some(i);
            }
        }
        proof {
            if self@.contains_key(*quad) {
                let k = choose|k: int|
                    0 <= k < self.entries@.len() && #[trigger] self.entries@[k].0 == *quad;
                assert(self.entries@[k].0 != *quad);
            }
        }
        None
    }

    /// The connection of `quad`, if any.
    pub fn get(&self, quad: &Quad) -> (r: Option<Connection>)
        requires
            self.wf(),
        ensures
            r == (if self@.contains_key(*quad) {
                Some(self@[*quad])
            } else {
                None
            }),
    {
        match self.find(quad) {
            Some(i) => {
                proof {
                    lemma_entries_map_at(self.entries@, i as int);
                }
                Some(self.entries[i].1)
            },
            None => None,
        }
    }

    /// Handles frame `frame` from the device, with `iss` as initial send
    /// sequence number should it open a connection: a segment for a known
    /// quad goes to its connection; a SYN for an unknown quad opens a
    /// connection and yields its SYN-ACK frame; any other segment for an
    /// unknown quad, and any frame without a segment, change nothing.
    pub fn handle_frame(&mut self, frame: &[u8], iss: u32) -> (r: FrameOutcome)
        requires
            old(self).wf(),
        ensures
            final(self).wf(),
            match classify(frame@) {
                FrameEvent::Segment(seg) => if old(self)@.contains_key(seg.quad) {
                    &&& r is Delivered
                    &&& final(self)@ == old(self)@.insert(
                        seg.quad,
                        after_segment(
                            old(self)@[seg.quad],
                            seg.tcp.fields,
                            (seg.payload_end - seg.payload_start) as nat,
                        ),
                    )
                } else if seg.tcp.fields.syn {
                    &&& final(self)@ == old(self)@.insert(seg.quad, accepted(seg.tcp.fields, iss))
                    &&& r matches FrameOutcome::Opened(f)
                    &&& f is Ok
                    &&& f matches Ok(b) ==> b@ == reply_frame(
                        seg.ip,
                        syn_ack_header(seg.tcp.fields, iss),
                    )
                } else {
                    &&& r is Dropped
                    &&& final(self)@ == old(self)@
                },
                other => r == FrameOutcome::NotSegment(other) && final(self)@ == old(self)@,
            },
    {
        let seg = match classify_frame(frame) {
            FrameEvent::Segment(seg) => seg,
            other => {
                return FrameOutcome::NotSegment(other);
            },
        };
        let data = slice_subrange(frame, seg.payload_start, seg.payload_end);
        match self.find(&seg.quad) {
            Some(i) => {
                let mut c = self.entries[i].1;
                proof {
                    lemma_entries_map_at(self.entries@, i as int);
                }
                c.on_packet(&seg.tcp, data);
                proof {
                    lemma_entries_map_update(self.entries@, i as int, c);
                }
                self.entries.set(i, (seg.quad, c));
                FrameOutcome::Delivered
            },
            None => match Connection::accept_with_isn(&seg.ip, &seg.tcp, iss) {
                Some((c, syn_ack)) => {
                    proof {
                        lemma_entries_map_push(self.entries@, seg.quad, c);
                    }
                    self.entries.push((seg.quad, c));
                    FrameOutcome::Opened(syn_ack)
                },
                None => FrameOutcome::Dropped,
            },
        }
    }

    /// Handles frame `frame` from the device as `handle_frame` does, with an
    /// initial send sequence number taken from the clock.
    pub fn on_frame(&mut self, frame: &[u8]) -> (r: FrameOutcome)
        requires
            old(self).wf(),
        ensures
            final(self).wf(),
            match classify(frame@) {
                FrameEvent::Segment(seg) => if old(self)@.contains_key(seg.quad) {
                    &&& r is Delivered
                    &&& final(self)@ == old(self)@.insert(
                        seg.quad,
                        after_segment(
                            old(self)@[seg.quad],
                            seg.tcp.fields,
                            (seg.payload_end - seg.payload_start) as nat,
                        ),
                    )
                } else if seg.tcp.fields.syn {
                    &&& final(self)@.contains_key(seg.quad)
                    &&& final(self)@ == old(self)@.insert(
                        seg.quad,
                        accepted(seg.tcp.fields, final(self)@[seg.quad].send.iss),
                    )
                    &&& r matches FrameOutcome::Opened(f)
                    &&& f is Ok
                    &&& f matches Ok(b) ==> b@ == reply_frame(
                        seg.ip,
                        syn_ack_header(seg.tcp.fields, final(self)@[seg.quad].send.iss),
                    )
                } else {
                    &&& r is Dropped
                    &&& final(self)@ == old(self)@
                },
                other => r == FrameOutcome::NotSegment(other) && final(self)@ == old(self)@,
            },
    {
        let iss = generate_isn();
        self.handle_frame(frame, iss)
    }
}

} // verus!
