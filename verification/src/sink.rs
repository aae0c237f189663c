use vstd::prelude::*;

verus! {

/// The one failure the stream path can surface: the sink rejected a write
/// or a flush.
#[derive(Debug, Clone, Copy, PartialEq, Eq, Structural)]
pub struct WriteError;

/// One observable interaction with a sink: a write that was accepted with
/// the given characters, or a flush that was accepted.
pub enum SinkEvent {
    Wrote(Seq<char>),
    Flushed,
}

/// The characters a history of sink events has accepted, in order.
pub open spec fn written_chars(h: Seq<SinkEvent>) -> Seq<char>
    decreases h.len(),
{
    if h.len() == 0 {
        Seq::empty()
    } else {
        written_chars(h.drop_last()) + (match h.last() {
            SinkEvent::Wrote(s) => s,
            SinkEvent::Flushed => Seq::empty(),
        })
    }
}

/// How many flushes a history of sink events holds.
pub open spec fn flush_count(h: Seq<SinkEvent>) -> nat
    decreases h.len(),
{
    if h.len() == 0 {
        0
    } else {
        flush_count(h.drop_last()) + (match h.last() {
            SinkEvent::Wrote(_) => 0nat,
            SinkEvent::Flushed => 1nat,
        })
    }
}

/// One step of a history: appending an event adds its characters to what
/// was written and, for a flush, one to the flush count.
pub proof fn lemma_events_push(h: Seq<SinkEvent>, e: SinkEvent)
    ensures
        written_chars(h.push(e)) == written_chars(h) + (match e {
            SinkEvent::Wrote(s) => s,
            SinkEvent::Flushed => Seq::<char>::empty(),
        }),
        flush_count(h.push(e)) == flush_count(h) + (match e {
            SinkEvent::Wrote(_) => 0nat,
            SinkEvent::Flushed => 1nat,
        }),
{
    assert(h.push(e).drop_last() =~= h);
    assert(h.push(e).last() == e);
}

/// The characters accepted by a concatenation of histories are the
/// concatenation of the characters each accepted, and flushes add up.
pub proof fn lemma_events_concat(a: Seq<SinkEvent>, b: Seq<SinkEvent>)
    ensures
        written_chars(a + b) == written_chars(a) + written_chars(b),
        flush_count(a + b) == flush_count(a) + flush_count(b),
    decreases b.len(),
{
    if b.len() == 0 {
        assert(a + b =~= a);
        assert(written_chars(a) + written_chars(b) =~= written_chars(a));
    } else {
        lemma_events_concat(a, b.drop_last());
        assert((a + b).drop_last() =~= a + b.drop_last());
        assert((a + b).last() == b.last());
        match b.last() {
            SinkEvent::Wrote(s) => {
                assert(written_chars(a) + written_chars(b) =~= written_chars(a) + written_chars(
                    b.drop_last(),
                ) + s);
            },
            SinkEvent::Flushed => {
                assert(written_chars(a) + written_chars(b) =~= written_chars(a) + written_chars(
                    b.drop_last(),
                ));
            },
        }
    }
}

/// A byte-output sink, as the stream renderer sees it: a device that
/// accepts writes and flushes in order and may reject any of them.
///
/// The history records the interactions the sink has accepted so far; a
/// successful write or flush grows it by exactly that interaction. Which
/// interactions succeed is a function of the sink's own state: the sink
/// decides up front whether it will accept its i-th upcoming write, and
/// whether it will accept a flush, and a rejected interaction leaves the
/// sink unchanged. This makes success and failure of everything built on
/// the sink provable from the sink's state alone; a device that cannot
/// decide acceptance by state, or that keeps part of a rejected write,
/// must be adapted outside the library (buffer first, then hand the bytes
/// over).
pub trait Sink: Sized {
    /// The interactions this sink has accepted so far, in order.
    spec fn history(&self) -> Seq<SinkEvent>;

    /// Whether this sink will accept its i-th upcoming write (counting
    /// from zero; flushes do not count).
    spec fn accepts_write_at(&self, i: nat) -> bool;

    /// Whether this sink will accept a flush in its current state.
    spec fn accepts_flush(&self) -> bool;

    /// Appends the characters of `s` to the sink. Succeeds exactly when
    /// the sink accepts its next write; a rejected write changes nothing.
    fn write_str(&mut self, s: &str) -> (r: Result<(), WriteError>)
        ensures
            r is Ok <==> old(self).accepts_write_at(0),
            r is Ok ==> final(self).history() == old(self).history().push(SinkEvent::Wrote(s@)),
            r is Ok ==> (forall|i: nat|
                final(self).accepts_write_at(i) <==> old(self).accepts_write_at(i + 1)),
            r is Ok ==> final(self).accepts_flush() == old(self).accepts_flush(),
            r is Err ==> *final(self) == *old(self),
    ;

    /// Forces any buffered characters out to the underlying device.
    /// Succeeds exactly when the sink accepts a flush; a rejected flush
    /// changes nothing, and an accepted one consumes no write.
    fn flush(&mut self) -> (r: Result<(), WriteError>)
        ensures
            r is Ok <==> old(self).accepts_flush(),
            r is Ok ==> final(self).history() == old(self).history().push(SinkEvent::Flushed),
            r is Ok ==> (forall|i: nat|
                final(self).accepts_write_at(i) <==> old(self).accepts_write_at(i)),
            r is Ok ==> final(self).accepts_flush() == old(self).accepts_flush(),
            r is Err ==> *final(self) == *old(self),
    ;
}

/// The index of the first write, among the next `n` counting from `i`,
/// that the sink rejects; `n` if it accepts them all.
pub open spec fn first_rejected_from<S: Sink>(s: &S, i: nat, n: nat) -> nat
    decreases n - i,
{
    if i >= n {
        n
    } else if !s.accepts_write_at(i) {
        i
    } else {
        first_rejected_from(s, i + 1, n)
    }
}

/// What the first rejected write index means: every write before it is
/// accepted, and it is itself rejected unless every write up to `n` was
/// accepted.
pub proof fn lemma_first_rejected_facts<S: Sink>(s: &S, i: nat, n: nat)
    requires
        i <= n,
    ensures
        i <= first_rejected_from(s, i, n) <= n,
        forall|j: nat|
            i <= j < first_rejected_from(s, i, n) ==> #[trigger] s.accepts_write_at(j),
        first_rejected_from(s, i, n) < n ==> !s.accepts_write_at(first_rejected_from(s, i, n)),
    decreases n - i,
{
    if i < n && s.accepts_write_at(i) {
        lemma_first_rejected_facts(s, i + 1, n);
    }
}

/// The converse: a position with every earlier write accepted, and itself
/// rejected unless it is `n`, is the first rejected write index.
pub proof fn lemma_first_rejected_is<S: Sink>(s: &S, i: nat, n: nat, k: nat)
    requires
        i <= k <= n,
        forall|j: nat| i <= j < k ==> #[trigger] s.accepts_write_at(j),
        k < n ==> !s.accepts_write_at(k),
    ensures
        first_rejected_from(s, i, n) == k,
    decreases k - i,
{
    if i < k {
        lemma_first_rejected_is(s, i + 1, n, k);
    }
}

/// An in-memory sink: every write is accepted and appended to a string,
/// and every flush is accepted. The string it holds is always exactly the
/// characters its history has accepted.
pub struct BufferSink {
    data: String,
    history: Ghost<Seq<SinkEvent>>,
}

impl BufferSink {
    #[verifier::type_invariant]
    spec fn wf(&self) -> bool {
        self.data@ == written_chars(self.history@)
    }

    /// An empty buffer with an empty history.
    pub fn new() -> (r: Self)
        ensures
            r.history() == Seq::<SinkEvent>::empty(),
    {
        Self { data: String::new(), history: Ghost(Seq::empty()) }
    }

    /// The characters this buffer has accepted: exactly what its history
    /// says was written.
    pub fn as_str(&self) -> (r: &str)
        ensures
            r@ == written_chars(self.history()),
    {
        proof {
            use_type_invariant(&*self);
        }
        self.data.as_str()
    }
}

impl Sink for BufferSink {
    closed spec fn history(&self) -> Seq<SinkEvent> {
        self.history@
    }

    open spec fn accepts_write_at(&self, i: nat) -> bool {
        true
    }

    open spec fn accepts_flush(&self) -> bool {
        true
    }

    fn write_str(&mut self, s: &str) -> (r: Result<(), WriteError>)
        ensures
            r is Ok,
            final(self).history() == old(self).history().push(SinkEvent::Wrote(s@)),
    {
        proof {
            use_type_invariant(&*self);
            lemma_events_push(self.history@, SinkEvent::Wrote(s@));
        }
        let ghost h = self.history@.push(SinkEvent::Wrote(s@));
        // the invariant must hold at every step, so swap the value out,
        // grow the string, and put string and history back in one assignment
        let mut swapped = Self { data: String::new(), history: Ghost(Seq::empty()) };
        std::mem::swap(&mut swapped, self);
        let Self { mut data, history: _ } = swapped;
        data.append(s);
        *self = Self { data, history: Ghost(h) };
        Ok(())
    }

    fn flush(&mut self) -> (r: Result<(), WriteError>)
        ensures
            r is Ok,
            final(self).history() == old(self).history().push(SinkEvent::Flushed),
    {
        proof {
            use_type_invariant(&*self);
            lemma_events_push(self.history@, SinkEvent::Flushed);
        }
        let ghost h = self.history@.push(SinkEvent::Flushed);
        let mut swapped = Self { data: String::new(), history: Ghost(Seq::empty()) };
        std::mem::swap(&mut swapped, self);
        let Self { data, history: _ } = swapped;
        proof {
            assert(data@ + Seq::<char>::empty() =~= data@);
        }
        *self = Self { data, history: Ghost(h) };
        Ok(())
    }
}

/// An in-memory sink with a write budget: it accepts the next
/// `budget` writes and rejects every write after that, leaving its state
/// unchanged on rejection. Flushing always succeeds. It gives callers a
/// deterministic way to exercise the failure path of the stream renderer.
pub struct LimitedSink {
    data: String,
    writes_left: usize,
    history: Ghost<Seq<SinkEvent>>,
}

impl LimitedSink {
    #[verifier::type_invariant]
    spec fn wf(&self) -> bool {
        self.data@ == written_chars(self.history@)
    }

    /// How many more writes this sink will accept.
    pub closed spec fn budget(&self) -> nat {
        self.writes_left as nat
    }

    /// An empty sink that will accept the next `writes_left` writes.
    pub fn new(writes_left: usize) -> (r: Self)
        ensures
            r.history() == Seq::<SinkEvent>::empty(),
            r.budget() == writes_left,
    {
        Self { data: String::new(), writes_left, history: Ghost(Seq::empty()) }
    }

    /// The characters this sink has accepted: exactly what its history
    /// says was written.
    pub fn as_str(&self) -> (r: &str)
        ensures
            r@ == written_chars(self.history()),
    {
        proof {
            use_type_invariant(&*self);
        }
        self.data.as_str()
    }
}

impl Sink for LimitedSink {
    closed spec fn history(&self) -> Seq<SinkEvent> {
        self.history@
    }

    open spec fn accepts_write_at(&self, i: nat) -> bool {
        i < self.budget()
    }

    open spec fn accepts_flush(&self) -> bool {
        true
    }

    fn write_str(&mut self, s: &str) -> (r: Result<(), WriteError>)
        ensures
            r is Ok <==> old(self).budget() > 0,
            r is Ok ==> final(self).history() == old(self).history().push(SinkEvent::Wrote(s@))
                && final(self).budget() == old(self).budget() - 1,
            r is Err ==> *final(self) == *old(self),
    {
        if self.writes_left == 0 {
            Err(WriteError)
        } else {
            proof {
                use_type_invariant(&*self);
                lemma_events_push(self.history@, SinkEvent::Wrote(s@));
            }
            let ghost h = self.history@.push(SinkEvent::Wrote(s@));
            let budget = self.writes_left - 1;
            // as for the buffer sink: rebuild the value in one assignment
            // so the invariant holds at every step
            let mut swapped = Self {
                data: String::new(),
                writes_left: 0,
                history: Ghost(Seq::empty()),
            };
            std::mem::swap(&mut swapped, self);
            let Self { mut data, writes_left: _, history: _ } = swapped;
            data.append(s);
            *self = Self { data, writes_left: budget, history: Ghost(h) };
            Ok(())
        }
    }

    fn flush(&mut self) -> (r: Result<(), WriteError>)
        ensures
            r is Ok,
            final(self).history() == old(self).history().push(SinkEvent::Flushed),
            final(self).budget() == old(self).budget(),
    {
        proof {
            use_type_invariant(&*self);
            lemma_events_push(self.history@, SinkEvent::Flushed);
        }
        let ghost h = self.history@.push(SinkEvent::Flushed);
        let budget = self.writes_left;
        let mut swapped = Self { data: String::new(), writes_left: 0, history: Ghost(Seq::empty()) };
        std::mem::swap(&mut swapped, self);
        let Self { data, writes_left: _, history: _ } = swapped;
        proof {
            assert(data@ + Seq::<char>::empty() =~= data@);
        }
        *self = Self { data, writes_left: budget, history: Ghost(h) };
        Ok(())
    }
}

} // verus!
