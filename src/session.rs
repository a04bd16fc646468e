use vstd::prelude::*;
use vstd::string::StringSliceAdditionalSpecFns;

verus! {

/// The connections of an optional slot value, as a sequence of zero or one.
pub open spec fn live<C>(current: Option<C>) -> Seq<C> {
    match current {
        Some(c) => seq![c],
        None => Seq::empty(),
    }
}

/// The model of a slot: what it holds now, every connection installed in it
/// so far and every one handed back for cancellation so far, in order.
pub ghost struct SlotState<C> {
    pub current: Option<C>,
    pub opened: Seq<C>,
    pub retired: Seq<C>,
}

/// Every connection ever installed has been retired, but the current one.
pub open spec fn slot_wf<C>(s: SlotState<C>) -> bool {
    s.opened == s.retired + live(s.current)
}

/// Retiring empties the slot and hands back what it held.
pub open spec fn retire_step<C>(s: SlotState<C>) -> SlotState<C> {
    SlotState { current: None, opened: s.opened, retired: s.retired + live(s.current) }
}

/// Installing a connection that the backend opened.
pub open spec fn install_step<C>(s: SlotState<C>, c: C) -> SlotState<C> {
    SlotState { current: Some(c), opened: s.opened.push(c), retired: s.retired }
}

/// A whole successful `open` of `c`: retire, then install.
pub open spec fn open_step<C>(s: SlotState<C>, c: C) -> SlotState<C> {
    install_step(retire_step(s), c)
}

/// The manager's slot for the one current connection.
///
/// Opening first retires whatever is current, then installs what the backend
/// opened, if anything. A retired connection is handed back to the caller,
/// which signals its cancellation; the slot never holds two.
pub struct ConnectionSlot<C> {
    current: Option<C>,
    opened: Ghost<Seq<C>>,
    retired: Ghost<Seq<C>>,
}

impl<C> View for ConnectionSlot<C> {
    type V = SlotState<C>;

    closed spec fn view(&self) -> SlotState<C> {
        SlotState { current: self.current, opened: self.opened@, retired: self.retired@ }
    }
}

impl<C> ConnectionSlot<C> {
    pub open spec fn wf(&self) -> bool {
        slot_wf(self@)
    }

    /// An empty slot: nothing opened yet.
    pub fn new() -> (r: Self)
        ensures
            r.wf(),
            r@ == (SlotState::<C> { current: None, opened: Seq::empty(), retired: Seq::empty() }),
    {
        let r = ConnectionSlot { current: None, opened: Ghost(Seq::empty()), retired: Ghost(Seq::empty()) };
        assert(r.opened@ =~= r.retired@ + live(r.current));
        r
    }

    pub fn is_open(&self) -> (r: bool)
        ensures
            r == self@.current is Some,
    {
        self.current.is_some()
    }

    /// The current connection, the one a write goes to; `None` when nothing
    /// is open, and a write then does no I/O.
    pub fn current(&self) -> (r: Option<&C>)
        ensures
            match r {
                Some(c) => self@.current == Some(*c),
                None => self@.current is None,
            },
    {
        match &self.current {
            Some(c) => Some(c),
            None => None,
        }
    }

    /// Empties the slot and hands back what it held, for the caller to
    /// cancel. Used by `close` and as the first step of `open`; on an empty
    /// slot it does nothing.
    pub fn retire(&mut self) -> (r: Option<C>)
        requires
            old(self).wf(),
        ensures
            final(self).wf(),
            r == old(self)@.current,
            final(self)@ == retire_step(old(self)@),
    {
        let r = self.current.take();
        self.retired = Ghost(self.retired@ + live(r));
        assert(self.opened@ =~= self.retired@ + live(self.current));
        r
    }

    /// The second step of `open`: installs what the backend opened, or
    /// leaves the slot empty and passes the backend's error on.
    pub fn install(&mut self, opened: Result<C, String>) -> (r: Result<(), String>)
        requires
            old(self).wf(),
            old(self)@.current is None,
        ensures
            final(self).wf(),
            match opened {
                Ok(c) => r is Ok && final(self)@ == install_step(old(self)@, c),
                Err(e) => r == Err::<(), String>(e) && final(self)@ == old(self)@,
            },
    {
        match opened {
            Ok(c) => {
                self.opened = Ghost(self.opened@.push(c));
                self.current = Some(c);
                assert(self.opened@ =~= self.retired@ + live(self.current));
                Ok(())
            },
            Err(e) => Err(e),
        }
    }
}

/// After a successful open exactly one connection is live, the one just
/// opened: every connection opened before it, the one it replaced included,
/// has been handed back for cancellation, in the order they were opened.
pub proof fn lemma_open_leaves_one_live<C>(s: SlotState<C>, c: C)
    requires
        slot_wf(s),
    ensures
        slot_wf(open_step(s, c)),
        open_step(s, c).current == Some(c),
        open_step(s, c).opened.last() == c,
        open_step(s, c).opened.drop_last() == open_step(s, c).retired,
        open_step(s, c).retired == s.opened,
{
    let t = open_step(s, c);
    assert(t.opened =~= t.retired + live(t.current));
    assert(t.opened.drop_last() =~= t.retired);
}

/// Opening `first` and then `second` leaves `second` as the only live
/// connection; the second open retires `first` before installing `second`.
pub proof fn lemma_reopen_retires_previous<C>(s: SlotState<C>, first: C, second: C)
    requires
        slot_wf(s),
    ensures
        retire_step(open_step(s, first)).retired.last() == first,
        retire_step(open_step(s, first)).current is None,
        open_step(open_step(s, first), second).current == Some(second),
        slot_wf(open_step(open_step(s, first), second)),
        open_step(open_step(s, first), second).retired == s.opened.push(first),
{
    lemma_open_leaves_one_live(s, first);
    lemma_open_leaves_one_live(open_step(s, first), second);
}

/// The outcome of `write`: `sent` is `None` when no connection was open and
/// nothing was sent, else what the device's write returned.
///
/// Writing with no connection open succeeds and does nothing.
pub fn write_outcome(sent: Option<Result<usize, String>>) -> (r: Result<(), String>)
    ensures
        match sent {
            None => r is Ok,
            Some(Ok(_)) => r is Ok,
            Some(Err(e)) => r == Err::<(), String>(e),
        },
{
    match sent {
        Some(Err(e)) => Err(e),
        _ => Ok(()),
    }
}

/// The bytes of `path` with a terminating NUL, as the backend wants a device
/// path; a path that itself holds a NUL byte is refused with "Invalid path".
pub fn nul_terminated_path(path: &str) -> (r: Result<Vec<u8>, String>)
    ensures
        match r {
            Ok(v) => !path.spec_bytes().contains(0u8) && v@ == path.spec_bytes().push(0u8),
            Err(e) => path.spec_bytes().contains(0u8) && e@ == "Invalid path"@,
        },
{
    let bytes = path.as_bytes();
    let mut out: Vec<u8> = Vec::new();
    let mut i: usize = 0;
    while i < bytes.len()
        invariant
            bytes@ == path.spec_bytes(),
            i <= bytes@.len(),
            out@ == bytes@.subrange(0, i as int),
            forall|k: int| 0 <= k < i ==> bytes@[k] != 0u8,
        decreases bytes@.len() - i,
    {
        if bytes[i] == 0u8 {
            proof {
                reveal_strlit("Invalid path");
            }
            return Err("Invalid path".to_owned());
        }
        out.push(bytes[i]);
        i = i + 1;
        assert(out@ =~= bytes@.subrange(0, i as int));
    }
    assert(out@ =~= bytes@);
    out.push(0u8);
    Ok(out)
}

} // verus!
