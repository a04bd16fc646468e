use vstd::prelude::*;

verus! {

/// How long one read may block, in milliseconds; it bounds how late the loop
/// sees a cancellation and how long a write waits for the device.
pub const READ_TIMEOUT_MS: i32 = 5;

/// What the loop does after one read.
#[derive(Debug, PartialEq, Eq)]
pub enum ReaderAction {
    /// Hand these bytes to the sink as one "response" frame.
    Publish(Vec<u8>),
    /// Nothing arrived before the timeout: yield, then poll again.
    Idle,
    /// The read failed: the loop ends for good.
    Stop,
}

/// The decisions of the background loop that drains one open connection.
///
/// It is RUNNING until it observes cancellation before a read or a read
/// fails; STOPPED is terminal. Reads use a buffer of `frame_size` bytes,
/// fixed when the connection is opened.
pub struct ReaderLoop {
    running: bool,
    frame_size: usize,
}

/// The state after the check that precedes each read.
pub open spec fn after_check(running: bool, cancelled: bool) -> bool {
    running && !cancelled
}

/// The state after a read; `Ok(0)` is a timeout with no data.
pub open spec fn after_read(result: Result<usize, ()>) -> bool {
    result is Ok
}

/// The state after a series of checks, each reading the flag as given.
pub open spec fn after_checks(running: bool, flags: Seq<bool>) -> bool
    decreases flags.len(),
{
    if flags.len() == 0 {
        running
    } else {
        after_checks(after_check(running, flags[0]), flags.drop_first())
    }
}

impl ReaderLoop {
    pub closed spec fn spec_running(&self) -> bool {
        self.running
    }

    pub closed spec fn spec_frame_size(&self) -> usize {
        self.frame_size
    }

    /// A RUNNING loop for a connection opened with `frame_size`.
    pub fn new(frame_size: usize) -> (r: Self)
        ensures
            r.spec_running(),
            r.spec_frame_size() == frame_size,
    {
        ReaderLoop { running: true, frame_size }
    }

    pub fn is_running(&self) -> (r: bool)
        ensures
            r == self.spec_running(),
    {
        self.running
    }

    pub fn frame_size(&self) -> (r: usize)
        ensures
            r == self.spec_frame_size(),
    {
        self.frame_size
    }

    /// A zeroed read buffer of `frame_size` bytes.
    pub fn new_buffer(&self) -> (r: Vec<u8>)
        ensures
            r@ == Seq::new(self.spec_frame_size() as nat, |i: int| 0u8),
    {
        let mut buf: Vec<u8> = Vec::new();
        let mut i: usize = 0;
        while i < self.frame_size
            invariant
                i <= self.frame_size,
                buf@ == Seq::new(i as nat, |k: int| 0u8),
            decreases self.frame_size - i,
        {
            buf.push(0u8);
            i = i + 1;
            assert(buf@ =~= Seq::new(i as nat, |k: int| 0u8));
        }
        buf
    }

    /// The check made before each read, given what the cancellation flag
    /// reads now. Returns whether to read; once it returns `false` the loop
    /// is STOPPED.
    pub fn check_cancel(&mut self, cancelled: bool) -> (read: bool)
        ensures
            read == after_check(old(self).spec_running(), cancelled),
            final(self).spec_running() == read,
            final(self).spec_frame_size() == old(self).spec_frame_size(),
    {
        if cancelled {
            self.running = false;
        }
        self.running
    }

    /// The decision after one read into `buf`: `Ok(n)` is the number of
    /// bytes received (0 on timeout), `Err(())` a device error.
    ///
    /// A frame holds exactly the `n` bytes received, not the whole buffer.
    pub fn on_read(&mut self, buf: &Vec<u8>, result: Result<usize, ()>) -> (r: ReaderAction)
        requires
            old(self).spec_running(),
            buf@.len() == old(self).spec_frame_size(),
            result matches Ok(n) ==> n <= buf@.len(),
        ensures
            final(self).spec_running() == after_read(result),
            final(self).spec_frame_size() == old(self).spec_frame_size(),
            match result {
                Ok(n) => if n > 0 {
                    r matches ReaderAction::Publish(frame) && frame@ == buf@.subrange(0, n as int)
                } else {
                    r is Idle
                },
                Err(_) => r is Stop,
            },
    {
        match result {
            Ok(n) => {
                if n > 0 {
                    let mut frame: Vec<u8> = Vec::new();
                    let mut i: usize = 0;
                    while i < n
                        invariant
                            i <= n <= buf@.len(),
                            frame@ == buf@.subrange(0, i as int),
                        decreases n - i,
                    {
                        frame.push(buf[i]);
                        i = i + 1;
                        assert(frame@ =~= buf@.subrange(0, i as int));
                    }
                    ReaderAction::Publish(frame)
                } else {
                    ReaderAction::Idle
                }
            },
            Err(_) => {
                self.running = false;
                ReaderAction::Stop
            },
        }
    }
}

/// Once the loop has observed cancellation it stays STOPPED: no later check,
/// whatever the flag reads by then, lets it read or publish again.
pub proof fn lemma_cancel_is_final(running: bool, later: Seq<bool>)
    ensures
        !after_checks(after_check(running, true), later),
    decreases later.len(),
{
    if later.len() > 0 {
        lemma_cancel_is_final(false, later.drop_first());
    }
}

/// A read error ends the loop for good, whatever the flag reads afterwards.
pub proof fn lemma_read_error_is_final(later: Seq<bool>)
    ensures
        !after_checks(after_read(Err(())), later),
    decreases later.len(),
{
    if later.len() > 0 {
        lemma_read_error_is_final(later.drop_first());
    }
}

} // verus!
