use vstd::prelude::*;

verus! {

/// Where the pipe's client connection stands.
#[derive(Clone, Copy, Debug, PartialEq, Eq, Structural)]
pub enum ConnectionState {
    Connecting,
    Connected,
    Reconnecting,
}

/// What polling one overlapped pipe operation reported.
#[derive(Clone, Copy, Debug, PartialEq, Eq, Structural)]
pub enum Completion {
    Pending,
    Complete(usize),
    Cancelled,
    Failed,
}

/// What starting to accept a client reported.
#[derive(Clone, Copy, Debug, PartialEq, Eq, Structural)]
pub enum ConnectStart {
    Connected,
    Pending,
    Failed,
}

/// What one pass over the pending write found.
#[derive(Clone, Copy, Debug, PartialEq, Eq, Structural)]
pub enum WriteProgress {
    /// No write was in flight.
    Idle,
    /// The write is still in flight.
    InFlight,
    /// Every byte was written; the data slot is free again.
    Delivered,
    /// The write failed or was cut short; its bytes are kept for the next connection.
    Failed,
}

/// Where the next write takes its bytes from.
#[derive(Clone, Copy, Debug, PartialEq, Eq, Structural)]
pub enum WriteSource {
    /// A write is already in flight.
    Busy,
    /// The bytes a failed write left behind go first.
    Retained,
    /// Otherwise the next queued data message, if any.
    Queue,
}

/// The worker's bookkeeping between passes of its loop: the connection, which
/// overlapped operations are in flight, and what the host may observe.
#[derive(Clone, Copy, Debug, PartialEq, Eq, Structural)]
pub struct WorkerState {
    pub connection: ConnectionState,
    pub connect_pending: bool,
    pub read_pending: bool,
    pub write_pending: bool,
    pub cancellation_requested: bool,
    pub connected: bool,
    pub generation: u64,
}

/// A client connected: it is visible to the host under a new generation.
pub open spec fn spec_mark_connected(s: WorkerState) -> WorkerState {
    WorkerState {
        connected: true,
        generation: if s.generation < u64::MAX { (s.generation + 1) as u64 } else { s.generation },
        ..s
    }
}

pub open spec fn idle_state(connection: ConnectionState, connect_pending: bool) -> WorkerState {
    WorkerState {
        connection,
        connect_pending,
        read_pending: false,
        write_pending: false,
        cancellation_requested: false,
        connected: false,
        generation: 0,
    }
}

pub open spec fn spec_initial(start: ConnectStart) -> WorkerState {
    match start {
        ConnectStart::Connected => spec_mark_connected(idle_state(ConnectionState::Connected, false)),
        ConnectStart::Pending => idle_state(ConnectionState::Connecting, true),
        ConnectStart::Failed => idle_state(ConnectionState::Reconnecting, false),
    }
}

pub open spec fn spec_closing(s: WorkerState, close_requested: bool) -> (WorkerState, bool, bool) {
    if close_requested {
        (WorkerState { cancellation_requested: true, ..s }, true, !s.cancellation_requested)
    } else {
        (s, false, false)
    }
}

pub open spec fn spec_advance_connect(s: WorkerState, poll: Option<Completion>, closing: bool) -> WorkerState {
    if s.connection != ConnectionState::Connecting {
        s
    } else {
        match poll {
            None => WorkerState { connection: ConnectionState::Connected, ..s },
            Some(Completion::Pending) => s,
            Some(Completion::Complete(_)) => spec_mark_connected(
                WorkerState { connection: ConnectionState::Connected, connect_pending: false, ..s },
            ),
            _ => if closing {
                WorkerState { connect_pending: false, ..s }
            } else {
                WorkerState {
                    connection: ConnectionState::Reconnecting,
                    connect_pending: false,
                    ..s
                }
            },
        }
    }
}

pub open spec fn spec_enter_reconnect(s: WorkerState) -> WorkerState {
    WorkerState { connection: ConnectionState::Reconnecting, connected: false, ..s }
}

pub open spec fn polls_write(s: WorkerState, forced: bool) -> bool {
    !forced && s.connection == ConnectionState::Connected
}

pub open spec fn polls_read(s: WorkerState, forced: bool, write_failed: bool) -> bool {
    polls_write(s, forced) && !write_failed
}

pub open spec fn starts_new_generation(
    s: WorkerState,
    forced: bool,
    write_failed: bool,
    read_failed: bool,
    closing: bool,
) -> bool {
    let io_failed = polls_write(s, forced) && (write_failed || read_failed);
    (forced || io_failed) && s.connection == ConnectionState::Connected && !closing
}

pub open spec fn spec_read_retained(poll: Completion, buffer: Seq<u8>) -> Option<Seq<u8>> {
    match poll {
        Completion::Complete(n) => if n <= buffer.len() {
            Some(buffer.subrange(0, n as int))
        } else {
            None
        },
        _ => None,
    }
}

pub open spec fn bytes_of(o: Option<Vec<u8>>) -> Option<Seq<u8>> {
    match o {
        Some(v) => Some(v@),
        None => None,
    }
}

pub open spec fn spec_write_progress(s: WorkerState, poll: Completion, buffer_len: usize) -> WriteProgress {
    if !s.write_pending {
        WriteProgress::Idle
    } else {
        match poll {
            Completion::Pending => WriteProgress::InFlight,
            Completion::Complete(n) => if n == buffer_len {
                WriteProgress::Delivered
            } else {
                WriteProgress::Failed
            },
            _ => WriteProgress::Failed,
        }
    }
}

pub open spec fn still_pending(pending: bool, poll: Completion) -> bool {
    pending && poll == Completion::Pending
}

pub open spec fn spec_reconnect_ready(s: WorkerState, closing: bool) -> bool {
    s.connection == ConnectionState::Reconnecting && !closing && !s.read_pending
        && !s.write_pending
}

pub open spec fn spec_restart(s: WorkerState, start: ConnectStart) -> WorkerState {
    match start {
        ConnectStart::Failed => s,
        ConnectStart::Pending => WorkerState {
            connection: ConnectionState::Connecting,
            connect_pending: true,
            ..s
        },
        ConnectStart::Connected => spec_mark_connected(
            WorkerState { connection: ConnectionState::Connected, connect_pending: false, ..s },
        ),
    }
}

pub open spec fn spec_owners(s: WorkerState) -> nat {
    (if s.connect_pending { 1nat } else { 0nat }) + (if s.read_pending { 1nat } else { 0nat }) + (
    if s.write_pending { 1nat } else { 0nat })
}

pub open spec fn spec_ready_to_terminate(s: WorkerState, close_requested: bool) -> bool {
    close_requested && !s.connect_pending && !s.read_pending && !s.write_pending
}

impl WorkerState {
    fn mark_connected(&mut self)
        ensures
            *final(self) == spec_mark_connected(*old(self)),
    {
        self.connected = true;
        if self.generation < u64::MAX {
            self.generation = self.generation + 1;
        }
    }

    /// The state after the worker first starts to accept a client.
    pub fn initial(start: ConnectStart) -> (state: WorkerState)
        ensures
            state == spec_initial(start),
    {
        let (connection, connect_pending) = match start {
            ConnectStart::Connected => (ConnectionState::Connected, false),
            ConnectStart::Pending => (ConnectionState::Connecting, true),
            ConnectStart::Failed => (ConnectionState::Reconnecting, false),
        };
        let mut state = WorkerState {
            connection,
            connect_pending,
            read_pending: false,
            write_pending: false,
            cancellation_requested: false,
            connected: false,
            generation: 0,
        };
        if start == ConnectStart::Connected {
            state.mark_connected();
        }
        state
    }

    /// Notes a close request. Returns whether the worker is closing and whether
    /// the operations in flight must be cancelled now (once per close).
    pub fn closing(&mut self, close_requested: bool) -> (result: (bool, bool))
        ensures
            (*final(self), result.0, result.1) == spec_closing(*old(self), close_requested),
    {
        if close_requested {
            let cancel = !self.cancellation_requested;
            self.cancellation_requested = true;
            (true, cancel)
        } else {
            (false, false)
        }
    }

    /// Folds the poll of the pending accept into the connection state; `poll` is
    /// `None` where no accept is in flight.
    pub fn advance_connect(&mut self, poll: Option<Completion>, closing: bool)
        ensures
            *final(self) == spec_advance_connect(*old(self), poll, closing),
    {
        if self.connection != ConnectionState::Connecting {
            return ;
        }
        match poll {
            None => {
                self.connection = ConnectionState::Connected;
            },
            Some(Completion::Pending) => {},
            Some(Completion::Complete(_)) => {
                self.connect_pending = false;
                self.connection = ConnectionState::Connected;
                self.mark_connected();
            },
            Some(_) => {
                self.connect_pending = false;
                if !closing {
                    self.connection = ConnectionState::Reconnecting;
                }
            },
        }
    }

    /// Whether this pass polls the pending write.
    pub fn polls_write(&self, forced: bool) -> (polls: bool)
        ensures
            polls == polls_write(*self, forced),
    {
        !forced && self.connection == ConnectionState::Connected
    }

    /// Whether this pass polls the pending read: only where the write did not fail.
    pub fn polls_read(&self, forced: bool, write_failed: bool) -> (polls: bool)
        ensures
            polls == polls_read(*self, forced, write_failed),
    {
        self.polls_write(forced) && !write_failed
    }

    /// After the pass over the pipe's I/O: a forced reconnect or a failed read or
    /// write on a live connection starts a new connection generation, unless the
    /// worker is closing. Returns whether it did; the caller then cancels what is
    /// in flight.
    pub fn after_io(&mut self, forced: bool, write_failed: bool, read_failed: bool, closing: bool)
        -> (restarted: bool)
        ensures
            restarted == starts_new_generation(*old(self), forced, write_failed, read_failed, closing),
            *final(self) == if restarted {
                spec_enter_reconnect(*old(self))
            } else {
                *old(self)
            },
    {
        let io_failed = self.polls_write(forced) && (write_failed || read_failed);
        if (forced || io_failed) && self.connection == ConnectionState::Connected && !closing {
            self.enter_reconnect();
            true
        } else {
            false
        }
    }

    /// Drops the connection: the worker reconnects once its I/O has drained.
    pub fn enter_reconnect(&mut self)
        ensures
            *final(self) == spec_enter_reconnect(*old(self)),
    {
        self.connection = ConnectionState::Reconnecting;
        self.connected = false;
    }

    /// Folds the poll of the pending read in. Returns the control message it
    /// delivered, if any, and whether the read failed.
    pub fn progress_read(&mut self, poll: Completion, buffer: &[u8]) -> (result: (Option<Vec<u8>>, bool))
        ensures
            !old(self).read_pending ==> *final(self) == *old(self) && result.0.is_none()
                && !result.1,
            old(self).read_pending ==> {
                &&& *final(self) == (WorkerState { read_pending: poll == Completion::Pending, ..*old(self) })
                &&& bytes_of(result.0) == spec_read_retained(poll, buffer@)
                &&& result.1 == (poll == Completion::Cancelled || poll == Completion::Failed)
            },
    {
        if !self.read_pending {
            return (None, false);
        }
        match poll {
            Completion::Pending => (None, false),
            Completion::Complete(n) => {
                self.read_pending = false;
                if n <= buffer.len() {
                    let mut out: Vec<u8> = Vec::new();
                    let mut i: usize = 0;
                    while i < n
                        invariant
                            n <= buffer.len(),
                            i <= n,
                            out@ == buffer@.subrange(0, i as int),
                        decreases n - i,
                    {
                        out.push(buffer[i]);
                        i = i + 1;
                    }
                    (Some(out), false)
                } else {
                    (None, false)
                }
            },
            _ => {
                self.read_pending = false;
                (None, true)
            },
        }
    }

    /// Folds the poll of the pending write in; `buffer_len` is the length of the
    /// bytes it was started with.
    pub fn progress_write(&mut self, poll: Completion, buffer_len: usize) -> (progress: WriteProgress)
        ensures
            progress == spec_write_progress(*old(self), poll, buffer_len),
            *final(self) == (WorkerState {
                write_pending: progress == WriteProgress::InFlight,
                ..*old(self)
            }),
    {
        if !self.write_pending {
            return WriteProgress::Idle;
        }
        let progress = match poll {
            Completion::Pending => WriteProgress::InFlight,
            Completion::Complete(n) => if n == buffer_len {
                WriteProgress::Delivered
            } else {
                WriteProgress::Failed
            },
            _ => WriteProgress::Failed,
        };
        self.write_pending = progress == WriteProgress::InFlight;
        progress
    }

    /// While reconnecting, operations that finished in any way stop being in
    /// flight; `read_poll` and `write_poll` are what polling them reported.
    pub fn drain_for_reconnect(&mut self, read_poll: Completion, write_poll: Completion)
        ensures
            *final(self) == (WorkerState {
                read_pending: still_pending(old(self).read_pending, read_poll),
                write_pending: still_pending(old(self).write_pending, write_poll),
                ..*old(self)
            }),
    {
        self.read_pending = self.read_pending && read_poll == Completion::Pending;
        self.write_pending = self.write_pending && write_poll == Completion::Pending;
    }

    /// Whether the worker may disconnect the pipe and accept a new client now.
    pub fn reconnect_ready(&self, closing: bool) -> (ready: bool)
        ensures
            ready == spec_reconnect_ready(*self, closing),
    {
        self.connection == ConnectionState::Reconnecting && !closing && !self.read_pending
            && !self.write_pending
    }

    /// Folds in what starting to accept a new client reported; a failed start is
    /// tried again on a later pass.
    pub fn restart(&mut self, start: ConnectStart)
        ensures
            *final(self) == spec_restart(*old(self), start),
    {
        match start {
            ConnectStart::Failed => {},
            ConnectStart::Pending => {
                self.connection = ConnectionState::Connecting;
                self.connect_pending = true;
            },
            ConnectStart::Connected => {
                self.connection = ConnectionState::Connected;
                self.connect_pending = false;
                self.mark_connected();
            },
        }
    }

    /// Whether a read is to be started: none is in flight and no control
    /// message waits to be handed on.
    pub fn starts_read(&self, control_retained: bool) -> (starts: bool)
        ensures
            starts == (!control_retained && !self.read_pending),
    {
        !control_retained && !self.read_pending
    }

    /// Where the next write takes its bytes from.
    pub fn write_source(&self, write_retained: bool) -> (source: WriteSource)
        ensures
            source == if self.write_pending {
                WriteSource::Busy
            } else if write_retained {
                WriteSource::Retained
            } else {
                WriteSource::Queue
            },
    {
        if self.write_pending {
            WriteSource::Busy
        } else if write_retained {
            WriteSource::Retained
        } else {
            WriteSource::Queue
        }
    }

    /// Folds in the starts of a read and a write; `None` where none was
    /// attempted, `Some(ok)` for the outcome of one that was. A failed start
    /// drops the connection. Returns whether it did.
    pub fn started_io(&mut self, read: Option<bool>, write: Option<bool>) -> (dropped: bool)
        ensures
            dropped == (read == Some(false) || write == Some(false)),
            ({
                let s = WorkerState {
                    read_pending: old(self).read_pending || read == Some(true),
                    write_pending: old(self).write_pending || write == Some(true),
                    ..*old(self)
                };
                *final(self) == if dropped {
                    spec_enter_reconnect(s)
                } else {
                    s
                }
            }),
    {
        if read == Some(true) {
            self.read_pending = true;
        }
        if write == Some(true) {
            self.write_pending = true;
        }
        let dropped = read == Some(false) || write == Some(false);
        if dropped {
            self.enter_reconnect();
        }
        dropped
    }

    /// How many overlapped operations the worker has in flight.
    pub fn owners(&self) -> (count: usize)
        ensures
            count == spec_owners(*self),
            count <= 3,
    {
        let mut count: usize = 0;
        if self.connect_pending {
            count = count + 1;
        }
        if self.read_pending {
            count = count + 1;
        }
        if self.write_pending {
            count = count + 1;
        }
        count
    }

    /// Whether the worker may close the pipe and stop: a close was requested and
    /// nothing is in flight.
    pub fn ready_to_terminate(&self, close_requested: bool) -> (ready: bool)
        ensures
            ready == spec_ready_to_terminate(*self, close_requested),
    {
        close_requested && !self.connect_pending && !self.read_pending && !self.write_pending
    }

    /// The state once the pipe is closed: nothing in flight, nothing connected.
    pub fn terminal(&mut self)
        ensures
            *final(self) == (WorkerState { connected: false, ..*old(self) }),
    {
        self.connected = false;
    }
}

/// The worker stops only when no overlapped operation is in flight.
pub proof fn law_terminate_only_when_idle(s: WorkerState, close_requested: bool)
    requires
        spec_ready_to_terminate(s, close_requested),
    ensures
        spec_owners(s) == 0,
{
}

/// A closing worker never accepts a new client, and a failed accept while
/// closing does not send it back to reconnecting.
pub proof fn law_closing_never_reconnects(s: WorkerState, poll: Completion)
    requires
        poll == Completion::Cancelled || poll == Completion::Failed,
    ensures
        !spec_reconnect_ready(s, true),
        spec_advance_connect(s, Some(poll), true).connection == s.connection,
{
}

/// After a connection is dropped, a new client is accepted only once the read
/// and the write in flight have both finished.
pub proof fn law_reconnect_waits_for_drain(s: WorkerState, read_poll: Completion, write_poll: Completion)
    requires
        s.read_pending && read_poll == Completion::Pending || s.write_pending && write_poll
            == Completion::Pending,
    ensures
        !spec_reconnect_ready(
            WorkerState {
                read_pending: still_pending(spec_enter_reconnect(s).read_pending, read_poll),
                write_pending: still_pending(spec_enter_reconnect(s).write_pending, write_poll),
                ..spec_enter_reconnect(s)
            },
            false,
        ),
{
}

/// Every accepted client is seen under a larger generation than the one before.
pub proof fn law_connections_get_new_generations(s: WorkerState, start: ConnectStart)
    requires
        s.connection == ConnectionState::Reconnecting,
        start == ConnectStart::Connected,
        s.generation < u64::MAX,
    ensures
        spec_restart(s, start).generation > s.generation,
        spec_restart(s, start).connected,
{
}

/// A write that is cut short is never counted as delivered.
pub proof fn law_short_write_is_not_delivered(s: WorkerState, n: usize, buffer_len: usize)
    requires
        s.write_pending,
        n != buffer_len,
    ensures
        spec_write_progress(s, Completion::Complete(n), buffer_len) == WriteProgress::Failed,
{
}

} // verus!
