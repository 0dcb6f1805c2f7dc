use vstd::prelude::*;
use crossbeam::channel::{bounded, Receiver, RecvError, SendError, Sender};
use crate::config::{Configuration, ConfigurationChangeRequest};
use crate::errors::{copy_of, Error};
use crate::log::Log;

verus! {

/// The errors waiting on the channel whose receiving half is `rx`, oldest first.
pub uninterp spec fn queued(rx: Receiver<Error>) -> Seq<Error>;

/// The channels between the two sides of a `DeferError`: a one-slot channel
/// that carries the outcome, and a shutdown channel. All four halves stay in
/// this value: it is made only by `open_outcome_channel`, is never cloned, and
/// is used only through `send_outcome` and `wait_outcome`; nothing is ever
/// sent on the shutdown channel. So the outcome channel holds exactly what
/// `send_outcome` put in and `wait_outcome` has not yet taken out.
pub struct OutcomeChannel {
    err_tx: Sender<Error>,
    err_rx: Receiver<Error>,
    shutdown_tx: Sender<()>,
    shutdown_rx: Receiver<()>,
}

impl OutcomeChannel {
    /// The outcomes sent and not yet received, oldest first.
    pub closed spec fn pending(&self) -> Seq<Error> {
        queued(self.err_rx)
    }
}

/// Two `crossbeam::channel::bounded(1)` channels, one for the outcome and one
/// for shutdown; nothing is queued on a new channel.
#[verifier::external_body]
fn open_outcome_channel() -> (r: OutcomeChannel)
    ensures
        queued(r.err_rx) == Seq::<Error>::empty(),
{
    let (err_tx, err_rx) = bounded::<Error>(1);
    let (shutdown_tx, shutdown_rx) = bounded::<()>(1);
    OutcomeChannel { err_tx, err_rx, shutdown_tx, shutdown_rx }
}

/// `Sender::send` of `e` on the outcome channel. With its one slot free and its
/// receiving half alive beside it, the send takes `e` at once and succeeds.
#[verifier::external_body]
fn send_outcome(ch: &mut OutcomeChannel, e: Error) -> (r: Result<(), SendError<Error>>)
    requires
        queued(old(ch).err_rx).len() == 0,
    ensures
        r is Ok,
        queued(final(ch).err_rx) == seq![e],
{
    ch.err_tx.send(e)
}

/// Waits with a crossbeam `Select` until an outcome arrives on the outcome
/// channel or a signal on the shutdown channel, and receives it: `Ok(Some(e))`
/// for an outcome `e`, `Ok(None)` for a shutdown, the receive failure when the
/// outcome channel has no sender left. The shutdown channel never becomes
/// ready and the senders stay alive, so the wait returns only once an outcome
/// is queued, and then returns the oldest one; on an empty channel it does not
/// return.
#[verifier::external_body]
fn wait_outcome(ch: &mut OutcomeChannel) -> (r: Result<Option<Error>, RecvError>)
    ensures
        queued(old(ch).err_rx).len() > 0,
        r == Ok::<Option<Error>, RecvError>(Some(queued(old(ch).err_rx)[0])),
        queued(final(ch).err_rx) == queued(old(ch).err_rx).drop_first(),
{
    let mut sel = crossbeam::channel::Select::new();
    let err_op = sel.recv(&ch.err_rx);
    sel.recv(&ch.shutdown_rx);
    let op = sel.select();
    if op.index() == err_op {
        op.recv(&ch.err_rx).map(Some)
    } else {
        let _ = op.recv(&ch.shutdown_rx);
        Ok(None)
    }
}

/// `Future` is used to represent an action that may occur in the future.
pub trait Future {
    /// Blocks until the future arrives and then returns the error status of the
    /// future. This may be called any number of times - all calls return the
    /// same value. It fails only when the future can no longer arrive.
    fn error(&mut self) -> Result<Error, RecvError>;
}

/// `IndexFuture` is used for future actions that can result in a raft log entry
/// being created.
pub trait IndexFuture: Future {
    /// The index of the newly applied log entry. This must not be called until
    /// after the `error` method has returned.
    fn index(&self) -> u64;
}

/// `ApplyFuture` is used for Apply and can return the FSM response.
pub trait ApplyFuture<T>: IndexFuture {
    /// The FSM response as returned by the FSM's `apply` method. This must not be
    /// called until after the `error` method has returned.
    fn response(&self) -> T;
}

/// `ConfigurationFuture` is used for GetConfiguration and can return the
/// latest configuration in use by Raft.
pub trait ConfigurationFuture: IndexFuture {
    /// The latest configuration. This must not be called until after the
    /// `error` method has returned.
    fn configuration(&self) -> Configuration;
}

/// `SnapshotFuture` is used for waiting on a user-triggered snapshot to complete.
pub trait SnapshotFuture: Future {}

/// `LeadershipTransferFuture` is used for waiting on a user-triggered leadership
/// transfer to complete.
pub trait LeadershipTransferFuture: Future {}

/// `ErrorFuture` is used to return a static error.
pub struct ErrorFuture {
    error: Error,
}

impl ErrorFuture {
    /// The error the future reports.
    pub closed spec fn reported(&self) -> Error {
        self.error
    }
}

impl Future for ErrorFuture {
    fn error(&mut self) -> (r: Result<Error, RecvError>)
        ensures
            r matches Ok(e) && copy_of(old(self).reported(), e),
            final(self).reported() == old(self).reported(),
    {
        Ok(self.error.clone())
    }
}

impl IndexFuture for ErrorFuture {
    fn index(&self) -> (r: u64)
        ensures
            r == 0,
    {
        0
    }
}

impl ApplyFuture<()> for ErrorFuture {
    fn response(&self) -> () {
        ()
    }
}

/// `DeferError` can be embedded to allow a future to provide an error in the
/// future: one side responds once, the other side waits for the response.
pub struct DeferError {
    err: Option<Error>,
    channel: OutcomeChannel,
    responded: bool,
    /// The outcome handed to the channel by the response.
    delivered: Ghost<Option<Error>>,
}

impl DeferError {
    /// The error the waiting side has already received, if any.
    pub closed spec fn cached(&self) -> Option<Error> {
        self.err
    }

    /// A response was delivered.
    pub closed spec fn has_responded(&self) -> bool {
        self.responded
    }

    /// The outcome that the response handed to the waiting side, if any.
    pub closed spec fn delivered(&self) -> Option<Error> {
        self.delivered@
    }

    /// The outcomes on the channel that the waiting side has not yet received.
    pub closed spec fn pending(&self) -> Seq<Error> {
        self.channel.pending()
    }

    /// A response can still be sent: none was delivered yet.
    pub closed spec fn can_respond(&self) -> bool {
        !self.responded
    }

    /// The channel holds what was responded and not yet received: nothing
    /// before the response, and the response until the waiting side takes it.
    pub closed spec fn wf(&self) -> bool {
        &&& !self.responded ==> self.delivered@ is None && self.channel.pending() == Seq::<
            Error,
        >::empty()
        &&& self.responded ==> self.delivered@ is Some
        &&& self.responded && self.err is None ==> self.channel.pending() == seq![
            self.delivered@->0,
        ]
    }
}

impl Default for DeferError {
    /// A future that has neither responded nor been waited on.
    fn default() -> (r: Self)
        ensures
            r.wf(),
            r.cached() == None::<Error>,
            r.delivered() == None::<Error>,
            r.pending() == Seq::<Error>::empty(),
            !r.has_responded(),
            r.can_respond(),
    {
        Self { err: None, channel: open_outcome_channel(), responded: false, delivered: Ghost(None) }
    }
}

impl DeferError {
    /// `DeferError::default`.
    pub fn new() -> (r: Self)
        ensures
            r.wf(),
            r.cached() == None::<Error>,
            r.delivered() == None::<Error>,
            r.pending() == Seq::<Error>::empty(),
            !r.has_responded(),
            r.can_respond(),
    {
        Self::default()
    }

    /// Delivers the outcome: `Error::Nil` for success, or the error. Only the
    /// first delivery is sent; later ones are ignored. The waiting side keeps
    /// its receiving half, so the send succeeds.
    pub fn respond(&mut self, e: Option<Error>) -> (r: Result<(), SendError<Error>>)
        requires
            old(self).wf(),
        ensures
            r is Ok,
            final(self).wf(),
            !old(self).can_respond() ==> *final(self) == *old(self),
            old(self).can_respond() ==> {
                let v = if e is Some {
                    e->0
                } else {
                    Error::Nil
                };
                &&& final(self).has_responded()
                &&& !final(self).can_respond()
                &&& final(self).cached() == old(self).cached()
                &&& final(self).delivered() == Some(v)
                &&& final(self).pending() == old(self).pending().push(v)
            },
    {
        if self.responded {
            return Ok(());
        }
        let v = match e {
            None => Error::Nil,
            Some(e) => e,
        };
        let ghost sent = v;
        let r = send_outcome(&mut self.channel, v);
        self.responded = true;
        self.delivered = Ghost(Some(sent));
        r
    }

/// What the waiting side does with what it waited for, before it knew an
    /// outcome: an error is kept and returned, a shutdown is kept and returned
    /// as `Error::RaftShutdown`, and a failed receive is handed back with the
    /// future unchanged.
    pub fn settle(&mut self, got: Result<Option<Error>, RecvError>) -> (r: Result<Error, RecvError>)
        requires
            old(self).cached() is None,
        ensures
            match got {
                Ok(Some(e)) => final(self).cached() == Some(e) && (r matches Ok(c) && copy_of(e, c)),
                Ok(None) => final(self).cached() == Some(Error::RaftShutdown) && r == Ok::<
                    Error,
                    RecvError,
                >(Error::RaftShutdown),
                Err(x) => r == Err::<Error, RecvError>(x) && *final(self) == *old(self),
            },
            final(self).has_responded() == old(self).has_responded(),
            final(self).can_respond() == old(self).can_respond(),
            final(self).delivered() == old(self).delivered(),
            final(self).pending() == old(self).pending(),
            old(self).wf() ==> final(self).wf(),
    {
        match got {
            Ok(Some(e)) => {
                let copy = e.clone();
                self.err = Some(e);
                Ok(copy)
            },
            Ok(None) => {
                self.err = Some(Error::RaftShutdown);
                Ok(Error::RaftShutdown)
            },
            Err(x) => Err(x),
        }
    }
}

impl Future for DeferError {
    /// The delivered outcome. Once an outcome is known, every call returns it
    /// again. Before any response the wait does not return.
    fn error(&mut self) -> (r: Result<Error, RecvError>)
        ensures
            old(self).cached() matches Some(c) ==> (r matches Ok(e) && copy_of(c, e))
                && *final(self) == *old(self),
            old(self).wf() && old(self).cached() is None && old(self).delivered() is Some ==> (r matches Ok(
                e,
            ) && copy_of(old(self).delivered()->0, e)) && final(self).cached() == old(self).delivered(),
            old(self).cached() is None ==> (r matches Ok(e) ==> final(self).cached() matches Some(
                c,
            ) && copy_of(c, e)),
            old(self).cached() is None && r is Err ==> *final(self) == *old(self),
            old(self).wf() ==> final(self).wf(),
            final(self).has_responded() == old(self).has_responded(),
            final(self).can_respond() == old(self).can_respond(),
            final(self).delivered() == old(self).delivered(),
    {
        match &self.err {
            Some(e) => Ok(e.clone()),
            None => {
                let got = wait_outcome(&mut self.channel);
                self.settle(got)
            },
        }
    }
}

/// There are several types of requests that cause a configuration entry to
/// be appended to the log. This is internal to a single server.
pub struct ConfigurationChangeFuture<T> {
    lf: LogFuture<T>,
    req: ConfigurationChangeRequest,
}

/// `BootstrapFuture` is used to attempt a live bootstrap of the cluster.
pub struct BootStrapFuture {
    defer_error: DeferError,
    /// configuration is the proposed bootstrap configuration to apply.
    configuration: Configuration,
}

impl BootStrapFuture {
    /// Where the outcome of the bootstrap is delivered.
    pub closed spec fn deferred(&self) -> DeferError {
        self.defer_error
    }
}

impl Future for BootStrapFuture {
    /// The outcome of the bootstrap, as `DeferError::error` waits for it.
    fn error(&mut self) -> (r: Result<Error, RecvError>)
        ensures
            old(self).deferred().cached() matches Some(c) ==> (r matches Ok(e) && copy_of(c, e)),
            old(self).deferred().cached() is None ==> (r matches Ok(e)
                ==> final(self).deferred().cached() matches Some(c) && copy_of(c, e)),
            old(self).deferred().wf() && old(self).deferred().cached() is None
                && old(self).deferred().delivered() is Some ==> (r matches Ok(e) && copy_of(
                old(self).deferred().delivered()->0,
                e,
            )),
    {
        self.defer_error.error()
    }
}

impl LeadershipTransferFuture for BootStrapFuture {}

/// `LogFuture` is used to apply a log entry and waits until
/// the log is considered committed.
pub struct LogFuture<T> {
    defer_err: DeferError,
    log: Log,
    response: T,
    dispatch: std::time::Instant,
}

impl<T> LogFuture<T> {
    /// Where the outcome of the entry is delivered.
    pub closed spec fn deferred(&self) -> DeferError {
        self.defer_err
    }

    /// The entry being committed.
    pub closed spec fn entry(&self) -> Log {
        self.log
    }

    /// The response of the FSM.
    pub closed spec fn fsm_response(&self) -> T {
        self.response
    }
}

impl<T: Clone> Future for LogFuture<T> {
    /// The outcome of the entry, as `DeferError::error` waits for it.
    fn error(&mut self) -> (r: Result<Error, RecvError>)
        ensures
            old(self).deferred().cached() matches Some(c) ==> (r matches Ok(e) && copy_of(c, e)),
            old(self).deferred().cached() is None ==> (r matches Ok(e)
                ==> final(self).deferred().cached() matches Some(c) && copy_of(c, e)),
            old(self).deferred().wf() && old(self).deferred().cached() is None
                && old(self).deferred().delivered() is Some ==> (r matches Ok(e) && copy_of(
                old(self).deferred().delivered()->0,
                e,
            )),
    {
        self.defer_err.error()
    }
}

impl<T: Clone> IndexFuture for LogFuture<T> {
    fn index(&self) -> (r: u64)
        ensures
            r == self.entry().index,
    {
        self.log.index
    }
}

impl<T: Clone> ApplyFuture<T> for LogFuture<T> {
    fn response(&self) -> (r: T)
        ensures
            cloned(self.fsm_response(), r),
    {
        self.response.clone()
    }
}

impl<T: Clone> LeadershipTransferFuture for LogFuture<T> {}

} // verus!
