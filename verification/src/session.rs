//! The serial session state machine.
//!
//! A `SessionManager` owns at most one open port at a time. Its state is the
//! pairing of the open flag with the optional handle, kept consistent by a
//! type invariant: the flag is set exactly when a handle is owned. The caller
//! that shares one manager across threads serializes the operations (each
//! takes `&mut self`), so every transition is observed whole.

use vstd::prelude::*;

use crate::port::{PortHandle, ReadOutcome};
use crate::text::{decode_utf8, utf8_of};
use crate::{BAUD_RATE, READ_BUFFER_LEN, READ_TIMEOUT_MS};

verus! {

/// The observable state of a session: whether a port is currently open.
pub ghost struct SessionView {
    pub is_open: bool,
}

/// Why a read failed.
#[derive(Debug)]
pub enum ReadError {
    /// `read` was called while no port is open.
    NotOpen,
    /// The device vanished mid-read; the session is closed again.
    PortDisconnected,
    /// The received bytes are not valid text; they are discarded.
    DecodeFailure,
    /// Any other I/O error, with its description; the session stays open.
    ReadFailure(String),
}

/// What one `open` call does: with a session already open it refuses and
/// changes nothing; from a closed session the result reports exactly whether
/// the session is now open.
pub open spec fn open_step(pre: SessionView, post: SessionView, r: bool) -> bool {
    &&& pre.is_open ==> !r && post == pre
    &&& !pre.is_open ==> post.is_open == r
}

/// What one `close` call does: it reports whether there was a session to
/// close, and afterwards none is open.
pub open spec fn close_step(pre: SessionView, post: SessionView, r: bool) -> bool {
    &&& r == pre.is_open
    &&& !post.is_open
}

/// What settling one read outcome does: data decodes to text exactly when it
/// is valid UTF-8 (and the text is empty exactly when no bytes were read), a
/// timeout is an empty success, a disconnection closes the session and is
/// reported as such, and any other failure is reported with its description
/// while the state is untouched.
pub open spec fn read_outcome_step(
    outcome: ReadOutcome,
    data: Seq<u8>,
    pre: SessionView,
    post: SessionView,
    r: Result<String, ReadError>,
) -> bool {
    match outcome {
        ReadOutcome::Data(n) => {
            &&& post == pre
            &&& match utf8_of(data.take(n as int)) {
                Some(text) => r matches Ok(s) && s@ == text && (s@.len() == 0 <==> n == 0),
                None => r matches Err(e) && e is DecodeFailure,
            }
        },
        ReadOutcome::TimedOut => {
            &&& post == pre
            &&& r matches Ok(s) && s@ =~= Seq::<char>::empty()
        },
        ReadOutcome::Disconnected => {
            &&& !post.is_open
            &&& r matches Err(e) && e is PortDisconnected
        },
        ReadOutcome::IoFailure(msg) => {
            &&& post == pre
            &&& r matches Err(e) && e matches ReadError::ReadFailure(detail) && detail@ == msg@
        },
    }
}

/// What one `read` call does to the observable state: it fails with
/// `NotOpen` exactly when no session is open, and then changes nothing; it
/// closes the session exactly when it reports `PortDisconnected`; any other
/// result leaves the session open.
pub open spec fn read_step(
    pre: SessionView,
    post: SessionView,
    r: Result<String, ReadError>,
) -> bool {
    &&& (r matches Err(e) && e is NotOpen) <==> !pre.is_open
    &&& !pre.is_open ==> post == pre
    &&& (r matches Err(e) && e is PortDisconnected) ==> pre.is_open && !post.is_open
    &&& pre.is_open && !(r matches Err(e) && e is PortDisconnected) ==> post.is_open
}

/// Mutual exclusion of sessions: of any two `open` calls in a row starting
/// from a closed session, at most one succeeds — once the first has
/// succeeded, the second refuses and leaves the winning session untouched.
pub proof fn lemma_open_mutual_exclusion(
    s0: SessionView,
    s1: SessionView,
    s2: SessionView,
    r1: bool,
    r2: bool,
)
    requires
        !s0.is_open,
        open_step(s0, s1, r1),
        r1,
        open_step(s1, s2, r2),
    ensures
        !r2,
        s2 == s1,
{
}

/// A chain of `open` calls: `views` holds the observable state before and
/// after each call, `results` what each call returned.
pub open spec fn open_chain(views: Seq<SessionView>, results: Seq<bool>) -> bool {
    &&& views.len() == results.len() + 1
    &&& forall|i: int|
        0 <= i < results.len() ==> #[trigger] open_step(views[i], views[i + 1], results[i])
}

/// How many calls in a chain succeeded.
pub open spec fn successes(results: Seq<bool>) -> int
    decreases results.len(),
{
    if results.len() == 0 {
        0
    } else {
        successes(results.drop_last()) + if results.last() {
            1 as int
        } else {
            0 as int
        }
    }
}

/// Mutual exclusion over any sequence of `open` calls: starting from a
/// closed session, however the calls are interleaved into a chain, at most
/// one of them succeeds — and none has succeeded exactly as long as the
/// session is still closed.
pub proof fn lemma_open_chain_mutual_exclusion(views: Seq<SessionView>, results: Seq<bool>)
    requires
        open_chain(views, results),
        !views[0].is_open,
    ensures
        successes(results) <= 1,
        successes(results) == 0 <==> !views.last().is_open,
    decreases results.len(),
{
    if results.len() > 0 {
        let prev_views = views.drop_last();
        let prev_results = results.drop_last();
        assert forall|i: int| 0 <= i < prev_results.len() implies #[trigger] open_step(
            prev_views[i],
            prev_views[i + 1],
            prev_results[i],
        ) by {
            assert(open_step(views[i], views[i + 1], results[i]));
        }
        lemma_open_chain_mutual_exclusion(prev_views, prev_results);
        assert(open_step(views[views.len() - 2], views.last(), results.last()));
    }
}

/// Idempotent close: closing an open session and then closing again yields
/// `true` then `false`.
pub proof fn lemma_close_idempotent(
    s0: SessionView,
    s1: SessionView,
    s2: SessionView,
    r1: bool,
    r2: bool,
)
    requires
        s0.is_open,
        close_step(s0, s1, r1),
        close_step(s1, s2, r2),
    ensures
        r1,
        !r2,
{
}

/// Open-close-open cycle: after a successful `open` and a `close`, the close
/// reported `true`, the session is closed again, and the state machine
/// permits the next `open` to succeed — whether it does depends only on the
/// device still being available, not on any residue in the state.
pub proof fn lemma_open_close_open(
    s0: SessionView,
    s1: SessionView,
    s2: SessionView,
    r1: bool,
    rc: bool,
)
    requires
        !s0.is_open,
        open_step(s0, s1, r1),
        r1,
        close_step(s1, s2, rc),
    ensures
        rc,
        !s2.is_open,
        open_step(s2, (SessionView { is_open: true }), true),
{
}

/// Disconnect heals the state: a read whose outcome is `Disconnected`
/// reports `PortDisconnected` and leaves the session closed; a read after
/// that fails with `NotOpen` and changes nothing; and the state machine
/// permits a fresh `open` to succeed with no explicit `close` in between.
pub proof fn lemma_disconnect_heals(
    data: Seq<u8>,
    pre: SessionView,
    s1: SessionView,
    r1: Result<String, ReadError>,
    s2: SessionView,
    r2: Result<String, ReadError>,
)
    requires
        read_outcome_step(ReadOutcome::Disconnected, data, pre, s1, r1),
        read_step(s1, s2, r2),
    ensures
        !s1.is_open,
        r1 matches Err(e) && e is PortDisconnected,
        r2 matches Err(e) && e is NotOpen,
        s2 == s1,
        open_step(s1, (SessionView { is_open: true }), true),
{
}

/// A timeout is not an error: a read whose outcome is `TimedOut` returns
/// success with the empty string, never a failure, and leaves the state
/// untouched.
pub proof fn lemma_timeout_not_error(
    data: Seq<u8>,
    pre: SessionView,
    post: SessionView,
    r: Result<String, ReadError>,
)
    requires
        read_outcome_step(ReadOutcome::TimedOut, data, pre, post, r),
    ensures
        r matches Ok(s) && s@ =~= Seq::<char>::empty(),
        post == pre,
{
}

/// A read without an open session fails: from a closed session, `read`
/// returns `NotOpen` and changes nothing.
pub proof fn lemma_read_without_open(
    pre: SessionView,
    post: SessionView,
    r: Result<String, ReadError>,
)
    requires
        !pre.is_open,
        read_step(pre, post, r),
    ensures
        r matches Err(e) && e is NotOpen,
        post == pre,
{
}

/// The one serial session: an open flag paired with the optional owned
/// handle. The pairing is a type invariant, so no operation can leave the
/// two halves disagreeing.
pub struct SessionManager {
    is_open: bool,
    port: Option<PortHandle>,
}

impl View for SessionManager {
    type V = SessionView;

    closed spec fn view(&self) -> SessionView {
        SessionView { is_open: self.is_open }
    }
}

impl SessionManager {
    #[verifier::type_invariant]
    spec fn wf(self) -> bool {
        self.is_open <==> self.port is Some
    }

    /// A fresh manager with no session open.
    pub fn new() -> (m: SessionManager)
        ensures
            !m@.is_open,
    {
        SessionManager { is_open: false, port: None }
    }

    /// Whether a session is currently open. A polling loop checks this each
    /// iteration and stops on its own once it turns false.
    pub fn is_session_open(&self) -> (b: bool)
        ensures
            b == self@.is_open,
    {
        self.is_open
    }

    /// Opens the named device at the fixed baud rate and read timeout.
    /// Refuses when a session is already open; otherwise whether the attempt
    /// succeeds depends on the device alone, and the result reports exactly
    /// whether the session is now open.
    pub fn open(&mut self, name: &str) -> (r: bool)
        ensures
            open_step(old(self)@, final(self)@, r),
    {
        if self.is_open {
            return false;
        }
        match PortHandle::open(name, BAUD_RATE, READ_TIMEOUT_MS) {
            Ok(handle) => {
                *self = SessionManager { is_open: true, port: Some(handle) };
                true
            },
            Err(_) => false,
        }
    }

    /// Closes the session, releasing the device, and reports whether there
    /// was one to close; closing an already-closed session is a no-op.
    pub fn close(&mut self) -> (r: bool)
        ensures
            close_step(old(self)@, final(self)@, r),
    {
        let was_open = self.is_open;
        *self = SessionManager { is_open: false, port: None };
        was_open
    }

    /// Settles one read outcome against the session state, exactly as
    /// `read_outcome_step` says: the data bytes (the first `n` of `buf`) are
    /// decoded as UTF-8, a timeout yields an empty success, a disconnection
    /// drops the handle and closes the session, and any other I/O failure is
    /// passed on with the state untouched.
    pub fn settle_read(&mut self, outcome: ReadOutcome, buf: Vec<u8>) -> (r: Result<
        String,
        ReadError,
    >)
        requires
            outcome matches ReadOutcome::Data(n) ==> n <= buf@.len(),
        ensures
            read_outcome_step(outcome, buf@, old(self)@, final(self)@, r),
    {
        match outcome {
            ReadOutcome::Data(n) => {
                let mut data = buf;
                data.truncate(n);
                match decode_utf8(data) {
                    Some(text) => Ok(text),
                    None => Err(ReadError::DecodeFailure),
                }
            },
            ReadOutcome::TimedOut => Ok(String::new()),
            ReadOutcome::Disconnected => {
                *self = SessionManager { is_open: false, port: None };
                Err(ReadError::PortDisconnected)
            },
            ReadOutcome::IoFailure(msg) => Err(ReadError::ReadFailure(msg)),
        }
    }

    /// One bounded read attempt on the open session. Fails with `NotOpen`
    /// exactly when no session is open. Otherwise some read outcome was
    /// settled: data decoded as text, a timeout as an empty success, a
    /// disconnection closing the session, or a transient failure. A
    /// disconnection heals the state: the session is closed again, so a
    /// later `open` needs no explicit `close` first. Each chunk is decoded
    /// on its own: bytes of a multi-byte character that straddle two reads
    /// are not buffered, an accepted loss for text-oriented streams.
    pub fn read(&mut self) -> (r: Result<String, ReadError>)
        ensures
            read_step(old(self)@, final(self)@, r),
            old(self)@.is_open ==> exists|outcome: ReadOutcome, data: Seq<u8>|
                read_outcome_step(
                    outcome,
                    data,
                    (SessionView { is_open: true }),
                    final(self)@,
                    r,
                ),
    {
        proof {
            use_type_invariant(&*self);
        }
        let mut taken = SessionManager { is_open: false, port: None };
        std::mem::swap(self, &mut taken);
        match taken.port {
            None => Err(ReadError::NotOpen),
            Some(mut handle) => {
                let mut buf: Vec<u8> = vec![0u8; READ_BUFFER_LEN];
                let outcome = handle.read_into(&mut buf);
                *self = SessionManager { is_open: true, port: Some(handle) };
                let ghost outcome0 = outcome;
                let ghost data0 = buf@;
                let r = self.settle_read(outcome, buf);
                r
            },
        }
    }
}

} // verus!
