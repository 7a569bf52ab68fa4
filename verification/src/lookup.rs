//! Looking up the body of one message on demand: the cache of resolved
//! bodies, the course of one request, and the way from the root of the
//! archive to the message.

use crate::document::Body;
use crate::id::{id_path_of, parse_id_path};
use crate::message::{body_type_name, MessageBodyType};
use vstd::hash_map::StringHashMap;
use vstd::prelude::*;

verus! {

/// Why a lookup gave no body.
#[derive(Debug, Clone, Copy, PartialEq, Eq, Structural)]
pub enum LookupError {
    /// The id is not a written identifier.
    ParseError,
    /// No message stands at the id, or the message has no body.
    NotFound,
    /// The body was not resolved within the time allowed.
    Timeout,
    /// The worker that resolves bodies has ended.
    ChannelClosed,
    /// The task that fills the cache has ended.
    CacheLoopClosed,
    /// The archive could not be read.
    Store,
}

/// The number of requests, and of resolved bodies, that may wait in line.
pub const BACKLOG: usize = 1024;

/// The seconds that a request waits for its body.
pub const TIMEOUT_SECONDS: u64 = 1;

/// The status with which a lookup that gave a body is answered.
pub const STATUS_OK: u16 = 200;

/// The status with which a request without an id is answered.
pub const STATUS_BAD_REQUEST: u16 = 400;

/// The status with which each failed lookup is answered: 404 where nothing
/// was found, 408 where time ran out, 500 for everything else.
pub open spec fn status_of(error: LookupError) -> u16 {
    match error {
        LookupError::NotFound => 404,
        LookupError::Timeout => 408,
        _ => 500,
    }
}

/// What is said of each failed lookup.
pub open spec fn lookup_error_text(error: LookupError) -> Seq<char> {
    match error {
        LookupError::ParseError => "Invalid message ID"@,
        LookupError::NotFound => "Message body not found"@,
        LookupError::Timeout => "Timed out waiting for message body to be located"@,
        LookupError::ChannelClosed => "Pff manager channel already closed"@,
        LookupError::CacheLoopClosed => "Message body cache loop has closed"@,
        LookupError::Store => "PFF error"@,
    }
}

impl LookupError {
    /// What is said of this failure.
    pub fn as_str(&self) -> (text: &'static str)
        ensures
            text@ == lookup_error_text(*self),
    {
        match self {
            LookupError::ParseError => "Invalid message ID",
            LookupError::NotFound => "Message body not found",
            LookupError::Timeout => "Timed out waiting for message body to be located",
            LookupError::ChannelClosed => "Pff manager channel already closed",
            LookupError::CacheLoopClosed => "Message body cache loop has closed",
            LookupError::Store => "PFF error",
        }
    }

    /// The status with which this failure is answered.
    pub fn status(&self) -> (status: u16)
        ensures
            status == status_of(*self),
    {
        match self {
            LookupError::NotFound => 404,
            LookupError::Timeout => 408,
            _ => 500,
        }
    }

    /// Whether this failure is an everyday outcome, which is not logged as
    /// an error: nothing found, or time run out.
    pub fn is_expected(&self) -> (expected: bool)
        ensures
            expected == (*self == LookupError::NotFound || *self == LookupError::Timeout),
    {
        match self {
            LookupError::NotFound => true,
            LookupError::Timeout => true,
            _ => false,
        }
    }
}

/// What a lookup came to: the body, or why there is none.
pub type Resolved = Result<Body, LookupError>;

/// The bodies that the worker has resolved and no request has fetched yet.
pub struct BodyCache {
    entries: StringHashMap<Resolved>,
}

impl View for BodyCache {
    type V = Map<Seq<char>, Resolved>;

    closed spec fn view(&self) -> Self::V {
        self.entries@
    }
}

/// A second copy of what a lookup came to.
fn copy_of(resolved: &Resolved) -> (copy: Resolved)
    ensures
        copy == *resolved,
{
    match resolved {
        Ok(body) => Ok(Body { type_: body.type_.clone(), value: body.value.clone() }),
        Err(error) => Err(*error),
    }
}

impl BodyCache {
    /// A cache that holds nothing.
    pub fn new() -> (cache: Self)
        ensures
            cache@ == Map::<Seq<char>, Resolved>::empty(),
    {
        BodyCache { entries: StringHashMap::new() }
    }

    /// Keeps what the worker resolved for `id`, in place of anything kept
    /// for that id before.
    pub fn store(&mut self, id: String, resolved: Resolved)
        ensures
            final(self)@ == old(self)@.insert(id@, resolved),
    {
        self.entries.insert(id, resolved);
    }

    /// Hands out what is kept for `id` and keeps it no longer, so that each
    /// resolution is fetched once.
    pub fn take(&mut self, id: &str) -> (resolved: Option<Resolved>)
        ensures
            resolved == if old(self)@.contains_key(id@) {
                Some(old(self)@[id@])
            } else {
                None
            },
            final(self)@ == old(self)@.remove(id@),
    {
        let found = match self.entries.get(id) {
            Some(resolved) => Some(copy_of(resolved)),
            None => None,
        };
        self.entries.remove(id);
        found
    }

    /// Whether something is kept for `id`.
    pub fn contains(&self, id: &str) -> (kept: bool)
        ensures
            kept == self@.contains_key(id@),
    {
        self.entries.contains_key(id)
    }
}

/// What the worker does with an id that it pulled off the line.
#[derive(Debug, Clone, Copy, PartialEq, Eq, Structural)]
pub enum WorkerStep {
    /// Resolve the id in the archive, store what comes of it, and notify.
    Resolve,
    /// A resolution is kept for the id already: notify, and leave the
    /// archive alone.
    Notify,
}

/// Decides what the worker does with `id`: it goes to the archive only for
/// an id of which the cache keeps no resolution.
pub fn worker_step(cache: &BodyCache, id: &str) -> (step: WorkerStep)
    ensures
        step == if cache@.contains_key(id@) {
            WorkerStep::Notify
        } else {
            WorkerStep::Resolve
        },
{
    if cache.contains(id) {
        WorkerStep::Notify
    } else {
        WorkerStep::Resolve
    }
}

/// What happened to a request after it found nothing in the cache.
#[derive(Debug, Clone, Copy, PartialEq, Eq, Structural)]
pub enum Event {
    /// The id could not be sent to the worker.
    SendFailed,
    /// The cache changed while the request waited.
    Notified,
    /// The source of change notifications ended while the request waited.
    NotifyClosed,
    /// The time allowed passed without a change.
    TimedOut,
}

/// What a request gets, and what becomes of the cache, when `event` ends
/// its wait. Only a notification touches the cache: the request then takes
/// what is kept for its id, and finds nothing where nothing is kept.
pub open spec fn finished(cache: Map<Seq<char>, Resolved>, id: Seq<char>, event: Event) -> (
    Resolved,
    Map<Seq<char>, Resolved>,
) {
    match event {
        Event::SendFailed => (Err(LookupError::ChannelClosed), cache),
        Event::NotifyClosed => (Err(LookupError::CacheLoopClosed), cache),
        Event::TimedOut => (Err(LookupError::Timeout), cache),
        Event::Notified => if cache.contains_key(id) {
            (cache[id], cache.remove(id))
        } else {
            (Err(LookupError::NotFound), cache)
        },
    }
}

/// What a request comes to at once, if it is over at once, and what becomes
/// of the cache: an id that cannot be read is refused and touches nothing;
/// an id for which a resolution is kept is served with it, and the entry is
/// used up; any other id has to be asked of the worker.
pub open spec fn started(cache: Map<Seq<char>, Resolved>, id: Seq<char>) -> (
    Option<Resolved>,
    Map<Seq<char>, Resolved>,
) {
    if id_path_of(id) is None {
        (Some(Err(LookupError::ParseError)), cache)
    } else if cache.contains_key(id) {
        (Some(cache[id]), cache.remove(id))
    } else {
        (None, cache)
    }
}

/// Opens a request for the body of `id`.
///
/// An id that is no written identifier is refused at once with a
/// `ParseError`. Where the cache keeps a resolution for the id, the request
/// is served from it at once and the entry is used up; the worker is not
/// asked. Else the result is `None`: the id is to be sent to the worker, and
/// the wait that follows ends in `get_body_finish`.
pub fn get_body_start(cache: &mut BodyCache, id: &str) -> (over: Option<Resolved>)
    ensures
        (over, final(cache)@) == started(old(cache)@, id@),
{
    match parse_id_path(id) {
        Err(_) => Some(Err(LookupError::ParseError)),
        Ok(_) => {
            let taken = cache.take(id);
            proof {
                if !old(cache)@.contains_key(id@) {
                    assert(cache@ =~= old(cache)@);
                }
            }
            taken
        },
    }
}

/// Closes a request that had to ask the worker, with the event that ended
/// its wait.
pub fn get_body_finish(cache: &mut BodyCache, id: &str, event: Event) -> (resolved: Resolved)
    ensures
        (resolved, final(cache)@) == finished(old(cache)@, id@, event),
{
    match event {
        Event::SendFailed => Err(LookupError::ChannelClosed),
        Event::NotifyClosed => Err(LookupError::CacheLoopClosed),
        Event::TimedOut => Err(LookupError::Timeout),
        Event::Notified => {
            let taken = cache.take(id);
            proof {
                if !old(cache)@.contains_key(id@) {
                    assert(cache@ =~= old(cache)@);
                }
            }
            match taken {
                Some(resolved) => resolved,
                None => Err(LookupError::NotFound),
            }
        },
    }
}

/// A request that gives up changes nothing: the resolution that the worker
/// stores after the time ran out is kept, and the next request for the id
/// is served with it at once, without the worker being asked again.
pub proof fn lemma_late_resolution(cache: Map<Seq<char>, Resolved>, id: Seq<char>, late: Resolved)
    requires
        id_path_of(id) is Some,
    ensures
        finished(cache, id, Event::TimedOut) == (
            Err::<Body, LookupError>(LookupError::Timeout),
            cache,
        ),
        started(cache.insert(id, late), id) == (Some(late), cache.remove(id)),
{
    assert(cache.insert(id, late).remove(id) =~= cache.remove(id));
}

/// What the worker is to do next on its way to a message.
#[derive(Debug, Clone, Copy, PartialEq, Eq, Structural)]
pub enum LocateStep {
    /// Fetch, from the item reached, the sub-item with this id.
    Descend(u32),
    /// The item reached is the message: read its body.
    ReadBody,
    /// Nothing stands at the id.
    NotFound,
}

/// The way from the root folder to one message.
pub struct Locator {
    path: Vec<u32>,
    next: usize,
}

impl Locator {
    /// The ids still to descend by, in order.
    pub closed spec fn remaining(&self) -> Seq<u32> {
        self.path@.skip(self.next as int)
    }

    /// The place on the way lies within the path.
    #[verifier::type_invariant]
    spec fn in_path(self) -> bool {
        self.next <= self.path@.len()
    }

    /// The way to the message `id`, which starts at the root folder. An id
    /// that cannot be read is refused with a `ParseError`.
    pub fn new(id: &str) -> (locator: Result<Locator, LookupError>)
        ensures
            match locator {
                Ok(locator) => id_path_of(id@) == Some(locator.remaining()),
                Err(error) => error == LookupError::ParseError && id_path_of(id@) is None,
            },
    {
        match parse_id_path(id) {
            Ok(path) => {
                let locator = Locator { path, next: 0 };
                assert(locator.remaining() == path@);
                Ok(locator)
            },
            Err(_) => Err(LookupError::ParseError),
        }
    }

    /// The way that goes down by the ids of `path`, in order, from the
    /// item it starts at.
    pub fn from_path(path: Vec<u32>) -> (locator: Locator)
        ensures
            locator.remaining() == path@,
    {
        let locator = Locator { path, next: 0 };
        assert(locator.remaining() == path@);
        locator
    }

    /// What to do next, given whether the item last asked for was found.
    /// The root folder is the first item asked for.
    ///
    /// Nothing found ends the way. Else the way goes down by the next id,
    /// and where no id is left, the item reached is the message.
    pub fn step(&mut self, found: bool) -> (step: LocateStep)
        ensures
            step == if !found {
                LocateStep::NotFound
            } else if old(self).remaining().len() > 0 {
                LocateStep::Descend(old(self).remaining()[0])
            } else {
                LocateStep::ReadBody
            },
            final(self).remaining() == if found && old(self).remaining().len() > 0 {
                old(self).remaining().drop_first()
            } else {
                old(self).remaining()
            },
    {
        proof {
            use_type_invariant(&*self);
        }
        if !found {
            LocateStep::NotFound
        } else if self.next < self.path.len() {
            let id = self.path[self.next];
            self.next = self.next + 1;
            assert(self.remaining() =~= old(self).remaining().drop_first());
            LocateStep::Descend(id)
        } else {
            LocateStep::ReadBody
        }
    }
}

/// What a lookup comes to once the message is reached: its body, in the
/// form it has, or nothing found where the message has no body.
pub fn located(body: Option<(MessageBodyType, String)>) -> (resolved: Resolved)
    ensures
        match body {
            Some((kind, text)) => resolved matches Ok(found) && found.type_@ == body_type_name(kind)
                && found.value == text,
            None => resolved == Err::<Body, LookupError>(LookupError::NotFound),
        },
{
    match body {
        Some((kind, text)) => Ok(Body::new(kind, text)),
        None => Err(LookupError::NotFound),
    }
}

} // verus!
