//! The lifecycle of a broker session: a connection and one channel on it.

use vstd::prelude::*;

verus! {

/// The status code of a normal close.
pub const NORMAL_CLOSE_CODE: u16 = 0;

/// Where a connection or a channel stands.
#[derive(Clone, Copy, PartialEq, Eq, Structural, Debug)]
pub enum Link {
    Unopened,
    Open,
    Closed,
}

/// Why a session refused a step.
#[derive(Clone, Copy, PartialEq, Eq, Structural, Debug)]
pub enum SessionError {
    /// The connection was never opened.
    NotConnected,
    /// The connection is open already.
    AlreadyConnected,
    /// The connection or the channel is closed.
    Closed,
    /// The channel is not open.
    ChannelNotOpen,
    /// The channel is open already.
    ChannelAlreadyOpen,
    /// Confirm mode is on already.
    ConfirmsAlreadyEnabled,
    /// Something was published before confirm mode was asked for.
    AlreadyPublished,
}

/// One request of an orderly close.
#[derive(Clone, Copy, PartialEq, Eq, Structural, Debug)]
pub enum CloseStep {
    Channel,
    Connection,
}

/// A connection to the broker and the channel opened on it.
#[derive(Clone, Copy, PartialEq, Eq, Structural, Debug)]
pub struct Session {
    pub connection: Link,
    pub channel: Link,
    /// Whether the channel is in confirm mode.
    pub confirms: bool,
    /// Whether anything was published on the channel.
    pub published: bool,
}

impl Session {
    /// A channel is open only on an open connection, is opened only after the
    /// connection, and only an opened channel is in confirm mode or has
    /// carried a publish.
    pub open spec fn wf(self) -> bool {
        &&& self.channel == Link::Open ==> self.connection == Link::Open
        &&& self.connection == Link::Unopened ==> self.channel == Link::Unopened
        &&& (self.confirms || self.published) ==> self.channel != Link::Unopened
    }

    /// The session before anything was opened.
    pub open spec fn initial() -> Session {
        Session {
            connection: Link::Unopened,
            channel: Link::Unopened,
            confirms: false,
            published: false,
        }
    }

    /// Whether the channel may be used: both it and its connection are open.
    pub open spec fn usable(self) -> bool {
        self.connection == Link::Open && self.channel == Link::Open
    }

    /// The session after the connection was established.
    pub open spec fn after_connect(self) -> Result<Session, SessionError> {
        match self.connection {
            Link::Unopened => Ok(Session { connection: Link::Open, ..self }),
            Link::Open => Err(SessionError::AlreadyConnected),
            Link::Closed => Err(SessionError::Closed),
        }
    }

    /// The session after the channel was opened.
    pub open spec fn after_open_channel(self) -> Result<Session, SessionError> {
        match self.connection {
            Link::Unopened => Err(SessionError::NotConnected),
            Link::Closed => Err(SessionError::Closed),
            Link::Open => match self.channel {
                Link::Unopened => Ok(Session { channel: Link::Open, ..self }),
                Link::Open => Err(SessionError::ChannelAlreadyOpen),
                Link::Closed => Err(SessionError::Closed),
            },
        }
    }

    /// The session after confirm mode was switched on: once, on a usable
    /// channel, before any publish.
    pub open spec fn after_enable_confirms(self) -> Result<Session, SessionError> {
        if !self.usable() {
            Err(SessionError::ChannelNotOpen)
        } else if self.confirms {
            Err(SessionError::ConfirmsAlreadyEnabled)
        } else if self.published {
            Err(SessionError::AlreadyPublished)
        } else {
            Ok(Session { confirms: true, ..self })
        }
    }

    /// The session after a publish on its channel.
    pub open spec fn after_publish(self) -> Result<Session, SessionError> {
        if !self.usable() {
            Err(SessionError::ChannelNotOpen)
        } else {
            Ok(Session { published: true, ..self })
        }
    }

    /// What a close asks of the broker, in order: the channel where it is
    /// open, then the connection; nothing where the connection is closed.
    pub open spec fn close_steps(self) -> Seq<CloseStep> {
        if self.connection != Link::Open {
            Seq::empty()
        } else if self.channel == Link::Open {
            seq![CloseStep::Channel, CloseStep::Connection]
        } else {
            seq![CloseStep::Connection]
        }
    }

    /// The session after a close. Before the connection was opened a close is
    /// an error; on a closed session it changes nothing.
    pub open spec fn after_close(self) -> Result<Session, SessionError> {
        match self.connection {
            Link::Unopened => Err(SessionError::NotConnected),
            Link::Closed => Ok(self),
            Link::Open => Ok(
                Session {
                    connection: Link::Closed,
                    channel: if self.channel == Link::Open {
                        Link::Closed
                    } else {
                        self.channel
                    },
                    ..self
                },
            ),
        }
    }

    /// A session with nothing opened yet.
    pub fn new() -> (s: Session)
        ensures
            s == Session::initial(),
            s.wf(),
    {
        Session {
            connection: Link::Unopened,
            channel: Link::Unopened,
            confirms: false,
            published: false,
        }
    }

    /// Whether the channel may be used.
    pub fn is_usable(&self) -> (yes: bool)
        ensures
            yes == self.usable(),
    {
        self.connection == Link::Open && self.channel == Link::Open
    }

    /// Records that the connection was established.
    pub fn connect(&mut self) -> (r: Result<(), SessionError>)
        ensures
            match old(self).after_connect() {
                Ok(s) => r is Ok && *final(self) == s,
                Err(e) => r == Err::<(), SessionError>(e) && *final(self) == *old(self),
            },
            old(self).wf() ==> final(self).wf(),
    {
        match self.connection {
            Link::Unopened => {
                self.connection = Link::Open;
                Ok(())
            },
            Link::Open => Err(SessionError::AlreadyConnected),
            Link::Closed => Err(SessionError::Closed),
        }
    }

    /// Records that the channel was opened on the connection.
    pub fn open_channel(&mut self) -> (r: Result<(), SessionError>)
        ensures
            match old(self).after_open_channel() {
                Ok(s) => r is Ok && *final(self) == s,
                Err(e) => r == Err::<(), SessionError>(e) && *final(self) == *old(self),
            },
            old(self).wf() ==> final(self).wf(),
    {
        match self.connection {
            Link::Unopened => Err(SessionError::NotConnected),
            Link::Closed => Err(SessionError::Closed),
            Link::Open => match self.channel {
                Link::Unopened => {
                    self.channel = Link::Open;
                    Ok(())
                },
                Link::Open => Err(SessionError::ChannelAlreadyOpen),
                Link::Closed => Err(SessionError::Closed),
            },
        }
    }

    /// Switches the channel to confirm mode.
    pub fn enable_confirms(&mut self) -> (r: Result<(), SessionError>)
        ensures
            match old(self).after_enable_confirms() {
                Ok(s) => r is Ok && *final(self) == s,
                Err(e) => r == Err::<(), SessionError>(e) && *final(self) == *old(self),
            },
            old(self).wf() ==> final(self).wf(),
    {
        if !self.is_usable() {
            Err(SessionError::ChannelNotOpen)
        } else if self.confirms {
            Err(SessionError::ConfirmsAlreadyEnabled)
        } else if self.published {
            Err(SessionError::AlreadyPublished)
        } else {
            self.confirms = true;
            Ok(())
        }
    }

    /// Records a publish on the channel.
    pub fn record_publish(&mut self) -> (r: Result<(), SessionError>)
        ensures
            match old(self).after_publish() {
                Ok(s) => r is Ok && *final(self) == s,
                Err(e) => r == Err::<(), SessionError>(e) && *final(self) == *old(self),
            },
            old(self).wf() ==> final(self).wf(),
    {
        if !self.is_usable() {
            Err(SessionError::ChannelNotOpen)
        } else {
            self.published = true;
            Ok(())
        }
    }

    /// Closes the session and says what to ask of the broker, in order.
    pub fn close(&mut self) -> (r: Result<Vec<CloseStep>, SessionError>)
        ensures
            match old(self).after_close() {
                Ok(s) => r is Ok && r.unwrap()@ == old(self).close_steps() && *final(self) == s,
                Err(e) => r is Err && r->Err_0 == e && *final(self) == *old(self),
            },
            old(self).wf() ==> final(self).wf(),
    {
        match self.connection {
            Link::Unopened => Err(SessionError::NotConnected),
            Link::Closed => Ok(Vec::new()),
            Link::Open => {
                let mut steps: Vec<CloseStep> = Vec::new();
                if self.channel == Link::Open {
                    steps.push(CloseStep::Channel);
                    self.channel = Link::Closed;
                }
                steps.push(CloseStep::Connection);
                self.connection = Link::Closed;
                assert(steps@ =~= old(self).close_steps());
                Ok(steps)
            },
        }
    }
}

/// The reason given with a normal close: `OK`.
pub fn normal_close_reason() -> (reason: String)
    ensures
        reason@ == seq!['O', 'K'],
{
    proof {
        reveal_strlit("OK");
        assert("OK"@ =~= seq!['O', 'K']);
    }
    "OK".to_owned()
}

/// Closing a closed session is no error, asks nothing of the broker and
/// leaves the session as it is; so a second close after a first does nothing.
pub proof fn law_close_idempotent(s: Session)
    requires
        s.after_close() is Ok,
    ensures
        s.after_close().unwrap().after_close() == Ok::<Session, SessionError>(
            s.after_close().unwrap(),
        ),
        s.after_close().unwrap().close_steps() == Seq::<CloseStep>::empty(),
        s.connection == Link::Closed ==> s.after_close() == Ok::<Session, SessionError>(s)
            && s.close_steps() == Seq::<CloseStep>::empty(),
{
}

/// A session starts well formed with nothing usable, and every accepted step
/// leaves a well-formed session well formed: so the channel is usable only
/// after connection and channel were opened, in that order.
pub proof fn law_steps_keep_well_formed(s: Session)
    requires
        s.wf(),
    ensures
        Session::initial().wf(),
        !Session::initial().usable(),
        s.after_connect() is Ok ==> s.after_connect().unwrap().wf(),
        s.after_open_channel() is Ok ==> s.after_open_channel().unwrap().wf(),
        s.after_enable_confirms() is Ok ==> s.after_enable_confirms().unwrap().wf(),
        s.after_publish() is Ok ==> s.after_publish().unwrap().wf(),
        s.after_close() is Ok ==> s.after_close().unwrap().wf(),
        s.after_open_channel() is Ok ==> s.connection == Link::Open,
        s.usable() ==> s.connection == Link::Open && s.channel == Link::Open,
{
}

/// Once the connection is closed the channel is not usable, and no step
/// other than a close is accepted.
pub proof fn law_closed_stays_closed(s: Session)
    requires
        s.connection == Link::Closed,
    ensures
        !s.usable(),
        s.after_connect() is Err,
        s.after_open_channel() is Err,
        s.after_enable_confirms() is Err,
        s.after_publish() is Err,
{
}

} // verus!
