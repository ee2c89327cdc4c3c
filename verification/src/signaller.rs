//! The connection to the signalling server: how often it is tried, and what comes over it.
use async_tungstenite::tungstenite;
use vstd::prelude::*;

verus! {

/// What can go wrong on a WebSocket.
#[verifier::external_type_specification]
#[verifier::external_body]
pub struct ExSocketError(async_tungstenite::tungstenite::Error);

/// What can go wrong with the signalling server.
#[derive(Debug)]
pub enum SignallingError {
    /// No connection came about; this is what the last attempt failed of.
    ConnectionFailed(Box<SignallingError>),
    /// The server sent something other than text.
    UnknownFormat,
    /// The server will send nothing more.
    StreamExhausted,
    /// The WebSocket failed.
    Socket(tungstenite::Error),
}

/// A message on the WebSocket.
#[derive(Debug, PartialEq, Eq)]
pub enum WebSocketMessage {
    Text(String),
    Binary(Vec<u8>),
    Ping(Vec<u8>),
    Pong(Vec<u8>),
    Close,
    Frame,
}

/// What is left of the attempts to connect to the signalling server.
#[derive(Debug, PartialEq, Eq)]
pub struct ConnectAttempts {
    /// How many more may fail, the one under way counted; `None` for any number.
    pub remaining: Option<u16>,
}

/// What is left after one more attempt has failed; `None` where that was the last one.
pub open spec fn after_failure(remaining: Option<u16>) -> Option<Option<u16>> {
    match remaining {
        Some(n) => if n <= 1 {
            None
        } else {
            Some(Some((n - 1) as u16))
        },
        None => Some(None),
    }
}

impl ConnectAttempts {
    /// `attempts` attempts, or any number.
    pub fn new(attempts: Option<u16>) -> (res: Self)
        ensures
            res.remaining == attempts,
    {
        ConnectAttempts { remaining: attempts }
    }

    /// An attempt has failed. Gives the error to report where it was the last one; otherwise
    /// there is to be another.
    pub fn on_failure(&mut self, error: tungstenite::Error) -> (res: Option<SignallingError>)
        ensures
            match after_failure(old(self).remaining) {
                Some(left) => res is None && final(self).remaining == left,
                None => res == Some(
                    SignallingError::ConnectionFailed(Box::new(SignallingError::Socket(error))),
                ) && final(self).remaining == old(self).remaining,
            },
            res is Some <==> (old(self).remaining matches Some(n) && n <= 1),
            res matches Some(e) ==> e == SignallingError::ConnectionFailed(
                Box::new(SignallingError::Socket(error)),
            ),
            old(self).remaining matches Some(n) ==> n > 1 ==> final(self).remaining == Some(
                (n - 1) as u16,
            ),
            old(self).remaining is None ==> final(self).remaining is None,
    {
        match self.remaining {
            Some(attempts) => {
                if attempts <= 1 {
                    let cause = SignallingError::Socket(error);
                    Some(SignallingError::ConnectionFailed(Box::new(cause)))
                } else {
                    self.remaining = Some(attempts - 1);
                    None
                }
            },
            None => None,
        }
    }
}

/// The message that carries a request to the server.
pub fn request_message(request: String) -> (res: WebSocketMessage)
    ensures
        res == WebSocketMessage::Text(request),
{
    WebSocketMessage::Text(request)
}

/// What became of a request, by what became of its message.
pub fn on_sent(sent: Result<(), tungstenite::Error>) -> (res: Result<(), SignallingError>)
    ensures
        match sent {
            Ok(_) => res is Ok,
            Err(error) => res == Err::<(), SignallingError>(SignallingError::Socket(error)),
        },
{
    match sent {
        Ok(()) => Ok(()),
        Err(error) => Err(SignallingError::Socket(error)),
    }
}

/// What the server said, by what came over the WebSocket: the text of a text message, and an
/// error for any other message, for a failure, or where nothing more will come.
pub open spec fn said(received: Option<Result<WebSocketMessage, tungstenite::Error>>) -> Result<
    String,
    SignallingError,
> {
    match received {
        Some(Ok(WebSocketMessage::Text(message))) => Ok(message),
        Some(Ok(_)) => Err(SignallingError::UnknownFormat),
        Some(Err(error)) => Err(SignallingError::Socket(error)),
        None => Err(SignallingError::StreamExhausted),
    }
}

/// What the server said, by what came over the WebSocket.
pub fn next_message(received: Option<Result<WebSocketMessage, tungstenite::Error>>) -> (res:
    Result<String, SignallingError>)
    ensures
        res == said(received),
        received matches Some(Ok(WebSocketMessage::Text(message))) ==> res == Ok::<
            String,
            SignallingError,
        >(message),
        received matches Some(Ok(message)) ==> !(message is Text) ==> res == Err::<
            String,
            SignallingError,
        >(SignallingError::UnknownFormat),
        received matches Some(Err(error)) ==> res == Err::<String, SignallingError>(
            SignallingError::Socket(error),
        ),
        received is None ==> res == Err::<String, SignallingError>(
            SignallingError::StreamExhausted,
        ),
{
    match received {
        Some(Ok(WebSocketMessage::Text(message))) => Ok(message),
        Some(Ok(_)) => Err(SignallingError::UnknownFormat),
        Some(Err(error)) => Err(SignallingError::Socket(error)),
        None => Err(SignallingError::StreamExhausted),
    }
}

/// What is left of `attempts` after `failures` attempts in a row have failed; `None` once
/// there is to be no other.
pub open spec fn after_failures(attempts: Option<u16>, failures: nat) -> Option<Option<u16>>
    decreases failures,
{
    if failures == 0 {
        Some(attempts)
    } else {
        match after_failures(attempts, (failures - 1) as nat) {
            Some(remaining) => after_failure(remaining),
            None => None,
        }
    }
}

/// Of `attempts` attempts, exactly that many are made while they fail; one is made in any
/// case.
pub proof fn law_attempts_are_counted(attempts: u16, failures: nat)
    ensures
        after_failures(Some(attempts), failures) is Some <==> failures == 0 || failures < attempts,
        failures < attempts ==> after_failures(Some(attempts), failures) == Some(
            Some((attempts - failures) as u16),
        ),
    decreases failures,
{
    if failures > 0 {
        law_attempts_are_counted(attempts, (failures - 1) as nat);
    }
}

/// Without a limit there is always another attempt.
pub proof fn law_unlimited_attempts_never_end(failures: nat)
    ensures
        after_failures(None, failures) == Some(None::<u16>),
    decreases failures,
{
    if failures > 0 {
        law_unlimited_attempts_never_end((failures - 1) as nat);
    }
}

/// A request that is sent as `request_message` has it is what the other end is told.
pub proof fn law_requests_are_said(request: String)
    ensures
        said(Some(Ok(WebSocketMessage::Text(request)))) == Ok::<String, SignallingError>(request),
{
}

/// Only text is understood; anything else is an error that says why.
pub proof fn law_only_text_is_said(message: WebSocketMessage, error: tungstenite::Error)
    ensures
        said(Some(Ok(message))) is Ok <==> message is Text,
        message matches WebSocketMessage::Text(text) ==> said(Some(Ok(message))) == Ok::<
            String,
            SignallingError,
        >(text),
        !(message is Text) ==> said(Some(Ok(message))) == Err::<String, SignallingError>(
            SignallingError::UnknownFormat,
        ),
        said(Some(Err(error))) == Err::<String, SignallingError>(SignallingError::Socket(error)),
        said(None) == Err::<String, SignallingError>(SignallingError::StreamExhausted),
{
}

/// A failure costs one attempt, and is the last exactly where no more than one was left.
pub proof fn law_a_failure_costs_one_attempt(remaining: u16)
    ensures
        after_failure(Some(remaining)) is None <==> remaining <= 1,
        remaining > 1 ==> after_failure(Some(remaining)) == Some(Some((remaining - 1) as u16)),
        after_failure(None) == Some(None::<u16>),
{
}

} // verus!
