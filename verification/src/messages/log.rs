//! Log traffic: the legacy request that turns log forwarding on, and the
//! log lines that the server then emits on its own.

use crate::errors::ButtplugMessageError;
use crate::messages::{is_not_system_id, is_system_id, request_id_check, system_id_check};
use vstd::prelude::*;

verus! {

/// Severity of a log line, from nothing at all to everything.
#[derive(Debug, Clone, Copy, PartialEq, Eq, Structural)]
pub enum LogLevel {
    Off,
    Fatal,
    Error,
    Warn,
    Info,
    Debug,
    Trace,
}

/// One log line emitted by the server. It answers no request, so it is a
/// system message.
#[derive(Debug, Clone, PartialEq, Eq)]
pub struct Log {
    pub id: u32,
    pub log_level: LogLevel,
    pub log_message: String,
}

impl Log {
    /// A log line with the given severity and text, under the system id.
    pub fn new(log_level: LogLevel, log_message: &str) -> (log: Self)
        ensures
            log.id == 0,
            log.log_level == log_level,
            log.log_message@ == log_message@,
    {
        Self { id: 0, log_level, log_message: log_message.to_owned() }
    }

    pub fn get_id(&self) -> (id: u32)
        ensures
            id == self.id,
    {
        self.id
    }

    pub fn set_id(&mut self, id: u32)
        ensures
            final(self).id == id,
            final(self).log_level == old(self).log_level,
            final(self).log_message == old(self).log_message,
    {
        self.id = id;
    }

    pub fn log_level(&self) -> (level: LogLevel)
        ensures
            level == self.log_level,
    {
        self.log_level
    }

    pub fn log_message(&self) -> (text: &str)
        ensures
            text@ == self.log_message@,
    {
        self.log_message.as_str()
    }

    /// A log line may be dispatched exactly when it carries the system id.
    pub fn is_valid(&self) -> (result: Result<(), ButtplugMessageError>)
        ensures
            result == system_id_check(self.id),
    {
        is_system_id(self.id)
    }
}

/// Asks the server to forward its log lines up to the given severity.
/// Only the legacy schema knows this request.
#[derive(Debug, Clone, Copy, PartialEq, Eq, Structural)]
pub struct RequestLog {
    pub id: u32,
    pub log_level: LogLevel,
}

impl RequestLog {
    /// A request for log lines up to `log_level`, under the placeholder id 1.
    pub fn new(log_level: LogLevel) -> (request: Self)
        ensures
            request == (RequestLog { id: 1, log_level }),
    {
        Self { id: 1, log_level }
    }

    pub fn get_id(&self) -> (id: u32)
        ensures
            id == self.id,
    {
        self.id
    }

    pub fn set_id(&mut self, id: u32)
        ensures
            *final(self) == (RequestLog { id, log_level: old(self).log_level }),
    {
        self.id = id;
    }

    /// A request may be dispatched exactly when its id is not the system id.
    pub fn is_valid(&self) -> (result: Result<(), ButtplugMessageError>)
        ensures
            result == request_id_check(self.id),
    {
        is_not_system_id(self.id)
    }
}

} // verus!
