//! The data model: a `Configuration` owns an optional polling interval, an
//! ordered list of `Handler`s, and one ordered group of probe configs per
//! probe type (HTTP is the only built-in type). All of it is immutable once
//! built; the per-iteration outcomes are the only transient state.

use vstd::prelude::*;

use crate::healthcheck::HealthCheckName;

verus! {

/// The outcome of one probe evaluation. Every evaluation resolves to one of
/// these two values: there is no pending or unknown state.
#[derive(Debug, PartialEq, Eq, Structural, Copy, Clone)]
pub enum HealthCheckState {
    Passed,
    Failed,
}

/// A shell command bound to a trigger state: when a probe group's aggregate
/// outcome matches `state`, the command is run through a shell.
///
/// `timeout` is part of the data model but is not consulted during dispatch.
#[derive(Debug)]
pub struct Handler {
    pub name: Option<String>,
    pub command: String,
    pub state: HealthCheckState,
    pub timeout: Option<u32>,
}

impl Handler {
    pub fn new(name: Option<String>, command: String, state: HealthCheckState, timeout: Option<u32>) -> (r: Handler)
        ensures
            r.name == name,
            r.command == command,
            r.state == state,
            r.timeout == timeout,
    {
        Handler { name, command, state, timeout }
    }

    pub fn name(&self) -> (r: Option<&str>)
        ensures
            r is Some <==> self.name is Some,
            r matches Some(s) ==> s@ == self.name->0@,
    {
        match &self.name {
            Some(s) => Some(s.as_str()),
            None => None,
        }
    }

    pub fn command(&self) -> (r: &str)
        ensures
            r@ == self.command@,
    {
        self.command.as_str()
    }

    pub fn state(&self) -> (r: HealthCheckState)
        ensures
            r == self.state,
    {
        self.state
    }

    pub fn timeout(&self) -> (r: Option<u32>)
        ensures
            r == self.timeout,
    {
        self.timeout
    }
}

/// One HTTP probe: a URL to issue a GET request against, and an optional
/// request timeout in seconds (absent means the request may wait unboundedly).
#[derive(Debug)]
pub struct Http {
    pub name: Option<String>,
    pub url: String,
    pub timeout: Option<u64>,
}

impl Http {
    pub fn new(name: Option<String>, url: String, timeout: Option<u64>) -> (r: Http)
        ensures
            r.name == name,
            r.url == url,
            r.timeout == timeout,
    {
        Http { name, url, timeout }
    }

    pub fn url(&self) -> (r: &String)
        ensures
            r == self.url,
    {
        &self.url
    }

    pub fn timeout(&self) -> (r: &Option<u64>)
        ensures
            r == self.timeout,
    {
        &self.timeout
    }
}

impl HealthCheckName for Http {
    fn name(&self) -> Option<&str> {
        match &self.name {
            Some(s) => Some(s.as_str()),
            None => None,
        }
    }
}

/// One loaded configuration: its handlers and probe groups are fixed for the
/// life of the runner that owns it. An absent `interval` means the poll loop
/// proceeds into the next iteration with no wait at all — a tight poll loop,
/// kept as is for compatibility though it is a known resource hazard.
#[derive(Debug)]
pub struct Configuration {
    pub name: Option<String>,
    pub interval: Option<u64>,
    pub handlers: Vec<Handler>,
    pub http: Option<Vec<Http>>,
}

impl Configuration {
    pub fn new(
        name: Option<String>,
        interval: Option<u64>,
        handlers: Vec<Handler>,
        http: Option<Vec<Http>>,
    ) -> (r: Configuration)
        ensures
            r.name == name,
            r.interval == interval,
            r.handlers == handlers,
            r.http == http,
    {
        Configuration { name, interval, handlers, http }
    }

    pub fn name(&self) -> (r: Option<&str>)
        ensures
            r is Some <==> self.name is Some,
            r matches Some(s) ==> s@ == self.name->0@,
    {
        match &self.name {
            Some(s) => Some(s.as_str()),
            None => None,
        }
    }

    pub fn interval(&self) -> (r: Option<u64>)
        ensures
            r == self.interval,
    {
        self.interval
    }

    pub fn handlers(&self) -> (r: &Vec<Handler>)
        ensures
            r == self.handlers,
    {
        &self.handlers
    }

    pub fn http(&self) -> (r: Option<&Vec<Http>>)
        ensures
            r is Some <==> self.http is Some,
            r matches Some(v) ==> v == self.http->0,
    {
        self.http.as_ref()
    }
}

} // verus!
