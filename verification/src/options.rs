//! The per-issuer configuration a probe is sent with.

use vstd::prelude::*;

verus! {

/// Default IP time-to-live for probes.
pub const DEFAULT_TTL: u8 = 255;

/// Default probe timeout in milliseconds.
pub const DEFAULT_TIMEOUT_MS: u32 = 2000;

/// Default capacity of the bounded submission queue.
pub const DEFAULT_QUEUE_CAPACITY: usize = 1024;

/// The options an issuer applies to every probe it sends: time-to-live,
/// the don't-fragment bit, and the timeout.
#[derive(Copy, Clone, Debug, PartialEq, Eq, Structural)]
pub struct PingOptions {
    ttl: u8,
    df: bool,
    timeout: u32,
}

impl PingOptions {
    /// The configured time-to-live.
    pub closed spec fn spec_ttl(self) -> u8 {
        self.ttl
    }

    /// The configured don't-fragment bit.
    pub closed spec fn spec_df(self) -> bool {
        self.df
    }

    /// The configured timeout in milliseconds.
    pub closed spec fn spec_timeout(self) -> u32 {
        self.timeout
    }

    /// Creates the default options: full time-to-live, fragmentation
    /// allowed, two-second timeout.
    pub fn new() -> (r: PingOptions)
        ensures
            r.spec_ttl() == DEFAULT_TTL,
            r.spec_df() == false,
            r.spec_timeout() == DEFAULT_TIMEOUT_MS,
    {
        PingOptions { ttl: DEFAULT_TTL, df: false, timeout: DEFAULT_TIMEOUT_MS }
    }

    /// Sets the IP TTL for future requests.
    pub fn set_ttl(&mut self, ttl: u8)
        ensures
            final(self).spec_ttl() == ttl,
            final(self).spec_df() == old(self).spec_df(),
            final(self).spec_timeout() == old(self).spec_timeout(),
    {
        self.ttl = ttl;
    }

    /// Gets the current IP TTL value.
    pub fn ttl(&self) -> (r: u8)
        ensures
            r == self.spec_ttl(),
    {
        self.ttl
    }

    /// Sets the IP don't-fragment bit for future requests.
    pub fn set_df(&mut self, df: bool)
        ensures
            final(self).spec_df() == df,
            final(self).spec_ttl() == old(self).spec_ttl(),
            final(self).spec_timeout() == old(self).spec_timeout(),
    {
        self.df = df;
    }

    /// Gets the current IP don't-fragment bit.
    pub fn df(&self) -> (r: bool)
        ensures
            r == self.spec_df(),
    {
        self.df
    }

    /// Sets the timeout, in milliseconds, for future requests.
    pub fn set_timeout(&mut self, timeout: u32)
        ensures
            final(self).spec_timeout() == timeout,
            final(self).spec_ttl() == old(self).spec_ttl(),
            final(self).spec_df() == old(self).spec_df(),
    {
        self.timeout = timeout;
    }

    /// Gets the current timeout in milliseconds.
    pub fn timeout(&self) -> (r: u32)
        ensures
            r == self.spec_timeout(),
    {
        self.timeout
    }
}

impl Default for PingOptions {
    /// The default options: full time-to-live, fragmentation allowed,
    /// two-second timeout.
    fn default() -> (r: PingOptions)
        ensures
            r.spec_ttl() == DEFAULT_TTL,
            r.spec_df() == false,
            r.spec_timeout() == DEFAULT_TIMEOUT_MS,
    {
        PingOptions::new()
    }
}

} // verus!
