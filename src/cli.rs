//! The run's settings and their validation.

use vstd::prelude::*;

use crate::address::{base58_address, Address};

verus! {

/// Endpoint used when none is given.
pub const DEFAULT_RPC_URL: &'static str = "https://api.mainnet-beta.solana.com";

/// Settings of a monitoring run.
#[derive(Clone, Debug)]
pub struct Cli {
    /// Token mint to monitor, in base58.
    pub mint_address: String,
    pub rpc_url: String,
    /// Seconds between polls.
    pub interval: u64,
    pub json_log: bool,
    /// Attempts allowed per fetch.
    pub max_retries: u32,
    /// Deadline of one attempt, in seconds.
    pub timeout: u64,
    pub api_server: bool,
    pub api_port: u16,
    /// Seconds between background refreshes of the cache.
    pub cache_ttl: u64,
}

/// Why the settings were refused.
#[derive(Clone, Copy, Debug, PartialEq, Eq, Structural)]
pub enum CliError {
    ZeroInterval,
    ZeroMaxRetries,
    InvalidMint,
}

impl CliError {
    /// A sentence that explains the error.
    pub fn message(&self) -> (r: &'static str)
        ensures
            r@ == match *self {
                CliError::ZeroInterval => "Interval must be greater than 0"@,
                CliError::ZeroMaxRetries => "Max retries must be greater than 0"@,
                CliError::InvalidMint => "Invalid mint address"@,
            },
    {
        match self {
            CliError::ZeroInterval => "Interval must be greater than 0",
            CliError::ZeroMaxRetries => "Max retries must be greater than 0",
            CliError::InvalidMint => "Invalid mint address",
        }
    }
}

impl Cli {
    /// The mint to monitor, decoded from its base58 text.
    pub fn parse_mint(&self) -> (r: Result<Address, CliError>)
        ensures
            match r {
                Ok(a) => base58_address(self.mint_address@) == Some(a@),
                Err(e) => base58_address(self.mint_address@).is_none() && e
                    == CliError::InvalidMint,
            },
    {
        match Address::parse(self.mint_address.as_str()) {
            Some(a) => Ok(a),
            None => Err(CliError::InvalidMint),
        }
    }

    /// Refuses a zero poll interval, then a zero number of attempts.
    pub fn validate(&self) -> (r: Result<(), CliError>)
        ensures
            r == if self.interval == 0 {
                Err(CliError::ZeroInterval)
            } else if self.max_retries == 0 {
                Err(CliError::ZeroMaxRetries)
            } else {
                Ok(())
            },
    {
        if self.interval == 0 {
            return Err(CliError::ZeroInterval);
        }
        if self.max_retries == 0 {
            return Err(CliError::ZeroMaxRetries);
        }
        Ok(())
    }
}

} // verus!
