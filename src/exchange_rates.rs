use vstd::prelude::*;

use crate::error::Error;
use crate::ids::{Timestamp, NANOS_PER_SECOND};

verus! {

/// A conversion between the ledger's currency and US cents, valid until an instant.
#[derive(Clone, Copy, Debug, PartialEq, Eq, Structural)]
pub struct ExchangeRate {
    /// Hbars equivalent to `cents`.
    pub hbars: u32,
    /// US cents equivalent to `hbars`.
    pub cents: u32,
    /// When this rate stops applying.
    pub expiration_time: Timestamp,
}

/// The current and next exchange rates.
#[derive(Clone, Copy, Debug, PartialEq, Eq, Structural)]
pub struct ExchangeRates {
    pub current_rate: ExchangeRate,
    pub next_rate: ExchangeRate,
}

/// A timestamp as the wire message carries it.
#[derive(Clone, Copy, Debug, PartialEq, Eq, Structural)]
pub struct WireTimestamp {
    pub seconds: i64,
    pub nanos: i32,
}

/// The wire fields of one rate: hbar and cent equivalents, and the expiration, if present.
#[derive(Clone, Copy, Debug, PartialEq, Eq, Structural)]
pub struct WireExchangeRate {
    pub hbar_equiv: i32,
    pub cent_equiv: i32,
    pub expiration_time: Option<WireTimestamp>,
}

/// The rate a well-formed wire rate reads as.
pub open spec fn rate_of(w: WireExchangeRate) -> ExchangeRate {
    ExchangeRate {
        hbars: w.hbar_equiv as u32,
        cents: w.cent_equiv as u32,
        expiration_time: Timestamp { seconds: w.expiration_time.unwrap().seconds, nanos: w.expiration_time.unwrap().nanos as u32 },
    }
}

/// A wire rate carries an expiration whose nanoseconds lie within a second.
pub open spec fn wire_rate_ok(w: WireExchangeRate) -> bool {
    w.expiration_time.is_some() && 0 <= w.expiration_time.unwrap().nanos < 1_000_000_000
}

impl ExchangeRate {
    /// A rate is well formed when its expiration's nanoseconds stay below one second;
    /// every rate read from the wire is, and only such a rate survives the wire round trip.
    pub open spec fn wf(self) -> bool {
        self.expiration_time.wf()
    }

    /// Reads a rate from its wire fields; fails with `FromProtobuf` when the expiration
    /// is missing or its nanoseconds are out of range.
    pub fn from_wire(w: WireExchangeRate) -> (r: Result<ExchangeRate, Error>)
        ensures
            r.is_ok() <==> wire_rate_ok(w),
            r.is_ok() ==> r.unwrap() == rate_of(w) && r.unwrap().wf(),
            !wire_rate_ok(w) ==> r.unwrap_err() is FromProtobuf,
    {
        match w.expiration_time {
            None => Err(Error::FromProtobuf("missing field `expiration_time`".to_owned())),
            Some(WireTimestamp { seconds, nanos }) => {
                if nanos < 0 || nanos >= NANOS_PER_SECOND as i32 {
                    Err(Error::FromProtobuf("timestamp nanoseconds out of range".to_owned()))
                } else {
                    Ok(ExchangeRate {
                        hbars: w.hbar_equiv as u32,
                        cents: w.cent_equiv as u32,
                        expiration_time: Timestamp { seconds, nanos: nanos as u32 },
                    })
                }
            },
        }
    }

    /// The wire fields of this rate.
    pub fn to_wire(&self) -> (r: WireExchangeRate)
        ensures
            r == (WireExchangeRate {
                hbar_equiv: self.hbars as i32,
                cent_equiv: self.cents as i32,
                expiration_time: Some(WireTimestamp { seconds: self.expiration_time.seconds, nanos: self.expiration_time.nanos as i32 }),
            }),
    {
        WireExchangeRate {
            hbar_equiv: self.hbars as i32,
            cent_equiv: self.cents as i32,
            expiration_time: Some(WireTimestamp { seconds: self.expiration_time.seconds, nanos: self.expiration_time.nanos as i32 }),
        }
    }
}

impl ExchangeRates {
    /// Reads both rates from their wire fields; fails with `FromProtobuf` when either is
    /// missing or malformed.
    pub fn from_wire(current: Option<WireExchangeRate>, next: Option<WireExchangeRate>) -> (r: Result<ExchangeRates, Error>)
        ensures
            r.is_ok() <==> current.is_some() && next.is_some() && wire_rate_ok(current.unwrap())
                && wire_rate_ok(next.unwrap()),
            r.is_ok() ==> r.unwrap() == (ExchangeRates {
                current_rate: rate_of(current.unwrap()),
                next_rate: rate_of(next.unwrap()),
            }),
            r.is_ok() ==> r.unwrap().current_rate.wf() && r.unwrap().next_rate.wf(),
            r.is_err() ==> r.unwrap_err() is FromProtobuf,
    {
        let current = match current {
            Some(c) => c,
            None => {
                return Err(Error::FromProtobuf("missing field `current_rate`".to_owned()));
            },
        };
        let next = match next {
            Some(n) => n,
            None => {
                return Err(Error::FromProtobuf("missing field `next_rate`".to_owned()));
            },
        };
        let current_rate = match ExchangeRate::from_wire(current) {
            Ok(rate) => rate,
            Err(e) => {
                return Err(e);
            },
        };
        let next_rate = match ExchangeRate::from_wire(next) {
            Ok(rate) => rate,
            Err(e) => {
                return Err(e);
            },
        };
        Ok(ExchangeRates { current_rate, next_rate })
    }

    /// The wire fields of both rates.
    pub fn to_wire(&self) -> (r: (WireExchangeRate, WireExchangeRate))
        ensures
            r.0 == self.current_rate.to_wire_spec(),
            r.1 == self.next_rate.to_wire_spec(),
    {
        (self.current_rate.to_wire(), self.next_rate.to_wire())
    }
}

impl ExchangeRate {
    pub open spec fn to_wire_spec(self) -> WireExchangeRate {
        WireExchangeRate {
            hbar_equiv: self.hbars as i32,
            cent_equiv: self.cents as i32,
            expiration_time: Some(WireTimestamp { seconds: self.expiration_time.seconds, nanos: self.expiration_time.nanos as i32 }),
        }
    }
}

/// Reading back the wire fields of a well-formed rate gives the rate itself.
pub proof fn lemma_rate_round_trip(rate: ExchangeRate)
    requires
        rate.wf(),
    ensures
        wire_rate_ok(rate.to_wire_spec()),
        rate_of(rate.to_wire_spec()) == rate,
{
    let (h, c) = (rate.hbars, rate.cents);
    assert((h as i32) as u32 == h) by (bit_vector);
    assert((c as i32) as u32 == c) by (bit_vector);
    let n = rate.expiration_time.nanos;
    assert((n as i32) as u32 == n) by (bit_vector);
}

} // verus!
