//! The geolocation and currency endpoints.

use crate::ipv4::{is_ipv4, is_ipv4_text};
use crate::request::{bare_request, text_param, Method, Param, PreparedRequest, RequestView};
use crate::violation::Violation;
use vstd::prelude::*;

verus! {

/// Request for what is known of the address `ip`.
pub open spec fn geoip_request(ip: Seq<char>) -> RequestView {
    bare_request(Method::Get, "/kumo/geoip"@).query(text_param("ip"@, ip))
}

/// Request that converts the amount written as `value` from the currency
/// `from` to the currency `to`.
pub open spec fn currency_request(value: Seq<char>, from: Seq<char>, to: Seq<char>) -> RequestView {
    bare_request(Method::Get, "/kumo/currency"@).query(text_param("from"@, from)).query(
        text_param("to"@, to),
    ).query(text_param("value"@, value))
}

/// The geolocation and currency endpoints.
#[derive(Clone, Copy, Debug)]
pub struct Kumo {}

impl Kumo {
    /// The group of the geolocation and currency endpoints.
    pub fn new() -> (kumo: Kumo) {
        Kumo {  }
    }

    /// Gets what is known of an IPv4 address.
    pub fn geoip(&self, ip: &str) -> (r: PreparedRequest)
        requires
            is_ipv4(ip@),
        ensures
            r@ == geoip_request(ip@),
    {
        PreparedRequest::get("/kumo/geoip").query(Param::text("ip", ip))
    }

    /// Gets what is known of an address, unless `ip` does not write an
    /// IPv4 address.
    pub fn try_geoip(&self, ip: &str) -> (r: Result<PreparedRequest, Violation>)
        ensures
            !is_ipv4(ip@) ==> r == Err::<PreparedRequest, _>(Violation::InvalidIp),
            is_ipv4(ip@) ==> r is Ok && r.unwrap()@ == geoip_request(ip@),
    {
        if is_ipv4_text(ip) {
            Ok(self.geoip(ip))
        } else {
            Err(Violation::InvalidIp)
        }
    }

    /// Converts an amount between currencies. `value` is the amount as it
    /// is written in the query.
    pub fn convert_currency(&self, value: &str, from: &str, to: &str) -> (r: PreparedRequest)
        ensures
            r@ == currency_request(value@, from@, to@),
    {
        PreparedRequest::get("/kumo/currency").query(Param::text("from", from)).query(
            Param::text("to", to),
        ).query(Param::text("value", value))
    }
}

} // verus!
