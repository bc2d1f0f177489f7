//! The publisher's command-line settings.

use vstd::prelude::*;
use lapin::types::FieldTable;
use crate::headers::{headers_of, parse_headers};
use crate::table::table_entries;
use crate::text::texts;

verus! {

/// The settings that a publisher is started with.
#[derive(Debug, PartialEq, Eq)]
pub struct Cli {
    /// Address of the broker.
    pub url: String,
    /// Exchange to publish to.
    pub exchange: String,
    /// The routing key, where one was given.
    pub routing_key: Option<String>,
    /// The header entries, each in the form `key=value`, where any were given.
    pub headers: Option<Vec<String>>,
}

impl Cli {
    /// The broker's address.
    pub fn url(&self) -> (out: String)
        ensures
            out@ == self.url@,
    {
        self.url.clone()
    }

    /// The exchange to publish to.
    pub fn exchange(&self) -> (out: String)
        ensures
            out@ == self.exchange@,
    {
        self.exchange.clone()
    }

    /// The routing key; the empty string where none was given.
    pub fn routing_key(&self) -> (out: String)
        ensures
            out@ == match self.routing_key {
                Some(key) => key@,
                None => Seq::<char>::empty(),
            },
    {
        match &self.routing_key {
            Some(key) => key.clone(),
            None => String::new(),
        }
    }

    /// The headers to attach to each message: none where no entries were
    /// given, which is not the same as an empty table.
    pub fn headers(&self) -> (out: Option<FieldTable>)
        ensures
            out is Some <==> self.headers is Some,
            out is Some ==> table_entries(out.unwrap()) == headers_of(
                texts(self.headers.unwrap()@),
            ),
    {
        match &self.headers {
            Some(entries) => Some(parse_headers(entries)),
            None => None,
        }
    }
}

} // verus!
