//! Address-book peers: the stored records (the `peer` table) and the
//! request and response bodies of the address-book endpoints.

use vstd::prelude::*;

use crate::clock::LocalTime;

verus! {

/// A peer as the address-book endpoints exchange it.
#[derive(Debug)]
pub struct Peer {
    pub id: String,
    pub uuid: String,
    pub user: String,
    pub hostname: String,
    pub alias: String,
    pub platform: String,
    pub tags: Vec<String>,
}

impl Default for Peer {
    fn default() -> (r: Self)
        ensures
            r.id@ == Seq::<char>::empty(),
            r.uuid@ == Seq::<char>::empty(),
            r.user@ == Seq::<char>::empty(),
            r.hostname@ == Seq::<char>::empty(),
            r.alias@ == Seq::<char>::empty(),
            r.platform@ == Seq::<char>::empty(),
            r.tags@ == Seq::<String>::empty(),
    {
        Peer {
            id: String::new(),
            uuid: String::new(),
            user: String::new(),
            hostname: String::new(),
            alias: String::new(),
            platform: String::new(),
            tags: Vec::new(),
        }
    }
}

/// The address book sent back to a client.
#[derive(Debug)]
pub struct AbResponseData {
    pub tags: Vec<String>,
    pub peers: Vec<Peer>,
}

impl Default for AbResponseData {
    fn default() -> (r: Self)
        ensures
            r.tags@ == Seq::<String>::empty(),
            r.peers@ == Seq::<Peer>::empty(),
    {
        AbResponseData { tags: Vec::new(), peers: Vec::new() }
    }
}

/// Answer to an address-book read.
#[derive(Debug)]
pub struct AbResponse {
    pub data: AbResponseData,
    pub updated_at: String,
}

impl Default for AbResponse {
    fn default() -> (r: Self)
        ensures
            r.data.tags@ == Seq::<String>::empty(),
            r.data.peers@ == Seq::<Peer>::empty(),
            r.updated_at@ == Seq::<char>::empty(),
    {
        AbResponse { data: AbResponseData::default(), updated_at: String::new() }
    }
}

/// The address book a client uploads.
#[derive(Debug)]
pub struct AbRequestData {
    pub tags: Vec<String>,
    pub peers: Vec<Peer>,
}

impl Default for AbRequestData {
    fn default() -> (r: Self)
        ensures
            r.tags@ == Seq::<String>::empty(),
            r.peers@ == Seq::<Peer>::empty(),
    {
        AbRequestData { tags: Vec::new(), peers: Vec::new() }
    }
}

/// Body of an address-book upload.
#[derive(Debug)]
pub struct AbRequest {
    pub data: AbRequestData,
}

impl Default for AbRequest {
    fn default() -> (r: Self)
        ensures
            r.data.tags@ == Seq::<String>::empty(),
            r.data.peers@ == Seq::<Peer>::empty(),
    {
        AbRequest { data: AbRequestData::default() }
    }
}

/// A stored peer (the `peer` table). `tags` holds the peer's tags joined
/// with `;`; `created` is the instant the record was written.
#[derive(Clone, Debug, PartialEq)]
pub struct Model {
    pub id: String,
    pub uuid: String,
    pub user: String,
    pub alias: String,
    pub hostname: String,
    pub platform: String,
    pub tags: String,
    pub created: LocalTime,
}


} // verus!
