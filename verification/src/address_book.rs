//! The address book: turning stored tags and peers into the answer of an
//! address-book read, and an uploaded address book into the records that
//! replace the stored ones. Peer tags are stored joined with `;` and read
//! back by splitting on `;`.

use vstd::prelude::*;

use crate::clock::LocalTime;
use crate::fresh::{new_uuid, now_local};
use crate::ids::is_uuid_v4_text;
use crate::peer::{self, AbResponse, AbResponseData, Peer};
use crate::tag;
use crate::text::{join, join_with, split, split_on, views};

verus! {

/// The separator between the tags of a stored peer.
pub const TAG_SEPARATOR: char = ';';

/// The `updated_at` stamp that every address-book answer carries.
pub open spec fn updated_at_stamp() -> Seq<char> {
    "2022-12-12 12:12:12"@
}

/// `p` is the peer read back from the stored record `m`: the same id,
/// hostname, platform and alias, the stored tags split on `;`, and no uuid
/// or owner.
pub open spec fn is_peer_of(p: Peer, m: peer::Model) -> bool {
    &&& p.id@ == m.id@
    &&& p.hostname@ == m.hostname@
    &&& p.platform@ == m.platform@
    &&& p.alias@ == m.alias@
    &&& views(p.tags@) == split(m.tags@, TAG_SEPARATOR)
    &&& p.uuid@ == Seq::<char>::empty()
    &&& p.user@ == Seq::<char>::empty()
}

/// `m` is the record that stores peer `p` for the account `owner`: the
/// peer's alias, id, hostname and platform, its tags joined with `;`, and
/// the owner. Its own uuid and creation instant are fresh values.
pub open spec fn is_record_of(m: peer::Model, owner: Seq<char>, p: Peer) -> bool {
    &&& m.alias@ == p.alias@
    &&& m.id@ == p.id@
    &&& m.hostname@ == p.hostname@
    &&& m.platform@ == p.platform@
    &&& m.tags@ == join(views(p.tags@), TAG_SEPARATOR)
    &&& m.user@ == owner
}

/// The names of the stored tags, in order.
pub open spec fn tag_names(tags: Seq<tag::Model>) -> Seq<Seq<char>> {
    tags.map_values(|t: tag::Model| t.name@)
}

/// `r` answers an address-book read of the stored tags `tags` and peers
/// `peers`: the tag names in order, one peer read back per record in
/// order, and the fixed stamp.
pub open spec fn is_ab_response_of(tags: Seq<tag::Model>, peers: Seq<peer::Model>, r: AbResponse) -> bool {
    &&& views(r.data.tags@) == tag_names(tags)
    &&& r.data.peers@.len() == peers.len()
    &&& forall|i: int| 0 <= i < peers.len() ==> is_peer_of(#[trigger] r.data.peers@[i], peers[i])
    &&& r.updated_at@ == updated_at_stamp()
}

/// `r` holds one tag record per tag of `tags`, in order, owned by `owner`.
pub open spec fn are_tag_records(owner: Seq<char>, tags: Seq<String>, r: Seq<tag::Model>) -> bool {
    &&& r.len() == tags.len()
    &&& forall|i: int|
        0 <= i < tags.len() ==> (#[trigger] r[i]).name@ == tags[i]@ && r[i].user@ == owner
}

/// `r` holds one record per peer of `peers`, in order, owned by `owner`.
pub open spec fn are_peer_records(owner: Seq<char>, peers: Seq<Peer>, r: Seq<peer::Model>) -> bool {
    &&& r.len() == peers.len()
    &&& forall|i: int| 0 <= i < peers.len() ==> is_record_of(#[trigger] r[i], owner, peers[i])
}

/// The peer has at least one tag and no tag holds `;`.
pub open spec fn has_plain_tags(p: Peer) -> bool {
    &&& p.tags@.len() >= 1
    &&& forall|i: int| 0 <= i < p.tags@.len() ==> !(#[trigger] p.tags@[i])@.contains(TAG_SEPARATOR)
}

/// The peer that a stored record reads back as.
pub fn peer_from_model(m: &peer::Model) -> (p: Peer)
    ensures
        is_peer_of(p, *m),
{
    let d = Peer::default();
    Peer {
        id: m.id.clone(),
        hostname: m.hostname.clone(),
        platform: m.platform.clone(),
        alias: m.alias.clone(),
        tags: split_on(m.tags.as_str(), TAG_SEPARATOR),
        uuid: d.uuid,
        user: d.user,
    }
}

/// The answer to an address-book read of an account whose stored tags are
/// `tags` and whose stored peers are `peers`.
pub fn ab_response(tags: &Vec<tag::Model>, peers: &Vec<peer::Model>) -> (r: AbResponse)
    ensures
        is_ab_response_of(tags@, peers@, r),
{
    let mut names: Vec<String> = Vec::new();
    let mut i: usize = 0;
    while i < tags.len()
        invariant
            i <= tags@.len(),
            views(names@) == tag_names(tags@).take(i as int),
        decreases tags.len() - i,
    {
        let ghost before = views(names@);
        names.push(tags[i].name.clone());
        assert(views(names@) =~= before.push(tags@[i as int].name@));
        assert(tag_names(tags@).take(i as int + 1) =~= tag_names(tags@).take(i as int).push(
            tags@[i as int].name@,
        ));
        i = i + 1;
    }
    assert(tag_names(tags@).take(tags@.len() as int) =~= tag_names(tags@));
    let mut out: Vec<Peer> = Vec::new();
    let mut j: usize = 0;
    while j < peers.len()
        invariant
            j <= peers@.len(),
            out@.len() == j,
            forall|k: int| 0 <= k < j ==> is_peer_of(#[trigger] out@[k], peers@[k]),
        decreases peers.len() - j,
    {
        let p = peer_from_model(&peers[j]);
        out.push(p);
        j = j + 1;
    }
    let stamp = "2022-12-12 12:12:12";
    proof {
        reveal_strlit("2022-12-12 12:12:12");
    }
    AbResponse {
        data: AbResponseData { tags: names, peers: out },
        updated_at: String::from_str(stamp),
    }
}

/// The tag records that replace the stored tags of account `owner`: one
/// per uploaded tag, in order.
pub fn tag_records(owner: &str, tags: &Vec<String>) -> (r: Vec<tag::Model>)
    ensures
        are_tag_records(owner@, tags@, r@),
{
    let mut out: Vec<tag::Model> = Vec::new();
    let mut i: usize = 0;
    while i < tags.len()
        invariant
            i <= tags@.len(),
            out@.len() == i,
            forall|k: int|
                0 <= k < i ==> (#[trigger] out@[k]).name@ == tags@[k]@ && out@[k].user@
                    == owner@,
        decreases tags.len() - i,
    {
        out.push(tag::Model { name: tags[i].clone(), user: String::from_str(owner) });
        i = i + 1;
    }
    out
}

/// The record that stores peer `p` for account `owner`, with record
/// identifier `uuid` and creation instant `created`.
pub fn peer_record(owner: &str, p: &Peer, uuid: String, created: LocalTime) -> (m: peer::Model)
    ensures
        is_record_of(m, owner@, *p),
        m.uuid == uuid,
        m.created == created,
{
    peer::Model {
        alias: p.alias.clone(),
        id: p.id.clone(),
        hostname: p.hostname.clone(),
        platform: p.platform.clone(),
        tags: join_with(&p.tags, TAG_SEPARATOR),
        user: String::from_str(owner),
        created,
        uuid,
    }
}

/// The peer records that replace the stored peers of account `owner`: one
/// per uploaded peer, in order, each with a fresh random identifier and
/// the current local time.
pub fn peer_records(owner: &str, peers: &Vec<Peer>) -> (r: Vec<peer::Model>)
    ensures
        are_peer_records(owner@, peers@, r@),
        forall|i: int| 0 <= i < peers@.len() ==> is_uuid_v4_text((#[trigger] r@[i]).uuid@),
{
    let mut out: Vec<peer::Model> = Vec::new();
    let mut i: usize = 0;
    while i < peers.len()
        invariant
            i <= peers@.len(),
            out@.len() == i,
            forall|k: int| 0 <= k < i ==> is_record_of(#[trigger] out@[k], owner@, peers@[k]),
            forall|k: int| 0 <= k < i ==> is_uuid_v4_text((#[trigger] out@[k]).uuid@),
        decreases peers.len() - i,
    {
        let created = now_local();
        let uuid = new_uuid();
        out.push(peer_record(owner, &peers[i], uuid, created));
        i = i + 1;
    }
    out
}

/// A peer stored and read back keeps its id, hostname, platform, alias and
/// tags, provided it has at least one tag and no tag holds `;`. (A peer
/// with no tags reads back with the single tag "".)
pub proof fn lemma_stored_peer_reads_back(owner: Seq<char>, p: Peer, m: peer::Model, q: Peer)
    requires
        is_record_of(m, owner, p),
        is_peer_of(q, m),
        has_plain_tags(p),
    ensures
        q.id@ == p.id@,
        q.hostname@ == p.hostname@,
        q.platform@ == p.platform@,
        q.alias@ == p.alias@,
        views(q.tags@) == views(p.tags@),
{
    let parts = views(p.tags@);
    assert forall|i: int| 0 <= i < parts.len() implies !(#[trigger] parts[i]).contains(
        TAG_SEPARATOR,
    ) by {
        assert(parts[i] == p.tags@[i]@);
    }
    crate::text::lemma_split_join(parts, TAG_SEPARATOR);
}

/// An uploaded address book, stored and read back (with the database
/// handing back the rows it was given, in the order they were written),
/// answers with the uploaded tags and, for each uploaded peer, its id,
/// hostname, platform, alias and tags, without uuid or owner; this holds
/// when every peer has at least one tag and no tag holds `;`.
pub proof fn lemma_address_book_round_trip(
    owner: Seq<char>,
    tags: Seq<String>,
    peers: Seq<Peer>,
    tag_rows: Seq<tag::Model>,
    peer_rows: Seq<peer::Model>,
    r: AbResponse,
)
    requires
        are_tag_records(owner, tags, tag_rows),
        are_peer_records(owner, peers, peer_rows),
        is_ab_response_of(tag_rows, peer_rows, r),
        forall|i: int| 0 <= i < peers.len() ==> has_plain_tags(#[trigger] peers[i]),
    ensures
        views(r.data.tags@) == views(tags),
        r.data.peers@.len() == peers.len(),
        forall|i: int|
            0 <= i < peers.len() ==> {
                let q = #[trigger] r.data.peers@[i];
                &&& q.id@ == peers[i].id@
                &&& q.hostname@ == peers[i].hostname@
                &&& q.platform@ == peers[i].platform@
                &&& q.alias@ == peers[i].alias@
                &&& views(q.tags@) == views(peers[i].tags@)
                &&& q.uuid@ == Seq::<char>::empty()
                &&& q.user@ == Seq::<char>::empty()
            },
{
    assert(views(r.data.tags@) =~= views(tags));
    assert forall|i: int| 0 <= i < peers.len() implies {
        let q = #[trigger] r.data.peers@[i];
        &&& q.id@ == peers[i].id@
        &&& q.hostname@ == peers[i].hostname@
        &&& q.platform@ == peers[i].platform@
        &&& q.alias@ == peers[i].alias@
        &&& views(q.tags@) == views(peers[i].tags@)
        &&& q.uuid@ == Seq::<char>::empty()
        &&& q.user@ == Seq::<char>::empty()
    } by {
        assert(is_record_of(peer_rows[i], owner, peers[i]));
        assert(is_peer_of(r.data.peers@[i], peer_rows[i]));
        assert(has_plain_tags(peers[i]));
        lemma_stored_peer_reads_back(owner, peers[i], peer_rows[i], r.data.peers@[i]);
    }
}

/// Storing the same peers twice gives the same records, apart from each
/// record's fresh uuid and creation time: an upload replaces the stored
/// peers with the same content however often it is repeated.
pub proof fn lemma_peer_records_agree(
    owner: Seq<char>,
    peers: Seq<Peer>,
    a: Seq<peer::Model>,
    b: Seq<peer::Model>,
)
    requires
        are_peer_records(owner, peers, a),
        are_peer_records(owner, peers, b),
    ensures
        a.len() == b.len(),
        forall|i: int|
            0 <= i < a.len() ==> {
                &&& (#[trigger] a[i]).alias@ == b[i].alias@
                &&& a[i].id@ == b[i].id@
                &&& a[i].hostname@ == b[i].hostname@
                &&& a[i].platform@ == b[i].platform@
                &&& a[i].tags@ == b[i].tags@
                &&& a[i].user@ == b[i].user@
            },
{
    assert forall|i: int| 0 <= i < a.len() implies {
        &&& (#[trigger] a[i]).alias@ == b[i].alias@
        &&& a[i].id@ == b[i].id@
        &&& a[i].hostname@ == b[i].hostname@
        &&& a[i].platform@ == b[i].platform@
        &&& a[i].tags@ == b[i].tags@
        &&& a[i].user@ == b[i].user@
    } by {
        assert(is_record_of(a[i], owner, peers[i]));
        assert(is_record_of(b[i], owner, peers[i]));
    }
}

/// `perm` lists each index below `n` exactly once.
pub open spec fn is_permutation(perm: Seq<int>, n: nat) -> bool {
    &&& perm.len() == n
    &&& forall|i: int| 0 <= i < n ==> 0 <= #[trigger] perm[i] < n
    &&& forall|i: int, j: int| 0 <= i < j < n ==> perm[i] != perm[j]
}

/// `b` holds the items of `a` in another order: `b[i]` is `a[perm[i]]`.
pub open spec fn is_reordering<T>(b: Seq<T>, a: Seq<T>, perm: Seq<int>) -> bool {
    &&& is_permutation(perm, a.len())
    &&& b.len() == a.len()
    &&& forall|i: int| 0 <= i < b.len() ==> #[trigger] b[i] == a[perm[i]]
}

/// An uploaded address book, stored and read back with the database
/// handing back the rows it was given in any order, answers with the
/// uploaded tags in that order and, for each uploaded peer in that order,
/// its id, hostname, platform, alias and tags, without uuid or owner; this
/// holds when every peer has at least one tag and no tag holds `;`.
pub proof fn lemma_address_book_round_trip_any_order(
    owner: Seq<char>,
    tags: Seq<String>,
    peers: Seq<Peer>,
    tag_rows: Seq<tag::Model>,
    peer_rows: Seq<peer::Model>,
    tag_read: Seq<tag::Model>,
    peer_read: Seq<peer::Model>,
    tag_order: Seq<int>,
    peer_order: Seq<int>,
    r: AbResponse,
)
    requires
        are_tag_records(owner, tags, tag_rows),
        are_peer_records(owner, peers, peer_rows),
        is_reordering(tag_read, tag_rows, tag_order),
        is_reordering(peer_read, peer_rows, peer_order),
        is_ab_response_of(tag_read, peer_read, r),
        forall|i: int| 0 <= i < peers.len() ==> has_plain_tags(#[trigger] peers[i]),
    ensures
        is_permutation(tag_order, tags.len()),
        r.data.tags@.len() == tags.len(),
        forall|i: int| 0 <= i < tags.len() ==> (#[trigger] r.data.tags@[i])@ == tags[tag_order[i]]@,
        is_permutation(peer_order, peers.len()),
        r.data.peers@.len() == peers.len(),
        forall|i: int|
            0 <= i < peers.len() ==> {
                let q = #[trigger] r.data.peers@[i];
                let p = peers[peer_order[i]];
                &&& q.id@ == p.id@
                &&& q.hostname@ == p.hostname@
                &&& q.platform@ == p.platform@
                &&& q.alias@ == p.alias@
                &&& views(q.tags@) == views(p.tags@)
                &&& q.uuid@ == Seq::<char>::empty()
                &&& q.user@ == Seq::<char>::empty()
            },
{
    assert(r.data.tags@.len() == views(r.data.tags@).len());
    assert forall|i: int| 0 <= i < tags.len() implies (#[trigger] r.data.tags@[i])@
        == tags[tag_order[i]]@ by {
        assert(views(r.data.tags@)[i] == r.data.tags@[i]@);
        assert(tag_names(tag_read)[i] == tag_read[i].name@);
        assert(tag_read[i] == tag_rows[tag_order[i]]);
        let k = tag_order[i];
        assert(0 <= k < tags.len());
        assert(tag_rows[k].name@ == tags[k]@);
    }
    assert forall|i: int| 0 <= i < peers.len() implies {
        let q = #[trigger] r.data.peers@[i];
        let p = peers[peer_order[i]];
        &&& q.id@ == p.id@
        &&& q.hostname@ == p.hostname@
        &&& q.platform@ == p.platform@
        &&& q.alias@ == p.alias@
        &&& views(q.tags@) == views(p.tags@)
        &&& q.uuid@ == Seq::<char>::empty()
        &&& q.user@ == Seq::<char>::empty()
    } by {
        let k = peer_order[i];
        assert(0 <= k < peers.len());
        assert(peer_read[i] == peer_rows[k]);
        assert(is_record_of(peer_rows[k], owner, peers[k]));
        assert(is_peer_of(r.data.peers@[i], peer_read[i]));
        assert(has_plain_tags(peers[k]));
        lemma_stored_peer_reads_back(owner, peers[k], peer_rows[k], r.data.peers@[i]);
    }
}

} // verus!
