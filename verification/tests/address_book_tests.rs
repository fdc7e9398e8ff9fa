use backend::address_book::{ab_response, peer_from_model, peer_record, peer_records, tag_records};
use backend::api::acting_user;
use backend::clock::LocalTime;
use backend::peer::{self, Peer};
use backend::tag;

fn strings(v: &[&str]) -> Vec<String> {
    v.iter().map(|s| s.to_string()).collect()
}

fn a_peer(tags: &[&str]) -> Peer {
    Peer {
        id: "123456789".to_string(),
        uuid: "ignored".to_string(),
        user: "ignored".to_string(),
        hostname: "host".to_string(),
        alias: "my box".to_string(),
        platform: "Linux".to_string(),
        tags: strings(tags),
    }
}

#[test]
fn tags_become_records() {
    let r = tag_records("owner", &strings(&["a", "b"]));
    assert_eq!(
        r,
        vec![
            tag::Model { name: "a".to_string(), user: "owner".to_string() },
            tag::Model { name: "b".to_string(), user: "owner".to_string() },
        ]
    );
    assert!(tag_records("owner", &Vec::new()).is_empty());
}

#[test]
fn peer_becomes_record() {
    let m = peer_record("owner", &a_peer(&["x", "y"]), "rec".to_string(), LocalTime { secs: 42, nanos: 1 });
    assert_eq!(
        m,
        peer::Model {
            id: "123456789".to_string(),
            uuid: "rec".to_string(),
            user: "owner".to_string(),
            alias: "my box".to_string(),
            hostname: "host".to_string(),
            platform: "Linux".to_string(),
            tags: "x;y".to_string(),
            created: LocalTime { secs: 42, nanos: 1 },
        }
    );
}

#[test]
fn peer_records_get_fresh_ids() {
    let r = peer_records("owner", &vec![a_peer(&["x"]), a_peer(&[])]);
    assert_eq!(r.len(), 2);
    assert_ne!(r[0].uuid, r[1].uuid);
    assert_eq!(r[0].tags, "x");
    assert_eq!(r[1].tags, "");
    assert_eq!(r[1].user, "owner");
}

#[test]
fn record_reads_back_as_peer() {
    let p = peer_from_model(&peer_record("owner", &a_peer(&["x", "y z"]), "rec".to_string(), LocalTime { secs: 1, nanos: 1 }));
    assert_eq!(p.id, "123456789");
    assert_eq!(p.hostname, "host");
    assert_eq!(p.alias, "my box");
    assert_eq!(p.platform, "Linux");
    assert_eq!(p.tags, strings(&["x", "y z"]));
    assert_eq!(p.uuid, "");
    assert_eq!(p.user, "");
}

#[test]
fn peer_without_tags_reads_back_with_one_empty_tag() {
    let p = peer_from_model(&peer_record("owner", &a_peer(&[]), "rec".to_string(), LocalTime { secs: 1, nanos: 1 }));
    assert_eq!(p.tags, strings(&[""]));
}

#[test]
fn address_book_answer() {
    let tags = vec![
        tag::Model { name: "t1".to_string(), user: "o".to_string() },
        tag::Model { name: "t2".to_string(), user: "o".to_string() },
    ];
    let peers = vec![peer_record("o", &a_peer(&["t1"]), "r".to_string(), LocalTime { secs: 0, nanos: 0 })];
    let r = ab_response(&tags, &peers);
    assert_eq!(r.data.tags, strings(&["t1", "t2"]));
    assert_eq!(r.data.peers.len(), 1);
    assert_eq!(r.data.peers[0].tags, strings(&["t1"]));
    assert_eq!(r.updated_at, "2022-12-12 12:12:12");
    let empty = ab_response(&Vec::new(), &Vec::new());
    assert!(empty.data.tags.is_empty() && empty.data.peers.is_empty());
}

#[test]
fn acting_user_needs_account() {
    assert_eq!(acting_user(Some("u".to_string())), Ok("u".to_string()));
    assert_eq!(acting_user(None), Err("No User".to_string()));
}

#[test]
fn uploaded_book_reads_back() {
    let tags = strings(&["t1", "t2"]);
    let peers = vec![a_peer(&["t1"]), a_peer(&["t1", "t2"])];
    let tag_rows = tag_records("o", &tags);
    let peer_rows = peer_records("o", &peers);
    let r = ab_response(&tag_rows, &peer_rows);
    assert_eq!(r.data.tags, tags);
    assert_eq!(r.data.peers.len(), 2);
    for (q, p) in r.data.peers.iter().zip(peers.iter()) {
        assert_eq!((&q.id, &q.hostname, &q.platform, &q.alias, &q.tags), (&p.id, &p.hostname, &p.platform, &p.alias, &p.tags));
        assert_eq!((q.uuid.as_str(), q.user.as_str()), ("", ""));
    }
}

#[test]
fn repeated_upload_gives_same_records() {
    let peers = vec![a_peer(&["x"]), a_peer(&["y", "z"])];
    let a = peer_records("o", &peers);
    let b = peer_records("o", &peers);
    assert_eq!(a.len(), b.len());
    for (x, y) in a.iter().zip(b.iter()) {
        assert_eq!((&x.alias, &x.id, &x.hostname, &x.platform, &x.tags, &x.user), (&y.alias, &y.id, &y.hostname, &y.platform, &y.tags, &y.user));
    }
}

fn is_uuid_v4_text(s: &str) -> bool {
    let b = s.as_bytes();
    b.len() == 36
        && [8, 13, 18, 23].iter().all(|&i| b[i] == b'-')
        && b[14] == b'4'
        && matches!(b[19], b'8' | b'9' | b'a' | b'b')
        && (0..36).filter(|i| ![8, 13, 18, 23].contains(i)).all(|i| matches!(b[i], b'0'..=b'9' | b'a'..=b'f'))
}

#[test]
fn peer_records_get_v4_uuids() {
    for r in peer_records("o", &vec![a_peer(&["x"]), a_peer(&["y"]), a_peer(&[])]) {
        assert!(is_uuid_v4_text(&r.uuid), "{}", r.uuid);
    }
}

#[test]
fn book_read_back_in_another_order() {
    let tags = strings(&["t1", "t2", "t3"]);
    let peers = vec![a_peer(&["t1"]), a_peer(&["t2", "t3"])];
    let mut tag_rows = tag_records("o", &tags);
    let mut peer_rows = peer_records("o", &peers);
    tag_rows.reverse();
    peer_rows.reverse();
    let r = ab_response(&tag_rows, &peer_rows);
    assert_eq!(r.data.tags, strings(&["t3", "t2", "t1"]));
    assert_eq!(r.data.peers[0].tags, strings(&["t2", "t3"]));
    assert_eq!(r.data.peers[1].tags, strings(&["t1"]));
}
